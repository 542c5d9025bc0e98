//! The outbound call that a dispatch prepares, the reply a transport gives,
//! and the text that a dispatch hands back.

use vstd::prelude::*;
use vstd::string::*;
use crate::errors::{AppResult, Error, ErrorView};
use crate::method::{method_of, Method};
use crate::payload::{decode_body, decoded, Decoded, Payload};

verus! {

/// The value of the `User-Agent` header of every outbound call.
pub const USER_AGENT: &'static str = "Lumin";

/// One HTTP call, ready for the transport.
#[derive(Debug, PartialEq)]
pub enum HttpRequest {
    /// `GET url`; carries no body.
    Get { url: String, user_agent: String },
    /// `POST url` with `payload` as its JSON body; no payload is sent as
    /// JSON `null`.
    Post { url: String, user_agent: String, payload: Payload },
}

/// Mathematical model of an [`HttpRequest`].
pub ghost enum HttpRequestView {
    Get { url: Seq<char>, user_agent: Seq<char> },
    Post { url: Seq<char>, user_agent: Seq<char>, payload: Payload },
}

impl View for HttpRequest {
    type V = HttpRequestView;

    open spec fn view(&self) -> HttpRequestView {
        match self {
            HttpRequest::Get { url, user_agent } => HttpRequestView::Get {
                url: url@,
                user_agent: user_agent@,
            },
            HttpRequest::Post { url, user_agent, payload } => HttpRequestView::Post {
                url: url@,
                user_agent: user_agent@,
                payload: *payload,
            },
        }
    }
}

impl HttpRequestView {
    /// The target URL of the call.
    pub open spec fn url(self) -> Seq<char> {
        match self {
            HttpRequestView::Get { url, user_agent } => url,
            HttpRequestView::Post { url, user_agent, payload } => url,
        }
    }
}

/// A call to make, with the note that the configured body was not JSON and
/// was discarded.
#[derive(Debug, PartialEq)]
pub struct Prepared {
    pub request: HttpRequest,
    pub body_malformed: bool,
}

/// Mathematical model of a [`Prepared`] call.
pub ghost struct PreparedView {
    pub request: HttpRequestView,
    pub body_malformed: bool,
}

impl View for Prepared {
    type V = PreparedView;

    open spec fn view(&self) -> PreparedView {
        PreparedView { request: self.request@, body_malformed: self.body_malformed }
    }
}

/// What the transport reports of one call.
#[derive(Debug, PartialEq, Eq)]
pub enum Reply {
    /// The exchange completed: the status line's code and the whole body.
    Response { status: u16, body: String },
    /// The exchange did not complete; holds the transport's description.
    Failure(String),
}

/// Mathematical model of a [`Reply`].
pub ghost enum ReplyView {
    Response { status: u16, body: Seq<char> },
    Failure(Seq<char>),
}

impl View for Reply {
    type V = ReplyView;

    open spec fn view(&self) -> ReplyView {
        match self {
            Reply::Response { status, body } => ReplyView::Response { status: *status, body: body@ },
            Reply::Failure(m) => ReplyView::Failure(m@),
        }
    }
}

/// The call for a target URL, a method and a decoded body.
///
/// A `GET` carries no body. A `POST` carries the decoded payload. Where the
/// method name spelled no method there is no call, whatever the body held.
pub open spec fn assembled(url: Seq<char>, method: Option<Method>, decoded: Decoded) -> Result<
    PreparedView,
    ErrorView,
> {
    match method {
        Some(Method::Get) => Ok(
            PreparedView {
                request: HttpRequestView::Get { url, user_agent: USER_AGENT@ },
                body_malformed: decoded.malformed,
            },
        ),
        Some(Method::Post) => Ok(
            PreparedView {
                request: HttpRequestView::Post {
                    url,
                    user_agent: USER_AGENT@,
                    payload: decoded.payload,
                },
                body_malformed: decoded.malformed,
            },
        ),
        None => Err(ErrorView::InvalidMethod),
    }
}

/// The call that a target URL, a method name and a body text ask for.
pub open spec fn planned(url: Seq<char>, method: Seq<char>, body: Seq<char>) -> Result<
    PreparedView,
    ErrorView,
> {
    assembled(url, method_of(method), decoded(body))
}

/// How a reply is classified: every completed exchange is a success,
/// whatever its status code.
pub open spec fn received(reply: ReplyView) -> Result<Seq<char>, ErrorView> {
    match reply {
        ReplyView::Response { status, body } => Ok(body),
        ReplyView::Failure(m) => Err(ErrorView::TransportFailure(m)),
    }
}

/// The text handed back for an outcome: the response, or the error as text.
pub open spec fn response_text(outcome: Result<Seq<char>, ErrorView>) -> Seq<char> {
    match outcome {
        Ok(text) => text,
        Err(e) => e.text(),
    }
}

/// The model of an outcome.
pub open spec fn outcome_view(outcome: AppResult<String>) -> Result<Seq<char>, ErrorView> {
    match outcome {
        Ok(text) => Ok(text@),
        Err(e) => Err(e@),
    }
}

/// The model of a prepared call or the error that stood in its way.
pub open spec fn prepared_view(prepared: AppResult<Prepared>) -> Result<PreparedView, ErrorView> {
    match prepared {
        Ok(p) => Ok(p@),
        Err(e) => Err(e@),
    }
}

/// Puts a call together from a target URL, a method and a decoded body.
pub fn assemble(url: &str, method: Option<Method>, decoded: Decoded) -> (prepared: AppResult<
    Prepared,
>)
    ensures
        prepared_view(prepared) == assembled(url@, method, decoded),
{
    match method {
        Some(Method::Get) => Ok(
            Prepared {
                request: HttpRequest::Get {
                    url: String::from_str(url),
                    user_agent: String::from_str(USER_AGENT),
                },
                body_malformed: decoded.malformed,
            },
        ),
        Some(Method::Post) => Ok(
            Prepared {
                request: HttpRequest::Post {
                    url: String::from_str(url),
                    user_agent: String::from_str(USER_AGENT),
                    payload: decoded.payload,
                },
                body_malformed: decoded.malformed,
            },
        ),
        None => Err(Error::InvalidMethod),
    }
}

/// Prepares the call for a target URL, a method name and a body text. The
/// body is decoded whatever the method; the method name then decides.
pub fn prepare(url: &str, method: &str, body: &str) -> (prepared: AppResult<Prepared>)
    ensures
        prepared_view(prepared) == planned(url@, method@, body@),
{
    let decoded = decode_body(body);
    assemble(url, Method::parse(method), decoded)
}

/// Classifies what the transport reported.
pub fn receive(reply: Reply) -> (outcome: AppResult<String>)
    ensures
        outcome_view(outcome) == received(reply@),
{
    match reply {
        Reply::Response { status, body } => Ok(body),
        Reply::Failure(m) => Err(Error::TransportFailure(m)),
    }
}

/// The text handed back for an outcome. An error is not passed on: it is
/// handed back as its text.
pub fn response_message(outcome: AppResult<String>) -> (text: String)
    ensures
        text@ == response_text(outcome_view(outcome)),
{
    match outcome {
        Ok(text) => text,
        Err(e) => e.message(),
    }
}

/// The text handed back once the transport has reported.
pub fn finish(reply: Reply) -> (text: String)
    ensures
        text@ == response_text(received(reply@)),
{
    response_message(receive(reply))
}

} // verus!
