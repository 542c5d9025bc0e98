//! The request client: the configuration of the next call, and the dispatch
//! that turns a host's request into one outbound call.

use vstd::prelude::*;
use vstd::string::*;
use crate::errors::AppResult;
use crate::request::{planned, prepare, prepared_view, Prepared, PreparedView};

verus! {

/// Holds the three parameters of the next call: its target URL, its method
/// name and its body text. Nothing is validated when a parameter is set; a
/// method name that cannot be dispatched is reported by
/// [`RESTClient::request`].
#[derive(Debug)]
pub struct RESTClient {
    base_url: String,
    method: String,
    body: String,
}

/// Mathematical model of a [`RESTClient`]: the configured triple.
pub ghost struct ConfigView {
    pub base_url: Seq<char>,
    pub method: Seq<char>,
    pub body: Seq<char>,
}

impl View for RESTClient {
    type V = ConfigView;

    closed spec fn view(&self) -> ConfigView {
        ConfigView { base_url: self.base_url@, method: self.method@, body: self.body@ }
    }
}

/// What a dispatch asks of the host next.
#[derive(Debug, PartialEq)]
pub enum Step {
    /// Make this call and pass the transport's reply to
    /// [`finish`](crate::request::finish).
    Send(Prepared),
    /// No call is to be made; this text is the result of the dispatch.
    Done(String),
}

/// Mathematical model of a [`Step`].
pub ghost enum StepView {
    Send(PreparedView),
    Done(Seq<char>),
}

impl View for Step {
    type V = StepView;

    open spec fn view(&self) -> StepView {
        match self {
            Step::Send(p) => StepView::Send(p@),
            Step::Done(text) => StepView::Done(text@),
        }
    }
}

/// The given text, or the empty text where there is none.
pub open spec fn text_or_empty(text: Option<String>) -> Seq<char> {
    match text {
        Some(t) => t@,
        None => Seq::empty(),
    }
}

/// The configuration after a dispatch for the given inputs has been set up:
/// the target URL is the device address followed by the endpoint, with
/// nothing put between them.
pub open spec fn configured(
    endpoint: Seq<char>,
    device_name: Seq<char>,
    method: Seq<char>,
    body: Seq<char>,
) -> ConfigView {
    ConfigView { base_url: device_name + endpoint, method, body }
}

/// The step that a configuration leads to: the call it asks for, or, where
/// it asks for none, the error as text.
pub open spec fn first_step(config: ConfigView) -> StepView {
    match planned(config.base_url, config.method, config.body) {
        Ok(p) => StepView::Send(p),
        Err(e) => StepView::Done(e.text()),
    }
}

impl RESTClient {
    /// A client for the given target URL and method name, each empty where
    /// none is given, with an empty body.
    pub fn new(base_url: Option<String>, method: Option<String>) -> (client: Self)
        ensures
            client@ == (ConfigView {
                base_url: text_or_empty(base_url),
                method: text_or_empty(method),
                body: Seq::empty(),
            }),
    {
        let base_url = match base_url {
            Some(t) => t,
            None => String::new(),
        };
        let method = match method {
            Some(t) => t,
            None => String::new(),
        };
        RESTClient { base_url, method, body: String::new() }
    }

    /// Sets the target URL of the next call.
    pub fn set_base_url(&mut self, base_url: String)
        ensures
            final(self)@ == (ConfigView { base_url: base_url@, ..old(self)@ }),
    {
        self.base_url = base_url;
    }

    /// Sets the method name of the next call.
    pub fn set_method(&mut self, method: String)
        ensures
            final(self)@ == (ConfigView { method: method@, ..old(self)@ }),
    {
        self.method = method;
    }

    /// Sets the body text of the next call.
    pub fn set_body(&mut self, body: String)
        ensures
            final(self)@ == (ConfigView { body: body@, ..old(self)@ }),
    {
        self.body = body;
    }

    /// The target URL of the next call.
    pub fn get_base_url(&self) -> (base_url: String)
        ensures
            base_url@ == self@.base_url,
    {
        self.base_url.clone()
    }

    /// The method name of the next call.
    pub fn get_method(&self) -> (method: String)
        ensures
            method@ == self@.method,
    {
        self.method.clone()
    }

    /// The body text of the next call.
    pub fn get_body(&self) -> (body: String)
        ensures
            body@ == self@.body,
    {
        self.body.clone()
    }

    /// Prepares the call that the configuration asks for. The body is
    /// decoded first; then the method name decides: `GET` and `POST` give a
    /// call, any other name gives [`Error::InvalidMethod`](crate::errors::Error)
    /// and no call.
    pub fn request(&self) -> (prepared: AppResult<Prepared>)
        ensures
            prepared_view(prepared) == planned(self@.base_url, self@.method, self@.body),
    {
        prepare(self.base_url.as_str(), self.method.as_str(), self.body.as_str())
    }

    /// Starts a dispatch: composes the target URL, stores the three
    /// parameters, and says what the host is to do next. The step depends on
    /// the four inputs alone, not on what was configured before.
    pub fn run_rest_client(
        &mut self,
        endpoint: String,
        device_name: String,
        method: String,
        body: String,
    ) -> (step: Step)
        ensures
            final(self)@ == configured(endpoint@, device_name@, method@, body@),
            step@ == first_step(configured(endpoint@, device_name@, method@, body@)),
    {
        let full_url = device_name.concat(endpoint.as_str());
        self.set_base_url(full_url);
        self.set_method(method);
        self.set_body(body);
        match self.request() {
            Ok(prepared) => Step::Send(prepared),
            Err(e) => Step::Done(e.message()),
        }
    }
}

} // verus!
