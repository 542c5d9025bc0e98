//! What holds of every dispatch, stated over the models that the contracts
//! of [`RESTClient`](crate::client::RESTClient) and of
//! [`finish`](crate::request::finish) speak of.

use vstd::prelude::*;
use crate::client::{configured, first_step, StepView};
use crate::errors::ErrorView;
use crate::method::{method_of, Method};
use crate::payload::{decoded, holds_json, is_malformed, json_value, Decoded, Payload};
use crate::request::{
    planned, received, response_text, HttpRequestView, PreparedView, ReplyView, USER_AGENT,
};
use crate::text::{is_blank, lemma_trimmed_empty_iff_blank, trimmed};

verus! {

/// Whether a prepared call is made of the method, target URL and body of
/// the dispatch with the given inputs, and of nothing else.
pub open spec fn carries(
    prepared: PreparedView,
    endpoint: Seq<char>,
    device_name: Seq<char>,
    method: Seq<char>,
    body: Seq<char>,
) -> bool {
    match prepared.request {
        HttpRequestView::Get { url, user_agent } => {
            &&& method == "GET"@
            &&& url == device_name + endpoint
        },
        HttpRequestView::Post { url, user_agent, payload } => {
            &&& method == "POST"@
            &&& url == device_name + endpoint
            &&& payload == decoded(body).payload
        },
    }
}

/// The two method names differ, so each spells its own method.
pub proof fn lemma_method_names()
    ensures
        method_of("GET"@) == Some(Method::Get),
        method_of("POST"@) == Some(Method::Post),
{
    reveal_strlit("GET");
    reveal_strlit("POST");
    assert("GET"@.len() == 3 && "POST"@.len() == 4);
}

/// A dispatch with the method `GET` or `POST` makes a call, and what it
/// hands back for a completed exchange is the response body, unchanged,
/// whatever the status code.
pub proof fn law_response_body_is_handed_back(
    endpoint: Seq<char>,
    device_name: Seq<char>,
    method: Seq<char>,
    body: Seq<char>,
    status: u16,
    text: Seq<char>,
)
    requires
        method == "GET"@ || method == "POST"@,
    ensures
        first_step(configured(endpoint, device_name, method, body)) is Send,
        response_text(received(ReplyView::Response { status, body: text })) == text,
{
}

/// A dispatch with any method name but `GET` and `POST` makes no call: its
/// result is the text of the invalid-method error.
pub proof fn law_unsupported_method_makes_no_call(
    endpoint: Seq<char>,
    device_name: Seq<char>,
    method: Seq<char>,
    body: Seq<char>,
)
    requires
        method != "GET"@,
        method != "POST"@,
    ensures
        first_step(configured(endpoint, device_name, method, body)) == StepView::Done(
            "Invalid method"@,
        ),
{
}

/// An empty body, and one of whitespace only, decodes to no payload: a
/// `GET` is prepared as ever, and a `POST` carries no payload.
pub proof fn law_blank_body_is_no_payload(url: Seq<char>, body: Seq<char>)
    requires
        is_blank(body),
    ensures
        decoded(body) == (Decoded { payload: Payload::Absent, malformed: false }),
        planned(url, "GET"@, body) == Ok::<PreparedView, ErrorView>(
            PreparedView {
                request: HttpRequestView::Get { url, user_agent: USER_AGENT@ },
                body_malformed: false,
            },
        ),
        planned(url, "POST"@, body) == Ok::<PreparedView, ErrorView>(
            PreparedView {
                request: HttpRequestView::Post {
                    url,
                    user_agent: USER_AGENT@,
                    payload: Payload::Absent,
                },
                body_malformed: false,
            },
        ),
{
    lemma_trimmed_empty_iff_blank(body);
    lemma_method_names();
}

/// A body that is not JSON does not fail the dispatch: it decodes to no
/// payload, and a `POST` goes out without one.
pub proof fn law_malformed_body_is_no_payload(url: Seq<char>, body: Seq<char>)
    requires
        is_malformed(body),
    ensures
        decoded(body) == (Decoded { payload: Payload::Absent, malformed: true }),
        planned(url, "POST"@, body) == Ok::<PreparedView, ErrorView>(
            PreparedView {
                request: HttpRequestView::Post {
                    url,
                    user_agent: USER_AGENT@,
                    payload: Payload::Absent,
                },
                body_malformed: true,
            },
        ),
{
    lemma_method_names();
}

/// A body that holds a JSON document is posted as exactly the value that
/// the document denotes.
pub proof fn law_json_body_is_posted(url: Seq<char>, body: Seq<char>, value: serde_json::Value)
    requires
        holds_json(body),
        json_value(trimmed(body)) == Some(value),
    ensures
        planned(url, "POST"@, body) == Ok::<PreparedView, ErrorView>(
            PreparedView {
                request: HttpRequestView::Post {
                    url,
                    user_agent: USER_AGENT@,
                    payload: Payload::Structured(value),
                },
                body_malformed: false,
            },
        ),
{
    lemma_method_names();
}

/// The target URL of a dispatch is the device address followed by the
/// endpoint: nothing is put between them and nothing is taken away.
pub proof fn law_target_url_is_concatenation(
    endpoint: Seq<char>,
    device_name: Seq<char>,
    method: Seq<char>,
    body: Seq<char>,
)
    ensures
        configured(endpoint, device_name, method, body).base_url == device_name + endpoint,
        configured(endpoint, device_name, method, body).base_url.len() == device_name.len()
            + endpoint.len(),
        first_step(configured(endpoint, device_name, method, body)) matches StepView::Send(p)
            ==> p.request.url() == device_name + endpoint,
{
}

/// The call that a dispatch hands to the transport is made of that
/// dispatch's own method, target URL and body. Since a dispatch holds the
/// client exclusively while it configures and prepares, this holds of each
/// of any number of dispatches that share one client.
pub proof fn law_call_carries_its_own_dispatch(
    endpoint: Seq<char>,
    device_name: Seq<char>,
    method: Seq<char>,
    body: Seq<char>,
)
    ensures
        first_step(configured(endpoint, device_name, method, body)) matches StepView::Send(p)
            ==> carries(p, endpoint, device_name, method, body),
{
}

} // verus!
