use request_client::client::{RESTClient, Step};
use request_client::errors::Error;
use request_client::payload::Payload;
use request_client::request::{finish, HttpRequest, Prepared, Reply};
use serde_json::Value;

fn s(text: &str) -> String {
    String::from(text)
}

fn get(url: &str) -> Step {
    Step::Send(Prepared {
        request: HttpRequest::Get { url: s(url), user_agent: s("Lumin") },
        body_malformed: false,
    })
}

fn x_is_one() -> Value {
    let mut object = serde_json::Map::new();
    object.insert(s("x"), Value::Number(serde_json::Number::from(1)));
    Value::Object(object)
}

#[test]
fn new_client_defaults_to_empty_parameters() {
    let client = RESTClient::new(None, None);
    assert_eq!(client.get_base_url(), "");
    assert_eq!(client.get_method(), "");
    assert_eq!(client.get_body(), "");
}

#[test]
fn new_client_keeps_what_it_is_given() {
    let client = RESTClient::new(Some(s("http://host")), Some(s("GET")));
    assert_eq!(client.get_base_url(), "http://host");
    assert_eq!(client.get_method(), "GET");
    assert_eq!(client.get_body(), "");
}

#[test]
fn setters_overwrite_one_parameter_each() {
    let mut client = RESTClient::new(Some(s("http://old")), Some(s("GET")));
    client.set_base_url(s("http://new"));
    assert_eq!(client.get_base_url(), "http://new");
    assert_eq!(client.get_method(), "GET");
    assert_eq!(client.get_body(), "");
    client.set_method(s("anything goes"));
    assert_eq!(client.get_base_url(), "http://new");
    assert_eq!(client.get_method(), "anything goes");
    assert_eq!(client.get_body(), "");
    client.set_body(s("{"));
    assert_eq!(client.get_base_url(), "http://new");
    assert_eq!(client.get_method(), "anything goes");
    assert_eq!(client.get_body(), "{");
}

#[test]
fn request_reads_the_configuration() {
    let mut client = RESTClient::new(Some(s("http://host/led")), Some(s("POST")));
    client.set_body(s("{\"x\":1}"));
    assert_eq!(
        client.request(),
        Ok(Prepared {
            request: HttpRequest::Post {
                url: s("http://host/led"),
                user_agent: s("Lumin"),
                payload: Payload::Structured(x_is_one()),
            },
            body_malformed: false,
        })
    );
}

#[test]
fn request_on_a_fresh_client_is_an_invalid_method() {
    let client = RESTClient::new(None, None);
    assert_eq!(client.request(), Err(Error::InvalidMethod));
}

#[test]
fn target_url_is_device_then_endpoint() {
    let mut client = RESTClient::new(None, None);
    let step = client.run_rest_client(s("/status"), s("http://host:9000"), s("GET"), s(""));
    assert_eq!(step, get("http://host:9000/status"));
    assert_eq!(client.get_base_url(), "http://host:9000/status");
    assert_eq!(client.get_method(), "GET");
    assert_eq!(client.get_body(), "");
}

#[test]
fn no_separator_is_put_between_device_and_endpoint() {
    let mut client = RESTClient::new(None, None);
    let step = client.run_rest_client(s("status"), s("http://host:9000"), s("GET"), s(""));
    assert_eq!(step, get("http://host:9000status"));
}

#[test]
fn no_separator_is_taken_away_between_device_and_endpoint() {
    let mut client = RESTClient::new(None, None);
    let step = client.run_rest_client(s("/status"), s("http://host:9000/"), s("GET"), s(""));
    assert_eq!(step, get("http://host:9000//status"));
}

#[test]
fn target_url_is_not_encoded() {
    let mut client = RESTClient::new(None, None);
    let step = client.run_rest_client(s("/a b?q=ü&r=%"), s("http://host"), s("GET"), s(""));
    assert_eq!(step, get("http://host/a b?q=ü&r=%"));
}

#[test]
fn patch_makes_no_call_and_hands_back_the_error_text() {
    let mut client = RESTClient::new(None, None);
    let step = client.run_rest_client(s("/status"), s("http://host:9000"), s("PATCH"), s(""));
    assert_eq!(step, Step::Done(s("Invalid method")));
}

#[test]
fn lower_case_method_makes_no_call() {
    let mut client = RESTClient::new(None, None);
    let step = client.run_rest_client(s("/status"), s("http://host:9000"), s("get"), s(""));
    assert_eq!(step, Step::Done(s("Invalid method")));
}

#[test]
fn post_sends_the_structured_body() {
    let mut client = RESTClient::new(None, None);
    let step = client.run_rest_client(s("/led"), s("http://host"), s("POST"), s("{\"x\":1}"));
    assert_eq!(
        step,
        Step::Send(Prepared {
            request: HttpRequest::Post {
                url: s("http://host/led"),
                user_agent: s("Lumin"),
                payload: Payload::Structured(x_is_one()),
            },
            body_malformed: false,
        })
    );
}

#[test]
fn post_with_malformed_body_proceeds_without_payload() {
    let mut client = RESTClient::new(None, None);
    let step = client.run_rest_client(s("/led"), s("http://host"), s("POST"), s("{not json"));
    assert_eq!(
        step,
        Step::Send(Prepared {
            request: HttpRequest::Post {
                url: s("http://host/led"),
                user_agent: s("Lumin"),
                payload: Payload::Absent,
            },
            body_malformed: true,
        })
    );
    assert_eq!(client.get_body(), "{not json");
}

#[test]
fn empty_body_is_no_payload_for_get_and_post() {
    let mut client = RESTClient::new(None, None);
    let step = client.run_rest_client(s("/a"), s("http://host"), s("GET"), s(""));
    assert_eq!(step, get("http://host/a"));
    let step = client.run_rest_client(s("/a"), s("http://host"), s("POST"), s(""));
    assert_eq!(
        step,
        Step::Send(Prepared {
            request: HttpRequest::Post {
                url: s("http://host/a"),
                user_agent: s("Lumin"),
                payload: Payload::Absent,
            },
            body_malformed: false,
        })
    );
}

#[test]
fn dispatch_hands_back_the_response_body_unchanged() {
    let mut client = RESTClient::new(None, None);
    let step = client.run_rest_client(s("/missing"), s("http://host"), s("GET"), s(""));
    assert_eq!(step, get("http://host/missing"));
    let text = finish(Reply::Response { status: 404, body: s("not found") });
    assert_eq!(text, "not found");
}

#[test]
fn each_dispatch_carries_its_own_parameters() {
    let mut client = RESTClient::new(None, None);
    let first = client.run_rest_client(s("/a"), s("http://one"), s("POST"), s("{\"x\":1}"));
    let second = client.run_rest_client(s("/b"), s("http://two"), s("GET"), s("true"));
    let third = client.run_rest_client(s("/c"), s("http://three"), s("POST"), s(""));
    assert_eq!(
        first,
        Step::Send(Prepared {
            request: HttpRequest::Post {
                url: s("http://one/a"),
                user_agent: s("Lumin"),
                payload: Payload::Structured(x_is_one()),
            },
            body_malformed: false,
        })
    );
    assert_eq!(second, get("http://two/b"));
    assert_eq!(
        third,
        Step::Send(Prepared {
            request: HttpRequest::Post {
                url: s("http://three/c"),
                user_agent: s("Lumin"),
                payload: Payload::Absent,
            },
            body_malformed: false,
        })
    );
}

#[test]
fn rejected_dispatch_leaves_nothing_behind_for_the_next() {
    let mut client = RESTClient::new(None, None);
    let rejected = client.run_rest_client(s("/a"), s("http://one"), s("PATCH"), s("{\"x\":1}"));
    assert_eq!(rejected, Step::Done(s("Invalid method")));
    let next = client.run_rest_client(s("/b"), s("http://two"), s("GET"), s(""));
    assert_eq!(next, get("http://two/b"));
}
