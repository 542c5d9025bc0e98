//! Core of a request client: turns an endpoint, a device address, an HTTP
//! method and a body text into one outbound HTTP call, and turns what the
//! transport answers into the text handed back to the host.
//!
//! Nothing in this crate touches the network. A host starts a dispatch with
//! [`client::RESTClient::run_rest_client`], performs the call that it is
//! handed, and passes the transport's reply to [`request::finish`].
//!
//! - [`client`]: the configuration of the next call and the start of a
//!   dispatch.
//! - [`request`]: the prepared call, the transport's reply, and the text
//!   handed back.
//! - [`payload`]: decoding of a body text into a JSON payload.
//! - [`method`]: the supported HTTP methods.
//! - [`text`]: whitespace and trimming.
//! - [`errors`]: the error taxonomy, its text, and how an outcome is handled.
//! - [`laws`]: what holds of every dispatch.

pub mod client;
pub mod errors;
pub mod laws;
pub mod method;
pub mod payload;
pub mod request;
pub mod text;
