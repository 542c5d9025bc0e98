//! The HTTP methods the client can issue.

use vstd::prelude::*;
use vstd::string::*;

verus! {

/// A supported HTTP method.
#[derive(Debug, Clone, Copy, PartialEq, Eq, Structural)]
pub enum Method {
    Get,
    Post,
}

/// The method that `name` spells, if it spells one. Names are matched
/// exactly: `get` spells none.
pub open spec fn method_of(name: Seq<char>) -> Option<Method> {
    if name == "GET"@ {
        Some(Method::Get)
    } else if name == "POST"@ {
        Some(Method::Post)
    } else {
        None
    }
}

impl Method {
    /// Reads a method from its name.
    pub fn parse(name: &str) -> (method: Option<Method>)
        ensures
            method == method_of(name@),
    {
        let name = String::from_str(name);
        if name == String::from_str("GET") {
            Some(Method::Get)
        } else if name == String::from_str("POST") {
            Some(Method::Post)
        } else {
            None
        }
    }
}

} // verus!
