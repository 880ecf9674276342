//! The sample guest: what its entry point answers to a request.
//!
//! A guest reaches the host only through the imported host functions. What
//! it says through them is computed here; the calls themselves are made by
//! the module that is compiled for the sandbox.

use vstd::prelude::*;
use vstd::string::*;
use crate::abi::Method;

verus! {

/// Everything the sample guest hands to the host for one request, in the
/// order in which it hands it over: a trace message, the status, one header
/// and the body.
#[derive(Debug, Clone, PartialEq, Eq)]
pub struct GuestReply {
    pub trace: String,
    pub status: u32,
    pub header_name: String,
    pub header_value: String,
    pub body: String,
}

/// The trace message for a request: `Handling`, the method's name and the URL.
pub open spec fn trace_line(method: Method, url: Seq<char>) -> Seq<char> {
    "Handling "@ + method.name_of() + " "@ + url
}

/// The body for a request: a greeting that repeats the URL.
pub open spec fn greeting(url: Seq<char>) -> Seq<char> {
    "Hi!\nYou requested "@ + url + "\n"@
}

/// The entry point of the sample guest. It traces the request, answers with
/// status 200, sets the header `My-Custom-Header` to `hello2` and greets
/// with the URL it was asked for.
pub fn handle(method: Method, url: &str) -> (reply: GuestReply)
    ensures
        reply.trace@ == trace_line(method, url@),
        reply.status == 200,
        reply.header_name@ == "My-Custom-Header"@,
        reply.header_value@ == "hello2"@,
        reply.body@ == greeting(url@),
{
    let mut trace = String::from_str("Handling ");
    trace.append(method.name());
    trace.append(" ");
    trace.append(url);
    let mut body = String::from_str("Hi!\nYou requested ");
    body.append(url);
    body.append("\n");
    GuestReply {
        trace,
        status: 200,
        header_name: String::from_str("My-Custom-Header"),
        header_value: String::from_str("hello2"),
        body,
    }
}

} // verus!
