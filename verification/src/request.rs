//! The inbound request as the guest sees it.

use vstd::prelude::*;
use crate::abi::Method;

verus! {

/// One header line of the inbound request.
#[derive(Debug, Clone, PartialEq, Eq)]
pub struct RequestHeader {
    pub name: String,
    pub value: Vec<u8>,
}

/// What the guest can read of the inbound request. It does not change while
/// the guest runs.
#[derive(Debug, Clone, PartialEq, Eq)]
pub struct RequestSnapshot {
    pub method: Method,
    pub url: String,
    pub headers: Vec<RequestHeader>,
    pub body: Vec<u8>,
    /// The body length that the transport declared.
    pub content_length: u64,
}

/// A request header as mathematical values.
pub struct HeaderLine {
    pub name: Seq<char>,
    pub value: Seq<u8>,
}

/// A request as mathematical values.
pub struct RequestView {
    pub method: Method,
    pub url: Seq<char>,
    pub headers: Seq<HeaderLine>,
    pub body: Seq<u8>,
    pub content_length: u64,
}

impl View for RequestHeader {
    type V = HeaderLine;

    open spec fn view(&self) -> HeaderLine {
        HeaderLine { name: self.name@, value: self.value@ }
    }
}

impl View for RequestSnapshot {
    type V = RequestView;

    open spec fn view(&self) -> RequestView {
        RequestView {
            method: self.method,
            url: self.url@,
            headers: self.headers@.map_values(|h: RequestHeader| h@),
            body: self.body@,
            content_length: self.content_length,
        }
    }
}

/// The value of the first header called `name`, if there is one.
pub open spec fn header_value(headers: Seq<HeaderLine>, name: Seq<char>) -> Option<Seq<u8>>
    decreases headers.len(),
{
    if headers.len() == 0 {
        None
    } else if headers[0].name == name {
        Some(headers[0].value)
    } else {
        header_value(headers.drop_first(), name)
    }
}

impl RequestSnapshot {
    /// A request without headers whose declared length is that of its body.
    pub fn new(method: Method, url: String, body: Vec<u8>) -> (request: RequestSnapshot)
        ensures
            request@.method == method,
            request@.url == url@,
            request@.headers == Seq::<HeaderLine>::empty(),
            request@.body == body@,
            request@.content_length == body@.len(),
    {
        let content_length = body.len() as u64;
        let request = RequestSnapshot { method, url, headers: Vec::new(), body, content_length };
        assert(request@.headers =~= Seq::<HeaderLine>::empty());
        request
    }

    /// Adds a header line behind those already there.
    pub fn push_header(&mut self, name: String, value: Vec<u8>)
        ensures
            final(self)@ == (RequestView {
                headers: old(self)@.headers.push(HeaderLine { name: name@, value: value@ }),
                ..old(self)@
            }),
    {
        self.headers.push(RequestHeader { name, value });
        assert(final(self)@.headers =~= old(self)@.headers.push(
            HeaderLine { name: name@, value: value@ },
        ));
    }

    /// Finds the value of the first header called `name`.
    pub fn header(&self, name: &String) -> (value: Option<&Vec<u8>>)
        ensures
            value matches Some(v) ==> header_value(self@.headers, name@) == Some(v@),
            value is None ==> header_value(self@.headers, name@) is None,
    {
        let ghost lines = self@.headers;
        assert(lines.skip(0) =~= lines);
        let mut i: usize = 0;
        while i < self.headers.len()
            invariant
                i <= self.headers.len(),
                lines == self@.headers,
                lines.len() == self.headers.len(),
                header_value(lines, name@) == header_value(lines.skip(i as int), name@),
            decreases self.headers.len() - i,
        {
            proof {
                let rest = lines.skip(i as int);
                assert(rest[0] == self.headers[i as int]@);
                assert(rest.drop_first() =~= lines.skip(i + 1));
            }
            if self.headers[i].name == *name {
                return Some(&self.headers[i].value);
            }
            i += 1;
        }
        assert(lines.skip(i as int).len() == 0);
        None
    }
}

} // verus!
