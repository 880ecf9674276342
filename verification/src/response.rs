//! The outbound response that the guest builds up, and the response that
//! goes out on the wire.

use vstd::prelude::*;
use crate::error::{GatewayError, status_of};

verus! {

/// Lowest status code that a guest may set.
pub const MIN_STATUS: u32 = 100;

/// Highest status code that a guest may set.
pub const MAX_STATUS: u32 = 599;

/// Whether a guest may set `code` as the response's status.
pub open spec fn valid_status(code: u32) -> bool {
    MIN_STATUS <= code <= MAX_STATUS
}

/// One header of a response.
#[derive(Debug, Clone, PartialEq, Eq)]
pub struct ResponseHeader {
    pub name: String,
    pub value: String,
}

/// A response as mathematical values: the status if one was set, the value
/// of each header by its name, and the body.
pub struct ResponseView {
    pub status: Option<u16>,
    pub headers: Map<Seq<char>, Seq<char>>,
    pub body: Seq<u8>,
}

/// The header map that a list of headers with distinct names stands for.
pub open spec fn header_map(headers: Seq<ResponseHeader>) -> Map<Seq<char>, Seq<char>> {
    Map::new(
        |name: Seq<char>| exists|i: int| 0 <= i < headers.len() && #[trigger] headers[i].name@ == name,
        |name: Seq<char>|
            headers[choose|i: int| 0 <= i < headers.len() && #[trigger] headers[i].name@ == name].value@,
    )
}

/// Whether no two headers of a list share a name.
pub open spec fn distinct_names(headers: Seq<ResponseHeader>) -> bool {
    forall|i: int, j: int|
        0 <= i < j < headers.len() ==> #[trigger] headers[i].name@ != #[trigger] headers[j].name@
}

/// In a list with distinct names, the map gives each header's value under
/// its name.
pub proof fn lemma_header_map_at(headers: Seq<ResponseHeader>, i: int)
    requires
        distinct_names(headers),
        0 <= i < headers.len(),
    ensures
        header_map(headers).contains_key(headers[i].name@),
        header_map(headers)[headers[i].name@] == headers[i].value@,
{
    let name = headers[i].name@;
    let j = choose|j: int| 0 <= j < headers.len() && #[trigger] headers[j].name@ == name;
    assert(j == i);
}

/// Replacing the value of the header at `i` is setting its name in the map.
pub proof fn lemma_header_map_update(headers: Seq<ResponseHeader>, i: int, header: ResponseHeader)
    requires
        distinct_names(headers),
        0 <= i < headers.len(),
        headers[i].name@ == header.name@,
    ensures
        distinct_names(headers.update(i, header)),
        header_map(headers.update(i, header)) == header_map(headers).insert(
            header.name@,
            header.value@,
        ),
{
    let after = headers.update(i, header);
    assert forall|a: int, b: int| 0 <= a < b < after.len() implies #[trigger] after[a].name@
        != #[trigger] after[b].name@ by {
        assert(after[a].name@ == headers[a].name@);
        assert(after[b].name@ == headers[b].name@);
    }
    let expected = header_map(headers).insert(header.name@, header.value@);
    assert forall|name: Seq<char>| header_map(after).contains_key(name) <==> expected.contains_key(
        name,
    ) by {
        if header_map(after).contains_key(name) {
            let k = choose|k: int| 0 <= k < after.len() && #[trigger] after[k].name@ == name;
            assert(headers[k].name@ == name);
        }
        if expected.contains_key(name) && name != header.name@ {
            let k = choose|k: int| 0 <= k < headers.len() && #[trigger] headers[k].name@ == name;
            assert(after[k].name@ == name);
        }
        if name == header.name@ {
            assert(after[i].name@ == name);
        }
    }
    assert forall|name: Seq<char>| header_map(after).contains_key(name) implies header_map(
        after,
    )[name] == expected[name] by {
        let k = choose|k: int| 0 <= k < after.len() && #[trigger] after[k].name@ == name;
        lemma_header_map_at(after, k);
        if k == i {
            assert(name == header.name@);
        } else {
            assert(after[k] == headers[k]);
            lemma_header_map_at(headers, k);
        }
    }
    assert(header_map(after) =~= expected);
}

/// Adding a header under a new name is setting that name in the map.
pub proof fn lemma_header_map_push(headers: Seq<ResponseHeader>, header: ResponseHeader)
    requires
        distinct_names(headers),
        forall|i: int| 0 <= i < headers.len() ==> #[trigger] headers[i].name@ != header.name@,
    ensures
        distinct_names(headers.push(header)),
        header_map(headers.push(header)) == header_map(headers).insert(
            header.name@,
            header.value@,
        ),
{
    let after = headers.push(header);
    let last = headers.len() as int;
    assert forall|a: int, b: int| 0 <= a < b < after.len() implies #[trigger] after[a].name@
        != #[trigger] after[b].name@ by {
        assert(after[a] == headers[a]);
        if b < last {
            assert(after[b] == headers[b]);
        }
    }
    let expected = header_map(headers).insert(header.name@, header.value@);
    assert forall|name: Seq<char>| header_map(after).contains_key(name) <==> expected.contains_key(
        name,
    ) by {
        if header_map(after).contains_key(name) {
            let k = choose|k: int| 0 <= k < after.len() && #[trigger] after[k].name@ == name;
            if k < last {
                assert(headers[k].name@ == name);
            }
        }
        if expected.contains_key(name) && name != header.name@ {
            let k = choose|k: int| 0 <= k < headers.len() && #[trigger] headers[k].name@ == name;
            assert(after[k].name@ == name);
        }
        if name == header.name@ {
            assert(after[last].name@ == name);
        }
    }
    assert forall|name: Seq<char>| header_map(after).contains_key(name) implies header_map(
        after,
    )[name] == expected[name] by {
        let k = choose|k: int| 0 <= k < after.len() && #[trigger] after[k].name@ == name;
        lemma_header_map_at(after, k);
        if k < last {
            assert(after[k] == headers[k]);
            lemma_header_map_at(headers, k);
        }
    }
    assert(header_map(after) =~= expected);
}

/// The response that a guest builds up while it runs: a status that starts
/// unset, headers of which the last one set under a name counts, and a body
/// that each write replaces.
#[derive(Debug, PartialEq, Eq)]
pub struct ResponseAccumulator {
    status: Option<u16>,
    headers: Vec<ResponseHeader>,
    body: Vec<u8>,
}

impl View for ResponseAccumulator {
    type V = ResponseView;

    closed spec fn view(&self) -> ResponseView {
        ResponseView {
            status: self.status,
            headers: header_map(self.headers@),
            body: self.body@,
        }
    }
}

impl ResponseAccumulator {
    #[verifier::type_invariant]
    spec fn names_are_distinct(self) -> bool {
        distinct_names(self.headers@)
    }

    /// A response with no status, no headers and an empty body.
    pub fn new() -> (response: ResponseAccumulator)
        ensures
            response@.status is None,
            response@.headers == Map::<Seq<char>, Seq<char>>::empty(),
            response@.body == Seq::<u8>::empty(),
    {
        let response = ResponseAccumulator { status: None, headers: Vec::new(), body: Vec::new() };
        assert(response@.headers =~= Map::<Seq<char>, Seq<char>>::empty());
        response
    }

    /// Sets the status. A code outside `100..=599` is refused and leaves the
    /// response as it was.
    pub fn set_status(&mut self, code: u32) -> (result: Result<(), GatewayError>)
        ensures
            result is Ok <==> valid_status(code),
            result is Ok ==> final(self)@ == (ResponseView {
                status: Some(code as u16),
                ..old(self)@
            }),
            result matches Err(e) ==> e == GatewayError::InvalidStatusCode && final(self)@ == old(
                self,
            )@,
    {
        if code < MIN_STATUS || code > MAX_STATUS {
            return Err(GatewayError::InvalidStatusCode);
        }
        proof {
            use_type_invariant(&*self);
        }
        self.status = Some(code as u16);
        Ok(())
    }

    /// Sets a header. A header set earlier under the same name is replaced.
    pub fn set_header(&mut self, name: String, value: String)
        ensures
            final(self)@ == (ResponseView {
                headers: old(self)@.headers.insert(name@, value@),
                ..old(self)@
            }),
    {
        proof {
            use_type_invariant(&*self);
        }
        let mut taken = ResponseAccumulator::new();
        core::mem::swap(self, &mut taken);
        let ResponseAccumulator { status, headers, body } = taken;
        let mut headers = headers;
        let header = ResponseHeader { name, value };
        let ghost before = headers@;
        let mut i: usize = 0;
        while i < headers.len()
            invariant
                i <= headers.len(),
                headers@ == before,
                header.name@ == name@,
                header.value@ == value@,
                before == old(self).headers@,
                status == old(self).status,
                body == old(self).body,
                distinct_names(before),
                forall|k: int| 0 <= k < i ==> #[trigger] headers[k].name@ != header.name@,
            decreases headers.len() - i,
        {
            if headers[i].name == header.name {
                proof {
                    lemma_header_map_update(before, i as int, header);
                }
                headers.set(i, header);
                *self = ResponseAccumulator { status, headers, body };
                return ;
            }
            i += 1;
        }
        proof {
            lemma_header_map_push(before, header);
        }
        headers.push(header);
        *self = ResponseAccumulator { status, headers, body };
    }

    /// Replaces the body.
    pub fn set_body(&mut self, body: Vec<u8>)
        ensures
            final(self)@ == (ResponseView { body: body@, ..old(self)@ }),
    {
        proof {
            use_type_invariant(&*self);
        }
        self.body = body;
    }

    /// The status, if one was set.
    pub fn status(&self) -> (status: Option<u16>)
        ensures
            status == self@.status,
    {
        self.status
    }

    /// The body.
    pub fn body(&self) -> (body: &Vec<u8>)
        ensures
            body@ == self@.body,
    {
        &self.body
    }

    /// The headers, one entry for each name that was set.
    pub fn headers(&self) -> (headers: &Vec<ResponseHeader>)
        ensures
            distinct_names(headers@),
            header_map(headers@) == self@.headers,
    {
        proof {
            use_type_invariant(self);
        }
        &self.headers
    }

    /// The value set for the header called `name`, if one was set.
    pub fn header(&self, name: &String) -> (value: Option<&String>)
        ensures
            value matches Some(v) ==> self@.headers.contains_key(name@) && self@.headers[name@]
                == v@,
            value is None ==> !self@.headers.contains_key(name@),
    {
        proof {
            use_type_invariant(self);
        }
        let mut i: usize = 0;
        while i < self.headers.len()
            invariant
                i <= self.headers.len(),
                distinct_names(self.headers@),
                forall|k: int| 0 <= k < i ==> #[trigger] self.headers[k].name@ != name@,
            decreases self.headers.len() - i,
        {
            if self.headers[i].name == *name {
                proof {
                    lemma_header_map_at(self.headers@, i as int);
                }
                return Some(&self.headers[i].value);
            }
            i += 1;
        }
        None
    }
}

/// A response as it goes out on the wire.
#[derive(Debug, Clone, PartialEq, Eq)]
pub struct HttpResponse {
    pub status: u16,
    pub headers: Vec<ResponseHeader>,
    pub body: Vec<u8>,
}

impl View for HttpResponse {
    type V = ResponseView;

    open spec fn view(&self) -> ResponseView {
        ResponseView {
            status: Some(self.status),
            headers: header_map(self.headers@),
            body: self.body@,
        }
    }
}

/// The response that answers a request which failed with `error`: the
/// failure's status, no headers and no body.
pub open spec fn failure_view(error: GatewayError) -> ResponseView {
    ResponseView { status: Some(status_of(error)), headers: Map::empty(), body: Seq::empty() }
}

impl HttpResponse {
    /// The response for a failed request. It carries the status that belongs
    /// to the failure and nothing else.
    pub fn for_error(error: &GatewayError) -> (response: HttpResponse)
        ensures
            response@ == failure_view(*error),
    {
        let response = HttpResponse {
            status: error.http_status(),
            headers: Vec::new(),
            body: Vec::new(),
        };
        assert(response@.headers =~= Map::<Seq<char>, Seq<char>>::empty());
        assert(response@.body =~= Seq::<u8>::empty());
        response
    }
}

impl ResponseAccumulator {
    /// Closes the response once the guest has returned. A response whose
    /// status was never set is malformed and counts as a failed execution.
    pub fn finish(self) -> (result: Result<HttpResponse, GatewayError>)
        ensures
            result is Ok <==> self@.status is Some,
            result matches Ok(response) ==> response@ == self@,
            result matches Err(e) ==> e == GatewayError::GuestExecutionFailed,
    {
        match self.status {
            Some(status) => Ok(HttpResponse { status, headers: self.headers, body: self.body }),
            None => Err(GatewayError::GuestExecutionFailed),
        }
    }
}

} // verus!
