//! The host side of the guest interface: the state of one invocation, what
//! each host function does to it, and the dispatcher that the sandbox engine
//! calls whenever the guest calls an import.

use vstd::prelude::*;
use vstd::utf8::*;
use wasmi::MemoryRef;
use crate::abi::{arg_at, nth_arg, GuestValue, HostFunction, Method};
use crate::error::GatewayError;
use crate::memory::{
    after_copy,
    check_region,
    copied_len,
    copy_truncated,
    in_bounds,
    memory_bytes,
    read_guest,
};
use crate::request::{header_value, RequestSnapshot, RequestView};
use crate::response::{valid_status, ResponseAccumulator, ResponseView};
use crate::text::decode_text;

verus! {

/// A message that the guest sent to the host's diagnostic sink.
#[derive(Debug, Clone, PartialEq, Eq)]
pub enum TraceMessage {
    /// The message, where the guest sent well-formed UTF-8.
    Text(String),
    /// The bytes as they came, where it did not.
    Raw(Vec<u8>),
}

/// A trace message as mathematical values.
pub enum TraceView {
    Text(Seq<char>),
    Raw(Seq<u8>),
}

impl View for TraceMessage {
    type V = TraceView;

    open spec fn view(&self) -> TraceView {
        match self {
            TraceMessage::Text(text) => TraceView::Text(text@),
            TraceMessage::Raw(bytes) => TraceView::Raw(bytes@),
        }
    }
}

/// The trace message that stands for bytes which the guest sent.
pub open spec fn trace_of(bytes: Seq<u8>) -> TraceView {
    if valid_utf8(bytes) {
        TraceView::Text(decode_utf8(bytes))
    } else {
        TraceView::Raw(bytes)
    }
}

/// The 32-bit value that reports a length to the guest: the length's low
/// 32 bits.
pub open spec fn wire_len(len: int) -> u32 {
    (len % 0x1_0000_0000) as u32
}

/// Everything that a host call can read or change, as mathematical values.
pub struct HostState {
    pub memory: Seq<u8>,
    pub request: RequestView,
    pub response: ResponseView,
    pub traces: Seq<TraceView>,
}

/// What a host call leaves behind and hands back: a value, nothing, or a trap.
pub struct HostOutcome {
    pub state: HostState,
    pub result: Result<Option<u32>, GatewayError>,
}

impl HostState {
    /// The call traps and changes nothing.
    pub open spec fn trap(self, error: GatewayError) -> HostOutcome {
        HostOutcome { state: self, result: Err(error) }
    }

    /// The call changes nothing and hands `value` back.
    pub open spec fn give(self, value: u32) -> HostOutcome {
        HostOutcome { state: self, result: Ok(Some(value)) }
    }

    /// Whether the guest's memory holds the region.
    pub open spec fn holds(self, ptr: u32, len: u32) -> bool {
        in_bounds(self.memory.len(), ptr as int, len as int)
    }

    /// The bytes of a region that the memory holds.
    pub open spec fn bytes_at(self, ptr: u32, len: u32) -> Seq<u8> {
        self.memory.subrange(ptr as int, ptr + len)
    }

    /// The value of the request header called `name`; empty if there is none.
    pub open spec fn request_header(self, name: Seq<char>) -> Seq<u8> {
        match header_value(self.request.headers, name) {
            Some(value) => value,
            None => Seq::empty(),
        }
    }

    /// Copies `data` into the guest's buffer, as much as fits, and hands back
    /// the number of bytes written.
    pub open spec fn copy_out(self, dest_ptr: u32, dest_len: u32, data: Seq<u8>) -> HostOutcome {
        if self.holds(dest_ptr, dest_len) {
            HostOutcome {
                state: HostState {
                    memory: after_copy(self.memory, dest_ptr, dest_len, data),
                    ..self
                },
                result: Ok(Some(copied_len(dest_len, data.len()))),
            }
        } else {
            self.trap(GatewayError::OutOfBoundsMemoryAccess)
        }
    }

    /// `get_request_method`: hands back the tag of the request's method.
    pub open spec fn get_request_method(self) -> HostOutcome {
        self.give(self.request.method.tag_of())
    }

    /// `get_request_url_len`: hands back the URL's length in bytes.
    pub open spec fn get_request_url_len(self) -> HostOutcome {
        self.give(wire_len(encode_utf8(self.request.url).len() as int))
    }

    /// `get_request_url`: copies the URL's bytes into the guest's buffer.
    pub open spec fn get_request_url(self, dest_ptr: u32, dest_len: u32) -> HostOutcome {
        self.copy_out(dest_ptr, dest_len, encode_utf8(self.request.url))
    }

    /// `get_request_header_len`: reads a header name out of the guest's
    /// memory and hands back the length of that header's value.
    pub open spec fn get_request_header_len(self, name_ptr: u32, name_len: u32) -> HostOutcome {
        if !self.holds(name_ptr, name_len) {
            self.trap(GatewayError::OutOfBoundsMemoryAccess)
        } else if !valid_utf8(self.bytes_at(name_ptr, name_len)) {
            self.trap(GatewayError::InvalidUtf8InGuestData)
        } else {
            let name = decode_utf8(self.bytes_at(name_ptr, name_len));
            self.give(wire_len(self.request_header(name).len() as int))
        }
    }

    /// `get_request_header`: reads a header name out of the guest's memory
    /// and copies that header's value into the guest's buffer. Both regions
    /// are held against the memory before the name is decoded.
    pub open spec fn get_request_header(
        self,
        name_ptr: u32,
        name_len: u32,
        dest_ptr: u32,
        dest_len: u32,
    ) -> HostOutcome {
        if !self.holds(name_ptr, name_len) || !self.holds(dest_ptr, dest_len) {
            self.trap(GatewayError::OutOfBoundsMemoryAccess)
        } else if !valid_utf8(self.bytes_at(name_ptr, name_len)) {
            self.trap(GatewayError::InvalidUtf8InGuestData)
        } else {
            let name = decode_utf8(self.bytes_at(name_ptr, name_len));
            self.copy_out(dest_ptr, dest_len, self.request_header(name))
        }
    }

    /// `get_request_body_len`: hands back the declared length of the body.
    pub open spec fn get_request_body_len(self) -> HostOutcome {
        self.give(wire_len(self.request.content_length as int))
    }

    /// `get_request_body`: copies the body into the guest's buffer.
    pub open spec fn get_request_body(self, dest_ptr: u32, dest_len: u32) -> HostOutcome {
        self.copy_out(dest_ptr, dest_len, self.request.body)
    }

    /// `set_response_status`: sets the status if the code is in range.
    pub open spec fn set_response_status(self, code: u32) -> HostOutcome {
        if valid_status(code) {
            HostOutcome {
                state: HostState {
                    response: ResponseView { status: Some(code as u16), ..self.response },
                    ..self
                },
                result: Ok(None),
            }
        } else {
            self.trap(GatewayError::InvalidStatusCode)
        }
    }

    /// `set_response_header`: reads a name and a value out of the guest's
    /// memory and sets the header. Both regions are held against the memory
    /// before either is decoded.
    pub open spec fn set_response_header(
        self,
        name_ptr: u32,
        name_len: u32,
        value_ptr: u32,
        value_len: u32,
    ) -> HostOutcome {
        if !self.holds(name_ptr, name_len) || !self.holds(value_ptr, value_len) {
            self.trap(GatewayError::OutOfBoundsMemoryAccess)
        } else if !valid_utf8(self.bytes_at(name_ptr, name_len)) || !valid_utf8(
            self.bytes_at(value_ptr, value_len),
        ) {
            self.trap(GatewayError::InvalidUtf8InGuestData)
        } else {
            let name = decode_utf8(self.bytes_at(name_ptr, name_len));
            let value = decode_utf8(self.bytes_at(value_ptr, value_len));
            HostOutcome {
                state: HostState {
                    response: ResponseView {
                        headers: self.response.headers.insert(name, value),
                        ..self.response
                    },
                    ..self
                },
                result: Ok(None),
            }
        }
    }

    /// `set_response_body`: replaces the body by a region of the guest's memory.
    pub open spec fn set_response_body(self, ptr: u32, len: u32) -> HostOutcome {
        if self.holds(ptr, len) {
            HostOutcome {
                state: HostState {
                    response: ResponseView { body: self.bytes_at(ptr, len), ..self.response },
                    ..self
                },
                result: Ok(None),
            }
        } else {
            self.trap(GatewayError::OutOfBoundsMemoryAccess)
        }
    }

    /// `trace`: appends a region of the guest's memory to the trace, as text
    /// where it is UTF-8 and as bytes where it is not.
    pub open spec fn trace(self, ptr: u32, len: u32) -> HostOutcome {
        if self.holds(ptr, len) {
            HostOutcome {
                state: HostState {
                    traces: self.traces.push(trace_of(self.bytes_at(ptr, len))),
                    ..self
                },
                result: Ok(None),
            }
        } else {
            self.trap(GatewayError::OutOfBoundsMemoryAccess)
        }
    }

    /// Whether a call of `function` came with its arguments: as many 32-bit
    /// integers as the function has parameters. Further arguments do not count.
    pub open spec fn well_typed(function: HostFunction, args: Seq<GuestValue>) -> bool {
        forall|i: int| 0 <= i < function.param_count_of() ==> (#[trigger] arg_at(args, i)) is Some
    }

    /// What a call of `function` with `args` does. A call that lacks an
    /// argument traps before anything else is looked at.
    pub open spec fn call(self, function: HostFunction, args: Seq<GuestValue>) -> HostOutcome {
        let a0 = arg_at(args, 0);
        let a1 = arg_at(args, 1);
        let a2 = arg_at(args, 2);
        let a3 = arg_at(args, 3);
        if !Self::well_typed(function, args) {
            self.trap(GatewayError::UnexpectedSignature)
        } else {
            match function {
                HostFunction::GetRequestMethod => self.get_request_method(),
                HostFunction::GetRequestUrl => self.get_request_url(a0->0, a1->0),
                HostFunction::GetRequestUrlLen => self.get_request_url_len(),
                HostFunction::GetRequestHeader => self.get_request_header(
                    a0->0,
                    a1->0,
                    a2->0,
                    a3->0,
                ),
                HostFunction::GetRequestHeaderLen => self.get_request_header_len(a0->0, a1->0),
                HostFunction::GetRequestBody => self.get_request_body(a0->0, a1->0),
                HostFunction::GetRequestBodyLen => self.get_request_body_len(),
                HostFunction::SetResponseStatus => self.set_response_status(a0->0),
                HostFunction::SetResponseHeader => self.set_response_header(
                    a0->0,
                    a1->0,
                    a2->0,
                    a3->0,
                ),
                HostFunction::SetResponseBody => self.set_response_body(a0->0, a1->0),
                HostFunction::Trace => self.trace(a0->0, a1->0),
            }
        }
    }

    /// What a call through slot `index` does. A slot that holds no host
    /// function traps.
    pub open spec fn invoke(self, index: int, args: Seq<GuestValue>) -> HostOutcome {
        match HostFunction::at_slot(index) {
            Some(function) => self.call(function, args),
            None => self.trap(GatewayError::UnsupportedHostFunction),
        }
    }
}

/// The views of a list of trace messages.
pub open spec fn trace_views(traces: Seq<TraceMessage>) -> Seq<TraceView> {
    traces.map_values(|t: TraceMessage| t@)
}

/// The state that one invocation shares with its guest: the request that
/// came in, the response that goes out, and what the guest traced. It belongs
/// to one dispatcher for one invocation.
pub struct RequestResponseBridge {
    request: RequestSnapshot,
    response: ResponseAccumulator,
    traces: Vec<TraceMessage>,
}

impl RequestResponseBridge {
    /// The request as mathematical values.
    pub closed spec fn request_view(self) -> RequestView {
        self.request@
    }

    /// The response as mathematical values.
    pub closed spec fn response_view(self) -> ResponseView {
        self.response@
    }

    /// The trace messages as mathematical values.
    pub closed spec fn traces_view(self) -> Seq<TraceView> {
        trace_views(self.traces@)
    }

    /// The bridge for a request: the response is empty, nothing is traced.
    pub fn new(request: RequestSnapshot) -> (bridge: RequestResponseBridge)
        ensures
            bridge.request_view() == request@,
            bridge.response_view().status is None,
            bridge.response_view().headers == Map::<Seq<char>, Seq<char>>::empty(),
            bridge.response_view().body == Seq::<u8>::empty(),
            bridge.traces_view() == Seq::<TraceView>::empty(),
    {
        let bridge = RequestResponseBridge {
            request,
            response: ResponseAccumulator::new(),
            traces: Vec::new(),
        };
        assert(bridge.traces_view() =~= Seq::<TraceView>::empty());
        bridge
    }

    /// The inbound request.
    pub fn request(&self) -> (request: &RequestSnapshot)
        ensures
            request@ == self.request_view(),
    {
        &self.request
    }

    /// The response as far as the guest has built it.
    pub fn response(&self) -> (response: &ResponseAccumulator)
        ensures
            response@ == self.response_view(),
    {
        &self.response
    }

    /// The response, for whoever builds it. The request and the trace stay
    /// as they are, whatever is done to the response.
    pub fn response_mut(&mut self) -> (response: &mut ResponseAccumulator)
        ensures
            response@ == old(self).response_view(),
            final(self).response_view() == final(response)@,
            final(self).request_view() == old(self).request_view(),
            final(self).traces_view() == old(self).traces_view(),
    {
        &mut self.response
    }

    /// What the guest has traced, oldest first.
    pub fn traces(&self) -> (traces: &Vec<TraceMessage>)
        ensures
            trace_views(traces@) == self.traces_view(),
    {
        &self.traces
    }

    /// Gives up the bridge for the response that the guest built.
    pub fn into_response(self) -> (response: ResponseAccumulator)
        ensures
            response@ == self.response_view(),
    {
        self.response
    }
}

/// Reports a length to the guest as a 32-bit value.
fn wire_value(len: u64) -> (value: u32)
    ensures
        value == wire_len(len as int),
{
    (len % 0x1_0000_0000) as u32
}

/// Decodes guest bytes that must be UTF-8.
fn guest_text(bytes: Vec<u8>) -> (text: Result<String, GatewayError>)
    ensures
        text is Ok <==> valid_utf8(bytes@),
        text matches Ok(s) ==> s@ == decode_utf8(bytes@),
        text matches Err(e) ==> e == GatewayError::InvalidUtf8InGuestData,
{
    match decode_text(bytes) {
        Ok(text) => Ok(text),
        Err(_) => Err(GatewayError::InvalidUtf8InGuestData),
    }
}

/// Serves the host functions of one invocation. The sandbox engine calls
/// [`HostAbiDispatcher::invoke_index`] with the slot of the import that the
/// guest called and the arguments it passed.
pub struct HostAbiDispatcher {
    memory: MemoryRef,
    bridge: RequestResponseBridge,
}

impl View for HostAbiDispatcher {
    type V = HostState;

    closed spec fn view(&self) -> HostState {
        HostState {
            memory: memory_bytes(self.memory),
            request: self.bridge.request_view(),
            response: self.bridge.response_view(),
            traces: self.bridge.traces_view(),
        }
    }
}

impl HostAbiDispatcher {
    /// A dispatcher over the guest's exported memory and a fresh bridge for
    /// `request`.
    pub fn new(memory: MemoryRef, request: RequestSnapshot) -> (dispatcher: HostAbiDispatcher)
        ensures
            dispatcher@.memory == memory_bytes(memory),
            dispatcher@.request == request@,
            dispatcher@.response.status is None,
            dispatcher@.response.headers == Map::<Seq<char>, Seq<char>>::empty(),
            dispatcher@.response.body == Seq::<u8>::empty(),
            dispatcher@.traces == Seq::<TraceView>::empty(),
    {
        HostAbiDispatcher { memory, bridge: RequestResponseBridge::new(request) }
    }

    /// The bridge of this invocation.
    pub fn bridge(&self) -> (bridge: &RequestResponseBridge)
        ensures
            bridge.request_view() == self@.request,
            bridge.response_view() == self@.response,
            bridge.traces_view() == self@.traces,
    {
        &self.bridge
    }

    /// Gives up the dispatcher for its bridge, once the guest has returned.
    pub fn into_bridge(self) -> (bridge: RequestResponseBridge)
        ensures
            bridge.request_view() == self@.request,
            bridge.response_view() == self@.response,
            bridge.traces_view() == self@.traces,
    {
        self.bridge
    }

    /// Host function `get_request_method`: the tag of the request's method.
    pub fn get_request_method(&self) -> (tag: u32)
        ensures
            self@.get_request_method() == self@.give(tag),
    {
        self.bridge.request.method.tag()
    }

    /// Host function `get_request_url_len`: the URL's length in bytes.
    pub fn get_request_url_len(&self) -> (len: u32)
        ensures
            self@.get_request_url_len() == self@.give(len),
    {
        wire_value(self.bridge.request.url.as_str().as_bytes().len() as u64)
    }

    /// Host function `get_request_url`: copies the URL into the guest's
    /// buffer, as much as fits, and returns the number of bytes written.
    pub fn get_request_url(&mut self, dest_ptr: u32, dest_len: u32) -> (result: Result<
        Option<u32>,
        GatewayError,
    >)
        ensures
            final(self)@ == old(self)@.get_request_url(dest_ptr, dest_len).state,
            result == old(self)@.get_request_url(dest_ptr, dest_len).result,
    {
        let data = self.bridge.request.url.as_str().as_bytes();
        match copy_truncated(&mut self.memory, dest_ptr, dest_len, data) {
            Ok(written) => Ok(Some(written)),
            Err(e) => Err(e),
        }
    }

    /// Host function `get_request_header_len`: the length in bytes of the
    /// value of the header whose name the guest wrote into its memory. A
    /// header that the request does not carry has length 0.
    pub fn get_request_header_len(&self, name_ptr: u32, name_len: u32) -> (result: Result<
        Option<u32>,
        GatewayError,
    >)
        ensures
            self@.get_request_header_len(name_ptr, name_len) == (HostOutcome {
                state: self@,
                result,
            }),
    {
        let name_bytes = match read_guest(&self.memory, name_ptr, name_len) {
            Ok(bytes) => bytes,
            Err(e) => {
                return Err(e);
            },
        };
        let name = match guest_text(name_bytes) {
            Ok(name) => name,
            Err(e) => {
                return Err(e);
            },
        };
        match self.bridge.request.header(&name) {
            Some(value) => Ok(Some(wire_value(value.len() as u64))),
            None => {
                assert(Seq::<u8>::empty().len() == 0);
                Ok(Some(wire_value(0)))
            },
        }
    }

    /// Host function `get_request_header`: copies the value of the named
    /// header into the guest's buffer, as much as fits, and returns the
    /// number of bytes written. A header that the request does not carry is
    /// copied as an empty value.
    pub fn get_request_header(
        &mut self,
        name_ptr: u32,
        name_len: u32,
        dest_ptr: u32,
        dest_len: u32,
    ) -> (result: Result<Option<u32>, GatewayError>)
        ensures
            final(self)@ == old(self)@.get_request_header(
                name_ptr,
                name_len,
                dest_ptr,
                dest_len,
            ).state,
            result == old(self)@.get_request_header(name_ptr, name_len, dest_ptr, dest_len).result,
    {
        let name_bytes = match read_guest(&self.memory, name_ptr, name_len) {
            Ok(bytes) => bytes,
            Err(e) => {
                return Err(e);
            },
        };
        match check_region(&self.memory, dest_ptr, dest_len) {
            Ok(()) => {},
            Err(e) => {
                return Err(e);
            },
        }
        let name = match guest_text(name_bytes) {
            Ok(name) => name,
            Err(e) => {
                return Err(e);
            },
        };
        let empty: Vec<u8> = Vec::new();
        let value: &Vec<u8> = match self.bridge.request.header(&name) {
            Some(value) => value,
            None => &empty,
        };
        match copy_truncated(&mut self.memory, dest_ptr, dest_len, value.as_slice()) {
            Ok(written) => Ok(Some(written)),
            Err(e) => Err(e),
        }
    }

    /// Host function `get_request_body_len`: the body length that the
    /// transport declared.
    pub fn get_request_body_len(&self) -> (len: u32)
        ensures
            self@.get_request_body_len() == self@.give(len),
    {
        wire_value(self.bridge.request.content_length)
    }

    /// Host function `get_request_body`: copies the body into the guest's
    /// buffer, as much as fits, and returns the number of bytes written.
    pub fn get_request_body(&mut self, dest_ptr: u32, dest_len: u32) -> (result: Result<
        Option<u32>,
        GatewayError,
    >)
        ensures
            final(self)@ == old(self)@.get_request_body(dest_ptr, dest_len).state,
            result == old(self)@.get_request_body(dest_ptr, dest_len).result,
    {
        match copy_truncated(
            &mut self.memory,
            dest_ptr,
            dest_len,
            self.bridge.request.body.as_slice(),
        ) {
            Ok(written) => Ok(Some(written)),
            Err(e) => Err(e),
        }
    }

    /// Host function `set_response_status`: sets the response's status. A
    /// code outside `100..=599` traps.
    pub fn set_response_status(&mut self, code: u32) -> (result: Result<Option<u32>, GatewayError>)
        ensures
            final(self)@ == old(self)@.set_response_status(code).state,
            result == old(self)@.set_response_status(code).result,
    {
        match self.bridge.response.set_status(code) {
            Ok(()) => Ok(None),
            Err(e) => Err(e),
        }
    }

    /// Host function `set_response_header`: sets the header whose name and
    /// value the guest wrote into its memory. Text that is not UTF-8 traps.
    pub fn set_response_header(
        &mut self,
        name_ptr: u32,
        name_len: u32,
        value_ptr: u32,
        value_len: u32,
    ) -> (result: Result<Option<u32>, GatewayError>)
        ensures
            final(self)@ == old(self)@.set_response_header(
                name_ptr,
                name_len,
                value_ptr,
                value_len,
            ).state,
            result == old(self)@.set_response_header(
                name_ptr,
                name_len,
                value_ptr,
                value_len,
            ).result,
    {
        let name_bytes = match read_guest(&self.memory, name_ptr, name_len) {
            Ok(bytes) => bytes,
            Err(e) => {
                return Err(e);
            },
        };
        let value_bytes = match read_guest(&self.memory, value_ptr, value_len) {
            Ok(bytes) => bytes,
            Err(e) => {
                return Err(e);
            },
        };
        let name = match guest_text(name_bytes) {
            Ok(name) => name,
            Err(e) => {
                return Err(e);
            },
        };
        let value = match guest_text(value_bytes) {
            Ok(value) => value,
            Err(e) => {
                return Err(e);
            },
        };
        self.bridge.response.set_header(name, value);
        Ok(None)
    }

    /// Host function `set_response_body`: replaces the response's body by
    /// the bytes of a region of the guest's memory.
    pub fn set_response_body(&mut self, ptr: u32, len: u32) -> (result: Result<
        Option<u32>,
        GatewayError,
    >)
        ensures
            final(self)@ == old(self)@.set_response_body(ptr, len).state,
            result == old(self)@.set_response_body(ptr, len).result,
    {
        match read_guest(&self.memory, ptr, len) {
            Ok(bytes) => {
                self.bridge.response.set_body(bytes);
                Ok(None)
            },
            Err(e) => Err(e),
        }
    }

    /// Host function `trace`: hands a message to the diagnostic sink. Bytes
    /// that are not UTF-8 are kept as they are; they do not fail the call.
    pub fn trace(&mut self, ptr: u32, len: u32) -> (result: Result<Option<u32>, GatewayError>)
        ensures
            final(self)@ == old(self)@.trace(ptr, len).state,
            result == old(self)@.trace(ptr, len).result,
    {
        match read_guest(&self.memory, ptr, len) {
            Ok(bytes) => {
                let message = match decode_text(bytes) {
                    Ok(text) => TraceMessage::Text(text),
                    Err(raw) => TraceMessage::Raw(raw),
                };
                self.bridge.traces.push(message);
                assert(final(self)@.traces =~= old(self)@.traces.push(message@));
                Ok(None)
            },
            Err(e) => Err(e),
        }
    }

    /// Serves the host function in slot `index` with the arguments `args`.
    ///
    /// A slot that holds no host function, a call that lacks an argument, a
    /// region outside the guest's memory, text that is not UTF-8 and a
    /// status code out of range each end in a trap that leaves the state of
    /// the invocation as it was.
    pub fn invoke_index(&mut self, index: usize, args: &[GuestValue]) -> (result: Result<
        Option<u32>,
        GatewayError,
    >)
        ensures
            final(self)@ == old(self)@.invoke(index as int, args@).state,
            result == old(self)@.invoke(index as int, args@).result,
    {
        let function = match HostFunction::from_slot(index) {
            Some(function) => function,
            None => {
                return Err(GatewayError::UnsupportedHostFunction);
            },
        };
        let count = function.param_count();
        let a0 = nth_arg(args, 0);
        let a1 = nth_arg(args, 1);
        let a2 = nth_arg(args, 2);
        let a3 = nth_arg(args, 3);
        if (count > 0 && a0.is_none()) || (count > 1 && a1.is_none()) || (count > 2 && a2.is_none())
            || (count > 3 && a3.is_none()) {
            return Err(GatewayError::UnexpectedSignature);
        }
        assert(HostState::well_typed(function, args@));
        match function {
            HostFunction::GetRequestMethod => Ok(Some(self.get_request_method())),
            HostFunction::GetRequestUrl => self.get_request_url(a0.unwrap(), a1.unwrap()),
            HostFunction::GetRequestUrlLen => Ok(Some(self.get_request_url_len())),
            HostFunction::GetRequestHeader => self.get_request_header(
                a0.unwrap(),
                a1.unwrap(),
                a2.unwrap(),
                a3.unwrap(),
            ),
            HostFunction::GetRequestHeaderLen => self.get_request_header_len(
                a0.unwrap(),
                a1.unwrap(),
            ),
            HostFunction::GetRequestBody => self.get_request_body(a0.unwrap(), a1.unwrap()),
            HostFunction::GetRequestBodyLen => Ok(Some(self.get_request_body_len())),
            HostFunction::SetResponseStatus => self.set_response_status(a0.unwrap()),
            HostFunction::SetResponseHeader => self.set_response_header(
                a0.unwrap(),
                a1.unwrap(),
                a2.unwrap(),
                a3.unwrap(),
            ),
            HostFunction::SetResponseBody => self.set_response_body(a0.unwrap(), a1.unwrap()),
            HostFunction::Trace => self.trace(a0.unwrap(), a1.unwrap()),
        }
    }
}

/// The regions of guest memory that a call names: each pointer with the
/// length that follows it.
pub open spec fn regions_of(function: HostFunction, args: Seq<GuestValue>) -> Seq<(u32, u32)> {
    let first = (arg_at(args, 0)->0, arg_at(args, 1)->0);
    let second = (arg_at(args, 2)->0, arg_at(args, 3)->0);
    match function {
        HostFunction::GetRequestUrl => seq![first],
        HostFunction::GetRequestHeader => seq![first, second],
        HostFunction::GetRequestHeaderLen => seq![first],
        HostFunction::GetRequestBody => seq![first],
        HostFunction::SetResponseHeader => seq![first, second],
        HostFunction::SetResponseBody => seq![first],
        HostFunction::Trace => seq![first],
        _ => Seq::empty(),
    }
}

/// A call that names a region which reaches past the memory's current size
/// traps with `OutOfBoundsMemoryAccess`, whatever else it was handed, and
/// changes nothing.
pub proof fn lemma_out_of_bounds_traps(
    state: HostState,
    function: HostFunction,
    args: Seq<GuestValue>,
    k: int,
)
    requires
        HostState::well_typed(function, args),
        0 <= k < regions_of(function, args).len(),
        !state.holds(regions_of(function, args)[k].0, regions_of(function, args)[k].1),
    ensures
        state.call(function, args) == state.trap(GatewayError::OutOfBoundsMemoryAccess),
{
}

/// A call that names only regions inside the memory never traps with
/// `OutOfBoundsMemoryAccess`.
pub proof fn lemma_in_bounds_never_traps_out_of_bounds(
    state: HostState,
    function: HostFunction,
    args: Seq<GuestValue>,
)
    requires
        forall|k: int|
            0 <= k < regions_of(function, args).len() ==> state.holds(
                (#[trigger] regions_of(function, args)[k]).0,
                regions_of(function, args)[k].1,
            ),
    ensures
        state.call(function, args).result != Err::<Option<u32>, GatewayError>(
            GatewayError::OutOfBoundsMemoryAccess,
        ),
{
    let regions = regions_of(function, args);
    if regions.len() > 0 {
        assert(state.holds(regions[0].0, regions[0].1));
    }
    if regions.len() > 1 {
        assert(state.holds(regions[1].0, regions[1].1));
    }
}

/// A call that traps changes nothing; no call changes the request or the
/// size of the guest's memory, and only the three setters change the
/// response.
pub proof fn lemma_call_frame(state: HostState, index: int, args: Seq<GuestValue>)
    ensures
        state.invoke(index, args).result is Err ==> state.invoke(index, args).state == state,
        state.invoke(index, args).state.request == state.request,
        state.invoke(index, args).state.memory.len() == state.memory.len(),
        HostFunction::at_slot(index) != Some(HostFunction::SetResponseStatus)
            && HostFunction::at_slot(index) != Some(HostFunction::SetResponseHeader)
            && HostFunction::at_slot(index) != Some(HostFunction::SetResponseBody)
            ==> state.invoke(index, args).state.response == state.response,
{
}

/// A copy into a guest buffer that the memory holds writes the smaller of
/// the buffer's and the data's length and returns that count. The bytes
/// written are the first bytes of the data, so that a buffer longer than
/// the data takes no byte from behind the data's end, and every byte of the
/// memory outside the written part stays as it was, so that a buffer shorter
/// than the data is not written past its end.
pub proof fn lemma_copy_out_is_truncating(
    state: HostState,
    dest_ptr: u32,
    dest_len: u32,
    data: Seq<u8>,
)
    requires
        state.holds(dest_ptr, dest_len),
    ensures
        ({
            let written = copied_len(dest_len, data.len());
            let after = state.copy_out(dest_ptr, dest_len, data);
            &&& after.result == Ok::<Option<u32>, GatewayError>(Some(written))
            &&& written <= dest_len
            &&& written <= data.len()
            &&& written == dest_len || written == data.len()
            &&& after.state.memory.len() == state.memory.len()
            &&& forall|i: int|
                dest_ptr <= i < dest_ptr + written ==> after.state.memory[i] == data[i - dest_ptr]
            &&& forall|i: int|
                0 <= i < state.memory.len() && !(dest_ptr <= i < dest_ptr + written)
                    ==> after.state.memory[i] == state.memory[i]
            &&& after.state.request == state.request
            &&& after.state.response == state.response
            &&& after.state.traces == state.traces
        }),
{
    crate::memory::lemma_copy_is_truncating(state.memory, dest_ptr, dest_len, data);
}

/// The two-step protocol reads everything: a guest that asks for a length,
/// sets a buffer of exactly that length aside and asks for the data finds
/// all of the data in its buffer, for data shorter than 4 GiB.
pub proof fn lemma_two_step_protocol_reads_everything(
    state: HostState,
    dest_ptr: u32,
    data: Seq<u8>,
)
    requires
        data.len() <= u32::MAX,
        state.holds(dest_ptr, wire_len(data.len() as int)),
    ensures
        ({
            let len = wire_len(data.len() as int);
            let after = state.copy_out(dest_ptr, len, data);
            &&& len == data.len()
            &&& after.result == Ok::<Option<u32>, GatewayError>(Some(len))
            &&& after.state.bytes_at(dest_ptr, len) == data
        }),
{
    let len = wire_len(data.len() as int);
    let after = state.copy_out(dest_ptr, len, data);
    assert(data.subrange(0, data.len() as int) =~= data);
    assert(after.state.bytes_at(dest_ptr, len) =~= data);
}

} // verus!
