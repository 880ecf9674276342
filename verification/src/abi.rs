//! The binary contract between the host and a guest module: the request
//! methods and their tags, the numbered host functions with their import
//! names and signatures, and the values that cross the boundary.

use vstd::prelude::*;
use crate::text::str_eq;

verus! {

/// The namespace under which a guest imports every host function.
pub const HOST_NAMESPACE: &'static str = "env";

/// Name of the linear memory that a guest must export.
pub const MEMORY_EXPORT: &'static str = "memory";

/// Name of the entry point that a guest must export.
pub const ENTRY_EXPORT: &'static str = "handle";

/// The request methods that a guest can tell apart.
#[derive(Debug, Clone, Copy, PartialEq, Eq, Structural)]
pub enum Method {
    Get,
    Post,
    Put,
    Delete,
}

impl Method {
    /// The number that stands for this method on the guest's side.
    pub open spec fn tag_of(self) -> u32 {
        match self {
            Method::Get => 1,
            Method::Post => 2,
            Method::Put => 3,
            Method::Delete => 4,
        }
    }

    /// The method that a transport's method token stands for. A token other
    /// than `GET`, `POST`, `PUT` and `DELETE` is taken for `GET`.
    pub open spec fn of_token(token: Seq<char>) -> Method {
        if token == "POST"@ {
            Method::Post
        } else if token == "PUT"@ {
            Method::Put
        } else if token == "DELETE"@ {
            Method::Delete
        } else {
            Method::Get
        }
    }

    /// The method's name as the sample guest prints it.
    pub open spec fn name_of(self) -> Seq<char> {
        match self {
            Method::Get => "Get"@,
            Method::Post => "Post"@,
            Method::Put => "Put"@,
            Method::Delete => "Delete"@,
        }
    }

    /// The tag handed to the guest for this method: 1 to 4.
    pub fn tag(self) -> (tag: u32)
        ensures
            tag == self.tag_of(),
            1 <= tag <= 4,
    {
        match self {
            Method::Get => 1,
            Method::Post => 2,
            Method::Put => 3,
            Method::Delete => 4,
        }
    }

    /// The method that a tag stands for, if it is one of 1 to 4.
    pub fn from_tag(tag: u32) -> (method: Option<Method>)
        ensures
            method is Some <==> 1 <= tag <= 4,
            method matches Some(m) ==> m.tag_of() == tag,
    {
        if tag == 1 {
            Some(Method::Get)
        } else if tag == 2 {
            Some(Method::Post)
        } else if tag == 3 {
            Some(Method::Put)
        } else if tag == 4 {
            Some(Method::Delete)
        } else {
            None
        }
    }

    /// Reads a transport's method token. Any token but `POST`, `PUT` and
    /// `DELETE` gives `Get`.
    pub fn from_token(token: &str) -> (method: Method)
        ensures
            method == Method::of_token(token@),
    {
        if str_eq(token, "POST") {
            Method::Post
        } else if str_eq(token, "PUT") {
            Method::Put
        } else if str_eq(token, "DELETE") {
            Method::Delete
        } else {
            Method::Get
        }
    }

    /// The method's name: `Get`, `Post`, `Put` or `Delete`.
    pub fn name(self) -> (name: &'static str)
        ensures
            name@ == self.name_of(),
    {
        match self {
            Method::Get => "Get",
            Method::Post => "Post",
            Method::Put => "Put",
            Method::Delete => "Delete",
        }
    }
}

/// A tag and its method determine each other.
pub proof fn lemma_tag_round_trip(a: Method, b: Method)
    ensures
        a.tag_of() == b.tag_of() <==> a == b,
{
}

/// The type of a value that crosses the boundary.
#[derive(Debug, Clone, Copy, PartialEq, Eq, Structural)]
pub enum ValueKind {
    I32,
    I64,
    F32,
    F64,
}

/// A value that crosses the boundary, held as its bit pattern.
#[derive(Debug, Clone, Copy, PartialEq, Eq, Structural)]
pub enum GuestValue {
    I32(u32),
    I64(u64),
    F32(u32),
    F64(u64),
}

impl GuestValue {
    /// The type of this value.
    pub open spec fn kind_of(self) -> ValueKind {
        match self {
            GuestValue::I32(_) => ValueKind::I32,
            GuestValue::I64(_) => ValueKind::I64,
            GuestValue::F32(_) => ValueKind::F32,
            GuestValue::F64(_) => ValueKind::F64,
        }
    }

    /// The type of this value.
    pub fn kind(&self) -> (kind: ValueKind)
        ensures
            kind == self.kind_of(),
    {
        match self {
            GuestValue::I32(_) => ValueKind::I32,
            GuestValue::I64(_) => ValueKind::I64,
            GuestValue::F32(_) => ValueKind::F32,
            GuestValue::F64(_) => ValueKind::F64,
        }
    }
}

/// The argument at `index` as a 32-bit offset or size, if there is one and it
/// is a 32-bit integer.
pub open spec fn arg_at(args: Seq<GuestValue>, index: int) -> Option<u32> {
    if 0 <= index < args.len() {
        match args[index] {
            GuestValue::I32(v) => Some(v),
            _ => None,
        }
    } else {
        None
    }
}

/// Takes the argument at `index` as a 32-bit offset or size.
pub fn nth_arg(args: &[GuestValue], index: usize) -> (value: Option<u32>)
    ensures
        value == arg_at(args@, index as int),
{
    if index < args.len() {
        match args[index] {
            GuestValue::I32(v) => Some(v),
            _ => None,
        }
    } else {
        None
    }
}

/// The host functions that a guest may import, each in its fixed slot.
#[derive(Debug, Clone, Copy, PartialEq, Eq, Structural)]
pub enum HostFunction {
    GetRequestMethod,
    GetRequestUrl,
    GetRequestUrlLen,
    GetRequestHeader,
    GetRequestHeaderLen,
    GetRequestBody,
    GetRequestBodyLen,
    SetResponseStatus,
    SetResponseHeader,
    SetResponseBody,
    Trace,
}

/// Number of host functions.
pub const HOST_FUNCTION_COUNT: usize = 11;

impl HostFunction {
    /// The slot of this host function.
    pub open spec fn slot_of(self) -> int {
        match self {
            HostFunction::GetRequestMethod => 0,
            HostFunction::GetRequestUrl => 1,
            HostFunction::GetRequestUrlLen => 2,
            HostFunction::GetRequestHeader => 3,
            HostFunction::GetRequestHeaderLen => 4,
            HostFunction::GetRequestBody => 5,
            HostFunction::GetRequestBodyLen => 6,
            HostFunction::SetResponseStatus => 7,
            HostFunction::SetResponseHeader => 8,
            HostFunction::SetResponseBody => 9,
            HostFunction::Trace => 10,
        }
    }

    /// The host function in a slot, if the slot holds one.
    pub open spec fn at_slot(slot: int) -> Option<HostFunction> {
        if slot == 0 {
            Some(HostFunction::GetRequestMethod)
        } else if slot == 1 {
            Some(HostFunction::GetRequestUrl)
        } else if slot == 2 {
            Some(HostFunction::GetRequestUrlLen)
        } else if slot == 3 {
            Some(HostFunction::GetRequestHeader)
        } else if slot == 4 {
            Some(HostFunction::GetRequestHeaderLen)
        } else if slot == 5 {
            Some(HostFunction::GetRequestBody)
        } else if slot == 6 {
            Some(HostFunction::GetRequestBodyLen)
        } else if slot == 7 {
            Some(HostFunction::SetResponseStatus)
        } else if slot == 8 {
            Some(HostFunction::SetResponseHeader)
        } else if slot == 9 {
            Some(HostFunction::SetResponseBody)
        } else if slot == 10 {
            Some(HostFunction::Trace)
        } else {
            None
        }
    }

    /// The name under which a guest imports this host function.
    pub open spec fn import_name_of(self) -> Seq<char> {
        match self {
            HostFunction::GetRequestMethod => "_get_request_method"@,
            HostFunction::GetRequestUrl => "_get_request_url"@,
            HostFunction::GetRequestUrlLen => "_get_request_url_len"@,
            HostFunction::GetRequestHeader => "_get_request_header"@,
            HostFunction::GetRequestHeaderLen => "_get_request_header_len"@,
            HostFunction::GetRequestBody => "_get_request_body"@,
            HostFunction::GetRequestBodyLen => "_get_request_body_len"@,
            HostFunction::SetResponseStatus => "_set_response_status"@,
            HostFunction::SetResponseHeader => "_set_response_header"@,
            HostFunction::SetResponseBody => "_set_response_body"@,
            HostFunction::Trace => "_trace"@,
        }
    }

    /// Number of parameters of this host function. Each is a 32-bit integer.
    pub open spec fn param_count_of(self) -> nat {
        match self {
            HostFunction::GetRequestMethod => 0,
            HostFunction::GetRequestUrl => 2,
            HostFunction::GetRequestUrlLen => 0,
            HostFunction::GetRequestHeader => 4,
            HostFunction::GetRequestHeaderLen => 2,
            HostFunction::GetRequestBody => 2,
            HostFunction::GetRequestBodyLen => 0,
            HostFunction::SetResponseStatus => 1,
            HostFunction::SetResponseHeader => 4,
            HostFunction::SetResponseBody => 2,
            HostFunction::Trace => 2,
        }
    }

    /// Whether this host function returns a 32-bit integer. The others
    /// return nothing.
    pub open spec fn returns_value_of(self) -> bool {
        match self {
            HostFunction::GetRequestMethod => true,
            HostFunction::GetRequestUrl => true,
            HostFunction::GetRequestUrlLen => true,
            HostFunction::GetRequestHeader => true,
            HostFunction::GetRequestHeaderLen => true,
            HostFunction::GetRequestBody => true,
            HostFunction::GetRequestBodyLen => true,
            HostFunction::SetResponseStatus => false,
            HostFunction::SetResponseHeader => false,
            HostFunction::SetResponseBody => false,
            HostFunction::Trace => false,
        }
    }

    /// Whether a signature is the one of this host function.
    pub open spec fn accepts(self, params: Seq<ValueKind>, result: Option<ValueKind>) -> bool {
        &&& params.len() == self.param_count_of()
        &&& forall|i: int| 0 <= i < params.len() ==> params[i] == ValueKind::I32
        &&& result == if self.returns_value_of() {
            Some(ValueKind::I32)
        } else {
            None::<ValueKind>
        }
    }

    /// The slot of this host function, 0 to 10.
    pub fn slot(self) -> (slot: usize)
        ensures
            slot == self.slot_of(),
            slot < HOST_FUNCTION_COUNT,
    {
        match self {
            HostFunction::GetRequestMethod => 0,
            HostFunction::GetRequestUrl => 1,
            HostFunction::GetRequestUrlLen => 2,
            HostFunction::GetRequestHeader => 3,
            HostFunction::GetRequestHeaderLen => 4,
            HostFunction::GetRequestBody => 5,
            HostFunction::GetRequestBodyLen => 6,
            HostFunction::SetResponseStatus => 7,
            HostFunction::SetResponseHeader => 8,
            HostFunction::SetResponseBody => 9,
            HostFunction::Trace => 10,
        }
    }

    /// The host function in a slot. Slots from 11 on hold none.
    pub fn from_slot(slot: usize) -> (function: Option<HostFunction>)
        ensures
            function == HostFunction::at_slot(slot as int),
            function is Some <==> slot < HOST_FUNCTION_COUNT,
    {
        if slot == 0 {
            Some(HostFunction::GetRequestMethod)
        } else if slot == 1 {
            Some(HostFunction::GetRequestUrl)
        } else if slot == 2 {
            Some(HostFunction::GetRequestUrlLen)
        } else if slot == 3 {
            Some(HostFunction::GetRequestHeader)
        } else if slot == 4 {
            Some(HostFunction::GetRequestHeaderLen)
        } else if slot == 5 {
            Some(HostFunction::GetRequestBody)
        } else if slot == 6 {
            Some(HostFunction::GetRequestBodyLen)
        } else if slot == 7 {
            Some(HostFunction::SetResponseStatus)
        } else if slot == 8 {
            Some(HostFunction::SetResponseHeader)
        } else if slot == 9 {
            Some(HostFunction::SetResponseBody)
        } else if slot == 10 {
            Some(HostFunction::Trace)
        } else {
            None
        }
    }

    /// The name under which a guest imports this host function.
    pub fn import_name(self) -> (name: &'static str)
        ensures
            name@ == self.import_name_of(),
    {
        match self {
            HostFunction::GetRequestMethod => "_get_request_method",
            HostFunction::GetRequestUrl => "_get_request_url",
            HostFunction::GetRequestUrlLen => "_get_request_url_len",
            HostFunction::GetRequestHeader => "_get_request_header",
            HostFunction::GetRequestHeaderLen => "_get_request_header_len",
            HostFunction::GetRequestBody => "_get_request_body",
            HostFunction::GetRequestBodyLen => "_get_request_body_len",
            HostFunction::SetResponseStatus => "_set_response_status",
            HostFunction::SetResponseHeader => "_set_response_header",
            HostFunction::SetResponseBody => "_set_response_body",
            HostFunction::Trace => "_trace",
        }
    }

    /// Number of parameters of this host function.
    pub fn param_count(self) -> (count: usize)
        ensures
            count == self.param_count_of(),
    {
        match self {
            HostFunction::GetRequestMethod => 0,
            HostFunction::GetRequestUrl => 2,
            HostFunction::GetRequestUrlLen => 0,
            HostFunction::GetRequestHeader => 4,
            HostFunction::GetRequestHeaderLen => 2,
            HostFunction::GetRequestBody => 2,
            HostFunction::GetRequestBodyLen => 0,
            HostFunction::SetResponseStatus => 1,
            HostFunction::SetResponseHeader => 4,
            HostFunction::SetResponseBody => 2,
            HostFunction::Trace => 2,
        }
    }

    /// Whether this host function returns a value.
    pub fn returns_value(self) -> (has_result: bool)
        ensures
            has_result == self.returns_value_of(),
    {
        match self {
            HostFunction::SetResponseStatus => false,
            HostFunction::SetResponseHeader => false,
            HostFunction::SetResponseBody => false,
            HostFunction::Trace => false,
            _ => true,
        }
    }

    /// Finds the host function that a guest imports under `name`.
    pub fn lookup(name: &str) -> (function: Option<HostFunction>)
        ensures
            function matches Some(f) ==> f.import_name_of() == name@,
            function is None ==> forall|f: HostFunction| #[trigger] f.import_name_of() != name@,
    {
        let mut slot: usize = 0;
        while slot < HOST_FUNCTION_COUNT
            invariant
                slot <= HOST_FUNCTION_COUNT,
                forall|f: HostFunction| f.slot_of() < slot ==> #[trigger] f.import_name_of() != name@,
            decreases HOST_FUNCTION_COUNT - slot,
        {
            match HostFunction::from_slot(slot) {
                Some(f) => {
                    if str_eq(f.import_name(), name) {
                        return Some(f);
                    }
                    proof {
                        lemma_slot_round_trip(f);
                        assert forall|g: HostFunction| g.slot_of() < slot + 1 implies
                            #[trigger] g.import_name_of() != name@ by {
                            lemma_slot_round_trip(g);
                        }
                    }
                },
                None => {},
            }
            slot += 1;
        }
        None
    }
}

/// A slot and its host function determine each other.
pub proof fn lemma_slot_round_trip(f: HostFunction)
    ensures
        0 <= f.slot_of() < HOST_FUNCTION_COUNT,
        HostFunction::at_slot(f.slot_of()) == Some(f),
{
}

/// No two host functions share an import name.
pub proof fn lemma_import_names_distinct(f: HostFunction, g: HostFunction)
    requires
        f.import_name_of() == g.import_name_of(),
    ensures
        f == g,
{
    reveal_strlit("_get_request_method");
    reveal_strlit("_get_request_url");
    reveal_strlit("_get_request_url_len");
    reveal_strlit("_get_request_header");
    reveal_strlit("_get_request_header_len");
    reveal_strlit("_get_request_body");
    reveal_strlit("_get_request_body_len");
    reveal_strlit("_set_response_status");
    reveal_strlit("_set_response_header");
    reveal_strlit("_set_response_body");
    reveal_strlit("_trace");
    let a = f.import_name_of();
    let b = g.import_name_of();
    assert(a.len() == b.len());
    if a.len() == 19 {
        assert(a[13] == b[13]);
    } else if a.len() == 20 {
        assert(a[1] == b[1]);
        assert(a[14] == b[14]);
    }
}

} // verus!
