//! Resolution of a module's imports against the host functions.
//!
//! A module may import the eleven host functions from the namespace `env`,
//! each as a function of its own signature, and nothing else.

use vstd::prelude::*;
use vstd::string::*;
use wasmi::{FuncInstance, FuncRef, Signature, ValueType};
use crate::abi::{lemma_import_names_distinct, HostFunction, ValueKind, HOST_NAMESPACE};
use crate::error::GatewayError;
use crate::text::str_eq;

verus! {

/// `wasmi::FuncRef`: a handle to a function that a module can call.
#[verifier::external_type_specification]
#[verifier::external_body]
pub struct ExFuncRef(FuncRef);

/// `wasmi::FuncInstance::alloc_host` on a signature made by
/// `wasmi::Signature::new`: makes the function that the engine hands to a
/// module for an import. When the module calls it, the engine calls the
/// host's dispatcher with `slot`. Nothing is claimed of the handle.
#[verifier::external_body]
fn engine_host_function(params: &[ValueKind], result: Option<ValueKind>, slot: usize) -> FuncRef {
    let convert = |kind: &ValueKind| match kind {
        ValueKind::I32 => ValueType::I32,
        ValueKind::I64 => ValueType::I64,
        ValueKind::F32 => ValueType::F32,
        ValueKind::F64 => ValueType::F64,
    };
    let types: Vec<ValueType> = params.iter().map(convert).collect();
    FuncInstance::alloc_host(Signature::new(types, result.as_ref().map(convert)), slot)
}

/// Whether `name` is the import name of a host function.
pub open spec fn is_host_function_name(name: Seq<char>) -> bool {
    exists|f: HostFunction| #[trigger] f.import_name_of() == name
}

/// Finds the host function behind a function import.
///
/// A name that no host function carries is refused with `UnresolvedImport`
/// and the name; a host function asked for under a signature that is not its
/// own is refused with `ImportTypeMismatch`.
pub fn resolve_host_function(
    field_name: &str,
    params: &[ValueKind],
    result: Option<ValueKind>,
) -> (found: Result<HostFunction, GatewayError>)
    ensures
        match found {
            Ok(f) => f.import_name_of() == field_name@ && f.accepts(params@, result),
            Err(GatewayError::UnresolvedImport(name)) => name@ == field_name@
                && !is_host_function_name(field_name@),
            Err(GatewayError::ImportTypeMismatch) => exists|f: HostFunction|
                #[trigger] f.import_name_of() == field_name@ && !f.accepts(params@, result),
            Err(_) => false,
        },
{
    let function = match HostFunction::lookup(field_name) {
        Some(function) => function,
        None => {
            return Err(GatewayError::UnresolvedImport(String::from_str(field_name)));
        },
    };
    if params.len() != function.param_count() {
        return Err(GatewayError::ImportTypeMismatch);
    }
    let mut i: usize = 0;
    while i < params.len()
        invariant
            i <= params.len(),
            function.import_name_of() == field_name@,
            forall|k: int| 0 <= k < i ==> params@[k] == ValueKind::I32,
        decreases params.len() - i,
    {
        match params[i] {
            ValueKind::I32 => {},
            _ => {
                assert(params@[i as int] != ValueKind::I32);
                return Err(GatewayError::ImportTypeMismatch);
            },
        }
        i += 1;
    }
    let fits = match result {
        Some(ValueKind::I32) => function.returns_value(),
        Some(_) => false,
        None => !function.returns_value(),
    };
    if fits {
        Ok(function)
    } else {
        Err(GatewayError::ImportTypeMismatch)
    }
}

/// The refusal of a module that imports `field_name` as anything but a
/// function: `ImportTypeMismatch` if a host function carries the name, else
/// `UnresolvedImport` with the name.
pub fn refuse_import(field_name: &str) -> (error: GatewayError)
    ensures
        match error {
            GatewayError::UnresolvedImport(name) => name@ == field_name@
                && !is_host_function_name(field_name@),
            GatewayError::ImportTypeMismatch => is_host_function_name(field_name@),
            _ => false,
        },
{
    match HostFunction::lookup(field_name) {
        Some(_) => GatewayError::ImportTypeMismatch,
        None => GatewayError::UnresolvedImport(String::from_str(field_name)),
    }
}

/// Resolves the imports of the namespace `env`.
#[derive(Debug, Clone, Copy)]
pub struct EnvModuleResolver;

impl EnvModuleResolver {
    /// Resolves a function import: hands the engine the host function of
    /// that name, bound to its slot. Succeeds for the eleven host functions
    /// under their own signatures and for nothing else.
    pub fn resolve_func(
        &self,
        field_name: &str,
        params: &[ValueKind],
        result: Option<ValueKind>,
    ) -> (resolved: Result<FuncRef, GatewayError>)
        ensures
            resolved is Ok <==> exists|f: HostFunction|
                #[trigger] f.import_name_of() == field_name@ && f.accepts(params@, result),
            resolved matches Err(e) ==> match e {
                GatewayError::UnresolvedImport(name) => name@ == field_name@
                    && !is_host_function_name(field_name@),
                GatewayError::ImportTypeMismatch => is_host_function_name(field_name@),
                _ => false,
            },
    {
        match resolve_host_function(field_name, params, result) {
            Ok(function) => Ok(engine_host_function(params, result, function.slot())),
            Err(error) => {
                proof {
                    if error is ImportTypeMismatch {
                        let g = choose|g: HostFunction|
                            #[trigger] g.import_name_of() == field_name@ && !g.accepts(
                                params@,
                                result,
                            );
                        assert forall|f: HostFunction|
                            #[trigger] f.import_name_of() == field_name@ implies !f.accepts(
                            params@,
                            result,
                        ) by {
                            lemma_import_names_distinct(f, g);
                        }
                    }
                }
                Err(error)
            },
        }
    }

    /// Refuses a global import: the host offers no globals.
    pub fn resolve_global(&self, field_name: &str) -> (error: GatewayError)
        ensures
            match error {
                GatewayError::UnresolvedImport(name) => name@ == field_name@
                    && !is_host_function_name(field_name@),
                GatewayError::ImportTypeMismatch => is_host_function_name(field_name@),
                _ => false,
            },
    {
        refuse_import(field_name)
    }

    /// Refuses a memory import: the guest brings its own memory.
    pub fn resolve_memory(&self, field_name: &str) -> (error: GatewayError)
        ensures
            match error {
                GatewayError::UnresolvedImport(name) => name@ == field_name@
                    && !is_host_function_name(field_name@),
                GatewayError::ImportTypeMismatch => is_host_function_name(field_name@),
                _ => false,
            },
    {
        refuse_import(field_name)
    }

    /// Refuses a table import: the host offers no tables.
    pub fn resolve_table(&self, field_name: &str) -> (error: GatewayError)
        ensures
            match error {
                GatewayError::UnresolvedImport(name) => name@ == field_name@
                    && !is_host_function_name(field_name@),
                GatewayError::ImportTypeMismatch => is_host_function_name(field_name@),
                _ => false,
            },
    {
        refuse_import(field_name)
    }
}

/// Whether the host offers anything under the name `field_name` of the
/// namespace `module_name`: only host functions, and only in `env`.
pub open spec fn is_offered(module_name: Seq<char>, field_name: Seq<char>) -> bool {
    module_name == HOST_NAMESPACE@ && is_host_function_name(field_name)
}

/// Resolves a function import of any namespace. Only `env` holds anything:
/// an import from another namespace is refused with `UnresolvedImport` and
/// the name, one from `env` is resolved as
/// [`EnvModuleResolver::resolve_func`] does.
pub fn resolve_function_import(
    module_name: &str,
    field_name: &str,
    params: &[ValueKind],
    result: Option<ValueKind>,
) -> (resolved: Result<FuncRef, GatewayError>)
    ensures
        resolved is Ok <==> module_name@ == HOST_NAMESPACE@ && exists|f: HostFunction|
            #[trigger] f.import_name_of() == field_name@ && f.accepts(params@, result),
        resolved matches Err(e) ==> match e {
            GatewayError::UnresolvedImport(name) => name@ == field_name@ && !is_offered(
                module_name@,
                field_name@,
            ),
            GatewayError::ImportTypeMismatch => is_offered(module_name@, field_name@),
            _ => false,
        },
{
    if str_eq(module_name, HOST_NAMESPACE) {
        EnvModuleResolver.resolve_func(field_name, params, result)
    } else {
        Err(GatewayError::UnresolvedImport(String::from_str(field_name)))
    }
}

/// Refuses an import of a global, a memory or a table of any namespace:
/// with `ImportTypeMismatch` if the name is that of a host function in
/// `env`, else with `UnresolvedImport` and the name.
pub fn refuse_other_import(module_name: &str, field_name: &str) -> (error: GatewayError)
    ensures
        match error {
            GatewayError::UnresolvedImport(name) => name@ == field_name@ && !is_offered(
                module_name@,
                field_name@,
            ),
            GatewayError::ImportTypeMismatch => is_offered(module_name@, field_name@),
            _ => false,
        },
{
    if str_eq(module_name, HOST_NAMESPACE) {
        refuse_import(field_name)
    } else {
        GatewayError::UnresolvedImport(String::from_str(field_name))
    }
}

/// An import under a name outside the eleven is never resolved, whatever
/// signature it asks for; and only the eleven names are ever resolved.
pub proof fn lemma_only_host_functions_resolve(
    name: Seq<char>,
    params: Seq<ValueKind>,
    result: Option<ValueKind>,
)
    ensures
        (exists|f: HostFunction| #[trigger] f.import_name_of() == name && f.accepts(params, result))
            ==> is_host_function_name(name),
        is_host_function_name(name) <==> name == "_get_request_method"@ || name
            == "_get_request_url"@ || name == "_get_request_url_len"@ || name
            == "_get_request_header"@ || name == "_get_request_header_len"@ || name
            == "_get_request_body"@ || name == "_get_request_body_len"@ || name
            == "_set_response_status"@ || name == "_set_response_header"@ || name
            == "_set_response_body"@ || name == "_trace"@,
{
    if is_host_function_name(name) {
        let f = choose|f: HostFunction| #[trigger] f.import_name_of() == name;
        assert(f.import_name_of() == name);
    }
    if name == "_get_request_method"@ {
        assert(HostFunction::GetRequestMethod.import_name_of() == name);
    }
    if name == "_get_request_url"@ {
        assert(HostFunction::GetRequestUrl.import_name_of() == name);
    }
    if name == "_get_request_url_len"@ {
        assert(HostFunction::GetRequestUrlLen.import_name_of() == name);
    }
    if name == "_get_request_header"@ {
        assert(HostFunction::GetRequestHeader.import_name_of() == name);
    }
    if name == "_get_request_header_len"@ {
        assert(HostFunction::GetRequestHeaderLen.import_name_of() == name);
    }
    if name == "_get_request_body"@ {
        assert(HostFunction::GetRequestBody.import_name_of() == name);
    }
    if name == "_get_request_body_len"@ {
        assert(HostFunction::GetRequestBodyLen.import_name_of() == name);
    }
    if name == "_set_response_status"@ {
        assert(HostFunction::SetResponseStatus.import_name_of() == name);
    }
    if name == "_set_response_header"@ {
        assert(HostFunction::SetResponseHeader.import_name_of() == name);
    }
    if name == "_set_response_body"@ {
        assert(HostFunction::SetResponseBody.import_name_of() == name);
    }
    if name == "_trace"@ {
        assert(HostFunction::Trace.import_name_of() == name);
    }
}

} // verus!
