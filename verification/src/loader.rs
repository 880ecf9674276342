//! Loading of a guest module: parsing its bytes and holding the instance
//! that the engine made of it against what a guest must export.

use vstd::prelude::*;
use wasmi::{ExternVal, MemoryRef, Module, ModuleRef, ValueType};
use crate::abi::{ValueKind, ENTRY_EXPORT, MEMORY_EXPORT};
use crate::error::GatewayError;

verus! {

/// `wasmi::Module`: a module that was parsed and validated and can be
/// instantiated.
#[verifier::external_type_specification]
#[verifier::external_body]
pub struct ExModule(Module);

/// `wasmi::ModuleRef`: a handle to an instance of a module.
#[verifier::external_type_specification]
#[verifier::external_body]
pub struct ExModuleRef(ModuleRef);

/// Whether the engine takes `bytes` for a valid module.
pub uninterp spec fn is_valid_module(bytes: Seq<u8>) -> bool;

/// `wasmi::Module::from_buffer`: parses and validates a module. Whether the
/// engine accepts the bytes depends on the bytes alone.
#[verifier::external_body]
fn engine_parse(bytes: &[u8]) -> (parsed: Result<Module, wasmi::Error>)
    ensures
        parsed is Ok == is_valid_module(bytes@),
{
    Module::from_buffer(bytes)
}

/// Parses the fetched bytes into a module.
pub fn parse_module(bytes: &[u8]) -> (parsed: Result<Module, GatewayError>)
    ensures
        parsed is Ok <==> is_valid_module(bytes@),
        parsed matches Err(e) ==> e == GatewayError::ModuleParseFailed,
{
    match engine_parse(bytes) {
        Ok(module) => Ok(module),
        Err(_) => Err(GatewayError::ModuleParseFailed),
    }
}

/// What a module exports under one name, as mathematical values.
pub enum ExportKind {
    /// A function with its parameter types and its result type.
    Function(Seq<ValueKind>, Option<ValueKind>),
    Memory,
    Table,
    Global,
}

/// What an instance exports under one name.
pub enum Export {
    /// A function with its parameter types and its result type.
    Function(Vec<ValueKind>, Option<ValueKind>),
    /// A linear memory.
    Memory(MemoryRef),
    Table,
    Global,
}

impl View for Export {
    type V = ExportKind;

    open spec fn view(&self) -> ExportKind {
        match self {
            Export::Function(params, result) => ExportKind::Function(params@, *result),
            Export::Memory(_) => ExportKind::Memory,
            Export::Table => ExportKind::Table,
            Export::Global => ExportKind::Global,
        }
    }
}

/// The exports of an instance, each kind under its name.
pub uninterp spec fn exports_of(instance: ModuleRef) -> Map<Seq<char>, ExportKind>;

/// `wasmi::ModuleInstance::export_by_name`: looks an export up by its name.
/// The engine answers with what the instance exports under the name, and
/// with nothing if it exports nothing under it. A memory comes with its
/// handle; a function is described by the parameter types and the result
/// type that `wasmi::FuncInstance::signature` gives for it.
#[verifier::external_body]
fn engine_export(instance: &ModuleRef, name: &str) -> (export: Option<Export>)
    ensures
        export is Some <==> exports_of(*instance).contains_key(name@),
        export matches Some(e) ==> exports_of(*instance)[name@] == e@,
{
    let kind = |t: &ValueType| match t {
        ValueType::I32 => ValueKind::I32,
        ValueType::I64 => ValueKind::I64,
        ValueType::F32 => ValueKind::F32,
        ValueType::F64 => ValueKind::F64,
    };
    instance.export_by_name(name).map(|value| match value {
        ExternVal::Func(f) => Export::Function(f.signature().params().iter().map(kind).collect(), f.signature().return_type().as_ref().map(kind)),
        ExternVal::Memory(memory) => Export::Memory(memory),
        ExternVal::Table(_) => Export::Table,
        ExternVal::Global(_) => Export::Global,
    })
}

/// Whether an export is a function without parameters and without a result.
pub open spec fn is_entry_point(export: Option<ExportKind>) -> bool {
    export matches Some(ExportKind::Function(params, result)) && params.len() == 0
        && result is None
}

/// What is wrong, if anything, with an instance that exports `memory` and
/// `entry` under the names `memory` and `handle`: a start function of its
/// own, no memory, or no entry point without parameters and result.
pub open spec fn export_fault(
    has_start: bool,
    memory: Option<ExportKind>,
    entry: Option<ExportKind>,
) -> Option<GatewayError> {
    if has_start {
        Some(GatewayError::MissingOrMalformedEntryPoint)
    } else if memory != Some(ExportKind::Memory) {
        Some(GatewayError::MissingMemoryExport)
    } else if !is_entry_point(entry) {
        Some(GatewayError::MissingOrMalformedEntryPoint)
    } else {
        None
    }
}

/// The view of an export that may be missing.
pub open spec fn kind_of(export: Option<Export>) -> Option<ExportKind> {
    match export {
        Some(e) => Some(e@),
        None => None,
    }
}

/// Holds what an instance exports under `memory` and `handle` against what a
/// guest must export, and hands out the guest's memory.
///
/// A module with a start function is refused: a guest must be runnable
/// without one. Then the memory is looked at, then the entry point.
pub fn check_exports(
    has_start: bool,
    memory: Option<Export>,
    entry: Option<Export>,
) -> (checked: Result<MemoryRef, GatewayError>)
    ensures
        checked is Ok <==> export_fault(has_start, kind_of(memory), kind_of(entry)) is None,
        checked matches Ok(handle) ==> memory == Some(Export::Memory(handle)),
        checked matches Err(e) ==> export_fault(has_start, kind_of(memory), kind_of(entry))
            == Some(e),
{
    if has_start {
        return Err(GatewayError::MissingOrMalformedEntryPoint);
    }
    let handle = match memory {
        Some(Export::Memory(handle)) => handle,
        _ => {
            return Err(GatewayError::MissingMemoryExport);
        },
    };
    match entry {
        Some(Export::Function(params, result)) => {
            if params.len() == 0 && result.is_none() {
                Ok(handle)
            } else {
                Err(GatewayError::MissingOrMalformedEntryPoint)
            }
        },
        _ => Err(GatewayError::MissingOrMalformedEntryPoint),
    }
}

/// Checks an instance that the engine made: it must bring no start function,
/// export a linear memory as `memory` and export a function without
/// parameters and result as `handle`. Hands out the memory.
pub fn validate_instance(instance: &ModuleRef, has_start: bool) -> (checked: Result<
    MemoryRef,
    GatewayError,
>)
    ensures
        checked is Ok <==> export_fault(
            has_start,
            exports_of(*instance).get(MEMORY_EXPORT@),
            exports_of(*instance).get(ENTRY_EXPORT@),
        ) is None,
        checked matches Err(e) ==> export_fault(
            has_start,
            exports_of(*instance).get(MEMORY_EXPORT@),
            exports_of(*instance).get(ENTRY_EXPORT@),
        ) == Some(e),
{
    let memory = engine_export(instance, MEMORY_EXPORT);
    let entry = engine_export(instance, ENTRY_EXPORT);
    check_exports(has_start, memory, entry)
}

} // verus!
