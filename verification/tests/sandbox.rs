use std::cell::RefCell;
use std::fmt;

use ens_gateway::abi::{GuestValue, HostFunction, Method, ValueKind};
use ens_gateway::error::GatewayError;
use ens_gateway::host::{HostAbiDispatcher, TraceMessage};
use ens_gateway::hostname::SuffixRewrite;
use ens_gateway::imports::{
    refuse_import, refuse_other_import, resolve_function_import, resolve_host_function,
    EnvModuleResolver,
};
use ens_gateway::loader::{check_exports, parse_module, validate_instance, Export};
use ens_gateway::pipeline::{Action, Event, PipelineState, RequestPipeline, Stage};
use ens_gateway::request::{RequestHeader, RequestSnapshot};
use ens_gateway::response::{HttpResponse, ResponseHeader};
use wasmi::memory_units::Pages;
use wasmi::{
    Externals, FuncRef, GlobalDescriptor, GlobalRef, HostError, ImportResolver, MemoryDescriptor,
    MemoryInstance, MemoryRef, ModuleInstance, RuntimeArgs, RuntimeValue, Signature,
    TableDescriptor, TableRef, Trap, TrapKind, ValueType,
};

// ---- what surrounds the library in a running gateway ----

fn kind(value_type: ValueType) -> ValueKind {
    match value_type {
        ValueType::I32 => ValueKind::I32,
        ValueType::I64 => ValueKind::I64,
        ValueType::F32 => ValueKind::F32,
        ValueType::F64 => ValueKind::F64,
    }
}

struct Imports {
    refused: RefCell<Option<GatewayError>>,
}

impl Imports {
    fn new() -> Imports {
        Imports { refused: RefCell::new(None) }
    }

    fn refuse(&self, error: GatewayError) -> wasmi::Error {
        let message = format!("{:?}", error);
        *self.refused.borrow_mut() = Some(error);
        wasmi::Error::Instantiation(message)
    }
}

impl ImportResolver for Imports {
    fn resolve_func(
        &self,
        module_name: &str,
        field_name: &str,
        signature: &Signature,
    ) -> Result<FuncRef, wasmi::Error> {
        let params: Vec<ValueKind> = signature.params().iter().map(|t| kind(*t)).collect();
        let result = signature.return_type().map(kind);
        resolve_function_import(module_name, field_name, &params, result)
            .map_err(|e| self.refuse(e))
    }

    fn resolve_global(
        &self,
        module_name: &str,
        field_name: &str,
        _descriptor: &GlobalDescriptor,
    ) -> Result<GlobalRef, wasmi::Error> {
        Err(self.refuse(refuse_other_import(module_name, field_name)))
    }

    fn resolve_memory(
        &self,
        module_name: &str,
        field_name: &str,
        _descriptor: &MemoryDescriptor,
    ) -> Result<MemoryRef, wasmi::Error> {
        Err(self.refuse(refuse_other_import(module_name, field_name)))
    }

    fn resolve_table(
        &self,
        module_name: &str,
        field_name: &str,
        _descriptor: &TableDescriptor,
    ) -> Result<TableRef, wasmi::Error> {
        Err(self.refuse(refuse_other_import(module_name, field_name)))
    }
}

#[derive(Debug)]
struct HostTrap(GatewayError);

impl fmt::Display for HostTrap {
    fn fmt(&self, f: &mut fmt::Formatter) -> fmt::Result {
        f.write_str(&format!("{:?}", self.0))
    }
}

impl HostError for HostTrap {}

struct Host(HostAbiDispatcher);

impl Externals for Host {
    fn invoke_index(
        &mut self,
        index: usize,
        args: RuntimeArgs,
    ) -> Result<Option<RuntimeValue>, Trap> {
        let values: Vec<GuestValue> = args
            .as_ref()
            .iter()
            .map(|value| match value {
                RuntimeValue::I32(v) => GuestValue::I32(*v as u32),
                RuntimeValue::I64(v) => GuestValue::I64(*v as u64),
                RuntimeValue::F32(v) => GuestValue::F32(v.to_bits()),
                RuntimeValue::F64(v) => GuestValue::F64(v.to_bits()),
            })
            .collect();
        match self.0.invoke_index(index, &values) {
            Ok(value) => Ok(value.map(|v| RuntimeValue::I32(v as i32))),
            Err(error) => Err(Trap::new(TrapKind::Host(Box::new(HostTrap(error))))),
        }
    }
}

fn load(bytes: &[u8]) -> Result<(wasmi::ModuleRef, MemoryRef), GatewayError> {
    let module = parse_module(bytes)?;
    let imports = Imports::new();
    let not_started = match ModuleInstance::new(&module, &imports) {
        Ok(not_started) => not_started,
        Err(_) => {
            return Err(imports.refused.borrow_mut().take().unwrap_or(GatewayError::ModuleParseFailed));
        }
    };
    let has_start = not_started.has_start();
    let instance = not_started.not_started_instance().clone();
    let memory = validate_instance(&instance, has_start)?;
    Ok((instance, memory))
}

enum Run {
    Returned(HostAbiDispatcher),
    Trapped(Option<GatewayError>),
}

fn run(bytes: &[u8], request: RequestSnapshot) -> Result<Run, GatewayError> {
    let (instance, memory) = load(bytes)?;
    let mut host = Host(HostAbiDispatcher::new(memory, request));
    match instance.invoke_export("handle", &[], &mut host) {
        Ok(None) => Ok(Run::Returned(host.0)),
        Ok(Some(_)) => Ok(Run::Trapped(None)),
        Err(error) => Ok(Run::Trapped(
            error.as_host_error().and_then(|e| e.downcast_ref::<HostTrap>()).map(|t| t.0.clone()),
        )),
    }
}

// ---- a small assembler for guest modules ----

fn uleb(mut n: u32) -> Vec<u8> {
    let mut out = Vec::new();
    loop {
        let byte = (n & 0x7f) as u8;
        n >>= 7;
        if n == 0 {
            out.push(byte);
            return out;
        }
        out.push(byte | 0x80);
    }
}

fn sleb(mut n: i64) -> Vec<u8> {
    let mut out = Vec::new();
    loop {
        let byte = (n & 0x7f) as u8;
        n >>= 7;
        if (n == 0 && byte & 0x40 == 0) || (n == -1 && byte & 0x40 != 0) {
            out.push(byte);
            return out;
        }
        out.push(byte | 0x80);
    }
}

fn name(text: &str) -> Vec<u8> {
    let mut out = uleb(text.len() as u32);
    out.extend_from_slice(text.as_bytes());
    out
}

fn vector(items: Vec<Vec<u8>>) -> Vec<u8> {
    let mut out = uleb(items.len() as u32);
    for item in items {
        out.extend(item);
    }
    out
}

fn section(id: u8, payload: Vec<u8>) -> Vec<u8> {
    let mut out = vec![id];
    out.extend(uleb(payload.len() as u32));
    out.extend(payload);
    out
}

const I32: u8 = 0x7f;
const I64: u8 = 0x7e;

fn i32_const(value: i32) -> Vec<u8> {
    let mut out = vec![0x41];
    out.extend(sleb(value as i64));
    out
}

fn call(function: u32) -> Vec<u8> {
    let mut out = vec![0x10];
    out.extend(uleb(function));
    out
}

fn code(parts: Vec<Vec<u8>>) -> Vec<u8> {
    parts.into_iter().flatten().collect()
}

#[derive(Default)]
struct Guest {
    types: Vec<(Vec<u8>, Vec<u8>)>,
    imports: Vec<(String, String, Vec<u8>)>,
    functions: Vec<(u32, Vec<u8>)>,
    memory_pages: Option<u32>,
    globals: u32,
    exports: Vec<(String, u8, u32)>,
    start: Option<u32>,
    data: Vec<(u32, Vec<u8>)>,
}

impl Guest {
    fn signature(&mut self, params: &[u8], results: &[u8]) -> u32 {
        self.types.push((params.to_vec(), results.to_vec()));
        (self.types.len() - 1) as u32
    }

    fn import_function(&mut self, module: &str, field: &str, params: &[u8], results: &[u8]) -> u32 {
        let index = self.signature(params, results);
        let mut desc = vec![0x00];
        desc.extend(uleb(index));
        self.imports.push((module.to_string(), field.to_string(), desc));
        (self.imports.len() - 1) as u32
    }

    fn import_host(&mut self, function: HostFunction) -> u32 {
        let params = vec![I32; function.param_count()];
        let results = if function.returns_value() { vec![I32] } else { vec![] };
        self.import_function("env", function.import_name(), &params, &results)
    }

    fn function(&mut self, params: &[u8], results: &[u8], body: Vec<u8>) -> u32 {
        let index = self.signature(params, results);
        self.functions.push((index, body));
        let imported = self.imports.iter().filter(|(_, _, desc)| desc[0] == 0x00).count();
        (imported + self.functions.len() - 1) as u32
    }

    fn export(&mut self, field: &str, kind: u8, index: u32) {
        self.exports.push((field.to_string(), kind, index));
    }

    fn bytes(&self) -> Vec<u8> {
        let mut out = vec![0x00, 0x61, 0x73, 0x6d, 0x01, 0x00, 0x00, 0x00];
        out.extend(section(
            1,
            vector(
                self.types
                    .iter()
                    .map(|(params, results)| {
                        let mut t = vec![0x60];
                        t.extend(vector(params.iter().map(|p| vec![*p]).collect()));
                        t.extend(vector(results.iter().map(|r| vec![*r]).collect()));
                        t
                    })
                    .collect(),
            ),
        ));
        out.extend(section(
            2,
            vector(
                self.imports
                    .iter()
                    .map(|(module, field, desc)| {
                        let mut i = name(module);
                        i.extend(name(field));
                        i.extend(desc.clone());
                        i
                    })
                    .collect(),
            ),
        ));
        out.extend(section(3, vector(self.functions.iter().map(|(t, _)| uleb(*t)).collect())));
        if let Some(pages) = self.memory_pages {
            let mut limits = vec![0x00];
            limits.extend(uleb(pages));
            out.extend(section(5, vector(vec![limits])));
        }
        if self.globals > 0 {
            let global = vec![I32, 0x00, 0x41, 0x00, 0x0b];
            out.extend(section(6, vector((0..self.globals).map(|_| global.clone()).collect())));
        }
        out.extend(section(
            7,
            vector(
                self.exports
                    .iter()
                    .map(|(field, kind, index)| {
                        let mut e = name(field);
                        e.push(*kind);
                        e.extend(uleb(*index));
                        e
                    })
                    .collect(),
            ),
        ));
        if let Some(start) = self.start {
            out.extend(section(8, uleb(start)));
        }
        out.extend(section(
            10,
            vector(
                self.functions
                    .iter()
                    .map(|(_, body)| {
                        let mut f = vec![0x00];
                        f.extend(body.clone());
                        f.push(0x0b);
                        let mut entry = uleb(f.len() as u32);
                        entry.extend(f);
                        entry
                    })
                    .collect(),
            ),
        ));
        if !self.data.is_empty() {
            out.extend(section(
                11,
                vector(
                    self.data
                        .iter()
                        .map(|(offset, bytes)| {
                            let mut d = vec![0x00];
                            d.extend(i32_const(*offset as i32));
                            d.push(0x0b);
                            d.extend(uleb(bytes.len() as u32));
                            d.extend(bytes.clone());
                            d
                        })
                        .collect(),
                ),
            ));
        }
        out
    }
}

const FUNCTION: u8 = 0x00;
const MEMORY: u8 = 0x02;
const GLOBAL: u8 = 0x03;

/// A guest with one page of memory whose entry point runs `body`.
fn guest_with(imports: &[HostFunction], data: &[u8], body: Vec<u8>) -> Vec<u8> {
    let mut guest = Guest::default();
    for function in imports {
        guest.import_host(*function);
    }
    let handle = guest.function(&[], &[], body);
    guest.memory_pages = Some(1);
    guest.export("memory", MEMORY, 0);
    guest.export("handle", FUNCTION, handle);
    guest.data.push((0, data.to_vec()));
    guest.bytes()
}

/// The guest that answers 200, header `X: y`, body `hi`.
fn hi_guest() -> Vec<u8> {
    guest_with(
        &[
            HostFunction::SetResponseStatus,
            HostFunction::SetResponseHeader,
            HostFunction::SetResponseBody,
        ],
        b"Xyhi",
        code(vec![
            i32_const(200),
            call(0),
            i32_const(0),
            i32_const(1),
            i32_const(1),
            i32_const(1),
            call(1),
            i32_const(2),
            i32_const(2),
            call(2),
        ]),
    )
}

fn request() -> RequestSnapshot {
    RequestSnapshot {
        method: Method::Put,
        url: String::from("/where?what"),
        headers: vec![RequestHeader { name: String::from("Host"), value: b"foo.eth".to_vec() }],
        body: b"payload".to_vec(),
        content_length: 7,
    }
}

fn loaded(bytes: &[u8]) -> Result<(), GatewayError> {
    load(bytes).map(|_| ())
}

// ---- parsing ----

#[test]
fn minimal_module_parses() {
    assert!(parse_module(&[0x00, 0x61, 0x73, 0x6d, 0x01, 0x00, 0x00, 0x00]).is_ok());
}

#[test]
fn sample_module_parses() {
    assert!(parse_module(&hi_guest()).is_ok());
}

#[test]
fn garbage_does_not_parse() {
    assert!(matches!(parse_module(b"not a module"), Err(GatewayError::ModuleParseFailed)));
    assert!(matches!(parse_module(&[]), Err(GatewayError::ModuleParseFailed)));
    assert!(matches!(
        parse_module(&[0x00, 0x61, 0x73, 0x6d, 0x02, 0x00, 0x00, 0x00]),
        Err(GatewayError::ModuleParseFailed)
    ));
}

#[test]
fn truncated_module_does_not_parse() {
    let bytes = hi_guest();
    assert!(matches!(
        parse_module(&bytes[..bytes.len() - 3]),
        Err(GatewayError::ModuleParseFailed)
    ));
}

#[test]
fn module_that_does_not_validate_does_not_parse() {
    // The entry point leaves a value on the stack that its signature does not return.
    let bytes = guest_with(&[], b"", i32_const(1));
    assert!(matches!(parse_module(&bytes), Err(GatewayError::ModuleParseFailed)));
}

// ---- imports ----

#[test]
fn host_functions_resolve_under_their_own_signatures() {
    let all = [
        HostFunction::GetRequestMethod,
        HostFunction::GetRequestUrl,
        HostFunction::GetRequestUrlLen,
        HostFunction::GetRequestHeader,
        HostFunction::GetRequestHeaderLen,
        HostFunction::GetRequestBody,
        HostFunction::GetRequestBodyLen,
        HostFunction::SetResponseStatus,
        HostFunction::SetResponseHeader,
        HostFunction::SetResponseBody,
        HostFunction::Trace,
    ];
    for function in all.iter() {
        let params = vec![ValueKind::I32; function.param_count()];
        let result = if function.returns_value() { Some(ValueKind::I32) } else { None };
        assert_eq!(
            resolve_host_function(function.import_name(), &params, result),
            Ok(*function)
        );
    }
}

#[test]
fn resolved_function_has_the_signature_asked_for() {
    let resolved = EnvModuleResolver
        .resolve_func("_get_request_url", &[ValueKind::I32, ValueKind::I32], Some(ValueKind::I32))
        .unwrap();
    assert_eq!(
        resolved.signature(),
        &Signature::new(&[ValueType::I32, ValueType::I32][..], Some(ValueType::I32))
    );
    let resolved = EnvModuleResolver.resolve_func("_set_response_status", &[ValueKind::I32], None).unwrap();
    assert_eq!(resolved.signature(), &Signature::new(&[ValueType::I32][..], None));
    let resolved = resolve_function_import("env", "_get_request_method", &[], Some(ValueKind::I32)).unwrap();
    assert_eq!(resolved.signature(), &Signature::new(&[][..], Some(ValueType::I32)));
}

#[test]
fn unknown_function_names_are_unresolved() {
    for unknown in ["_nope", "get_request_url", "_get_request_urls", "", "handle"] {
        assert_eq!(
            resolve_host_function(unknown, &[], None),
            Err(GatewayError::UnresolvedImport(String::from(unknown)))
        );
        assert_eq!(
            EnvModuleResolver.resolve_func(unknown, &[ValueKind::I32], None).err(),
            Some(GatewayError::UnresolvedImport(String::from(unknown)))
        );
    }
}

#[test]
fn other_signatures_are_a_mismatch() {
    assert_eq!(
        resolve_host_function("_trace", &[ValueKind::I32], None),
        Err(GatewayError::ImportTypeMismatch)
    );
    assert_eq!(
        resolve_host_function("_trace", &[ValueKind::I32, ValueKind::I32], Some(ValueKind::I32)),
        Err(GatewayError::ImportTypeMismatch)
    );
    assert_eq!(
        resolve_host_function("_trace", &[ValueKind::I32, ValueKind::I64], None),
        Err(GatewayError::ImportTypeMismatch)
    );
    assert_eq!(
        resolve_host_function("_get_request_method", &[], None),
        Err(GatewayError::ImportTypeMismatch)
    );
    assert_eq!(
        resolve_host_function("_get_request_method", &[], Some(ValueKind::I64)),
        Err(GatewayError::ImportTypeMismatch)
    );
    assert_eq!(
        resolve_host_function("_get_request_url", &[ValueKind::F32, ValueKind::I32], Some(ValueKind::I32)),
        Err(GatewayError::ImportTypeMismatch)
    );
    assert_eq!(
        EnvModuleResolver.resolve_func("_trace", &[], None).err(),
        Some(GatewayError::ImportTypeMismatch)
    );
}

#[test]
fn other_namespaces_hold_nothing() {
    assert_eq!(
        resolve_function_import("wasi", "_trace", &[ValueKind::I32, ValueKind::I32], None).err(),
        Some(GatewayError::UnresolvedImport(String::from("_trace")))
    );
    assert_eq!(
        resolve_function_import("", "_trace", &[ValueKind::I32, ValueKind::I32], None).err(),
        Some(GatewayError::UnresolvedImport(String::from("_trace")))
    );
    assert!(resolve_function_import("env", "_trace", &[ValueKind::I32, ValueKind::I32], None).is_ok());
    assert_eq!(
        refuse_other_import("wasi", "_trace"),
        GatewayError::UnresolvedImport(String::from("_trace"))
    );
}

#[test]
fn globals_memories_and_tables_are_refused() {
    assert_eq!(refuse_import("_trace"), GatewayError::ImportTypeMismatch);
    assert_eq!(refuse_import("memory"), GatewayError::UnresolvedImport(String::from("memory")));
    assert_eq!(refuse_other_import("env", "_trace"), GatewayError::ImportTypeMismatch);
    assert_eq!(
        refuse_other_import("env", "table"),
        GatewayError::UnresolvedImport(String::from("table"))
    );
    assert_eq!(EnvModuleResolver.resolve_global("_set_response_body"), GatewayError::ImportTypeMismatch);
    assert_eq!(
        EnvModuleResolver.resolve_global("g"),
        GatewayError::UnresolvedImport(String::from("g"))
    );
    assert_eq!(
        EnvModuleResolver.resolve_memory("memory"),
        GatewayError::UnresolvedImport(String::from("memory"))
    );
    assert_eq!(EnvModuleResolver.resolve_memory("_trace"), GatewayError::ImportTypeMismatch);
    assert_eq!(
        EnvModuleResolver.resolve_table("t"),
        GatewayError::UnresolvedImport(String::from("t"))
    );
    assert_eq!(EnvModuleResolver.resolve_table("_trace"), GatewayError::ImportTypeMismatch);
}

#[test]
fn module_with_all_eleven_imports_loads() {
    let all = [
        HostFunction::GetRequestMethod,
        HostFunction::GetRequestUrl,
        HostFunction::GetRequestUrlLen,
        HostFunction::GetRequestHeader,
        HostFunction::GetRequestHeaderLen,
        HostFunction::GetRequestBody,
        HostFunction::GetRequestBodyLen,
        HostFunction::SetResponseStatus,
        HostFunction::SetResponseHeader,
        HostFunction::SetResponseBody,
        HostFunction::Trace,
    ];
    assert_eq!(loaded(&guest_with(&all, b"", Vec::new())), Ok(()));
}

#[test]
fn module_with_an_import_outside_the_eleven_does_not_load() {
    let mut guest = Guest::default();
    guest.import_host(HostFunction::Trace);
    guest.import_function("env", "_open_file", &[I32, I32], &[I32]);
    let handle = guest.function(&[], &[], Vec::new());
    guest.memory_pages = Some(1);
    guest.export("memory", MEMORY, 0);
    guest.export("handle", FUNCTION, handle);
    assert_eq!(
        loaded(&guest.bytes()),
        Err(GatewayError::UnresolvedImport(String::from("_open_file")))
    );
}

#[test]
fn module_with_an_unused_import_outside_the_eleven_does_not_load() {
    let mut guest = Guest::default();
    guest.import_function("env", "get_request_method", &[], &[I32]);
    let handle = guest.function(&[], &[], Vec::new());
    guest.memory_pages = Some(1);
    guest.export("memory", MEMORY, 0);
    guest.export("handle", FUNCTION, handle);
    assert_eq!(
        loaded(&guest.bytes()),
        Err(GatewayError::UnresolvedImport(String::from("get_request_method")))
    );
}

#[test]
fn module_with_an_import_from_another_namespace_does_not_load() {
    let mut guest = Guest::default();
    guest.import_function("host", "_trace", &[I32, I32], &[]);
    let handle = guest.function(&[], &[], Vec::new());
    guest.memory_pages = Some(1);
    guest.export("memory", MEMORY, 0);
    guest.export("handle", FUNCTION, handle);
    assert_eq!(loaded(&guest.bytes()), Err(GatewayError::UnresolvedImport(String::from("_trace"))));
}

#[test]
fn module_with_a_host_function_under_another_signature_does_not_load() {
    let mut guest = Guest::default();
    guest.import_function("env", "_set_response_status", &[I64], &[]);
    let handle = guest.function(&[], &[], Vec::new());
    guest.memory_pages = Some(1);
    guest.export("memory", MEMORY, 0);
    guest.export("handle", FUNCTION, handle);
    assert_eq!(loaded(&guest.bytes()), Err(GatewayError::ImportTypeMismatch));
}

#[test]
fn module_that_imports_a_global_does_not_load() {
    let mut guest = Guest::default();
    guest.imports.push((String::from("env"), String::from("_trace"), vec![0x03, I32, 0x00]));
    let handle = guest.function(&[], &[], Vec::new());
    guest.memory_pages = Some(1);
    guest.export("memory", MEMORY, 0);
    guest.export("handle", FUNCTION, handle);
    assert_eq!(loaded(&guest.bytes()), Err(GatewayError::ImportTypeMismatch));

    let mut guest = Guest::default();
    guest.imports.push((String::from("env"), String::from("counter"), vec![0x03, I32, 0x00]));
    let handle = guest.function(&[], &[], Vec::new());
    guest.memory_pages = Some(1);
    guest.export("memory", MEMORY, 0);
    guest.export("handle", FUNCTION, handle);
    assert_eq!(
        loaded(&guest.bytes()),
        Err(GatewayError::UnresolvedImport(String::from("counter")))
    );
}

#[test]
fn module_that_imports_its_memory_does_not_load() {
    let mut guest = Guest::default();
    guest.imports.push((String::from("env"), String::from("memory"), vec![0x02, 0x00, 0x01]));
    let handle = guest.function(&[], &[], Vec::new());
    guest.export("memory", MEMORY, 0);
    guest.export("handle", FUNCTION, handle);
    assert_eq!(
        loaded(&guest.bytes()),
        Err(GatewayError::UnresolvedImport(String::from("memory")))
    );
}

// ---- exports ----

#[test]
fn module_without_memory_export_does_not_load() {
    let mut guest = Guest::default();
    let handle = guest.function(&[], &[], Vec::new());
    guest.memory_pages = Some(1);
    guest.export("handle", FUNCTION, handle);
    assert_eq!(loaded(&guest.bytes()), Err(GatewayError::MissingMemoryExport));
}

#[test]
fn module_whose_memory_export_is_no_memory_does_not_load() {
    let mut guest = Guest::default();
    let handle = guest.function(&[], &[], Vec::new());
    guest.memory_pages = Some(1);
    guest.export("memory", FUNCTION, handle);
    guest.export("handle", FUNCTION, handle);
    assert_eq!(loaded(&guest.bytes()), Err(GatewayError::MissingMemoryExport));

    let mut guest = Guest::default();
    let handle = guest.function(&[], &[], Vec::new());
    guest.globals = 1;
    guest.export("memory", GLOBAL, 0);
    guest.export("handle", FUNCTION, handle);
    assert_eq!(loaded(&guest.bytes()), Err(GatewayError::MissingMemoryExport));
}

#[test]
fn module_without_entry_point_does_not_load() {
    let mut guest = Guest::default();
    guest.function(&[], &[], Vec::new());
    guest.memory_pages = Some(1);
    guest.export("memory", MEMORY, 0);
    assert_eq!(loaded(&guest.bytes()), Err(GatewayError::MissingOrMalformedEntryPoint));

    let mut guest = Guest::default();
    let handle = guest.function(&[], &[], Vec::new());
    guest.memory_pages = Some(1);
    guest.export("memory", MEMORY, 0);
    guest.export("Handle", FUNCTION, handle);
    assert_eq!(loaded(&guest.bytes()), Err(GatewayError::MissingOrMalformedEntryPoint));
}

#[test]
fn entry_point_with_a_parameter_does_not_load() {
    let mut guest = Guest::default();
    let handle = guest.function(&[I32], &[], Vec::new());
    guest.memory_pages = Some(1);
    guest.export("memory", MEMORY, 0);
    guest.export("handle", FUNCTION, handle);
    assert_eq!(loaded(&guest.bytes()), Err(GatewayError::MissingOrMalformedEntryPoint));
}

#[test]
fn entry_point_with_a_result_does_not_load() {
    let mut guest = Guest::default();
    let handle = guest.function(&[], &[I32], i32_const(1));
    guest.memory_pages = Some(1);
    guest.export("memory", MEMORY, 0);
    guest.export("handle", FUNCTION, handle);
    assert_eq!(loaded(&guest.bytes()), Err(GatewayError::MissingOrMalformedEntryPoint));
}

#[test]
fn entry_point_that_is_no_function_does_not_load() {
    let mut guest = Guest::default();
    guest.function(&[], &[], Vec::new());
    guest.memory_pages = Some(1);
    guest.export("memory", MEMORY, 0);
    guest.export("handle", MEMORY, 0);
    assert_eq!(loaded(&guest.bytes()), Err(GatewayError::MissingOrMalformedEntryPoint));
}

#[test]
fn missing_memory_is_reported_before_the_entry_point() {
    let mut guest = Guest::default();
    guest.function(&[], &[], Vec::new());
    guest.memory_pages = Some(1);
    assert_eq!(loaded(&guest.bytes()), Err(GatewayError::MissingMemoryExport));
}

#[test]
fn module_with_a_start_function_does_not_load() {
    let mut guest = Guest::default();
    let handle = guest.function(&[], &[], Vec::new());
    guest.memory_pages = Some(1);
    guest.export("memory", MEMORY, 0);
    guest.export("handle", FUNCTION, handle);
    guest.start = Some(handle);
    assert_eq!(loaded(&guest.bytes()), Err(GatewayError::MissingOrMalformedEntryPoint));
}

#[test]
fn exports_are_checked_in_order() {
    let memory = || Some(Export::Memory(MemoryInstance::alloc(Pages(1), None).unwrap()));
    let entry = || Some(Export::Function(Vec::new(), None));
    assert!(check_exports(false, memory(), entry()).is_ok());
    assert_eq!(
        check_exports(true, memory(), entry()).err(),
        Some(GatewayError::MissingOrMalformedEntryPoint)
    );
    assert_eq!(check_exports(true, None, None).err(), Some(GatewayError::MissingOrMalformedEntryPoint));
    assert_eq!(check_exports(false, None, entry()).err(), Some(GatewayError::MissingMemoryExport));
    assert_eq!(check_exports(false, None, None).err(), Some(GatewayError::MissingMemoryExport));
    assert_eq!(
        check_exports(false, Some(Export::Table), entry()).err(),
        Some(GatewayError::MissingMemoryExport)
    );
    assert_eq!(
        check_exports(false, Some(Export::Global), entry()).err(),
        Some(GatewayError::MissingMemoryExport)
    );
    assert_eq!(
        check_exports(false, entry(), entry()).err(),
        Some(GatewayError::MissingMemoryExport)
    );
    assert_eq!(
        check_exports(false, memory(), None).err(),
        Some(GatewayError::MissingOrMalformedEntryPoint)
    );
    assert_eq!(
        check_exports(false, memory(), memory()).err(),
        Some(GatewayError::MissingOrMalformedEntryPoint)
    );
    assert_eq!(
        check_exports(false, memory(), Some(Export::Function(vec![ValueKind::I32], None))).err(),
        Some(GatewayError::MissingOrMalformedEntryPoint)
    );
    assert_eq!(
        check_exports(false, memory(), Some(Export::Function(Vec::new(), Some(ValueKind::I32)))).err(),
        Some(GatewayError::MissingOrMalformedEntryPoint)
    );
}

#[test]
fn validated_memory_is_the_guests_memory() {
    let (_instance, memory) = load(&hi_guest()).unwrap();
    assert_eq!(memory.get(0, 4).unwrap(), b"Xyhi".to_vec());
    assert_eq!(memory.current_size(), Pages(1));
}

// ---- running guests ----

#[test]
fn guest_sets_status_header_and_body() {
    match run(&hi_guest(), request()).unwrap() {
        Run::Returned(host) => {
            let response = host.into_bridge().into_response();
            assert_eq!(response.status(), Some(200));
            assert_eq!(response.header(&String::from("X")), Some(&String::from("y")));
            assert_eq!(response.headers().len(), 1);
            assert_eq!(response.body(), &b"hi".to_vec());
        }
        Run::Trapped(error) => panic!("guest trapped: {:?}", error),
    }
}

#[test]
fn guest_reads_the_request() {
    // handle: body := url; status := 200 + method tag; trace(url)
    let bytes = guest_with(
        &[
            HostFunction::GetRequestUrlLen,
            HostFunction::GetRequestUrl,
            HostFunction::SetResponseBody,
            HostFunction::GetRequestMethod,
            HostFunction::SetResponseStatus,
            HostFunction::Trace,
        ],
        b"",
        code(vec![
            i32_const(100),
            call(0),
            call(1),
            vec![0x1a],
            i32_const(100),
            call(0),
            call(2),
            i32_const(200),
            call(3),
            vec![0x6a],
            call(4),
            i32_const(100),
            call(0),
            call(5),
        ]),
    );
    match run(&bytes, request()).unwrap() {
        Run::Returned(host) => {
            assert_eq!(
                host.bridge().traces(),
                &vec![TraceMessage::Text(String::from("/where?what"))]
            );
            let response = host.into_bridge().into_response();
            assert_eq!(response.status(), Some(203));
            assert_eq!(response.body(), &b"/where?what".to_vec());
        }
        Run::Trapped(error) => panic!("guest trapped: {:?}", error),
    }
}

#[test]
fn guest_that_sets_a_bad_status_traps() {
    let bytes = guest_with(
        &[HostFunction::SetResponseStatus],
        b"",
        code(vec![i32_const(700), call(0)]),
    );
    match run(&bytes, request()).unwrap() {
        Run::Trapped(error) => assert_eq!(error, Some(GatewayError::InvalidStatusCode)),
        Run::Returned(_) => panic!("guest returned"),
    }
}

#[test]
fn guest_that_reaches_past_its_memory_traps() {
    let bytes = guest_with(
        &[HostFunction::SetResponseBody],
        b"",
        code(vec![i32_const(65530), i32_const(7), call(0)]),
    );
    match run(&bytes, request()).unwrap() {
        Run::Trapped(error) => assert_eq!(error, Some(GatewayError::OutOfBoundsMemoryAccess)),
        Run::Returned(_) => panic!("guest returned"),
    }
    let bytes = guest_with(
        &[HostFunction::GetRequestUrl],
        b"",
        code(vec![i32_const(-1), i32_const(-1), call(0), vec![0x1a]]),
    );
    match run(&bytes, request()).unwrap() {
        Run::Trapped(error) => assert_eq!(error, Some(GatewayError::OutOfBoundsMemoryAccess)),
        Run::Returned(_) => panic!("guest returned"),
    }
}

#[test]
fn guest_that_sends_bad_text_as_header_traps() {
    let bytes = guest_with(
        &[HostFunction::SetResponseHeader],
        &[b'X', 0xff],
        code(vec![i32_const(0), i32_const(1), i32_const(1), i32_const(1), call(0)]),
    );
    match run(&bytes, request()).unwrap() {
        Run::Trapped(error) => assert_eq!(error, Some(GatewayError::InvalidUtf8InGuestData)),
        Run::Returned(_) => panic!("guest returned"),
    }
}

#[test]
fn guest_that_traces_bad_text_goes_on() {
    let bytes = guest_with(
        &[HostFunction::Trace, HostFunction::SetResponseStatus],
        &[0xff, 0xfe],
        code(vec![i32_const(0), i32_const(2), call(0), i32_const(204), call(1)]),
    );
    match run(&bytes, request()).unwrap() {
        Run::Returned(host) => {
            assert_eq!(host.bridge().traces(), &vec![TraceMessage::Raw(vec![0xff, 0xfe])]);
            assert_eq!(host.bridge().response().status(), Some(204));
        }
        Run::Trapped(error) => panic!("guest trapped: {:?}", error),
    }
}

#[test]
fn guest_that_executes_unreachable_traps() {
    let bytes = guest_with(&[], b"", vec![0x00]);
    match run(&bytes, request()).unwrap() {
        Run::Trapped(error) => assert_eq!(error, None),
        Run::Returned(_) => panic!("guest returned"),
    }
}

// ---- one request from host name to response ----

fn serve(
    host: Option<&str>,
    resolved: Option<(Vec<u8>, Vec<u8>)>,
    stored: Option<Vec<u8>>,
) -> (HttpResponse, PipelineState, Vec<String>) {
    let mut steps = Vec::new();
    let (mut pipeline, mut action) = RequestPipeline::start(host, &SuffixRewrite::standard());
    let mut memory = None;
    let mut instance = None;
    loop {
        let event = match action {
            Action::ResolveName(name) => {
                steps.push(format!("resolve {}", name));
                match resolved.clone() {
                    Some((address, content_hash)) => Event::NameResolved { address, content_hash },
                    None => Event::NameResolutionFailed,
                }
            }
            Action::FetchContent(id) => {
                steps.push(format!("fetch {}", id.to_text().unwrap()));
                match stored.clone() {
                    Some(bytes) => Event::ContentFetched(bytes),
                    None => Event::ContentFetchFailed,
                }
            }
            Action::LoadModule(bytes) => {
                steps.push(String::from("load"));
                match load(&bytes) {
                    Ok((i, m)) => {
                        instance = Some(i);
                        memory = Some(m);
                        Event::ModuleLoaded
                    }
                    Err(error) => Event::ModuleLoadFailed(error),
                }
            }
            Action::ExecuteGuest => {
                steps.push(String::from("execute"));
                let mut host = Host(HostAbiDispatcher::new(memory.take().unwrap(), request()));
                match instance.take().unwrap().invoke_export("handle", &[], &mut host) {
                    Ok(None) => Event::GuestReturned(host.0.into_bridge().into_response()),
                    _ => Event::GuestFailed,
                }
            }
            Action::Respond(response) => {
                assert!(pipeline.is_over());
                return (response, pipeline.state().clone(), steps);
            }
            Action::Nothing => panic!("the pipeline asked for nothing"),
        };
        action = pipeline.advance(event);
    }
}

fn printable() -> (Vec<u8>, Vec<u8>) {
    (b"QmYwAPJzv5CZsnA625s3".to_vec(), b"Xf2nemtYgPpHdWEz79ojWnPbdG______".to_vec())
}

#[test]
fn request_is_served_from_host_name_to_response() {
    let (response, state, steps) =
        serve(Some("foo.eth-gw.uk.to"), Some(printable()), Some(hi_guest()));
    assert_eq!(
        steps,
        vec![
            "resolve foo.eth",
            "fetch QmYwAPJzv5CZsnA625s3Xf2nemtYgPpHdWEz79ojWnPbdG",
            "load",
            "execute"
        ]
    );
    assert_eq!(state, PipelineState::Responding);
    assert_eq!(
        response,
        HttpResponse {
            status: 200,
            headers: vec![ResponseHeader { name: String::from("X"), value: String::from("y") }],
            body: b"hi".to_vec(),
        }
    );
}

#[test]
fn request_without_host_is_not_found() {
    let (response, state, steps) = serve(None, Some(printable()), Some(hi_guest()));
    assert!(steps.is_empty());
    assert_eq!(state, PipelineState::Failed(Stage::ResolvingName, GatewayError::MissingHost));
    assert_eq!(response, HttpResponse { status: 404, headers: vec![], body: vec![] });
}

#[test]
fn failed_resolution_stops_the_request() {
    let (response, state, steps) = serve(Some("foo.eth-gw.uk.to"), None, Some(hi_guest()));
    assert_eq!(steps, vec!["resolve foo.eth"]);
    assert_eq!(
        state,
        PipelineState::Failed(Stage::ResolvingName, GatewayError::NameResolutionFailed)
    );
    assert_eq!(response, HttpResponse { status: 504, headers: vec![], body: vec![] });
}

#[test]
fn failed_fetch_stops_the_request_before_any_module_runs() {
    let (response, state, steps) = serve(Some("foo.eth-gw.uk.to"), Some(printable()), None);
    assert_eq!(
        steps,
        vec!["resolve foo.eth", "fetch QmYwAPJzv5CZsnA625s3Xf2nemtYgPpHdWEz79ojWnPbdG"]
    );
    assert_eq!(
        state,
        PipelineState::Failed(Stage::FetchingContent, GatewayError::ContentFetchFailed)
    );
    assert_eq!(response, HttpResponse { status: 502, headers: vec![], body: vec![] });
}

#[test]
fn module_that_does_not_parse_stops_the_request() {
    let (response, state, steps) =
        serve(Some("foo.eth-gw.uk.to"), Some(printable()), Some(b"junk".to_vec()));
    assert_eq!(steps.last().unwrap(), "load");
    assert_eq!(state, PipelineState::Failed(Stage::Loading, GatewayError::ModuleParseFailed));
    assert_eq!(response, HttpResponse { status: 500, headers: vec![], body: vec![] });
}

#[test]
fn trapping_guest_is_answered_with_500_and_nothing_of_its_own() {
    let guest = guest_with(
        &[HostFunction::SetResponseStatus, HostFunction::SetResponseBody],
        b"secret",
        code(vec![
            i32_const(200),
            call(0),
            i32_const(0),
            i32_const(6),
            call(1),
            vec![0x00],
        ]),
    );
    let (response, state, steps) = serve(Some("foo.eth-gw.uk.to"), Some(printable()), Some(guest));
    assert_eq!(steps.last().unwrap(), "execute");
    assert_eq!(state, PipelineState::Failed(Stage::Executing, GatewayError::GuestExecutionFailed));
    assert_eq!(response, HttpResponse { status: 500, headers: vec![], body: vec![] });
}

#[test]
fn guest_that_sets_no_status_is_answered_with_500() {
    let guest = guest_with(
        &[HostFunction::SetResponseBody],
        b"hi",
        code(vec![i32_const(0), i32_const(2), call(0)]),
    );
    let (response, state, _) = serve(Some("foo.eth-gw.uk.to"), Some(printable()), Some(guest));
    assert_eq!(state, PipelineState::Failed(Stage::Executing, GatewayError::GuestExecutionFailed));
    assert_eq!(response, HttpResponse { status: 500, headers: vec![], body: vec![] });
}
