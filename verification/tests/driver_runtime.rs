//! Drive real guest modules through the embedding runtime: ABI detection
//! reads actual export signatures, and planned invocations call actual
//! exports.

use proxy_wasm_harness::callback::plan_invocation;
use proxy_wasm_harness::callback::CallbackProto;
use proxy_wasm_harness::driver::get_abi_version;
use proxy_wasm_harness::driver::invoke_plan;
use proxy_wasm_harness::errors::HarnessError;
use proxy_wasm_harness::types::AbiVersion;

use wasmtime::{Engine, Instance, Module, Store};

fn section(id: u8, contents: &[u8]) -> Vec<u8> {
    assert!(contents.len() < 128);
    let mut out = vec![id, contents.len() as u8];
    out.extend_from_slice(contents);
    out
}

fn export_entry(name: &str, func_index: u8) -> Vec<u8> {
    assert!(name.len() < 128);
    let mut out = vec![name.len() as u8];
    out.extend_from_slice(name.as_bytes());
    out.push(0x00); // export kind: function
    out.push(func_index);
    out
}

/// A module for the first ABI revision: `proxy_on_request_headers` takes
/// two parameters and returns 1, `proxy_on_tick` returns nothing, and
/// `proxy_on_done` hits an unreachable instruction.
fn module_v1_bytes() -> Vec<u8> {
    let mut bytes = vec![0x00, 0x61, 0x73, 0x6d, 0x01, 0x00, 0x00, 0x00];
    // types: (i32, i32) -> i32; (i32) -> (); (i32) -> i32
    let mut types = vec![3];
    types.extend_from_slice(&[0x60, 0x02, 0x7f, 0x7f, 0x01, 0x7f]);
    types.extend_from_slice(&[0x60, 0x01, 0x7f, 0x00]);
    types.extend_from_slice(&[0x60, 0x01, 0x7f, 0x01, 0x7f]);
    bytes.extend_from_slice(&section(1, &types));
    // three functions, one per type
    bytes.extend_from_slice(&section(3, &[3, 0, 1, 2]));
    // exports
    let mut exports = vec![3];
    exports.extend_from_slice(&export_entry("proxy_on_request_headers", 0));
    exports.extend_from_slice(&export_entry("proxy_on_tick", 1));
    exports.extend_from_slice(&export_entry("proxy_on_done", 2));
    bytes.extend_from_slice(&section(7, &exports));
    // bodies: return 1; do nothing; trap
    let mut code = vec![3];
    code.extend_from_slice(&[0x04, 0x00, 0x41, 0x01, 0x0b]);
    code.extend_from_slice(&[0x02, 0x00, 0x0b]);
    code.extend_from_slice(&[0x03, 0x00, 0x00, 0x0b]);
    bytes.extend_from_slice(&section(10, &code));
    bytes
}

/// A module for the second ABI revision: `proxy_on_request_headers` takes
/// three parameters.
fn module_v2_bytes() -> Vec<u8> {
    let mut bytes = vec![0x00, 0x61, 0x73, 0x6d, 0x01, 0x00, 0x00, 0x00];
    let mut types = vec![1];
    types.extend_from_slice(&[0x60, 0x03, 0x7f, 0x7f, 0x7f, 0x01, 0x7f]);
    bytes.extend_from_slice(&section(1, &types));
    bytes.extend_from_slice(&section(3, &[1, 0]));
    let mut exports = vec![1];
    exports.extend_from_slice(&export_entry("proxy_on_request_headers", 0));
    bytes.extend_from_slice(&section(7, &exports));
    let mut code = vec![1];
    code.extend_from_slice(&[0x04, 0x00, 0x41, 0x00, 0x0b]);
    bytes.extend_from_slice(&section(10, &code));
    bytes
}

fn instantiate(bytes: &[u8]) -> (Store<()>, Instance, Module) {
    let engine = Engine::default();
    let module = Module::new(&engine, bytes).expect("module should be valid");
    let mut store = Store::new(&engine, ());
    let instance = Instance::new(&mut store, &module, &[]).expect("no imports needed");
    (store, instance, module)
}

#[test]
fn abi_detection_reads_real_export_signatures() {
    let engine = Engine::default();
    let v1 = Module::new(&engine, &module_v1_bytes()).unwrap();
    assert_eq!(get_abi_version(&v1), AbiVersion::ProxyAbiVersion0_1_0);
    let v2 = Module::new(&engine, &module_v2_bytes()).unwrap();
    assert_eq!(get_abi_version(&v2), AbiVersion::ProxyAbiVersion0_2_0);
    let empty = Module::new(&engine, &[0x00, 0x61, 0x73, 0x6d, 0x01, 0x00, 0x00, 0x00]).unwrap();
    assert_eq!(get_abi_version(&empty), AbiVersion::UnknownAbiVersion);
}

#[test]
fn invoking_a_planned_callback_returns_the_guest_value() {
    let (mut store, instance, _module) = instantiate(&module_v1_bytes());
    let plan = plan_invocation(CallbackProto::ProxyOnRequestHeadersV1(2, 0));
    let observed = invoke_plan(&mut store, &instance, &plan).unwrap();
    assert_eq!(observed, Some(1));
}

#[test]
fn invoking_a_callback_without_result_returns_nothing() {
    let (mut store, instance, _module) = instantiate(&module_v1_bytes());
    let plan = plan_invocation(CallbackProto::ProxyOnTick(1));
    let observed = invoke_plan(&mut store, &instance, &plan).unwrap();
    assert_eq!(observed, None);
}

#[test]
fn missing_export_is_named() {
    let (mut store, instance, _module) = instantiate(&module_v1_bytes());
    let plan = plan_invocation(CallbackProto::ProxyOnLog(1));
    let err = invoke_plan(&mut store, &instance, &plan).unwrap_err();
    assert_eq!(err, HarnessError::MissingExport { name: "proxy_on_log".to_string() });
}

#[test]
fn guest_trap_is_reported_as_invocation_failure() {
    let (mut store, instance, _module) = instantiate(&module_v1_bytes());
    let plan = plan_invocation(CallbackProto::ProxyOnDone(1));
    let err = invoke_plan(&mut store, &instance, &plan).unwrap_err();
    assert!(matches!(err, HarnessError::GuestTrap { .. }));
}

#[test]
fn argument_count_mismatch_is_reported() {
    let (mut store, instance, _module) = instantiate(&module_v1_bytes());
    // plan a second-revision arity against a first-revision module
    let plan = plan_invocation(CallbackProto::ProxyOnRequestHeadersV2(2, 0, 1));
    let err = invoke_plan(&mut store, &instance, &plan).unwrap_err();
    assert!(matches!(err, HarnessError::GuestTrap { .. }));
}
