//! The callback driver: the thin seam between the verified harness and
//! the embedding runtime.
//!
//! The runtime's module, instance, store and function handles are opaque
//! here. The driver probes a module's exports to detect the guest's ABI
//! version, and runs one planned callback invocation: it looks the export
//! up by name, calls it with the planned scalar arguments, and hands back
//! the observed result.

use vstd::prelude::*;
use vstd::string::StringExecFns;
use crate::callback::InvocationPlan;
use crate::errors::HarnessError;
use crate::types::AbiVersion;

verus! {

#[verifier::external_type_specification]
#[verifier::external_body]
pub struct ExModule(wasmtime::Module);

#[verifier::external_type_specification]
#[verifier::external_body]
pub struct ExInstance(wasmtime::Instance);

#[verifier::external_type_specification]
#[verifier::external_body]
pub struct ExFunc(wasmtime::Func);

#[verifier::external_type_specification]
#[verifier::external_body]
#[verifier::reject_recursive_types(T)]
pub struct ExStore<T: 'static>(wasmtime::Store<T>);

/// The parameter count of a module's named function export, if the
/// module exports a function of that name: a fixed property of the
/// module, read through `export_func_param_count`.
pub uninterp spec fn spec_probed_param_count(module: &wasmtime::Module, name: Seq<char>) -> Option<
    usize,
>;

/// Relies on wasmtime's `Module::get_export` and `ExternType::func`: the
/// parameter count of the named exported function, if the module exports
/// a function of that name. The result is a fixed property of the module
/// and the name, so it carries the name `spec_probed_param_count`;
/// nothing is assumed about its value.
#[verifier::external_body]
fn export_func_param_count(module: &wasmtime::Module, name: &str) -> (r: Option<usize>)
    ensures
        r == spec_probed_param_count(module, name@),
{
    match module.get_export(name) {
        Some(ty) => ty.func().map(|f| f.params().len()),
        None => None,
    }
}

/// Relies on wasmtime's `Instance::get_func`: the instance's exported
/// function of that name, if there is one. The instance must live in the
/// given store.
#[verifier::external_body]
fn get_export_func<T: 'static>(
    store: &mut wasmtime::Store<T>,
    instance: &wasmtime::Instance,
    name: &str,
) -> (r: Option<wasmtime::Func>) {
    instance.get_func(&mut *store, name)
}

/// Relies on wasmtime's `Func::call`, with `i32` arguments and no
/// results; a trap, or an argument list that does not fit the export's
/// signature, comes back as the runtime's error text. The function must
/// belong to the given store.
#[verifier::external_body]
fn call_func_unit<T: 'static>(
    store: &mut wasmtime::Store<T>,
    func: &wasmtime::Func,
    args: &Vec<i32>,
) -> (r: Result<(), String>) {
    let params: Vec<wasmtime::Val> = args.iter().map(|a| wasmtime::Val::I32(*a)).collect();
    let mut results: [wasmtime::Val; 0] = [];
    func.call(&mut *store, &params, &mut results).map_err(|e| format!("{e}"))
}

/// Relies on wasmtime's `Func::call`, with `i32` arguments and one
/// result; a trap, a wrong argument list or a result that is not an
/// `i32` comes back as error text. The function must belong to the given
/// store.
#[verifier::external_body]
fn call_func_i32<T: 'static>(
    store: &mut wasmtime::Store<T>,
    func: &wasmtime::Func,
    args: &Vec<i32>,
) -> (r: Result<i32, String>) {
    let params: Vec<wasmtime::Val> = args.iter().map(|a| wasmtime::Val::I32(*a)).collect();
    let mut results = [wasmtime::Val::I32(0)];
    match func.call(&mut *store, &params, &mut results) {
        Ok(()) => match results[0] {
            wasmtime::Val::I32(v) => Ok(v),
            _ => Err(format!("callback returned a non-integer value")),
        },
        Err(e) => Err(format!("{e}")),
    }
}

/// The ABI version that a `proxy_on_request_headers` export with this
/// many parameters indicates: two for the first revision, three for the
/// second, anything else is unknown.
pub open spec fn spec_abi_of_probe(param_count: Option<usize>) -> AbiVersion {
    match param_count {
        Some(n) => {
            if n == 2 {
                AbiVersion::ProxyAbiVersion0_1_0
            } else if n == 3 {
                AbiVersion::ProxyAbiVersion0_2_0
            } else {
                AbiVersion::UnknownAbiVersion
            }
        },
        None => AbiVersion::UnknownAbiVersion,
    }
}

/// Map a probed parameter count to the ABI version it indicates.
pub fn abi_of_probe(param_count: Option<usize>) -> (v: AbiVersion)
    ensures
        v == spec_abi_of_probe(param_count),
{
    match param_count {
        Some(n) => {
            if n == 2 {
                AbiVersion::ProxyAbiVersion0_1_0
            } else if n == 3 {
                AbiVersion::ProxyAbiVersion0_2_0
            } else {
                AbiVersion::UnknownAbiVersion
            }
        },
        None => AbiVersion::UnknownAbiVersion,
    }
}

/// Detect a module's ABI version once, at load time, from the arity of
/// its `proxy_on_request_headers` export: deterministic for a given
/// module.
pub fn get_abi_version(module: &wasmtime::Module) -> (v: AbiVersion)
    ensures
        v == spec_abi_of_probe(spec_probed_param_count(module, "proxy_on_request_headers"@)),
{
    let probe = export_func_param_count(module, "proxy_on_request_headers");
    abi_of_probe(probe)
}

/// Run one planned callback invocation against a guest instance.
///
/// A missing export fails with the planned callback's name; a trap or a
/// signature mismatch is an invocation failure carrying the runtime's
/// text. On success the observed value is `Some` exactly when the plan
/// declares a result.
pub fn invoke_plan<T: 'static>(
    store: &mut wasmtime::Store<T>,
    instance: &wasmtime::Instance,
    plan: &InvocationPlan,
) -> (r: Result<Option<i32>, HarnessError>)
    ensures
        r is Ok ==> (r->Ok_0 is Some <==> plan.has_result),
        r is Err ==> ((r->Err_0 matches HarnessError::MissingExport { name } && name@
            == plan.name@) || r->Err_0 is GuestTrap),
{
    let func = match get_export_func(store, instance, plan.name.as_str()) {
        Some(f) => f,
        None => {
            let name = plan.name.as_str().to_owned();
            return Err(HarnessError::MissingExport { name });
        },
    };
    if plan.has_result {
        match call_func_i32(store, &func, &plan.args) {
            Ok(v) => Ok(Some(v)),
            Err(detail) => Err(HarnessError::GuestTrap { detail }),
        }
    } else {
        match call_func_unit(store, &func, &plan.args) {
            Ok(()) => Ok(None),
            Err(detail) => Err(HarnessError::GuestTrap { detail }),
        }
    }
}

} // verus!
