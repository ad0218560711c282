//! The callback model: which exported guest function a test step invokes,
//! with which scalar arguments, and which return kind that callback
//! declares.
//!
//! `call_*` methods record a pending callback; `plan_invocation` turns the
//! recorded callback into the export name, argument list and result arity
//! the driver must use; `check_return` holds the guest's return value to
//! the declared return kind.

use vstd::prelude::*;
use crate::errors::HarnessError;
use crate::types::PeerType;
use crate::types::ReturnType;
use crate::types::peer_type_code;
use crate::types::spec_action_code;
use crate::types::spec_bool_code;
use crate::types::spec_peer_type_code;

verus! {

/// One exported callback with its scalar argument tuple. Callbacks whose
/// signature differs between ABI revisions have one variant per revision.
#[derive(Clone, Copy, PartialEq, Eq, Structural, Debug)]
pub enum CallbackProto {
    FunctionNotSet,
    Start,
    ProxyOnContextCreate(i32, i32),
    ProxyOnLog(i32),
    ProxyOnDone(i32),
    ProxyOnForeignFunction(i32, i32, i32),
    ProxyOnDelete(i32),
    ProxyOnVmStart(i32, i32),
    ProxyOnConfigure(i32, i32),
    ProxyOnTick(i32),
    ProxyOnQueueReady(i32, i32),
    ProxyOnNewConnection(i32),
    ProxyOnDownstreamData(i32, i32, i32),
    ProxyOnDownstreamConnectionClose(i32, i32),
    ProxyOnUpstreamData(i32, i32, i32),
    ProxyOnUpstreamConnectionClose(i32, i32),
    ProxyOnRequestHeadersV1(i32, i32),
    ProxyOnRequestHeadersV2(i32, i32, i32),
    ProxyOnRequestBody(i32, i32, i32),
    ProxyOnRequestTrailers(i32, i32),
    ProxyOnResponseHeadersV1(i32, i32),
    ProxyOnResponseHeadersV2(i32, i32, i32),
    ProxyOnResponseBody(i32, i32, i32),
    ProxyOnResponseTrailers(i32, i32),
    ProxyOnHttpCallResponse(i32, i32, i32, i32, i32),
}

/// The return kind a callback declares.
#[derive(Clone, Copy, PartialEq, Eq, Structural, Debug)]
pub enum CallbackReturn {
    ReturnNotSet,
    ReturnEmpty,
    ReturnBool,
    ReturnAction,
}

/// The pending callback of the next execution step.
#[derive(Clone, Copy, PartialEq, Eq, Structural, Debug)]
pub struct CallbackType(pub CallbackProto, pub CallbackReturn);

impl CallbackType {
    /// No callback recorded yet.
    pub fn new() -> (callback: CallbackType)
        ensures
            callback.0 == CallbackProto::FunctionNotSet,
            callback.1 == CallbackReturn::ReturnNotSet,
    {
        CallbackType(CallbackProto::FunctionNotSet, CallbackReturn::ReturnNotSet)
    }

    /// Record the callback and return kind of the next execution step.
    pub fn set(&mut self, proto: CallbackProto, rtype: CallbackReturn)
        ensures
            final(self).0 == proto,
            final(self).1 == rtype,
    {
        self.0 = proto;
        self.1 = rtype;
    }

    /// The recorded callback and return kind.
    pub fn get(&self) -> (r: (CallbackProto, CallbackReturn))
        ensures
            r == (self.0, self.1),
    {
        (self.0, self.1)
    }

    /// Forget the recorded callback.
    pub fn reset(&mut self)
        ensures
            final(self).0 == CallbackProto::FunctionNotSet,
            final(self).1 == CallbackReturn::ReturnNotSet,
    {
        self.0 = CallbackProto::FunctionNotSet;
        self.1 = CallbackReturn::ReturnNotSet;
    }
}

/// The name of the export a callback invokes.
pub open spec fn spec_export_name(proto: CallbackProto) -> Seq<char> {
    match proto {
        CallbackProto::FunctionNotSet => Seq::empty(),
        CallbackProto::Start => "_start"@,
        CallbackProto::ProxyOnContextCreate(..) => "proxy_on_context_create"@,
        CallbackProto::ProxyOnLog(..) => "proxy_on_log"@,
        CallbackProto::ProxyOnDone(..) => "proxy_on_done"@,
        CallbackProto::ProxyOnForeignFunction(..) => "proxy_on_foreign_function"@,
        CallbackProto::ProxyOnDelete(..) => "proxy_on_delete"@,
        CallbackProto::ProxyOnVmStart(..) => "proxy_on_vm_start"@,
        CallbackProto::ProxyOnConfigure(..) => "proxy_on_configure"@,
        CallbackProto::ProxyOnTick(..) => "proxy_on_tick"@,
        CallbackProto::ProxyOnQueueReady(..) => "proxy_on_queue_ready"@,
        CallbackProto::ProxyOnNewConnection(..) => "proxy_on_new_connection"@,
        CallbackProto::ProxyOnDownstreamData(..) => "proxy_on_downstream_data"@,
        CallbackProto::ProxyOnDownstreamConnectionClose(..) => "proxy_on_downstream_connection_close"@,
        CallbackProto::ProxyOnUpstreamData(..) => "proxy_on_upstream_data"@,
        CallbackProto::ProxyOnUpstreamConnectionClose(..) => "proxy_on_upstream_connection_close"@,
        CallbackProto::ProxyOnRequestHeadersV1(..) => "proxy_on_request_headers"@,
        CallbackProto::ProxyOnRequestHeadersV2(..) => "proxy_on_request_headers"@,
        CallbackProto::ProxyOnRequestBody(..) => "proxy_on_request_body"@,
        CallbackProto::ProxyOnRequestTrailers(..) => "proxy_on_request_trailers"@,
        CallbackProto::ProxyOnResponseHeadersV1(..) => "proxy_on_response_headers"@,
        CallbackProto::ProxyOnResponseHeadersV2(..) => "proxy_on_response_headers"@,
        CallbackProto::ProxyOnResponseBody(..) => "proxy_on_response_body"@,
        CallbackProto::ProxyOnResponseTrailers(..) => "proxy_on_response_trailers"@,
        CallbackProto::ProxyOnHttpCallResponse(..) => "proxy_on_http_call_response"@,
    }
}

/// The scalar arguments handed to the export, in order.
pub open spec fn spec_export_args(proto: CallbackProto) -> Seq<i32> {
    match proto {
        CallbackProto::FunctionNotSet => Seq::empty(),
        CallbackProto::Start => Seq::empty(),
        CallbackProto::ProxyOnContextCreate(a, b) => seq![a, b],
        CallbackProto::ProxyOnLog(a) => seq![a],
        CallbackProto::ProxyOnDone(a) => seq![a],
        CallbackProto::ProxyOnForeignFunction(a, b, c) => seq![a, b, c],
        CallbackProto::ProxyOnDelete(a) => seq![a],
        CallbackProto::ProxyOnVmStart(a, b) => seq![a, b],
        CallbackProto::ProxyOnConfigure(a, b) => seq![a, b],
        CallbackProto::ProxyOnTick(a) => seq![a],
        CallbackProto::ProxyOnQueueReady(a, b) => seq![a, b],
        CallbackProto::ProxyOnNewConnection(a) => seq![a],
        CallbackProto::ProxyOnDownstreamData(a, b, c) => seq![a, b, c],
        CallbackProto::ProxyOnDownstreamConnectionClose(a, b) => seq![a, b],
        CallbackProto::ProxyOnUpstreamData(a, b, c) => seq![a, b, c],
        CallbackProto::ProxyOnUpstreamConnectionClose(a, b) => seq![a, b],
        CallbackProto::ProxyOnRequestHeadersV1(a, b) => seq![a, b],
        CallbackProto::ProxyOnRequestHeadersV2(a, b, c) => seq![a, b, c],
        CallbackProto::ProxyOnRequestBody(a, b, c) => seq![a, b, c],
        CallbackProto::ProxyOnRequestTrailers(a, b) => seq![a, b],
        CallbackProto::ProxyOnResponseHeadersV1(a, b) => seq![a, b],
        CallbackProto::ProxyOnResponseHeadersV2(a, b, c) => seq![a, b, c],
        CallbackProto::ProxyOnResponseBody(a, b, c) => seq![a, b, c],
        CallbackProto::ProxyOnResponseTrailers(a, b) => seq![a, b],
        CallbackProto::ProxyOnHttpCallResponse(a, b, c, d, e) => seq![a, b, c, d, e],
    }
}

/// Whether the export returns an `i32`.
pub open spec fn spec_has_result(proto: CallbackProto) -> bool {
    match proto {
        CallbackProto::FunctionNotSet => false,
        CallbackProto::Start => false,
        CallbackProto::ProxyOnContextCreate(..) => false,
        CallbackProto::ProxyOnLog(..) => false,
        CallbackProto::ProxyOnDelete(..) => false,
        CallbackProto::ProxyOnTick(..) => false,
        CallbackProto::ProxyOnQueueReady(..) => false,
        CallbackProto::ProxyOnDownstreamConnectionClose(..) => false,
        CallbackProto::ProxyOnUpstreamConnectionClose(..) => false,
        CallbackProto::ProxyOnHttpCallResponse(..) => false,
        _ => true,
    }
}

/// The return kind each callback declares.
pub open spec fn spec_declared_return(proto: CallbackProto) -> CallbackReturn {
    match proto {
        CallbackProto::FunctionNotSet => CallbackReturn::ReturnNotSet,
        CallbackProto::Start => CallbackReturn::ReturnEmpty,
        CallbackProto::ProxyOnContextCreate(..) => CallbackReturn::ReturnEmpty,
        CallbackProto::ProxyOnLog(..) => CallbackReturn::ReturnEmpty,
        CallbackProto::ProxyOnDelete(..) => CallbackReturn::ReturnEmpty,
        CallbackProto::ProxyOnTick(..) => CallbackReturn::ReturnEmpty,
        CallbackProto::ProxyOnQueueReady(..) => CallbackReturn::ReturnEmpty,
        CallbackProto::ProxyOnDownstreamConnectionClose(..) => CallbackReturn::ReturnEmpty,
        CallbackProto::ProxyOnUpstreamConnectionClose(..) => CallbackReturn::ReturnEmpty,
        CallbackProto::ProxyOnHttpCallResponse(..) => CallbackReturn::ReturnEmpty,
        CallbackProto::ProxyOnDone(..) => CallbackReturn::ReturnBool,
        CallbackProto::ProxyOnVmStart(..) => CallbackReturn::ReturnBool,
        CallbackProto::ProxyOnConfigure(..) => CallbackReturn::ReturnBool,
        _ => CallbackReturn::ReturnAction,
    }
}

/// Everything the driver needs to run one callback: the export's name, its
/// scalar arguments, and whether it returns a value.
#[derive(Debug)]
pub struct InvocationPlan {
    pub name: String,
    pub args: Vec<i32>,
    pub has_result: bool,
}

impl InvocationPlan {
    /// The plan for `proto`: name, arguments and result arity agree with
    /// the callback model.
    pub open spec fn spec_for(&self, proto: CallbackProto) -> bool {
        &&& self.name@ == spec_export_name(proto)
        &&& self.args@ == spec_export_args(proto)
        &&& self.has_result == spec_has_result(proto)
    }
}

fn args0() -> (args: Vec<i32>)
    ensures
        args@ == Seq::<i32>::empty(),
{
    let args: Vec<i32> = Vec::new();
    proof {
        assert(args@ =~= Seq::<i32>::empty());
    }
    args
}

fn args1(a: i32) -> (args: Vec<i32>)
    ensures
        args@ == seq![a],
{
    let mut args: Vec<i32> = Vec::new();
    args.push(a);
    proof {
        assert(args@ =~= seq![a]);
    }
    args
}

fn args2(a: i32, b: i32) -> (args: Vec<i32>)
    ensures
        args@ == seq![a, b],
{
    let mut args = args1(a);
    args.push(b);
    proof {
        assert(args@ =~= seq![a, b]);
    }
    args
}

fn args3(a: i32, b: i32, c: i32) -> (args: Vec<i32>)
    ensures
        args@ == seq![a, b, c],
{
    let mut args = args2(a, b);
    args.push(c);
    proof {
        assert(args@ =~= seq![a, b, c]);
    }
    args
}

fn args5(a: i32, b: i32, c: i32, d: i32, e: i32) -> (args: Vec<i32>)
    ensures
        args@ == seq![a, b, c, d, e],
{
    let mut args = args3(a, b, c);
    args.push(d);
    args.push(e);
    proof {
        assert(args@ =~= seq![a, b, c, d, e]);
    }
    args
}

/// The export name, arguments and result arity for a recorded callback.
pub fn plan_invocation(proto: CallbackProto) -> (plan: InvocationPlan)
    requires
        proto != CallbackProto::FunctionNotSet,
    ensures
        plan.spec_for(proto),
{
    match proto {
        CallbackProto::FunctionNotSet => InvocationPlan {
            name: "".to_owned(),
            args: args0(),
            has_result: false,
        },
        CallbackProto::Start => InvocationPlan {
            name: "_start".to_owned(),
            args: args0(),
            has_result: false,
        },
        CallbackProto::ProxyOnContextCreate(a, b) => InvocationPlan {
            name: "proxy_on_context_create".to_owned(),
            args: args2(a, b),
            has_result: false,
        },
        CallbackProto::ProxyOnLog(a) => InvocationPlan {
            name: "proxy_on_log".to_owned(),
            args: args1(a),
            has_result: false,
        },
        CallbackProto::ProxyOnDone(a) => InvocationPlan {
            name: "proxy_on_done".to_owned(),
            args: args1(a),
            has_result: true,
        },
        CallbackProto::ProxyOnForeignFunction(a, b, c) => InvocationPlan {
            name: "proxy_on_foreign_function".to_owned(),
            args: args3(a, b, c),
            has_result: true,
        },
        CallbackProto::ProxyOnDelete(a) => InvocationPlan {
            name: "proxy_on_delete".to_owned(),
            args: args1(a),
            has_result: false,
        },
        CallbackProto::ProxyOnVmStart(a, b) => InvocationPlan {
            name: "proxy_on_vm_start".to_owned(),
            args: args2(a, b),
            has_result: true,
        },
        CallbackProto::ProxyOnConfigure(a, b) => InvocationPlan {
            name: "proxy_on_configure".to_owned(),
            args: args2(a, b),
            has_result: true,
        },
        CallbackProto::ProxyOnTick(a) => InvocationPlan {
            name: "proxy_on_tick".to_owned(),
            args: args1(a),
            has_result: false,
        },
        CallbackProto::ProxyOnQueueReady(a, b) => InvocationPlan {
            name: "proxy_on_queue_ready".to_owned(),
            args: args2(a, b),
            has_result: false,
        },
        CallbackProto::ProxyOnNewConnection(a) => InvocationPlan {
            name: "proxy_on_new_connection".to_owned(),
            args: args1(a),
            has_result: true,
        },
        CallbackProto::ProxyOnDownstreamData(a, b, c) => InvocationPlan {
            name: "proxy_on_downstream_data".to_owned(),
            args: args3(a, b, c),
            has_result: true,
        },
        CallbackProto::ProxyOnDownstreamConnectionClose(a, b) => InvocationPlan {
            name: "proxy_on_downstream_connection_close".to_owned(),
            args: args2(a, b),
            has_result: false,
        },
        CallbackProto::ProxyOnUpstreamData(a, b, c) => InvocationPlan {
            name: "proxy_on_upstream_data".to_owned(),
            args: args3(a, b, c),
            has_result: true,
        },
        CallbackProto::ProxyOnUpstreamConnectionClose(a, b) => InvocationPlan {
            name: "proxy_on_upstream_connection_close".to_owned(),
            args: args2(a, b),
            has_result: false,
        },
        CallbackProto::ProxyOnRequestHeadersV1(a, b) => InvocationPlan {
            name: "proxy_on_request_headers".to_owned(),
            args: args2(a, b),
            has_result: true,
        },
        CallbackProto::ProxyOnRequestHeadersV2(a, b, c) => InvocationPlan {
            name: "proxy_on_request_headers".to_owned(),
            args: args3(a, b, c),
            has_result: true,
        },
        CallbackProto::ProxyOnRequestBody(a, b, c) => InvocationPlan {
            name: "proxy_on_request_body".to_owned(),
            args: args3(a, b, c),
            has_result: true,
        },
        CallbackProto::ProxyOnRequestTrailers(a, b) => InvocationPlan {
            name: "proxy_on_request_trailers".to_owned(),
            args: args2(a, b),
            has_result: true,
        },
        CallbackProto::ProxyOnResponseHeadersV1(a, b) => InvocationPlan {
            name: "proxy_on_response_headers".to_owned(),
            args: args2(a, b),
            has_result: true,
        },
        CallbackProto::ProxyOnResponseHeadersV2(a, b, c) => InvocationPlan {
            name: "proxy_on_response_headers".to_owned(),
            args: args3(a, b, c),
            has_result: true,
        },
        CallbackProto::ProxyOnResponseBody(a, b, c) => InvocationPlan {
            name: "proxy_on_response_body".to_owned(),
            args: args3(a, b, c),
            has_result: true,
        },
        CallbackProto::ProxyOnResponseTrailers(a, b) => InvocationPlan {
            name: "proxy_on_response_trailers".to_owned(),
            args: args2(a, b),
            has_result: true,
        },
        CallbackProto::ProxyOnHttpCallResponse(a, b, c, d, e) => InvocationPlan {
            name: "proxy_on_http_call_response".to_owned(),
            args: args5(a, b, c, d, e),
            has_result: false,
        },
    }
}

/// The decision of holding an observed return value to the declared return
/// kind and the expected value.
pub open spec fn spec_check_return(
    declared: CallbackReturn,
    expected: ReturnType,
    observed: Option<i32>,
) -> Result<(), HarnessError> {
    match expected {
        ReturnType::NoReturn => {
            if declared != CallbackReturn::ReturnEmpty {
                Err(HarnessError::ReturnKindMismatch { declared, provided: expected })
            } else if observed is Some {
                Err(HarnessError::ReturnValueMismatch { provided: expected, observed })
            } else {
                Ok(())
            }
        },
        ReturnType::Bool(b) => {
            if declared != CallbackReturn::ReturnBool {
                Err(HarnessError::ReturnKindMismatch { declared, provided: expected })
            } else if observed != Some(spec_bool_code(b)) {
                Err(HarnessError::ReturnValueMismatch { provided: expected, observed })
            } else {
                Ok(())
            }
        },
        ReturnType::Action(a) => {
            if declared != CallbackReturn::ReturnAction {
                Err(HarnessError::ReturnKindMismatch { declared, provided: expected })
            } else if observed != Some(spec_action_code(a)) {
                Err(HarnessError::ReturnValueMismatch { provided: expected, observed })
            } else {
                Ok(())
            }
        },
    }
}

/// Hold the guest's return value to the declared return kind and the
/// expected value.
pub fn check_return(declared: CallbackReturn, expected: ReturnType, observed: Option<i32>) -> (r:
    Result<(), HarnessError>)
    ensures
        r == spec_check_return(declared, expected, observed),
{
    match expected {
        ReturnType::NoReturn => {
            if declared != CallbackReturn::ReturnEmpty {
                Err(HarnessError::ReturnKindMismatch { declared, provided: expected })
            } else if observed.is_some() {
                Err(HarnessError::ReturnValueMismatch { provided: expected, observed })
            } else {
                Ok(())
            }
        },
        ReturnType::Bool(b) => {
            if declared != CallbackReturn::ReturnBool {
                Err(HarnessError::ReturnKindMismatch { declared, provided: expected })
            } else {
                let code = crate::types::bool_code(b);
                match observed {
                    Some(v) if v == code => Ok(()),
                    _ => Err(HarnessError::ReturnValueMismatch { provided: expected, observed }),
                }
            }
        },
        ReturnType::Action(a) => {
            if declared != CallbackReturn::ReturnAction {
                Err(HarnessError::ReturnKindMismatch { declared, provided: expected })
            } else {
                let code = crate::types::action_code(a);
                match observed {
                    Some(v) if v == code => Ok(()),
                    _ => Err(HarnessError::ReturnValueMismatch { provided: expected, observed }),
                }
            }
        },
    }
}

/// The `call_*` surface shared by every ABI version. Each method records
/// the callback the next execution step will invoke, together with the
/// return kind that callback declares, and touches nothing else.
pub trait CallbackBase: Sized {
    /// The callback and return kind this harness has recorded.
    spec fn recorded_callback(&self) -> (CallbackProto, CallbackReturn);

    /// Everything except the recorded callback is the same in both states.
    spec fn same_except_callback(&self, other: &Self) -> bool;

    /// Record the pending callback and its declared return kind.
    fn record_callback(&mut self, proto: CallbackProto, rtype: CallbackReturn)
        ensures
            final(self).recorded_callback() == (proto, rtype),
            old(self).same_except_callback(final(self)),
    ;

    /// Invoke the module's start export.
    fn call_start(&mut self)
        ensures
            final(self).recorded_callback() == (CallbackProto::Start, CallbackReturn::ReturnEmpty),
            old(self).same_except_callback(final(self)),
    {
        self.record_callback(CallbackProto::Start, CallbackReturn::ReturnEmpty);
    }

    fn call_proxy_on_context_create(&mut self, root_context_id: i32, parent_context_id: i32)
        ensures
            final(self).recorded_callback() == (
                CallbackProto::ProxyOnContextCreate(root_context_id, parent_context_id),
                CallbackReturn::ReturnEmpty,
            ),
            old(self).same_except_callback(final(self)),
    {
        self.record_callback(
            CallbackProto::ProxyOnContextCreate(root_context_id, parent_context_id),
            CallbackReturn::ReturnEmpty,
        );
    }

    fn call_proxy_on_done(&mut self, context_id: i32)
        ensures
            final(self).recorded_callback() == (
                CallbackProto::ProxyOnDone(context_id),
                CallbackReturn::ReturnBool,
            ),
            old(self).same_except_callback(final(self)),
    {
        self.record_callback(CallbackProto::ProxyOnDone(context_id), CallbackReturn::ReturnBool);
    }

    fn call_proxy_on_log(&mut self, context_id: i32)
        ensures
            final(self).recorded_callback() == (
                CallbackProto::ProxyOnLog(context_id),
                CallbackReturn::ReturnEmpty,
            ),
            old(self).same_except_callback(final(self)),
    {
        self.record_callback(CallbackProto::ProxyOnLog(context_id), CallbackReturn::ReturnEmpty);
    }

    fn call_proxy_on_delete(&mut self, context_id: i32)
        ensures
            final(self).recorded_callback() == (
                CallbackProto::ProxyOnDelete(context_id),
                CallbackReturn::ReturnEmpty,
            ),
            old(self).same_except_callback(final(self)),
    {
        self.record_callback(CallbackProto::ProxyOnDelete(context_id), CallbackReturn::ReturnEmpty);
    }

    fn call_proxy_on_vm_start(&mut self, context_id: i32, vm_configuration_size: i32)
        ensures
            final(self).recorded_callback() == (
                CallbackProto::ProxyOnVmStart(context_id, vm_configuration_size),
                CallbackReturn::ReturnBool,
            ),
            old(self).same_except_callback(final(self)),
    {
        self.record_callback(
            CallbackProto::ProxyOnVmStart(context_id, vm_configuration_size),
            CallbackReturn::ReturnBool,
        );
    }

    fn call_proxy_on_configure(&mut self, context_id: i32, plugin_configuration_size: i32)
        ensures
            final(self).recorded_callback() == (
                CallbackProto::ProxyOnConfigure(context_id, plugin_configuration_size),
                CallbackReturn::ReturnBool,
            ),
            old(self).same_except_callback(final(self)),
    {
        self.record_callback(
            CallbackProto::ProxyOnConfigure(context_id, plugin_configuration_size),
            CallbackReturn::ReturnBool,
        );
    }

    fn call_proxy_on_tick(&mut self, context_id: i32)
        ensures
            final(self).recorded_callback() == (
                CallbackProto::ProxyOnTick(context_id),
                CallbackReturn::ReturnEmpty,
            ),
            old(self).same_except_callback(final(self)),
    {
        self.record_callback(CallbackProto::ProxyOnTick(context_id), CallbackReturn::ReturnEmpty);
    }

    fn call_proxy_on_queue_ready(&mut self, context_id: i32, queue_id: i32)
        ensures
            final(self).recorded_callback() == (
                CallbackProto::ProxyOnQueueReady(context_id, queue_id),
                CallbackReturn::ReturnEmpty,
            ),
            old(self).same_except_callback(final(self)),
    {
        self.record_callback(
            CallbackProto::ProxyOnQueueReady(context_id, queue_id),
            CallbackReturn::ReturnEmpty,
        );
    }

    fn call_proxy_on_new_connection(&mut self, context_id: i32)
        ensures
            final(self).recorded_callback() == (
                CallbackProto::ProxyOnNewConnection(context_id),
                CallbackReturn::ReturnAction,
            ),
            old(self).same_except_callback(final(self)),
    {
        self.record_callback(
            CallbackProto::ProxyOnNewConnection(context_id),
            CallbackReturn::ReturnAction,
        );
    }

    fn call_proxy_on_downstream_data(&mut self, context_id: i32, data_size: i32, end_of_stream: i32)
        ensures
            final(self).recorded_callback() == (
                CallbackProto::ProxyOnDownstreamData(context_id, data_size, end_of_stream),
                CallbackReturn::ReturnAction,
            ),
            old(self).same_except_callback(final(self)),
    {
        self.record_callback(
            CallbackProto::ProxyOnDownstreamData(context_id, data_size, end_of_stream),
            CallbackReturn::ReturnAction,
        );
    }

    fn call_proxy_on_downstream_connection_close(&mut self, context_id: i32, peer_type: PeerType)
        ensures
            final(self).recorded_callback() == (
                CallbackProto::ProxyOnDownstreamConnectionClose(
                    context_id,
                    spec_peer_type_code(peer_type) as i32,
                ),
                CallbackReturn::ReturnEmpty,
            ),
            old(self).same_except_callback(final(self)),
    {
        let peer_code = peer_type_code(peer_type) as i32;
        self.record_callback(
            CallbackProto::ProxyOnDownstreamConnectionClose(context_id, peer_code),
            CallbackReturn::ReturnEmpty,
        );
    }

    fn call_proxy_on_upstream_data(&mut self, context_id: i32, data_size: i32, end_of_stream: i32)
        ensures
            final(self).recorded_callback() == (
                CallbackProto::ProxyOnUpstreamData(context_id, data_size, end_of_stream),
                CallbackReturn::ReturnAction,
            ),
            old(self).same_except_callback(final(self)),
    {
        self.record_callback(
            CallbackProto::ProxyOnUpstreamData(context_id, data_size, end_of_stream),
            CallbackReturn::ReturnAction,
        );
    }

    fn call_proxy_on_upstream_connection_close(&mut self, context_id: i32, peer_type: PeerType)
        ensures
            final(self).recorded_callback() == (
                CallbackProto::ProxyOnUpstreamConnectionClose(
                    context_id,
                    spec_peer_type_code(peer_type) as i32,
                ),
                CallbackReturn::ReturnEmpty,
            ),
            old(self).same_except_callback(final(self)),
    {
        let peer_code = peer_type_code(peer_type) as i32;
        self.record_callback(
            CallbackProto::ProxyOnUpstreamConnectionClose(context_id, peer_code),
            CallbackReturn::ReturnEmpty,
        );
    }

    fn call_proxy_on_request_body(&mut self, context_id: i32, body_size: i32, end_of_stream: i32)
        ensures
            final(self).recorded_callback() == (
                CallbackProto::ProxyOnRequestBody(context_id, body_size, end_of_stream),
                CallbackReturn::ReturnAction,
            ),
            old(self).same_except_callback(final(self)),
    {
        self.record_callback(
            CallbackProto::ProxyOnRequestBody(context_id, body_size, end_of_stream),
            CallbackReturn::ReturnAction,
        );
    }

    fn call_proxy_on_request_trailers(&mut self, context_id: i32, num_trailers: i32)
        ensures
            final(self).recorded_callback() == (
                CallbackProto::ProxyOnRequestTrailers(context_id, num_trailers),
                CallbackReturn::ReturnAction,
            ),
            old(self).same_except_callback(final(self)),
    {
        self.record_callback(
            CallbackProto::ProxyOnRequestTrailers(context_id, num_trailers),
            CallbackReturn::ReturnAction,
        );
    }

    fn call_proxy_on_response_body(&mut self, context_id: i32, body_size: i32, end_of_stream: i32)
        ensures
            final(self).recorded_callback() == (
                CallbackProto::ProxyOnResponseBody(context_id, body_size, end_of_stream),
                CallbackReturn::ReturnAction,
            ),
            old(self).same_except_callback(final(self)),
    {
        self.record_callback(
            CallbackProto::ProxyOnResponseBody(context_id, body_size, end_of_stream),
            CallbackReturn::ReturnAction,
        );
    }

    fn call_proxy_on_response_trailers(&mut self, context_id: i32, num_trailers: i32)
        ensures
            final(self).recorded_callback() == (
                CallbackProto::ProxyOnResponseTrailers(context_id, num_trailers),
                CallbackReturn::ReturnAction,
            ),
            old(self).same_except_callback(final(self)),
    {
        self.record_callback(
            CallbackProto::ProxyOnResponseTrailers(context_id, num_trailers),
            CallbackReturn::ReturnAction,
        );
    }

    fn call_proxy_on_http_call_response(
        &mut self,
        context_id: i32,
        callout_id: i32,
        num_headers: i32,
        body_size: i32,
        num_trailers: i32,
    )
        ensures
            final(self).recorded_callback() == (
                CallbackProto::ProxyOnHttpCallResponse(
                    context_id,
                    callout_id,
                    num_headers,
                    body_size,
                    num_trailers,
                ),
                CallbackReturn::ReturnEmpty,
            ),
            old(self).same_except_callback(final(self)),
    {
        self.record_callback(
            CallbackProto::ProxyOnHttpCallResponse(
                context_id,
                callout_id,
                num_headers,
                body_size,
                num_trailers,
            ),
            CallbackReturn::ReturnEmpty,
        );
    }
}

/// Versioned callbacks with their first-revision arity.
pub trait CallbackV1: CallbackBase {
    fn call_proxy_on_request_headers(&mut self, context_id: i32, num_headers: i32)
        ensures
            final(self).recorded_callback() == (
                CallbackProto::ProxyOnRequestHeadersV1(context_id, num_headers),
                CallbackReturn::ReturnAction,
            ),
            old(self).same_except_callback(final(self)),
    {
        self.record_callback(
            CallbackProto::ProxyOnRequestHeadersV1(context_id, num_headers),
            CallbackReturn::ReturnAction,
        );
    }

    fn call_proxy_on_response_headers(&mut self, context_id: i32, num_headers: i32)
        ensures
            final(self).recorded_callback() == (
                CallbackProto::ProxyOnResponseHeadersV1(context_id, num_headers),
                CallbackReturn::ReturnAction,
            ),
            old(self).same_except_callback(final(self)),
    {
        self.record_callback(
            CallbackProto::ProxyOnResponseHeadersV1(context_id, num_headers),
            CallbackReturn::ReturnAction,
        );
    }
}

/// Versioned callbacks with their second-revision arity.
pub trait CallbackV2: CallbackBase {
    fn call_proxy_on_request_headers(&mut self, context_id: i32, num_headers: i32, end_of_stream: i32)
        ensures
            final(self).recorded_callback() == (
                CallbackProto::ProxyOnRequestHeadersV2(context_id, num_headers, end_of_stream),
                CallbackReturn::ReturnAction,
            ),
            old(self).same_except_callback(final(self)),
    {
        self.record_callback(
            CallbackProto::ProxyOnRequestHeadersV2(context_id, num_headers, end_of_stream),
            CallbackReturn::ReturnAction,
        );
    }

    fn call_proxy_on_response_headers(&mut self, context_id: i32, num_headers: i32, end_of_stream: i32)
        ensures
            final(self).recorded_callback() == (
                CallbackProto::ProxyOnResponseHeadersV2(context_id, num_headers, end_of_stream),
                CallbackReturn::ReturnAction,
            ),
            old(self).same_except_callback(final(self)),
    {
        self.record_callback(
            CallbackProto::ProxyOnResponseHeadersV2(context_id, num_headers, end_of_stream),
            CallbackReturn::ReturnAction,
        );
    }

    fn call_proxy_on_foreign_function(&mut self, root_context_id: i32, function_id: i32, data_size: i32)
        ensures
            final(self).recorded_callback() == (
                CallbackProto::ProxyOnForeignFunction(root_context_id, function_id, data_size),
                CallbackReturn::ReturnAction,
            ),
            old(self).same_except_callback(final(self)),
    {
        self.record_callback(
            CallbackProto::ProxyOnForeignFunction(root_context_id, function_id, data_size),
            CallbackReturn::ReturnAction,
        );
    }
}

} // verus!
