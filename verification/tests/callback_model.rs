use proxy_wasm_harness::callback::CallbackProto;
use proxy_wasm_harness::callback::CallbackReturn;
use proxy_wasm_harness::callback::CallbackType;
use proxy_wasm_harness::callback::check_return;
use proxy_wasm_harness::callback::plan_invocation;
use proxy_wasm_harness::driver::abi_of_probe;
use proxy_wasm_harness::errors::HarnessError;
use proxy_wasm_harness::types::AbiVersion;
use proxy_wasm_harness::types::Action;
use proxy_wasm_harness::types::BufferType;
use proxy_wasm_harness::types::LogLevel;
use proxy_wasm_harness::types::MapType;
use proxy_wasm_harness::types::PeerType;
use proxy_wasm_harness::types::ReturnType;
use proxy_wasm_harness::types::action_code;
use proxy_wasm_harness::types::bool_code;
use proxy_wasm_harness::types::buffer_type_code;
use proxy_wasm_harness::types::buffer_type_from_code;
use proxy_wasm_harness::types::log_level_code;
use proxy_wasm_harness::types::log_level_from_code;
use proxy_wasm_harness::types::map_type_code;
use proxy_wasm_harness::types::map_type_from_code;
use proxy_wasm_harness::types::peer_type_code;

#[test]
fn wire_codes_match_the_abi() {
    assert_eq!(log_level_code(LogLevel::Trace), 0);
    assert_eq!(log_level_code(LogLevel::Critical), 5);
    assert_eq!(map_type_code(MapType::HttpRequestHeaders), 0);
    assert_eq!(map_type_code(MapType::HttpCallResponseTrailers), 7);
    assert_eq!(buffer_type_code(BufferType::HttpRequestBody), 0);
    assert_eq!(buffer_type_code(BufferType::CallData), 8);
    assert_eq!(peer_type_code(PeerType::Local), 0);
    assert_eq!(peer_type_code(PeerType::Remote), 1);
    assert_eq!(action_code(Action::Continue), 0);
    assert_eq!(action_code(Action::Pause), 1);
    assert_eq!(bool_code(true), 1);
    assert_eq!(bool_code(false), 0);
}

#[test]
fn wire_codes_round_trip() {
    for code in 0u32..6 {
        let level = log_level_from_code(code).unwrap();
        assert_eq!(log_level_code(level), code);
    }
    assert_eq!(log_level_from_code(6), None);
    for code in 0u32..8 {
        let map_type = map_type_from_code(code).unwrap();
        assert_eq!(map_type_code(map_type), code);
    }
    assert_eq!(map_type_from_code(8), None);
    for code in 0u32..9 {
        let buffer_type = buffer_type_from_code(code).unwrap();
        assert_eq!(buffer_type_code(buffer_type), code);
    }
    assert_eq!(buffer_type_from_code(9), None);
}

#[test]
fn callback_slot_records_and_resets() {
    let mut callback = CallbackType::new();
    assert_eq!(callback.get(), (CallbackProto::FunctionNotSet, CallbackReturn::ReturnNotSet));
    callback.set(CallbackProto::ProxyOnTick(4), CallbackReturn::ReturnEmpty);
    assert_eq!(callback.get(), (CallbackProto::ProxyOnTick(4), CallbackReturn::ReturnEmpty));
    callback.reset();
    assert_eq!(callback.get(), (CallbackProto::FunctionNotSet, CallbackReturn::ReturnNotSet));
}

#[test]
fn invocation_plans_name_the_exports() {
    let plan = plan_invocation(CallbackProto::ProxyOnContextCreate(1, 0));
    assert_eq!(plan.name, "proxy_on_context_create");
    assert_eq!(plan.args, vec![1, 0]);
    assert!(!plan.has_result);

    let plan = plan_invocation(CallbackProto::ProxyOnDone(2));
    assert_eq!(plan.name, "proxy_on_done");
    assert_eq!(plan.args, vec![2]);
    assert!(plan.has_result);

    let plan = plan_invocation(CallbackProto::Start);
    assert_eq!(plan.name, "_start");
    assert_eq!(plan.args, Vec::<i32>::new());
    assert!(!plan.has_result);

    let plan = plan_invocation(CallbackProto::ProxyOnHttpCallResponse(2, 7, 2, 11, 0));
    assert_eq!(plan.name, "proxy_on_http_call_response");
    assert_eq!(plan.args, vec![2, 7, 2, 11, 0]);
    assert!(!plan.has_result);
}

#[test]
fn versioned_plans_pick_the_arity() {
    let v1 = plan_invocation(CallbackProto::ProxyOnRequestHeadersV1(2, 0));
    assert_eq!(v1.name, "proxy_on_request_headers");
    assert_eq!(v1.args.len(), 2);
    let v2 = plan_invocation(CallbackProto::ProxyOnRequestHeadersV2(2, 0, 1));
    assert_eq!(v2.name, "proxy_on_request_headers");
    assert_eq!(v2.args.len(), 3);
    let r1 = plan_invocation(CallbackProto::ProxyOnResponseHeadersV1(2, 0));
    assert_eq!(r1.name, "proxy_on_response_headers");
    assert_eq!(r1.args.len(), 2);
    let r2 = plan_invocation(CallbackProto::ProxyOnResponseHeadersV2(2, 0, 1));
    assert_eq!(r2.name, "proxy_on_response_headers");
    assert_eq!(r2.args.len(), 3);
}

#[test]
fn abi_detection_follows_the_probed_arity() {
    assert_eq!(abi_of_probe(Some(2)), AbiVersion::ProxyAbiVersion0_1_0);
    assert_eq!(abi_of_probe(Some(3)), AbiVersion::ProxyAbiVersion0_2_0);
    assert_eq!(abi_of_probe(Some(4)), AbiVersion::UnknownAbiVersion);
    assert_eq!(abi_of_probe(None), AbiVersion::UnknownAbiVersion);
}

#[test]
fn return_check_accepts_exact_values() {
    assert_eq!(check_return(CallbackReturn::ReturnEmpty, ReturnType::NoReturn, None), Ok(()));
    assert_eq!(check_return(CallbackReturn::ReturnBool, ReturnType::Bool(true), Some(1)), Ok(()));
    assert_eq!(check_return(CallbackReturn::ReturnBool, ReturnType::Bool(false), Some(0)), Ok(()));
    assert_eq!(
        check_return(CallbackReturn::ReturnAction, ReturnType::Action(Action::Pause), Some(1)),
        Ok(())
    );
    assert_eq!(
        check_return(CallbackReturn::ReturnAction, ReturnType::Action(Action::Continue), Some(0)),
        Ok(())
    );
}

#[test]
fn return_check_rejects_kind_mismatches() {
    assert_eq!(
        check_return(CallbackReturn::ReturnBool, ReturnType::NoReturn, None),
        Err(HarnessError::ReturnKindMismatch {
            declared: CallbackReturn::ReturnBool,
            provided: ReturnType::NoReturn,
        })
    );
    assert_eq!(
        check_return(CallbackReturn::ReturnEmpty, ReturnType::Action(Action::Pause), Some(1)),
        Err(HarnessError::ReturnKindMismatch {
            declared: CallbackReturn::ReturnEmpty,
            provided: ReturnType::Action(Action::Pause),
        })
    );
}

#[test]
fn return_check_rejects_wrong_values() {
    assert_eq!(
        check_return(CallbackReturn::ReturnAction, ReturnType::Action(Action::Pause), Some(0)),
        Err(HarnessError::ReturnValueMismatch {
            provided: ReturnType::Action(Action::Pause),
            observed: Some(0),
        })
    );
    assert_eq!(
        check_return(CallbackReturn::ReturnBool, ReturnType::Bool(true), None),
        Err(HarnessError::ReturnValueMismatch {
            provided: ReturnType::Bool(true),
            observed: None,
        })
    );
    assert_eq!(
        check_return(CallbackReturn::ReturnEmpty, ReturnType::NoReturn, Some(0)),
        Err(HarnessError::ReturnValueMismatch {
            provided: ReturnType::NoReturn,
            observed: Some(0),
        })
    );
}
