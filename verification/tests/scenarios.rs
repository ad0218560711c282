use proxy_wasm_harness::callback::CallbackBase;
use proxy_wasm_harness::callback::CallbackV1;
use proxy_wasm_harness::errors::HarnessError;
use proxy_wasm_harness::expect::HostCallKind;
use proxy_wasm_harness::expect::ObservedCall;
use proxy_wasm_harness::hostcalls::HostResponse;
use proxy_wasm_harness::tester::Tester;
use proxy_wasm_harness::types::AbiVersion;
use proxy_wasm_harness::types::Action;
use proxy_wasm_harness::types::BufferType;
use proxy_wasm_harness::types::LogLevel;
use proxy_wasm_harness::types::MapType;
use proxy_wasm_harness::types::ReturnType;

fn tester() -> Tester {
    Tester::new(AbiVersion::ProxyAbiVersion0_1_0)
}

fn bytes(text: &str) -> Vec<u8> {
    text.as_bytes().to_vec()
}

fn byte_pairs(pairs: &[(&str, &str)]) -> Vec<(Vec<u8>, Vec<u8>)> {
    pairs.iter().map(|(k, v)| (bytes(k), bytes(v))).collect()
}

fn run_silent_callback(t: &mut Tester, expected: ReturnType, observed: Option<i32>) {
    t.prepare_invocation().unwrap();
    t.conclude_invocation(expected, Ok(observed)).unwrap();
}

#[test]
fn context_create_and_request_headers_pause() {
    let mut t = tester();

    t.call_proxy_on_context_create(1, 0);
    run_silent_callback(&mut t, ReturnType::NoReturn, None);
    t.call_proxy_on_context_create(2, 1);
    run_silent_callback(&mut t, ReturnType::NoReturn, None);

    CallbackV1::call_proxy_on_request_headers(&mut t, 2, 0);
    t.expect_get_header_map_pairs(
        MapType::HttpRequestHeaders,
        vec![(":method", "GET"), (":path", "/hello"), (":authority", "developer")],
    );
    t.expect_get_header_map_value(MapType::HttpRequestHeaders, ":path", "/hello");
    t.expect_send_local_response(
        200,
        Some("Hello, World!\n"),
        vec![("Hello", "World"), ("Powered-By", "proxy-wasm")],
        -1,
    );

    let plan = t.prepare_invocation().unwrap();
    assert_eq!(plan.name, "proxy_on_request_headers");
    assert_eq!(plan.args, vec![2, 0]);
    assert!(plan.has_result);

    match t
        .handle_host_call(&ObservedCall::GetHeaderMapPairs { map_type: MapType::HttpRequestHeaders })
        .unwrap()
    {
        HostResponse::Pairs(pairs) => assert_eq!(
            pairs,
            byte_pairs(&[(":method", "GET"), (":path", "/hello"), (":authority", "developer")])
        ),
        other => panic!("wrong response: {:?}", other),
    }
    match t
        .handle_host_call(&ObservedCall::GetHeaderMapValue {
            map_type: MapType::HttpRequestHeaders,
            key: bytes(":path"),
        })
        .unwrap()
    {
        HostResponse::Value(value) => assert_eq!(value, Some(bytes("/hello"))),
        other => panic!("wrong response: {:?}", other),
    }
    match t
        .handle_host_call(&ObservedCall::SendLocalResponse {
            status_code: 200,
            body: Some(bytes("Hello, World!\n")),
            headers: byte_pairs(&[("Hello", "World"), ("Powered-By", "proxy-wasm")]),
            grpc_status: -1,
        })
        .unwrap()
    {
        HostResponse::Done => {},
        other => panic!("wrong response: {:?}", other),
    }
    assert!(t.get_settings_handle().local_response_emitted);

    t.conclude_invocation(ReturnType::Action(Action::Pause), Ok(Some(1))).unwrap();
}

#[test]
fn response_headers_logged() {
    let mut t = tester();
    let scripted = [("server", "envoy"), ("content-length", "14"), ("powered-by", "proxy-wasm")];

    CallbackV1::call_proxy_on_response_headers(&mut t, 2, 0);
    t.expect_get_header_map_pairs(MapType::HttpResponseHeaders, scripted.to_vec());
    for (key, value) in scripted {
        t.expect_log(LogLevel::Trace, &format!("#2 <- {}: {}", key, value));
    }
    t.prepare_invocation().unwrap();

    match t
        .handle_host_call(&ObservedCall::GetHeaderMapPairs {
            map_type: MapType::HttpResponseHeaders,
        })
        .unwrap()
    {
        HostResponse::Pairs(pairs) => assert_eq!(pairs, byte_pairs(&scripted)),
        other => panic!("wrong response: {:?}", other),
    }
    for (key, value) in scripted {
        let call = ObservedCall::Log {
            level: LogLevel::Trace,
            message: bytes(&format!("#2 <- {}: {}", key, value)),
        };
        match t.handle_host_call(&call).unwrap() {
            HostResponse::Done => {},
            other => panic!("wrong response: {:?}", other),
        }
    }

    t.conclude_invocation(ReturnType::Action(Action::Continue), Ok(Some(0))).unwrap();
}

#[test]
fn log_on_done() {
    let mut t = tester();
    t.call_proxy_on_log(2);
    t.expect_log(LogLevel::Trace, "#2 completed.");
    let plan = t.prepare_invocation().unwrap();
    assert_eq!(plan.name, "proxy_on_log");
    assert!(!plan.has_result);

    let call = ObservedCall::Log { level: LogLevel::Trace, message: bytes("#2 completed.") };
    match t.handle_host_call(&call).unwrap() {
        HostResponse::Done => {},
        other => panic!("wrong response: {:?}", other),
    }

    t.conclude_invocation(ReturnType::NoReturn, Ok(None)).unwrap();
}

#[test]
fn tick_period_update() {
    let mut t = tester();
    t.set_default_tick_period_millis(100);
    assert_eq!(t.get_settings_handle().tick_period_millis, 100);

    t.call_proxy_on_configure(1, 0);
    t.expect_set_tick_period_millis(100);
    let plan = t.prepare_invocation().unwrap();
    assert_eq!(plan.name, "proxy_on_configure");
    assert_eq!(plan.args, vec![1, 0]);

    match t.handle_host_call(&ObservedCall::SetTickPeriodMillis { millis: 100 }).unwrap() {
        HostResponse::Done => {},
        other => panic!("wrong response: {:?}", other),
    }
    assert_eq!(t.get_settings_handle().tick_period_millis, 100);

    t.conclude_invocation(ReturnType::Bool(true), Ok(Some(1))).unwrap();
}

#[test]
fn http_callout_round_trip() {
    let mut t = tester();

    CallbackV1::call_proxy_on_request_headers(&mut t, 2, 0);
    t.expect_http_call(
        "backend",
        vec![(":method", "GET"), (":path", "/fetch"), (":authority", "backend")],
        Some("body"),
        vec![],
        500,
        7,
    );
    t.prepare_invocation().unwrap();

    let call = ObservedCall::HttpCall {
        upstream: bytes("backend"),
        headers: byte_pairs(&[(":method", "GET"), (":path", "/fetch"), (":authority", "backend")]),
        body: Some(bytes("body")),
        trailers: Vec::new(),
        timeout_millis: 500,
    };
    match t.handle_host_call(&call).unwrap() {
        HostResponse::Token(token) => assert_eq!(token, 7),
        other => panic!("wrong response: {:?}", other),
    }
    t.conclude_invocation(ReturnType::Action(Action::Continue), Ok(Some(0))).unwrap();

    t.call_proxy_on_http_call_response(2, 7, 2, 11, 0);
    let plan = t.prepare_invocation().unwrap();
    assert_eq!(plan.name, "proxy_on_http_call_response");
    assert_eq!(plan.args, vec![2, 7, 2, 11, 0]);
    t.conclude_invocation(ReturnType::NoReturn, Ok(None)).unwrap();
}

#[test]
fn out_of_order_calls_fail() {
    let mut t = tester();
    t.call_proxy_on_log(2);
    t.expect_log(LogLevel::Trace, "first");
    t.expect_get_header_map_value(MapType::HttpRequestHeaders, ":path", "/hello");
    t.prepare_invocation().unwrap();

    // the guest reverses the two host-calls
    let r = t.handle_host_call(&ObservedCall::GetHeaderMapValue {
        map_type: MapType::HttpRequestHeaders,
        key: bytes(":path"),
    });
    assert_eq!(
        r.unwrap_err(),
        HarnessError::ExpectationOrderViolation {
            position: 0,
            declared: HostCallKind::Log,
            observed: HostCallKind::GetHeaderMapValue,
        }
    );
}

#[test]
fn argument_mismatch_fails() {
    let mut t = tester();
    t.call_proxy_on_log(2);
    t.expect_log(LogLevel::Trace, "expected text");
    t.prepare_invocation().unwrap();

    let r = t.handle_host_call(&ObservedCall::Log {
        level: LogLevel::Trace,
        message: bytes("different text"),
    });
    assert_eq!(
        r.unwrap_err(),
        HarnessError::ExpectationArgumentMismatch { position: 0, kind: HostCallKind::Log }
    );
}

#[test]
fn unconsumed_expectation_fails() {
    let mut t = tester();
    t.call_proxy_on_log(2);
    t.expect_log(LogLevel::Trace, "never emitted");
    t.prepare_invocation().unwrap();

    let r = t.conclude_invocation(ReturnType::NoReturn, Ok(None));
    assert_eq!(
        r.unwrap_err(),
        HarnessError::UnconsumedExpectation { position: 0, kind: HostCallKind::Log }
    );
}

#[test]
fn return_kind_mismatch_detected_at_conclusion() {
    let mut t = tester();
    t.call_proxy_on_log(2); // declares an empty return
    t.prepare_invocation().unwrap();
    let r = t.conclude_invocation(ReturnType::Bool(true), Ok(Some(1)));
    assert!(matches!(r.unwrap_err(), HarnessError::ReturnKindMismatch { .. }));
}

#[test]
fn execute_without_recorded_callback_is_misuse() {
    let mut t = tester();
    assert_eq!(t.prepare_invocation().unwrap_err(), HarnessError::CallbackNotSet);
}

#[test]
fn defaults_serve_unscripted_reads() {
    let mut t = tester();
    t.set_default_header_map_pairs(MapType::HttpRequestHeaders, vec![(":path", "/root")]);
    t.set_default_buffer_bytes(BufferType::HttpRequestBody, "request body");

    t.call_proxy_on_log(1);
    t.prepare_invocation().unwrap();

    match t
        .handle_host_call(&ObservedCall::GetHeaderMapPairs { map_type: MapType::HttpRequestHeaders })
        .unwrap()
    {
        HostResponse::Pairs(pairs) => assert_eq!(pairs, byte_pairs(&[(":path", "/root")])),
        other => panic!("wrong response: {:?}", other),
    }
    match t
        .handle_host_call(&ObservedCall::GetHeaderMapValue {
            map_type: MapType::HttpRequestHeaders,
            key: bytes(":path"),
        })
        .unwrap()
    {
        HostResponse::Value(value) => assert_eq!(value, Some(bytes("/root"))),
        other => panic!("wrong response: {:?}", other),
    }
    match t
        .handle_host_call(&ObservedCall::GetBufferBytes { buffer_type: BufferType::HttpRequestBody })
        .unwrap()
    {
        HostResponse::Bytes(data) => assert_eq!(data, bytes("request body")),
        other => panic!("wrong response: {:?}", other),
    }
    match t.handle_host_call(&ObservedCall::GetCurrentTimeNanos).unwrap() {
        HostResponse::Nanos(nanos) => assert_eq!(nanos, 0),
        other => panic!("wrong response: {:?}", other),
    }
    t.conclude_invocation(ReturnType::NoReturn, Ok(None)).unwrap();
}

#[test]
fn defaults_stay_until_reset() {
    let mut t = tester();
    t.set_default_tick_period_millis(250);

    // a whole callback cycle does not disturb the default
    t.call_proxy_on_log(1);
    t.expect_log(LogLevel::Info, "hello");
    t.prepare_invocation().unwrap();
    t.handle_host_call(&ObservedCall::Log { level: LogLevel::Info, message: bytes("hello") })
        .unwrap();
    t.conclude_invocation(ReturnType::NoReturn, Ok(None)).unwrap();
    assert_eq!(t.get_settings_handle().tick_period_millis, 250);

    t.reset_default_tick_period_millis();
    assert_eq!(t.get_settings_handle().tick_period_millis, 0);

    t.set_default_tick_period_millis(99);
    t.reset_host_settings();
    assert_eq!(t.get_settings_handle().tick_period_millis, 0);
}

#[test]
fn header_writes_are_visible_to_later_reads() {
    let mut t = tester();
    t.call_proxy_on_log(1);
    t.prepare_invocation().unwrap();

    t.handle_host_call(&ObservedCall::AddHeaderMapValue {
        map_type: MapType::HttpRequestHeaders,
        key: bytes("x-added"),
        value: bytes("one"),
    })
    .unwrap();
    match t
        .handle_host_call(&ObservedCall::GetHeaderMapValue {
            map_type: MapType::HttpRequestHeaders,
            key: bytes("x-added"),
        })
        .unwrap()
    {
        HostResponse::Value(value) => assert_eq!(value, Some(bytes("one"))),
        other => panic!("wrong response: {:?}", other),
    }

    t.handle_host_call(&ObservedCall::ReplaceHeaderMapValue {
        map_type: MapType::HttpRequestHeaders,
        key: bytes("x-added"),
        value: bytes("two"),
    })
    .unwrap();
    match t
        .handle_host_call(&ObservedCall::GetHeaderMapValue {
            map_type: MapType::HttpRequestHeaders,
            key: bytes("x-added"),
        })
        .unwrap()
    {
        HostResponse::Value(value) => assert_eq!(value, Some(bytes("two"))),
        other => panic!("wrong response: {:?}", other),
    }

    t.handle_host_call(&ObservedCall::RemoveHeaderMapValue {
        map_type: MapType::HttpRequestHeaders,
        key: bytes("x-added"),
    })
    .unwrap();
    match t
        .handle_host_call(&ObservedCall::GetHeaderMapValue {
            map_type: MapType::HttpRequestHeaders,
            key: bytes("x-added"),
        })
        .unwrap()
    {
        HostResponse::Value(value) => assert_eq!(value, None),
        other => panic!("wrong response: {:?}", other),
    }

    t.conclude_invocation(ReturnType::NoReturn, Ok(None)).unwrap();
}

#[test]
fn scripted_reads_win_over_defaults() {
    let mut t = tester();
    t.set_default_buffer_bytes(BufferType::HttpRequestBody, "default data");

    t.call_proxy_on_log(1);
    t.expect_get_buffer_bytes(BufferType::HttpRequestBody, "scripted data");
    t.expect_get_current_time_nanos(123_456_789);
    t.prepare_invocation().unwrap();

    match t
        .handle_host_call(&ObservedCall::GetBufferBytes { buffer_type: BufferType::HttpRequestBody })
        .unwrap()
    {
        HostResponse::Bytes(data) => assert_eq!(data, bytes("scripted data")),
        other => panic!("wrong response: {:?}", other),
    }
    match t.handle_host_call(&ObservedCall::GetCurrentTimeNanos).unwrap() {
        HostResponse::Nanos(nanos) => assert_eq!(nanos, 123_456_789),
        other => panic!("wrong response: {:?}", other),
    }
    t.conclude_invocation(ReturnType::NoReturn, Ok(None)).unwrap();
}

#[test]
fn set_buffer_and_set_pairs_update_the_mock_state() {
    let mut t = tester();
    t.call_proxy_on_log(1);
    t.expect_set_buffer_bytes(BufferType::HttpRequestBody, "written");
    t.expect_set_header_map_pairs(MapType::HttpResponseHeaders, vec![("a", "1")]);
    t.prepare_invocation().unwrap();

    t.handle_host_call(&ObservedCall::SetBufferBytes {
        buffer_type: BufferType::HttpRequestBody,
        data: bytes("written"),
    })
    .unwrap();
    t.handle_host_call(&ObservedCall::SetHeaderMapPairs {
        map_type: MapType::HttpResponseHeaders,
        pairs: byte_pairs(&[("a", "1")]),
    })
    .unwrap();

    match t
        .handle_host_call(&ObservedCall::GetBufferBytes { buffer_type: BufferType::HttpRequestBody })
        .unwrap()
    {
        HostResponse::Bytes(data) => assert_eq!(data, bytes("written")),
        other => panic!("wrong response: {:?}", other),
    }
    match t
        .handle_host_call(&ObservedCall::GetHeaderMapPairs {
            map_type: MapType::HttpResponseHeaders,
        })
        .unwrap()
    {
        HostResponse::Pairs(pairs) => assert_eq!(pairs, byte_pairs(&[("a", "1")])),
        other => panic!("wrong response: {:?}", other),
    }
    t.conclude_invocation(ReturnType::NoReturn, Ok(None)).unwrap();
}

#[test]
fn guest_failure_propagates_at_conclusion() {
    let mut t = tester();
    t.call_proxy_on_log(2);
    t.prepare_invocation().unwrap();
    let trap = HarnessError::GuestTrap { detail: "unreachable executed".to_string() };
    let r = t.conclude_invocation(ReturnType::NoReturn, Err(trap.clone()));
    assert_eq!(r.unwrap_err(), trap);
}
