use proxy_wasm_harness::callback::plan_invocation;
use proxy_wasm_harness::callback::CallbackProto;
use proxy_wasm_harness::settings::map_add;
use proxy_wasm_harness::settings::map_lookup;
use proxy_wasm_harness::settings::map_remove;
use proxy_wasm_harness::settings::map_replace;
use proxy_wasm_harness::settings::HostSettings;
use proxy_wasm_harness::types::AbiVersion;
use proxy_wasm_harness::types::BufferType;
use proxy_wasm_harness::types::MapType;

fn pair(key: &str, value: &str) -> (Vec<u8>, Vec<u8>) {
    (key.as_bytes().to_vec(), value.as_bytes().to_vec())
}

fn bytes(text: &str) -> Vec<u8> {
    text.as_bytes().to_vec()
}

#[test]
fn lookup_returns_the_first_occurrence() {
    let map = vec![pair("k", "first"), pair("other", "x"), pair("k", "second")];
    assert_eq!(map_lookup(&map, &bytes("k")), Some(bytes("first")));
    assert_eq!(map_lookup(&map, &bytes("other")), Some(bytes("x")));
    assert_eq!(map_lookup(&map, &bytes("absent")), None);
}

#[test]
fn replace_rewrites_the_first_occurrence_in_place() {
    let mut map = vec![pair("a", "1"), pair("k", "old"), pair("k", "tail")];
    map_replace(&mut map, &bytes("k"), &bytes("new"));
    assert_eq!(map, vec![pair("a", "1"), pair("k", "new"), pair("k", "tail")]);
}

#[test]
fn replace_appends_when_the_key_is_absent() {
    let mut map = vec![pair("a", "1")];
    map_replace(&mut map, &bytes("k"), &bytes("v"));
    assert_eq!(map, vec![pair("a", "1"), pair("k", "v")]);
}

#[test]
fn remove_drops_every_occurrence() {
    let mut map = vec![pair("k", "1"), pair("a", "2"), pair("k", "3")];
    map_remove(&mut map, &bytes("k"));
    assert_eq!(map, vec![pair("a", "2")]);
    map_remove(&mut map, &bytes("absent"));
    assert_eq!(map, vec![pair("a", "2")]);
}

#[test]
fn add_appends_and_keeps_order() {
    let mut map = vec![pair("a", "1")];
    map_add(&mut map, &bytes("b"), &bytes("2"));
    map_add(&mut map, &bytes("a"), &bytes("3"));
    assert_eq!(map, vec![pair("a", "1"), pair("b", "2"), pair("a", "3")]);
}

#[test]
fn fresh_settings_are_empty_per_kind() {
    let settings = HostSettings::new(AbiVersion::ProxyAbiVersion0_2_0);
    assert_eq!(settings.tick_period_millis, 0);
    assert!(!settings.local_response_emitted);
    assert_eq!(settings.get_buffer_bytes(BufferType::PluginConfiguration), Vec::<u8>::new());
    assert_eq!(
        settings.get_header_map_pairs(MapType::GrpcReceiveInitialMetadata),
        Vec::<(Vec<u8>, Vec<u8>)>::new()
    );
    assert_eq!(settings.get_header_map_value(MapType::HttpRequestHeaders, &bytes("k")), None);
}

#[test]
fn settings_reset_forgets_everything() {
    let mut settings = HostSettings::new(AbiVersion::ProxyAbiVersion0_1_0);
    settings.set_tick_period_millis(9);
    settings.set_buffer_bytes(BufferType::HttpRequestBody, bytes("abc"));
    settings.set_header_map_pairs(MapType::HttpRequestHeaders, vec![pair("a", "1")]);
    settings.mark_local_response();
    settings.reset(AbiVersion::ProxyAbiVersion0_1_0);
    assert_eq!(settings.tick_period_millis, 0);
    assert!(!settings.local_response_emitted);
    assert_eq!(settings.get_buffer_bytes(BufferType::HttpRequestBody), Vec::<u8>::new());
    assert_eq!(
        settings.get_header_map_pairs(MapType::HttpRequestHeaders),
        Vec::<(Vec<u8>, Vec<u8>)>::new()
    );
}

#[test]
fn connection_close_callbacks_carry_the_peer_code() {
    let plan = plan_invocation(CallbackProto::ProxyOnDownstreamConnectionClose(5, 1));
    assert_eq!(plan.name, "proxy_on_downstream_connection_close");
    assert_eq!(plan.args, vec![5, 1]);
    assert!(!plan.has_result);
    let plan = plan_invocation(CallbackProto::ProxyOnUpstreamConnectionClose(6, 0));
    assert_eq!(plan.name, "proxy_on_upstream_connection_close");
    assert_eq!(plan.args, vec![6, 0]);
}
