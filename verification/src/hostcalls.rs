//! The host-call dispatcher.
//!
//! Every host-call a guest makes during a callback arrives here with its
//! arguments already decoded. The dispatcher matches it against the first
//! unconsumed expectation of the active stage — strictly in declaration
//! order — hands back the scripted response (or the default derived from
//! mock host state when the stage is exhausted), and applies the documented
//! side effect of the call to the mock host state.

use vstd::prelude::*;
use crate::bytes::bytes_clone;
use crate::bytes::pairs_clone;
use crate::errors::HarnessError;
use crate::expect::ExpectHandle;
use crate::expect::ExpectedCall;
use crate::expect::ObservedCall;
use crate::expect::expected_kind;
use crate::expect::matches_call;
use crate::expect::observed_kind;
use crate::expect::spec_expected_kind;
use crate::expect::spec_matches;
use crate::expect::spec_observed_kind;
use crate::settings::HostSettings;
use crate::settings::spec_map_lookup;
use crate::settings::spec_map_remove;
use crate::settings::spec_map_replace;
use crate::types::spec_buffer_type_code;
use crate::types::spec_map_type_code;

verus! {

/// What the host hands back to the guest for one host-call.
#[derive(Debug)]
pub enum HostResponse {
    /// Only a status code; no payload.
    Done,
    /// A scripted or default timestamp.
    Nanos(u64),
    /// The content of a buffer.
    Bytes(Vec<u8>),
    /// The pairs of a header map.
    Pairs(Vec<(Vec<u8>, Vec<u8>)>),
    /// The value of one header, if present.
    Value(Option<Vec<u8>>),
    /// The identifier of a dispatched call.
    Token(u32),
}

/// The response a matched expectation scripts.
pub open spec fn spec_scripted_response(e: ExpectedCall, resp: HostResponse) -> bool {
    match e {
        ExpectedCall::Log { .. } => resp is Done,
        ExpectedCall::SetTickPeriodMillis { .. } => resp is Done,
        ExpectedCall::GetCurrentTimeNanos { returning } => resp == HostResponse::Nanos(returning),
        ExpectedCall::GetBufferBytes { returning, .. } => resp matches HostResponse::Bytes(b)
            && b@ == returning@,
        ExpectedCall::SetBufferBytes { .. } => resp is Done,
        ExpectedCall::GetHeaderMapPairs { returning, .. } => resp matches HostResponse::Pairs(p)
            && p.deep_view() == returning.deep_view(),
        ExpectedCall::SetHeaderMapPairs { .. } => resp is Done,
        ExpectedCall::GetHeaderMapValue { returning, .. } => resp matches HostResponse::Value(v)
            && v.deep_view() == Some(returning@),
        ExpectedCall::ReplaceHeaderMapValue { .. } => resp is Done,
        ExpectedCall::RemoveHeaderMapValue { .. } => resp is Done,
        ExpectedCall::AddHeaderMapValue { .. } => resp is Done,
        ExpectedCall::SendLocalResponse { .. } => resp is Done,
        ExpectedCall::HttpCall { returning, .. } => resp == HostResponse::Token(returning),
    }
}

/// The response derived from mock host state when no expectation applies.
pub open spec fn spec_default_response(s: HostSettings, c: ObservedCall, resp: HostResponse) -> bool {
    match c {
        ObservedCall::GetCurrentTimeNanos => resp == HostResponse::Nanos(0u64),
        ObservedCall::GetBufferBytes { buffer_type } => resp matches HostResponse::Bytes(b) && b@
            == s.spec_buffer(buffer_type),
        ObservedCall::GetHeaderMapPairs { map_type } => resp matches HostResponse::Pairs(p)
            && p.deep_view() == s.spec_map(map_type),
        ObservedCall::GetHeaderMapValue { map_type, key } => resp matches HostResponse::Value(v)
            && v.deep_view() == spec_map_lookup(s.spec_map(map_type), key@),
        ObservedCall::HttpCall { .. } => resp == HostResponse::Token(0u32),
        _ => resp is Done,
    }
}

/// How a host-call with a documented side effect relates the mock host
/// state before and after: tick-period changes, buffer and header-map
/// writes, and the record that a local response was emitted. Every other
/// call leaves the state untouched.
pub open spec fn spec_side_effect(before: HostSettings, after: HostSettings, c: ObservedCall) -> bool {
    match c {
        ObservedCall::SetTickPeriodMillis { millis } => after == (HostSettings {
            tick_period_millis: millis,
            ..before
        }),
        ObservedCall::SetBufferBytes { buffer_type, data } => {
            &&& after.wf()
            &&& after.spec_buffer(buffer_type) == data@
            &&& after.buffers@.len() == before.buffers@.len()
            &&& forall|i: int|
                0 <= i < before.buffers@.len() && i != spec_buffer_type_code(buffer_type) as int
                    ==> #[trigger] after.buffers@[i] == before.buffers@[i]
            &&& after.header_maps == before.header_maps
            &&& after.tick_period_millis == before.tick_period_millis
            &&& after.abi_version == before.abi_version
            &&& after.local_response_emitted == before.local_response_emitted
        },
        ObservedCall::SetHeaderMapPairs { map_type, pairs } => {
            &&& after.wf()
            &&& after.spec_map(map_type) == pairs.deep_view()
            &&& spec_other_maps_same(before, after, map_type)
        },
        ObservedCall::ReplaceHeaderMapValue { map_type, key, value } => {
            &&& after.wf()
            &&& after.spec_map(map_type) == spec_map_replace(before.spec_map(map_type), key@, value@)
            &&& spec_other_maps_same(before, after, map_type)
        },
        ObservedCall::RemoveHeaderMapValue { map_type, key } => {
            &&& after.wf()
            &&& after.spec_map(map_type) == spec_map_remove(before.spec_map(map_type), key@)
            &&& spec_other_maps_same(before, after, map_type)
        },
        ObservedCall::AddHeaderMapValue { map_type, key, value } => {
            &&& after.wf()
            &&& after.spec_map(map_type) == before.spec_map(map_type).push((key@, value@))
            &&& spec_other_maps_same(before, after, map_type)
        },
        ObservedCall::SendLocalResponse { .. } => after == (HostSettings {
            local_response_emitted: true,
            ..before
        }),
        _ => after == before,
    }
}

/// Everything but the one named header map is unchanged.
pub open spec fn spec_other_maps_same(
    before: HostSettings,
    after: HostSettings,
    map_type: crate::types::MapType,
) -> bool {
    &&& after.header_maps@.len() == before.header_maps@.len()
    &&& forall|i: int|
        0 <= i < before.header_maps@.len() && i != spec_map_type_code(map_type) as int
            ==> #[trigger] after.header_maps@[i] == before.header_maps@[i]
    &&& after.buffers == before.buffers
    &&& after.tick_period_millis == before.tick_period_millis
    &&& after.abi_version == before.abi_version
    &&& after.local_response_emitted == before.local_response_emitted
}

/// Build the response a matched expectation scripts.
fn scripted_response(e: &ExpectedCall) -> (resp: HostResponse)
    ensures
        spec_scripted_response(*e, resp),
{
    match e {
        ExpectedCall::Log { .. } => HostResponse::Done,
        ExpectedCall::SetTickPeriodMillis { .. } => HostResponse::Done,
        ExpectedCall::GetCurrentTimeNanos { returning } => HostResponse::Nanos(*returning),
        ExpectedCall::GetBufferBytes { returning, .. } => HostResponse::Bytes(bytes_clone(returning)),
        ExpectedCall::SetBufferBytes { .. } => HostResponse::Done,
        ExpectedCall::GetHeaderMapPairs { returning, .. } => HostResponse::Pairs(
            pairs_clone(returning),
        ),
        ExpectedCall::SetHeaderMapPairs { .. } => HostResponse::Done,
        ExpectedCall::GetHeaderMapValue { returning, .. } => {
            let value = bytes_clone(returning);
            proof {
                assert(value.deep_view() =~= value@);
            }
            HostResponse::Value(Some(value))
        },
        ExpectedCall::ReplaceHeaderMapValue { .. } => HostResponse::Done,
        ExpectedCall::RemoveHeaderMapValue { .. } => HostResponse::Done,
        ExpectedCall::AddHeaderMapValue { .. } => HostResponse::Done,
        ExpectedCall::SendLocalResponse { .. } => HostResponse::Done,
        ExpectedCall::HttpCall { returning, .. } => HostResponse::Token(*returning),
    }
}

/// Build the response derived from mock host state.
fn default_response(settings: &HostSettings, call: &ObservedCall) -> (resp: HostResponse)
    requires
        settings.wf(),
    ensures
        spec_default_response(*settings, *call, resp),
{
    match call {
        ObservedCall::GetCurrentTimeNanos => HostResponse::Nanos(0),
        ObservedCall::GetBufferBytes { buffer_type } => HostResponse::Bytes(
            settings.get_buffer_bytes(*buffer_type),
        ),
        ObservedCall::GetHeaderMapPairs { map_type } => HostResponse::Pairs(
            settings.get_header_map_pairs(*map_type),
        ),
        ObservedCall::GetHeaderMapValue { map_type, key } => HostResponse::Value(
            settings.get_header_map_value(*map_type, key),
        ),
        ObservedCall::HttpCall { .. } => HostResponse::Token(0),
        _ => HostResponse::Done,
    }
}

/// Apply the documented side effect of a host-call to the mock host state.
fn apply_side_effect(settings: &mut HostSettings, call: &ObservedCall)
    requires
        old(settings).wf(),
    ensures
        final(settings).wf(),
        spec_side_effect(*old(settings), *final(settings), *call),
{
    match call {
        ObservedCall::SetTickPeriodMillis { millis } => {
            settings.set_tick_period_millis(*millis);
        },
        ObservedCall::SetBufferBytes { buffer_type, data } => {
            settings.set_buffer_bytes(*buffer_type, bytes_clone(data));
        },
        ObservedCall::SetHeaderMapPairs { map_type, pairs } => {
            settings.set_header_map_pairs(*map_type, pairs_clone(pairs));
        },
        ObservedCall::ReplaceHeaderMapValue { map_type, key, value } => {
            settings.apply_map_replace(*map_type, key, value);
        },
        ObservedCall::RemoveHeaderMapValue { map_type, key } => {
            settings.apply_map_remove(*map_type, key);
        },
        ObservedCall::AddHeaderMapValue { map_type, key, value } => {
            settings.apply_map_add(*map_type, key, value);
        },
        ObservedCall::SendLocalResponse { .. } => {
            settings.mark_local_response();
        },
        _ => {},
    }
}

/// Everything one dispatched host-call guarantees: the scripts are not
/// rewritten; a kind mismatch with the first unconsumed expectation is an
/// order violation naming both kinds; an argument mismatch names the
/// position; a satisfied expectation is consumed and scripts the
/// response; an exhausted stage serves the default response; and the
/// mock host state changes exactly by the call's documented side effect,
/// or not at all on failure.
pub open spec fn spec_dispatch_post(
    old_expect: ExpectHandle,
    old_settings: HostSettings,
    new_expect: ExpectHandle,
    new_settings: HostSettings,
    call: ObservedCall,
    r: Result<HostResponse, HarnessError>,
) -> bool {
    &&& new_expect.staged@ == old_expect.staged@
    &&& new_expect.active@ == old_expect.active@
    &&& (old_expect.cursor < old_expect.active@.len() && spec_expected_kind(
        old_expect.active@[old_expect.cursor as int],
    ) != spec_observed_kind(call) ==> (r matches Err(
        HarnessError::ExpectationOrderViolation { position, declared, observed },
    ) && position == old_expect.cursor && declared == spec_expected_kind(
        old_expect.active@[old_expect.cursor as int],
    ) && observed == spec_observed_kind(call) && new_expect.cursor == old_expect.cursor
        && new_settings == old_settings))
    &&& (old_expect.cursor < old_expect.active@.len() && spec_expected_kind(
        old_expect.active@[old_expect.cursor as int],
    ) == spec_observed_kind(call) && !spec_matches(
        old_expect.active@[old_expect.cursor as int],
        call,
    ) ==> (r matches Err(HarnessError::ExpectationArgumentMismatch { position, kind }) && position
        == old_expect.cursor && kind == spec_observed_kind(call) && new_expect.cursor
        == old_expect.cursor && new_settings == old_settings))
    &&& (old_expect.cursor < old_expect.active@.len() && spec_matches(
        old_expect.active@[old_expect.cursor as int],
        call,
    ) ==> (r matches Ok(resp) && spec_scripted_response(
        old_expect.active@[old_expect.cursor as int],
        resp,
    ) && new_expect.cursor == old_expect.cursor + 1 && spec_side_effect(
        old_settings,
        new_settings,
        call,
    )))
    &&& (old_expect.cursor == old_expect.active@.len() ==> (r matches Ok(resp)
        && spec_default_response(old_settings, call, resp) && new_expect.cursor == old_expect.cursor
        && spec_side_effect(old_settings, new_settings, call)))
}

/// Handle one observed host-call against the active stage and the mock
/// host state.
///
/// With an unconsumed expectation left, the call must satisfy it: a
/// different kind is an order violation naming both kinds, a failed
/// constraint an argument mismatch; a satisfied expectation is consumed
/// and its scripted response returned. With the stage exhausted, the
/// default response derived from mock host state is returned. Either way
/// the call's documented side effect is applied on success, and nothing
/// is touched on failure.
pub fn dispatch_host_call(
    expect: &mut ExpectHandle,
    settings: &mut HostSettings,
    call: &ObservedCall,
) -> (r: Result<HostResponse, HarnessError>)
    requires
        old(expect).wf(),
        old(settings).wf(),
    ensures
        final(expect).wf(),
        final(settings).wf(),
        spec_dispatch_post(
            *old(expect),
            *old(settings),
            *final(expect),
            *final(settings),
            *call,
            r,
        ),
{
    if expect.cursor < expect.active.len() {
        let kind = observed_kind(call);
        let declared = expected_kind(&expect.active[expect.cursor]);
        if declared != kind {
            return Err(
                HarnessError::ExpectationOrderViolation {
                    position: expect.cursor,
                    declared,
                    observed: kind,
                },
            );
        }
        if !matches_call(&expect.active[expect.cursor], call) {
            return Err(
                HarnessError::ExpectationArgumentMismatch { position: expect.cursor, kind },
            );
        }
        let resp = scripted_response(&expect.active[expect.cursor]);
        expect.cursor = expect.cursor + 1;
        apply_side_effect(settings, call);
        Ok(resp)
    } else {
        let resp = default_response(settings, call);
        apply_side_effect(settings, call);
        Ok(resp)
    }
}

} // verus!
