//! Laws of the harness, stated and proved once over the contracts of the
//! engine: return-kind checking, strict in-order consumption of
//! expectations, detection of missing and leftover expectations, the
//! stickiness of host defaults, and the arity rules of versioned
//! callbacks. The header-map round-trip law lives beside the codec as
//! `codec::lemma_header_map_round_trip`.

use vstd::prelude::*;
use crate::callback::CallbackProto;
use crate::callback::CallbackReturn;
use crate::callback::spec_check_return;
use crate::callback::spec_export_args;
use crate::driver::spec_abi_of_probe;
use crate::errors::HarnessError;
use crate::expect::ExpectHandle;
use crate::expect::ObservedCall;
use crate::expect::spec_expected_kind;
use crate::expect::spec_matches;
use crate::expect::spec_observed_kind;
use crate::hostcalls::HostResponse;
use crate::hostcalls::spec_dispatch_post;
use crate::settings::HostSettings;
use crate::types::AbiVersion;
use crate::types::ReturnType;
use crate::types::spec_action_code;
use crate::types::spec_bool_code;

verus! {

/// Whether a declared return kind fits the variant of an expected return
/// value.
pub open spec fn spec_return_kinds_agree(declared: CallbackReturn, expected: ReturnType) -> bool {
    match expected {
        ReturnType::NoReturn => declared == CallbackReturn::ReturnEmpty,
        ReturnType::Bool(..) => declared == CallbackReturn::ReturnBool,
        ReturnType::Action(..) => declared == CallbackReturn::ReturnAction,
    }
}

/// The exact observed value an expected return value demands.
pub open spec fn spec_expected_observed(expected: ReturnType) -> Option<i32> {
    match expected {
        ReturnType::NoReturn => None,
        ReturnType::Bool(b) => Some(spec_bool_code(b)),
        ReturnType::Action(a) => Some(spec_action_code(a)),
    }
}

/// Return checking is exact: a callback's execution step passes the
/// return check precisely when the declared return kind fits the expected
/// value's variant and the guest returned exactly the expected value.
/// In particular, every kind mismatch is detected.
pub proof fn lemma_return_check_exact(
    declared: CallbackReturn,
    expected: ReturnType,
    observed: Option<i32>,
)
    ensures
        spec_check_return(declared, expected, observed) is Ok <==> (spec_return_kinds_agree(
            declared,
            expected,
        ) && observed == spec_expected_observed(expected)),
        !spec_return_kinds_agree(declared, expected) ==> spec_check_return(
            declared,
            expected,
            observed,
        ) == Err::<(), HarnessError>(
            HarnessError::ReturnKindMismatch { declared, provided: expected },
        ),
{
}

/// Expectations are consumed strictly in declaration order: a host-call
/// the dispatcher accepts always satisfies the first unconsumed
/// expectation, and moves the cursor past exactly that one.
pub proof fn lemma_expectations_consumed_in_order(
    old_expect: ExpectHandle,
    old_settings: HostSettings,
    new_expect: ExpectHandle,
    new_settings: HostSettings,
    call: ObservedCall,
    r: Result<HostResponse, HarnessError>,
)
    requires
        spec_dispatch_post(old_expect, old_settings, new_expect, new_settings, call, r),
        old_expect.cursor < old_expect.active@.len(),
        r is Ok,
    ensures
        spec_matches(old_expect.active@[old_expect.cursor as int], call),
        new_expect.cursor == old_expect.cursor + 1,
        new_expect.active@ == old_expect.active@,
{
    if spec_expected_kind(old_expect.active@[old_expect.cursor as int]) != spec_observed_kind(
        call,
    ) {
    } else if !spec_matches(old_expect.active@[old_expect.cursor as int], call) {
    }
}

/// Reordering two host-calls of distinct kinds while the expectation
/// order stays fixed is a failure: a call whose kind differs from the
/// first unconsumed expectation's kind is rejected with an
/// order-violation error naming both kinds, and nothing is consumed.
pub proof fn lemma_out_of_order_call_fails(
    old_expect: ExpectHandle,
    old_settings: HostSettings,
    new_expect: ExpectHandle,
    new_settings: HostSettings,
    call: ObservedCall,
    r: Result<HostResponse, HarnessError>,
)
    requires
        spec_dispatch_post(old_expect, old_settings, new_expect, new_settings, call, r),
        old_expect.cursor < old_expect.active@.len(),
        spec_expected_kind(old_expect.active@[old_expect.cursor as int]) != spec_observed_kind(
            call,
        ),
    ensures
        (r matches Err(HarnessError::ExpectationOrderViolation { position, declared, observed })
            && position == old_expect.cursor && declared == spec_expected_kind(
            old_expect.active@[old_expect.cursor as int],
        ) && observed == spec_observed_kind(call)),
        new_expect.cursor == old_expect.cursor,
        new_settings == old_settings,
{
}

/// Omitting an expectation the guest will perform is detected whenever
/// any expectation is still unconsumed when the call arrives: a host-call
/// that does not satisfy the first unconsumed expectation — whether its
/// kind or one of its constrained arguments differs — is rejected at the
/// omitted entry's position, and neither the stage cursor nor the mock
/// host state moves. A call arriving after the stage is exhausted is
/// excluded: the matching rule's non-strict fallback serves it from the
/// defaults, so an omission at the very end of the script surfaces as a
/// leftover expectation or a differing return value, not here.
pub proof fn lemma_omitted_expectation_detected(
    old_expect: ExpectHandle,
    old_settings: HostSettings,
    new_expect: ExpectHandle,
    new_settings: HostSettings,
    call: ObservedCall,
    r: Result<HostResponse, HarnessError>,
)
    requires
        spec_dispatch_post(old_expect, old_settings, new_expect, new_settings, call, r),
        old_expect.cursor < old_expect.active@.len(),
        !spec_matches(old_expect.active@[old_expect.cursor as int], call),
    ensures
        r is Err,
        (r->Err_0 matches HarnessError::ExpectationOrderViolation { position, .. } && position
            == old_expect.cursor) || (r->Err_0 matches HarnessError::ExpectationArgumentMismatch {
            position,
            ..
        } && position == old_expect.cursor),
        new_expect.cursor == old_expect.cursor,
        new_settings == old_settings,
{
    if spec_expected_kind(old_expect.active@[old_expect.cursor as int]) != spec_observed_kind(
        call,
    ) {
    }
}

/// Which host-calls have a documented side effect on mock host state.
pub open spec fn spec_has_side_effect(call: ObservedCall) -> bool {
    match call {
        ObservedCall::SetTickPeriodMillis { .. } => true,
        ObservedCall::SetBufferBytes { .. } => true,
        ObservedCall::SetHeaderMapPairs { .. } => true,
        ObservedCall::ReplaceHeaderMapValue { .. } => true,
        ObservedCall::RemoveHeaderMapValue { .. } => true,
        ObservedCall::AddHeaderMapValue { .. } => true,
        ObservedCall::SendLocalResponse { .. } => true,
        _ => false,
    }
}

/// Host defaults are sticky: matching a host-call without a documented
/// side effect never mutates the mock host state, so values installed by
/// `set_default_*` stay visible until a host-call with a documented side
/// effect or an explicit reset changes them.
pub proof fn lemma_defaults_sticky_across_dispatch(
    old_expect: ExpectHandle,
    old_settings: HostSettings,
    new_expect: ExpectHandle,
    new_settings: HostSettings,
    call: ObservedCall,
    r: Result<HostResponse, HarnessError>,
)
    requires
        spec_dispatch_post(old_expect, old_settings, new_expect, new_settings, call, r),
        !spec_has_side_effect(call),
        old_expect.cursor <= old_expect.active@.len(),
    ensures
        new_settings == old_settings,
{
    if old_expect.cursor < old_expect.active@.len() {
        if spec_expected_kind(old_expect.active@[old_expect.cursor as int])
            != spec_observed_kind(call) {
        } else if !spec_matches(old_expect.active@[old_expect.cursor as int], call) {
        }
    }
}

/// ABI detection is a function of the probed export arity alone, and the
/// callback driver plans the arity that fits each versioned callback: two
/// scalar arguments for a first-revision header callback — the arity that
/// detects the first ABI revision — and three for a second-revision one.
pub proof fn lemma_versioned_callback_arity(proto: CallbackProto)
    ensures
        spec_abi_of_probe(Some(2usize)) == AbiVersion::ProxyAbiVersion0_1_0,
        spec_abi_of_probe(Some(3usize)) == AbiVersion::ProxyAbiVersion0_2_0,
        spec_abi_of_probe(None) == AbiVersion::UnknownAbiVersion,
        (proto matches CallbackProto::ProxyOnRequestHeadersV1(..) || proto
            matches CallbackProto::ProxyOnResponseHeadersV1(..)) ==> spec_export_args(proto).len()
            == 2,
        (proto matches CallbackProto::ProxyOnRequestHeadersV2(..) || proto
            matches CallbackProto::ProxyOnResponseHeadersV2(..)) ==> spec_export_args(proto).len()
            == 3,
{
}

} // verus!
