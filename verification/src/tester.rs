//! The tester façade.
//!
//! A `Tester` owns one test's whole harness state: the pending callback,
//! the staged and active expectation scripts, and the mock host state.
//! `expect_*` methods stage anticipated host-calls, `set_default_*` methods
//! change the defaults that handlers fall back to, `prepare_invocation`
//! freezes the staged script when a callback starts, `handle_host_call`
//! serves the guest's host-calls while it runs, and `conclude_invocation`
//! holds the return value to the declared return kind and asserts the
//! stage drained.

use vstd::prelude::*;
use vstd::string::StringSliceAdditionalSpecFns;
use crate::bytes::text_bytes;
use crate::bytes::text_pairs;
use crate::bytes::spec_text_pairs;
use crate::callback::CallbackBase;
use crate::callback::CallbackProto;
use crate::callback::CallbackReturn;
use crate::callback::CallbackType;
use crate::callback::CallbackV1;
use crate::callback::CallbackV2;
use crate::callback::InvocationPlan;
use crate::callback::check_return;
use crate::callback::plan_invocation;
use crate::callback::spec_check_return;
use crate::errors::HarnessError;
use crate::expect::ExpectHandle;
use crate::expect::ExpectedCall;
use crate::expect::ObservedCall;
use crate::expect::expected_kind;
use crate::expect::spec_expected_kind;
use crate::hostcalls::HostResponse;
use crate::hostcalls::dispatch_host_call;
use crate::hostcalls::spec_dispatch_post;
use crate::settings::HostSettings;
use crate::types::AbiVersion;
use crate::types::BufferType;
use crate::types::LogLevel;
use crate::types::MapType;
use crate::types::ReturnType;

verus! {

/// One test's harness: the pending callback, the expectation buffers and
/// the mock host state.
#[derive(Debug)]
pub struct Tester {
    pub abi_version: AbiVersion,
    pub callback: CallbackType,
    pub expect: ExpectHandle,
    pub settings: HostSettings,
}

/// All fields except the staged expectation script are the same, and one
/// entry was appended to it.
pub open spec fn spec_staged_push(before: Tester, after: Tester) -> bool {
    &&& after.abi_version == before.abi_version
    &&& after.callback == before.callback
    &&& after.settings == before.settings
    &&& after.expect.active@ == before.expect.active@
    &&& after.expect.cursor == before.expect.cursor
    &&& after.expect.staged@.len() == before.expect.staged@.len() + 1
    &&& forall|i: int|
        0 <= i < before.expect.staged@.len() ==> #[trigger] after.expect.staged@[i]
            == before.expect.staged@[i]
}

impl Tester {
    /// Both tiers of the harness state are well-formed.
    pub open spec fn wf(&self) -> bool {
        &&& self.expect.wf()
        &&& self.settings.wf()
    }

    /// A fresh harness for a guest of the given ABI version: no pending
    /// callback, empty expectation buffers, fresh host defaults.
    pub fn new(abi_version: AbiVersion) -> (tester: Tester)
        ensures
            tester.wf(),
            tester.abi_version == abi_version,
            tester.callback.0 == CallbackProto::FunctionNotSet,
            tester.callback.1 == CallbackReturn::ReturnNotSet,
            tester.expect.staged@.len() == 0,
            tester.expect.active@.len() == 0,
            tester.expect.cursor == 0,
            tester.settings.spec_fresh(abi_version),
    {
        Tester {
            abi_version,
            callback: CallbackType::new(),
            expect: ExpectHandle::new(),
            settings: HostSettings::new(abi_version),
        }
    }

    /// Expect a `log` host-call with exactly this level and message.
    pub fn expect_log(&mut self, log_level: LogLevel, log_msg: &str)
        requires
            old(self).wf(),
        ensures
            final(self).wf(),
            spec_staged_push(*old(self), *final(self)),
            (final(self).expect.staged@.last() matches ExpectedCall::Log { level, message }
                && level == log_level && message@ == log_msg.spec_bytes()),
    {
        let message = text_bytes(log_msg);
        self.expect.push_staged(ExpectedCall::Log { level: log_level, message });
    }

    /// Expect a `set_tick_period` host-call with exactly this period.
    pub fn expect_set_tick_period_millis(&mut self, tick_period_millis: u64)
        requires
            old(self).wf(),
        ensures
            final(self).wf(),
            spec_staged_push(*old(self), *final(self)),
            final(self).expect.staged@.last() == (ExpectedCall::SetTickPeriodMillis {
                millis: tick_period_millis,
            }),
    {
        self.expect.push_staged(
            ExpectedCall::SetTickPeriodMillis { millis: tick_period_millis },
        );
    }

    /// Expect a `get_current_time` host-call, scripting the timestamp it
    /// returns.
    pub fn expect_get_current_time_nanos(&mut self, returning_nanos: u64)
        requires
            old(self).wf(),
        ensures
            final(self).wf(),
            spec_staged_push(*old(self), *final(self)),
            final(self).expect.staged@.last() == (ExpectedCall::GetCurrentTimeNanos {
                returning: returning_nanos,
            }),
    {
        self.expect.push_staged(ExpectedCall::GetCurrentTimeNanos { returning: returning_nanos });
    }

    /// Expect a `get_buffer_bytes` host-call on this buffer, scripting the
    /// bytes it returns.
    pub fn expect_get_buffer_bytes(&mut self, buffer_type: BufferType, returning_data: &str)
        requires
            old(self).wf(),
        ensures
            final(self).wf(),
            spec_staged_push(*old(self), *final(self)),
            (final(self).expect.staged@.last() matches ExpectedCall::GetBufferBytes {
                buffer_type: bt,
                returning,
            } && bt == buffer_type && returning@ == returning_data.spec_bytes()),
    {
        let returning = text_bytes(returning_data);
        self.expect.push_staged(ExpectedCall::GetBufferBytes { buffer_type, returning });
    }

    /// Expect a `set_buffer_bytes` host-call with exactly this buffer and
    /// data.
    pub fn expect_set_buffer_bytes(&mut self, buffer_type: BufferType, buffer_data: &str)
        requires
            old(self).wf(),
        ensures
            final(self).wf(),
            spec_staged_push(*old(self), *final(self)),
            (final(self).expect.staged@.last() matches ExpectedCall::SetBufferBytes {
                buffer_type: bt,
                data,
            } && bt == buffer_type && data@ == buffer_data.spec_bytes()),
    {
        let data = text_bytes(buffer_data);
        self.expect.push_staged(ExpectedCall::SetBufferBytes { buffer_type, data });
    }

    /// Expect a `get_header_map_pairs` host-call on this map, scripting the
    /// pairs it returns.
    pub fn expect_get_header_map_pairs(
        &mut self,
        map_type: MapType,
        returning_pairs: Vec<(&str, &str)>,
    )
        requires
            old(self).wf(),
        ensures
            final(self).wf(),
            spec_staged_push(*old(self), *final(self)),
            (final(self).expect.staged@.last() matches ExpectedCall::GetHeaderMapPairs {
                map_type: mt,
                returning,
            } && mt == map_type && returning.deep_view() == spec_text_pairs(returning_pairs@)),
    {
        let returning = text_pairs(&returning_pairs);
        proof {
            assert(returning.deep_view() =~= spec_text_pairs(returning_pairs@));
        }
        self.expect.push_staged(ExpectedCall::GetHeaderMapPairs { map_type, returning });
    }

    /// Expect a `set_header_map_pairs` host-call with exactly this map and
    /// pair list.
    pub fn expect_set_header_map_pairs(
        &mut self,
        map_type: MapType,
        header_map_pairs: Vec<(&str, &str)>,
    )
        requires
            old(self).wf(),
        ensures
            final(self).wf(),
            spec_staged_push(*old(self), *final(self)),
            (final(self).expect.staged@.last() matches ExpectedCall::SetHeaderMapPairs {
                map_type: mt,
                pairs,
            } && mt == map_type && pairs.deep_view() == spec_text_pairs(header_map_pairs@)),
    {
        let pairs = text_pairs(&header_map_pairs);
        proof {
            assert(pairs.deep_view() =~= spec_text_pairs(header_map_pairs@));
        }
        self.expect.push_staged(ExpectedCall::SetHeaderMapPairs { map_type, pairs });
    }

    /// Expect a `get_header_map_value` host-call on this map and key,
    /// scripting the value it returns.
    pub fn expect_get_header_map_value(
        &mut self,
        map_type: MapType,
        header_map_key: &str,
        returning_value: &str,
    )
        requires
            old(self).wf(),
        ensures
            final(self).wf(),
            spec_staged_push(*old(self), *final(self)),
            (final(self).expect.staged@.last() matches ExpectedCall::GetHeaderMapValue {
                map_type: mt,
                key,
                returning,
            } && mt == map_type && key@ == header_map_key.spec_bytes() && returning@
                == returning_value.spec_bytes()),
    {
        let key = text_bytes(header_map_key);
        let returning = text_bytes(returning_value);
        self.expect.push_staged(ExpectedCall::GetHeaderMapValue { map_type, key, returning });
    }

    /// Expect a `replace_header_map_value` host-call with exactly this map,
    /// key and value.
    pub fn expect_replace_header_map_value(
        &mut self,
        map_type: MapType,
        header_map_key: &str,
        header_map_value: &str,
    )
        requires
            old(self).wf(),
        ensures
            final(self).wf(),
            spec_staged_push(*old(self), *final(self)),
            (final(self).expect.staged@.last() matches ExpectedCall::ReplaceHeaderMapValue {
                map_type: mt,
                key,
                value,
            } && mt == map_type && key@ == header_map_key.spec_bytes() && value@
                == header_map_value.spec_bytes()),
    {
        let key = text_bytes(header_map_key);
        let value = text_bytes(header_map_value);
        self.expect.push_staged(ExpectedCall::ReplaceHeaderMapValue { map_type, key, value });
    }

    /// Expect a `remove_header_map_value` host-call with exactly this map
    /// and key.
    pub fn expect_remove_header_map_value(&mut self, map_type: MapType, header_map_key: &str)
        requires
            old(self).wf(),
        ensures
            final(self).wf(),
            spec_staged_push(*old(self), *final(self)),
            (final(self).expect.staged@.last() matches ExpectedCall::RemoveHeaderMapValue {
                map_type: mt,
                key,
            } && mt == map_type && key@ == header_map_key.spec_bytes()),
    {
        let key = text_bytes(header_map_key);
        self.expect.push_staged(ExpectedCall::RemoveHeaderMapValue { map_type, key });
    }

    /// Expect an `add_header_map_value` host-call with exactly this map,
    /// key and value.
    pub fn expect_add_header_map_value(
        &mut self,
        map_type: MapType,
        header_map_key: &str,
        header_map_value: &str,
    )
        requires
            old(self).wf(),
        ensures
            final(self).wf(),
            spec_staged_push(*old(self), *final(self)),
            (final(self).expect.staged@.last() matches ExpectedCall::AddHeaderMapValue {
                map_type: mt,
                key,
                value,
            } && mt == map_type && key@ == header_map_key.spec_bytes() && value@
                == header_map_value.spec_bytes()),
    {
        let key = text_bytes(header_map_key);
        let value = text_bytes(header_map_value);
        self.expect.push_staged(ExpectedCall::AddHeaderMapValue { map_type, key, value });
    }

    /// Expect a `send_local_response` host-call with exactly this status,
    /// body, header list and gRPC status.
    pub fn expect_send_local_response(
        &mut self,
        status_code: i32,
        body: Option<&str>,
        headers: Vec<(&str, &str)>,
        grpc_status: i32,
    )
        requires
            old(self).wf(),
        ensures
            final(self).wf(),
            spec_staged_push(*old(self), *final(self)),
            (final(self).expect.staged@.last() matches ExpectedCall::SendLocalResponse {
                status_code: sc,
                body: b,
                headers: h,
                grpc_status: gs,
            } && sc == status_code && b.deep_view() == spec_opt_text(body) && h.deep_view()
                == spec_text_pairs(headers@) && gs == grpc_status),
    {
        let body_bytes = match body {
            Some(text) => Some(text_bytes(text)),
            None => None,
        };
        let header_bytes = text_pairs(&headers);
        proof {
            assert(header_bytes.deep_view() =~= spec_text_pairs(headers@));
        }
        self.expect.push_staged(
            ExpectedCall::SendLocalResponse {
                status_code,
                body: body_bytes,
                headers: header_bytes,
                grpc_status,
            },
        );
    }

    /// Expect an `http_call` host-call with exactly this upstream, header
    /// list, body, trailer list and timeout, scripting the callout token
    /// written back to the guest.
    pub fn expect_http_call(
        &mut self,
        upstream: &str,
        headers: Vec<(&str, &str)>,
        body: Option<&str>,
        trailers: Vec<(&str, &str)>,
        timeout: u64,
        returning_token: u32,
    )
        requires
            old(self).wf(),
        ensures
            final(self).wf(),
            spec_staged_push(*old(self), *final(self)),
            (final(self).expect.staged@.last() matches ExpectedCall::HttpCall {
                upstream: u,
                headers: h,
                body: b,
                trailers: t,
                timeout_millis: ms,
                returning,
            } && u@ == upstream.spec_bytes() && h.deep_view() == spec_text_pairs(headers@)
                && b.deep_view() == spec_opt_text(body) && t.deep_view() == spec_text_pairs(
                trailers@,
            ) && ms == timeout && returning == returning_token),
    {
        let upstream_bytes = text_bytes(upstream);
        let header_bytes = text_pairs(&headers);
        let body_bytes = match body {
            Some(text) => Some(text_bytes(text)),
            None => None,
        };
        let trailer_bytes = text_pairs(&trailers);
        proof {
            assert(header_bytes.deep_view() =~= spec_text_pairs(headers@));
            assert(trailer_bytes.deep_view() =~= spec_text_pairs(trailers@));
        }
        self.expect.push_staged(
            ExpectedCall::HttpCall {
                upstream: upstream_bytes,
                headers: header_bytes,
                body: body_bytes,
                trailers: trailer_bytes,
                timeout_millis: timeout,
                returning: returning_token,
            },
        );
    }

    /// Drop the default tick period back to zero.
    pub fn reset_default_tick_period_millis(&mut self)
        requires
            old(self).wf(),
        ensures
            final(self).wf(),
            final(self).settings.tick_period_millis == 0,
            *final(self) == (Tester {
                settings: final(self).settings,
                ..*old(self)
            }),
            final(self).settings == (HostSettings {
                tick_period_millis: 0,
                ..old(self).settings
            }),
    {
        self.settings.reset_tick_period_millis();
    }

    /// Make this default tick period visible to subsequent callbacks until
    /// it is reset.
    pub fn set_default_tick_period_millis(&mut self, tick_period_millis: u64)
        requires
            old(self).wf(),
        ensures
            final(self).wf(),
            *final(self) == (Tester {
                settings: final(self).settings,
                ..*old(self)
            }),
            final(self).settings == (HostSettings {
                tick_period_millis,
                ..old(self).settings
            }),
    {
        self.settings.set_tick_period_millis(tick_period_millis);
    }

    /// Empty every default buffer.
    pub fn reset_default_buffer_bytes(&mut self)
        requires
            old(self).wf(),
        ensures
            final(self).wf(),
            *final(self) == (Tester {
                settings: final(self).settings,
                ..*old(self)
            }),
            forall|i: int|
                0 <= i < final(self).settings.buffers@.len() ==> #[trigger] final(
                    self
                ).settings.buffers@[i]@ == Seq::<u8>::empty(),
            final(self).settings.header_maps == old(self).settings.header_maps,
            final(self).settings.tick_period_millis == old(self).settings.tick_period_millis,
            final(self).settings.abi_version == old(self).settings.abi_version,
            final(self).settings.local_response_emitted == old(
                self
            ).settings.local_response_emitted,
    {
        self.settings.reset_buffer_bytes();
    }

    /// Make this default buffer content visible to subsequent callbacks
    /// until it is reset.
    pub fn set_default_buffer_bytes(&mut self, buffer_type: BufferType, buffer_data: &str)
        requires
            old(self).wf(),
        ensures
            final(self).wf(),
            *final(self) == (Tester {
                settings: final(self).settings,
                ..*old(self)
            }),
            final(self).settings.spec_buffer(buffer_type) == buffer_data.spec_bytes(),
            forall|i: int|
                0 <= i < old(self).settings.buffers@.len() && i
                    != crate::types::spec_buffer_type_code(buffer_type) as int ==> #[trigger] final(
                    self
                ).settings.buffers@[i] == old(self).settings.buffers@[i],
            final(self).settings.header_maps == old(self).settings.header_maps,
            final(self).settings.tick_period_millis == old(self).settings.tick_period_millis,
            final(self).settings.abi_version == old(self).settings.abi_version,
            final(self).settings.local_response_emitted == old(
                self
            ).settings.local_response_emitted,
    {
        let data = text_bytes(buffer_data);
        self.settings.set_buffer_bytes(buffer_type, data);
    }

    /// Empty every default header map.
    pub fn reset_default_header_map_pairs(&mut self)
        requires
            old(self).wf(),
        ensures
            final(self).wf(),
            *final(self) == (Tester {
                settings: final(self).settings,
                ..*old(self)
            }),
            forall|i: int|
                0 <= i < final(self).settings.header_maps@.len() ==> #[trigger] final(
                    self
                ).settings.header_maps@[i].deep_view() == Seq::<(Seq<u8>, Seq<u8>)>::empty(),
            final(self).settings.buffers == old(self).settings.buffers,
            final(self).settings.tick_period_millis == old(self).settings.tick_period_millis,
            final(self).settings.abi_version == old(self).settings.abi_version,
            final(self).settings.local_response_emitted == old(
                self
            ).settings.local_response_emitted,
    {
        self.settings.reset_header_map_pairs();
    }

    /// Make these default header pairs visible to subsequent callbacks
    /// until they are reset.
    pub fn set_default_header_map_pairs(
        &mut self,
        map_type: MapType,
        header_map_pairs: Vec<(&str, &str)>,
    )
        requires
            old(self).wf(),
        ensures
            final(self).wf(),
            *final(self) == (Tester {
                settings: final(self).settings,
                ..*old(self)
            }),
            final(self).settings.spec_map(map_type) == spec_text_pairs(header_map_pairs@),
            forall|i: int|
                0 <= i < old(self).settings.header_maps@.len() && i
                    != crate::types::spec_map_type_code(map_type) as int ==> #[trigger] final(
                    self
                ).settings.header_maps@[i] == old(self).settings.header_maps@[i],
            final(self).settings.buffers == old(self).settings.buffers,
            final(self).settings.tick_period_millis == old(self).settings.tick_period_millis,
            final(self).settings.abi_version == old(self).settings.abi_version,
            final(self).settings.local_response_emitted == old(
                self
            ).settings.local_response_emitted,
    {
        let pairs = text_pairs(&header_map_pairs);
        proof {
            assert(pairs.deep_view() =~= spec_text_pairs(header_map_pairs@));
        }
        self.settings.set_header_map_pairs(map_type, pairs);
    }

    /// Re-initialize the mock host state from the detected ABI version.
    pub fn reset_host_settings(&mut self)
        requires
            old(self).wf(),
        ensures
            final(self).wf(),
            *final(self) == (Tester {
                settings: final(self).settings,
                ..*old(self)
            }),
            final(self).settings.spec_fresh(old(self).abi_version),
    {
        let abi_version = self.abi_version;
        self.settings.reset(abi_version);
    }

    /// A view of the expectation buffers.
    pub fn get_expect_handle(&self) -> (r: &ExpectHandle)
        ensures
            *r == self.expect,
    {
        &self.expect
    }

    /// A view of the mock host state.
    pub fn get_settings_handle(&self) -> (r: &HostSettings)
        ensures
            *r == self.settings,
    {
        &self.settings
    }

    /// Freeze the staged expectations and describe the invocation of the
    /// recorded callback. With no callback recorded, this is an API misuse
    /// and nothing happens.
    pub fn prepare_invocation(&mut self) -> (r: Result<InvocationPlan, HarnessError>)
        requires
            old(self).wf(),
        ensures
            final(self).wf(),
            old(self).callback.0 == CallbackProto::FunctionNotSet || old(self).callback.1
                == CallbackReturn::ReturnNotSet ==> (r matches Err(HarnessError::CallbackNotSet)
                && *final(self) == *old(self)),
            old(self).callback.0 != CallbackProto::FunctionNotSet && old(self).callback.1
                != CallbackReturn::ReturnNotSet ==> (r matches Ok(plan) && plan.spec_for(
                old(self).callback.0,
            ) && final(self).expect.active@ == old(self).expect.staged@ && final(
                self
            ).expect.staged@.len() == 0 && final(self).expect.cursor == 0 && final(self).settings
                == old(self).settings && final(self).callback == old(self).callback && final(
                self
            ).abi_version == old(self).abi_version),
    {
        let (proto, rtype) = self.callback.get();
        if matches!(proto, CallbackProto::FunctionNotSet) || matches!(
            rtype,
            CallbackReturn::ReturnNotSet,
        ) {
            return Err(HarnessError::CallbackNotSet);
        }
        let plan = plan_invocation(proto);
        self.expect.promote();
        Ok(plan)
    }

    /// Serve one host-call the guest made while the callback runs.
    pub fn handle_host_call(&mut self, call: &ObservedCall) -> (r: Result<
        HostResponse,
        HarnessError,
    >)
        requires
            old(self).wf(),
        ensures
            final(self).wf(),
            final(self).callback == old(self).callback,
            final(self).abi_version == old(self).abi_version,
            spec_dispatch_post(
                old(self).expect,
                old(self).settings,
                final(self).expect,
                final(self).settings,
                *call,
                r,
            ),
    {
        dispatch_host_call(&mut self.expect, &mut self.settings, call)
    }

    /// Close one execution step: propagate an invocation failure, hold the
    /// observed return value to the declared return kind and the expected
    /// value, and require the active stage fully consumed. On success the
    /// pending callback is forgotten and the buffers are emptied for the
    /// next step.
    pub fn conclude_invocation(&mut self, expected: ReturnType, outcome: Result<
        Option<i32>,
        HarnessError,
    >) -> (r: Result<(), HarnessError>)
        requires
            old(self).wf(),
        ensures
            final(self).wf(),
            outcome is Err ==> (r is Err && r->Err_0 == outcome->Err_0 && *final(self) == *old(
                self
            )),
            outcome is Ok && spec_check_return(
                old(self).callback.1,
                expected,
                outcome->Ok_0,
            ) is Err ==> (r == spec_check_return(old(self).callback.1, expected, outcome->Ok_0)
                && *final(self) == *old(self)),
            outcome is Ok && spec_check_return(
                old(self).callback.1,
                expected,
                outcome->Ok_0,
            ) is Ok && old(self).expect.cursor < old(self).expect.active@.len() ==> (r matches Err(
                HarnessError::UnconsumedExpectation { position, kind },
            ) && position == old(self).expect.cursor && kind == spec_expected_kind(
                old(self).expect.active@[old(self).expect.cursor as int],
            ) && *final(self) == *old(self)),
            outcome is Ok && spec_check_return(
                old(self).callback.1,
                expected,
                outcome->Ok_0,
            ) is Ok && old(self).expect.cursor == old(self).expect.active@.len() ==> (r is Ok
                && final(self).callback.0 == CallbackProto::FunctionNotSet && final(
                self
            ).callback.1 == CallbackReturn::ReturnNotSet && final(self).expect.staged@.len() == 0
                && final(self).expect.active@.len() == 0 && final(self).expect.cursor == 0 && final(
                self
            ).settings == old(self).settings && final(self).abi_version == old(self).abi_version),
    {
        let observed = match outcome {
            Err(e) => {
                return Err(e);
            },
            Ok(observed) => observed,
        };
        let declared = self.callback.get().1;
        if let Err(e) = check_return(declared, expected, observed) {
            return Err(e);
        }
        match self.expect.assert_stage() {
            Err(position) => Err(
                HarnessError::UnconsumedExpectation {
                    position,
                    kind: expected_kind(&self.expect.active[position]),
                },
            ),
            Ok(()) => {
                self.callback.reset();
                self.expect.update_stage();
                Ok(())
            },
        }
    }
}

impl CallbackBase for Tester {
    open spec fn recorded_callback(&self) -> (CallbackProto, CallbackReturn) {
        (self.callback.0, self.callback.1)
    }

    open spec fn same_except_callback(&self, other: &Self) -> bool {
        &&& self.abi_version == other.abi_version
        &&& self.expect == other.expect
        &&& self.settings == other.settings
    }

    fn record_callback(&mut self, proto: CallbackProto, rtype: CallbackReturn) {
        self.callback.set(proto, rtype);
    }
}

impl CallbackV1 for Tester {

}

impl CallbackV2 for Tester {

}

/// The optional text of a scripted body, as bytes.
pub open spec fn spec_opt_text(text: Option<&str>) -> Option<Seq<u8>> {
    match text {
        Some(t) => Some(t.spec_bytes()),
        None => None,
    }
}

} // verus!
