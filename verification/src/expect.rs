//! The expectation engine.
//!
//! A test stages an ordered script of anticipated host-calls while it
//! describes the next callback. When the callback starts, the staged script
//! is promoted to the active stage; every host-call the guest makes is then
//! matched against the first unconsumed entry, strictly in declaration
//! order. When the callback returns, the stage must be fully consumed.

use vstd::prelude::*;
use crate::types::BufferType;
use crate::types::LogLevel;
use crate::types::MapType;

verus! {

/// One anticipated host-call: a kind, equality constraints on its
/// arguments, and the scripted value to hand back to the guest.
#[derive(Debug)]
#[allow(inconsistent_fields)]
pub enum ExpectedCall {
    Log { level: LogLevel, message: Vec<u8> },
    SetTickPeriodMillis { millis: u64 },
    GetCurrentTimeNanos { returning: u64 },
    GetBufferBytes { buffer_type: BufferType, returning: Vec<u8> },
    SetBufferBytes { buffer_type: BufferType, data: Vec<u8> },
    GetHeaderMapPairs { map_type: MapType, returning: Vec<(Vec<u8>, Vec<u8>)> },
    SetHeaderMapPairs { map_type: MapType, pairs: Vec<(Vec<u8>, Vec<u8>)> },
    GetHeaderMapValue { map_type: MapType, key: Vec<u8>, returning: Vec<u8> },
    ReplaceHeaderMapValue { map_type: MapType, key: Vec<u8>, value: Vec<u8> },
    RemoveHeaderMapValue { map_type: MapType, key: Vec<u8> },
    AddHeaderMapValue { map_type: MapType, key: Vec<u8>, value: Vec<u8> },
    SendLocalResponse {
        status_code: i32,
        body: Option<Vec<u8>>,
        headers: Vec<(Vec<u8>, Vec<u8>)>,
        grpc_status: i32,
    },
    HttpCall {
        upstream: Vec<u8>,
        headers: Vec<(Vec<u8>, Vec<u8>)>,
        body: Option<Vec<u8>>,
        trailers: Vec<(Vec<u8>, Vec<u8>)>,
        timeout_millis: u64,
        returning: u32,
    },
}

/// One host-call observed from the guest, with its arguments already
/// decoded from guest memory.
#[derive(Debug)]
#[allow(inconsistent_fields)]
pub enum ObservedCall {
    Log { level: LogLevel, message: Vec<u8> },
    SetTickPeriodMillis { millis: u64 },
    GetCurrentTimeNanos,
    GetBufferBytes { buffer_type: BufferType },
    SetBufferBytes { buffer_type: BufferType, data: Vec<u8> },
    GetHeaderMapPairs { map_type: MapType },
    SetHeaderMapPairs { map_type: MapType, pairs: Vec<(Vec<u8>, Vec<u8>)> },
    GetHeaderMapValue { map_type: MapType, key: Vec<u8> },
    ReplaceHeaderMapValue { map_type: MapType, key: Vec<u8>, value: Vec<u8> },
    RemoveHeaderMapValue { map_type: MapType, key: Vec<u8> },
    AddHeaderMapValue { map_type: MapType, key: Vec<u8>, value: Vec<u8> },
    SendLocalResponse {
        status_code: i32,
        body: Option<Vec<u8>>,
        headers: Vec<(Vec<u8>, Vec<u8>)>,
        grpc_status: i32,
    },
    HttpCall {
        upstream: Vec<u8>,
        headers: Vec<(Vec<u8>, Vec<u8>)>,
        body: Option<Vec<u8>>,
        trailers: Vec<(Vec<u8>, Vec<u8>)>,
        timeout_millis: u64,
    },
}

/// The kind tag of a host-call, named in failure reports.
#[derive(Clone, Copy, PartialEq, Eq, Structural, Debug)]
pub enum HostCallKind {
    Log,
    SetTickPeriodMillis,
    GetCurrentTimeNanos,
    GetBufferBytes,
    SetBufferBytes,
    GetHeaderMapPairs,
    SetHeaderMapPairs,
    GetHeaderMapValue,
    ReplaceHeaderMapValue,
    RemoveHeaderMapValue,
    AddHeaderMapValue,
    SendLocalResponse,
    HttpCall,
}

pub open spec fn spec_expected_kind(e: ExpectedCall) -> HostCallKind {
    match e {
        ExpectedCall::Log { .. } => HostCallKind::Log,
        ExpectedCall::SetTickPeriodMillis { .. } => HostCallKind::SetTickPeriodMillis,
        ExpectedCall::GetCurrentTimeNanos { .. } => HostCallKind::GetCurrentTimeNanos,
        ExpectedCall::GetBufferBytes { .. } => HostCallKind::GetBufferBytes,
        ExpectedCall::SetBufferBytes { .. } => HostCallKind::SetBufferBytes,
        ExpectedCall::GetHeaderMapPairs { .. } => HostCallKind::GetHeaderMapPairs,
        ExpectedCall::SetHeaderMapPairs { .. } => HostCallKind::SetHeaderMapPairs,
        ExpectedCall::GetHeaderMapValue { .. } => HostCallKind::GetHeaderMapValue,
        ExpectedCall::ReplaceHeaderMapValue { .. } => HostCallKind::ReplaceHeaderMapValue,
        ExpectedCall::RemoveHeaderMapValue { .. } => HostCallKind::RemoveHeaderMapValue,
        ExpectedCall::AddHeaderMapValue { .. } => HostCallKind::AddHeaderMapValue,
        ExpectedCall::SendLocalResponse { .. } => HostCallKind::SendLocalResponse,
        ExpectedCall::HttpCall { .. } => HostCallKind::HttpCall,
    }
}

pub open spec fn spec_observed_kind(c: ObservedCall) -> HostCallKind {
    match c {
        ObservedCall::Log { .. } => HostCallKind::Log,
        ObservedCall::SetTickPeriodMillis { .. } => HostCallKind::SetTickPeriodMillis,
        ObservedCall::GetCurrentTimeNanos => HostCallKind::GetCurrentTimeNanos,
        ObservedCall::GetBufferBytes { .. } => HostCallKind::GetBufferBytes,
        ObservedCall::SetBufferBytes { .. } => HostCallKind::SetBufferBytes,
        ObservedCall::GetHeaderMapPairs { .. } => HostCallKind::GetHeaderMapPairs,
        ObservedCall::SetHeaderMapPairs { .. } => HostCallKind::SetHeaderMapPairs,
        ObservedCall::GetHeaderMapValue { .. } => HostCallKind::GetHeaderMapValue,
        ObservedCall::ReplaceHeaderMapValue { .. } => HostCallKind::ReplaceHeaderMapValue,
        ObservedCall::RemoveHeaderMapValue { .. } => HostCallKind::RemoveHeaderMapValue,
        ObservedCall::AddHeaderMapValue { .. } => HostCallKind::AddHeaderMapValue,
        ObservedCall::SendLocalResponse { .. } => HostCallKind::SendLocalResponse,
        ObservedCall::HttpCall { .. } => HostCallKind::HttpCall,
    }
}

/// The kind of an observed call, as an executable function.
pub fn observed_kind(c: &ObservedCall) -> (kind: HostCallKind)
    ensures
        kind == spec_observed_kind(*c),
{
    match c {
        ObservedCall::Log { .. } => HostCallKind::Log,
        ObservedCall::SetTickPeriodMillis { .. } => HostCallKind::SetTickPeriodMillis,
        ObservedCall::GetCurrentTimeNanos => HostCallKind::GetCurrentTimeNanos,
        ObservedCall::GetBufferBytes { .. } => HostCallKind::GetBufferBytes,
        ObservedCall::SetBufferBytes { .. } => HostCallKind::SetBufferBytes,
        ObservedCall::GetHeaderMapPairs { .. } => HostCallKind::GetHeaderMapPairs,
        ObservedCall::SetHeaderMapPairs { .. } => HostCallKind::SetHeaderMapPairs,
        ObservedCall::GetHeaderMapValue { .. } => HostCallKind::GetHeaderMapValue,
        ObservedCall::ReplaceHeaderMapValue { .. } => HostCallKind::ReplaceHeaderMapValue,
        ObservedCall::RemoveHeaderMapValue { .. } => HostCallKind::RemoveHeaderMapValue,
        ObservedCall::AddHeaderMapValue { .. } => HostCallKind::AddHeaderMapValue,
        ObservedCall::SendLocalResponse { .. } => HostCallKind::SendLocalResponse,
        ObservedCall::HttpCall { .. } => HostCallKind::HttpCall,
    }
}

/// The kind of an expected call, as an executable function.
pub fn expected_kind(e: &ExpectedCall) -> (kind: HostCallKind)
    ensures
        kind == spec_expected_kind(*e),
{
    match e {
        ExpectedCall::Log { .. } => HostCallKind::Log,
        ExpectedCall::SetTickPeriodMillis { .. } => HostCallKind::SetTickPeriodMillis,
        ExpectedCall::GetCurrentTimeNanos { .. } => HostCallKind::GetCurrentTimeNanos,
        ExpectedCall::GetBufferBytes { .. } => HostCallKind::GetBufferBytes,
        ExpectedCall::SetBufferBytes { .. } => HostCallKind::SetBufferBytes,
        ExpectedCall::GetHeaderMapPairs { .. } => HostCallKind::GetHeaderMapPairs,
        ExpectedCall::SetHeaderMapPairs { .. } => HostCallKind::SetHeaderMapPairs,
        ExpectedCall::GetHeaderMapValue { .. } => HostCallKind::GetHeaderMapValue,
        ExpectedCall::ReplaceHeaderMapValue { .. } => HostCallKind::ReplaceHeaderMapValue,
        ExpectedCall::RemoveHeaderMapValue { .. } => HostCallKind::RemoveHeaderMapValue,
        ExpectedCall::AddHeaderMapValue { .. } => HostCallKind::AddHeaderMapValue,
        ExpectedCall::SendLocalResponse { .. } => HostCallKind::SendLocalResponse,
        ExpectedCall::HttpCall { .. } => HostCallKind::HttpCall,
    }
}

/// Whether an observed call satisfies an expectation: the kinds agree and
/// every constraint listed in the expectation equals the decoded argument.
pub open spec fn spec_matches(e: ExpectedCall, c: ObservedCall) -> bool {
    match (e, c) {
        (
            ExpectedCall::Log { level: el, message: em },
            ObservedCall::Log { level: ol, message: om },
        ) => el == ol && em@ == om@,
        (
            ExpectedCall::SetTickPeriodMillis { millis: e_ms },
            ObservedCall::SetTickPeriodMillis { millis: o_ms },
        ) => e_ms == o_ms,
        (ExpectedCall::GetCurrentTimeNanos { .. }, ObservedCall::GetCurrentTimeNanos) => true,
        (
            ExpectedCall::GetBufferBytes { buffer_type: eb, .. },
            ObservedCall::GetBufferBytes { buffer_type: ob },
        ) => eb == ob,
        (
            ExpectedCall::SetBufferBytes { buffer_type: eb, data: ed },
            ObservedCall::SetBufferBytes { buffer_type: ob, data: od },
        ) => eb == ob && ed@ == od@,
        (
            ExpectedCall::GetHeaderMapPairs { map_type: em, .. },
            ObservedCall::GetHeaderMapPairs { map_type: om },
        ) => em == om,
        (
            ExpectedCall::SetHeaderMapPairs { map_type: em, pairs: ep },
            ObservedCall::SetHeaderMapPairs { map_type: om, pairs: op },
        ) => em == om && ep.deep_view() == op.deep_view(),
        (
            ExpectedCall::GetHeaderMapValue { map_type: em, key: ek, .. },
            ObservedCall::GetHeaderMapValue { map_type: om, key: ok },
        ) => em == om && ek@ == ok@,
        (
            ExpectedCall::ReplaceHeaderMapValue { map_type: em, key: ek, value: ev },
            ObservedCall::ReplaceHeaderMapValue { map_type: om, key: ok, value: ov },
        ) => em == om && ek@ == ok@ && ev@ == ov@,
        (
            ExpectedCall::RemoveHeaderMapValue { map_type: em, key: ek },
            ObservedCall::RemoveHeaderMapValue { map_type: om, key: ok },
        ) => em == om && ek@ == ok@,
        (
            ExpectedCall::AddHeaderMapValue { map_type: em, key: ek, value: ev },
            ObservedCall::AddHeaderMapValue { map_type: om, key: ok, value: ov },
        ) => em == om && ek@ == ok@ && ev@ == ov@,
        (
            ExpectedCall::SendLocalResponse {
                status_code: es,
                body: eb,
                headers: eh,
                grpc_status: eg,
            },
            ObservedCall::SendLocalResponse {
                status_code: os,
                body: ob,
                headers: oh,
                grpc_status: og,
            },
        ) => es == os && eb.deep_view() == ob.deep_view() && eh.deep_view() == oh.deep_view()
            && eg == og,
        (
            ExpectedCall::HttpCall {
                upstream: eu,
                headers: eh,
                body: eb,
                trailers: et,
                timeout_millis: e_ms,
                ..
            },
            ObservedCall::HttpCall {
                upstream: ou,
                headers: oh,
                body: ob,
                trailers: ot,
                timeout_millis: o_ms,
            },
        ) => eu@ == ou@ && eh.deep_view() == oh.deep_view() && eb.deep_view() == ob.deep_view()
            && et.deep_view() == ot.deep_view() && e_ms == o_ms,
        _ => false,
    }
}

/// Decide whether an observed call satisfies an expectation.
pub fn matches_call(e: &ExpectedCall, c: &ObservedCall) -> (r: bool)
    ensures
        r == spec_matches(*e, *c),
{
    match (e, c) {
        (
            ExpectedCall::Log { level: el, message: em },
            ObservedCall::Log { level: ol, message: om },
        ) => *el == *ol && crate::bytes::bytes_eq(em, om),
        (
            ExpectedCall::SetTickPeriodMillis { millis: e_ms },
            ObservedCall::SetTickPeriodMillis { millis: o_ms },
        ) => *e_ms == *o_ms,
        (ExpectedCall::GetCurrentTimeNanos { .. }, ObservedCall::GetCurrentTimeNanos) => true,
        (
            ExpectedCall::GetBufferBytes { buffer_type: eb, .. },
            ObservedCall::GetBufferBytes { buffer_type: ob },
        ) => *eb == *ob,
        (
            ExpectedCall::SetBufferBytes { buffer_type: eb, data: ed },
            ObservedCall::SetBufferBytes { buffer_type: ob, data: od },
        ) => *eb == *ob && crate::bytes::bytes_eq(ed, od),
        (
            ExpectedCall::GetHeaderMapPairs { map_type: em, .. },
            ObservedCall::GetHeaderMapPairs { map_type: om },
        ) => *em == *om,
        (
            ExpectedCall::SetHeaderMapPairs { map_type: em, pairs: ep },
            ObservedCall::SetHeaderMapPairs { map_type: om, pairs: op },
        ) => *em == *om && crate::bytes::pairs_eq(ep, op),
        (
            ExpectedCall::GetHeaderMapValue { map_type: em, key: ek, .. },
            ObservedCall::GetHeaderMapValue { map_type: om, key: ok },
        ) => *em == *om && crate::bytes::bytes_eq(ek, ok),
        (
            ExpectedCall::ReplaceHeaderMapValue { map_type: em, key: ek, value: ev },
            ObservedCall::ReplaceHeaderMapValue { map_type: om, key: ok, value: ov },
        ) => *em == *om && crate::bytes::bytes_eq(ek, ok) && crate::bytes::bytes_eq(ev, ov),
        (
            ExpectedCall::RemoveHeaderMapValue { map_type: em, key: ek },
            ObservedCall::RemoveHeaderMapValue { map_type: om, key: ok },
        ) => *em == *om && crate::bytes::bytes_eq(ek, ok),
        (
            ExpectedCall::AddHeaderMapValue { map_type: em, key: ek, value: ev },
            ObservedCall::AddHeaderMapValue { map_type: om, key: ok, value: ov },
        ) => *em == *om && crate::bytes::bytes_eq(ek, ok) && crate::bytes::bytes_eq(ev, ov),
        (
            ExpectedCall::SendLocalResponse {
                status_code: es,
                body: eb,
                headers: eh,
                grpc_status: eg,
            },
            ObservedCall::SendLocalResponse {
                status_code: os,
                body: ob,
                headers: oh,
                grpc_status: og,
            },
        ) => *es == *os && crate::bytes::opt_bytes_eq(eb, ob) && crate::bytes::pairs_eq(eh, oh)
            && *eg == *og,
        (
            ExpectedCall::HttpCall {
                upstream: eu,
                headers: eh,
                body: eb,
                trailers: et,
                timeout_millis: e_ms,
                ..
            },
            ObservedCall::HttpCall {
                upstream: ou,
                headers: oh,
                body: ob,
                trailers: ot,
                timeout_millis: o_ms,
            },
        ) => crate::bytes::bytes_eq(eu, ou) && crate::bytes::pairs_eq(eh, oh)
            && crate::bytes::opt_bytes_eq(eb, ob) && crate::bytes::pairs_eq(et, ot) && *e_ms
            == *o_ms,
        _ => false,
    }
}

/// The two-tier expectation buffer of one test: the script being built for
/// the next callback, the frozen script of the in-flight callback, and the
/// cursor marking how much of it is already consumed.
#[derive(Debug)]
pub struct ExpectHandle {
    pub staged: Vec<ExpectedCall>,
    pub active: Vec<ExpectedCall>,
    pub cursor: usize,
}

impl ExpectHandle {
    /// Entries before the cursor are consumed; the cursor never passes the
    /// end of the active stage.
    pub open spec fn wf(&self) -> bool {
        self.cursor <= self.active@.len()
    }

    /// A fresh handle: nothing staged, nothing active.
    pub fn new() -> (handle: ExpectHandle)
        ensures
            handle.wf(),
            handle.staged@.len() == 0,
            handle.active@.len() == 0,
            handle.cursor == 0,
    {
        ExpectHandle { staged: Vec::new(), active: Vec::new(), cursor: 0 }
    }

    /// Append one expectation to the staged script.
    pub fn push_staged(&mut self, e: ExpectedCall)
        requires
            old(self).wf(),
        ensures
            final(self).wf(),
            final(self).staged@ == old(self).staged@.push(e),
            final(self).active@ == old(self).active@,
            final(self).cursor == old(self).cursor,
    {
        self.staged.push(e);
    }

    /// Freeze the staged script for the callback that is about to run: it
    /// becomes the active stage, with nothing consumed, and a new empty
    /// staged script is begun.
    pub fn promote(&mut self)
        ensures
            final(self).wf(),
            final(self).active@ == old(self).staged@,
            final(self).staged@.len() == 0,
            final(self).cursor == 0,
    {
        self.active = Vec::new();
        self.active.append(&mut self.staged);
        self.cursor = 0;
        proof {
            assert(self.active@ =~= old(self).staged@);
        }
    }

    /// Check that the active stage is fully consumed; on failure, report the
    /// position of the first unconsumed entry.
    pub fn assert_stage(&self) -> (r: Result<(), usize>)
        requires
            self.wf(),
        ensures
            r is Ok <==> self.cursor == self.active@.len(),
            r matches Err(position) ==> position == self.cursor && self.cursor < self.active@.len(),
    {
        if self.cursor == self.active.len() {
            Ok(())
        } else {
            Err(self.cursor)
        }
    }

    /// Discard the drained stage and begin the next step with empty buffers.
    pub fn update_stage(&mut self)
        ensures
            final(self).wf(),
            final(self).staged@.len() == 0,
            final(self).active@.len() == 0,
            final(self).cursor == 0,
    {
        self.staged = Vec::new();
        self.active = Vec::new();
        self.cursor = 0;
    }
}

} // verus!
