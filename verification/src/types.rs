//! Closed enumerations used at the guest boundary, together with their
//! integer wire codes.
//!
//! Every integer code that crosses the boundary is canonicalised to a named
//! variant here; nothing outside this module works with raw codes.

use vstd::prelude::*;

verus! {

/// Severity of a `log` host-call.
#[derive(Clone, Copy, PartialEq, Eq, Structural, Debug)]
pub enum LogLevel {
    Trace,
    Debug,
    Info,
    Warn,
    Error,
    Critical,
}

/// A header map the guest can read or write.
#[derive(Clone, Copy, PartialEq, Eq, Structural, Debug)]
pub enum MapType {
    HttpRequestHeaders,
    HttpRequestTrailers,
    HttpResponseHeaders,
    HttpResponseTrailers,
    GrpcReceiveInitialMetadata,
    GrpcReceiveTrailingMetadata,
    HttpCallResponseHeaders,
    HttpCallResponseTrailers,
}

/// A byte buffer the guest can read or write.
#[derive(Clone, Copy, PartialEq, Eq, Structural, Debug)]
pub enum BufferType {
    HttpRequestBody,
    HttpResponseBody,
    DownstreamData,
    UpstreamData,
    HttpCallResponseBody,
    GrpcReceiveBuffer,
    VmConfiguration,
    PluginConfiguration,
    CallData,
}

/// Which side closed a connection.
#[derive(Clone, Copy, PartialEq, Eq, Structural, Debug)]
pub enum PeerType {
    Local,
    Remote,
}

/// What the guest decides for a streaming callback.
#[derive(Clone, Copy, PartialEq, Eq, Structural, Debug)]
pub enum Action {
    Continue,
    Pause,
}

/// The value a test expects back from one callback invocation.
#[derive(Clone, Copy, PartialEq, Eq, Structural, Debug)]
pub enum ReturnType {
    NoReturn,
    Bool(bool),
    Action(Action),
}

/// The callback signature set a guest module was compiled against.
#[derive(Clone, Copy, PartialEq, Eq, Structural, Debug)]
pub enum AbiVersion {
    ProxyAbiVersion0_1_0,
    ProxyAbiVersion0_2_0,
    UnknownAbiVersion,
}

pub open spec fn spec_log_level_code(level: LogLevel) -> u32 {
    match level {
        LogLevel::Trace => 0,
        LogLevel::Debug => 1,
        LogLevel::Info => 2,
        LogLevel::Warn => 3,
        LogLevel::Error => 4,
        LogLevel::Critical => 5,
    }
}

/// Wire code of a log level.
pub fn log_level_code(level: LogLevel) -> (code: u32)
    ensures
        code == spec_log_level_code(level),
{
    match level {
        LogLevel::Trace => 0,
        LogLevel::Debug => 1,
        LogLevel::Info => 2,
        LogLevel::Warn => 3,
        LogLevel::Error => 4,
        LogLevel::Critical => 5,
    }
}

pub open spec fn spec_log_level_from_code(code: u32) -> Option<LogLevel> {
    if code == 0 {
        Some(LogLevel::Trace)
    } else if code == 1 {
        Some(LogLevel::Debug)
    } else if code == 2 {
        Some(LogLevel::Info)
    } else if code == 3 {
        Some(LogLevel::Warn)
    } else if code == 4 {
        Some(LogLevel::Error)
    } else if code == 5 {
        Some(LogLevel::Critical)
    } else {
        None
    }
}

/// Log level named by a wire code, if the code is valid.
pub fn log_level_from_code(code: u32) -> (level: Option<LogLevel>)
    ensures
        level == spec_log_level_from_code(code),
{
    if code == 0 {
        Some(LogLevel::Trace)
    } else if code == 1 {
        Some(LogLevel::Debug)
    } else if code == 2 {
        Some(LogLevel::Info)
    } else if code == 3 {
        Some(LogLevel::Warn)
    } else if code == 4 {
        Some(LogLevel::Error)
    } else if code == 5 {
        Some(LogLevel::Critical)
    } else {
        None
    }
}

pub open spec fn spec_map_type_code(map_type: MapType) -> u32 {
    match map_type {
        MapType::HttpRequestHeaders => 0,
        MapType::HttpRequestTrailers => 1,
        MapType::HttpResponseHeaders => 2,
        MapType::HttpResponseTrailers => 3,
        MapType::GrpcReceiveInitialMetadata => 4,
        MapType::GrpcReceiveTrailingMetadata => 5,
        MapType::HttpCallResponseHeaders => 6,
        MapType::HttpCallResponseTrailers => 7,
    }
}

/// Wire code of a header map kind.
pub fn map_type_code(map_type: MapType) -> (code: u32)
    ensures
        code == spec_map_type_code(map_type),
{
    match map_type {
        MapType::HttpRequestHeaders => 0,
        MapType::HttpRequestTrailers => 1,
        MapType::HttpResponseHeaders => 2,
        MapType::HttpResponseTrailers => 3,
        MapType::GrpcReceiveInitialMetadata => 4,
        MapType::GrpcReceiveTrailingMetadata => 5,
        MapType::HttpCallResponseHeaders => 6,
        MapType::HttpCallResponseTrailers => 7,
    }
}

pub open spec fn spec_map_type_from_code(code: u32) -> Option<MapType> {
    if code == 0 {
        Some(MapType::HttpRequestHeaders)
    } else if code == 1 {
        Some(MapType::HttpRequestTrailers)
    } else if code == 2 {
        Some(MapType::HttpResponseHeaders)
    } else if code == 3 {
        Some(MapType::HttpResponseTrailers)
    } else if code == 4 {
        Some(MapType::GrpcReceiveInitialMetadata)
    } else if code == 5 {
        Some(MapType::GrpcReceiveTrailingMetadata)
    } else if code == 6 {
        Some(MapType::HttpCallResponseHeaders)
    } else if code == 7 {
        Some(MapType::HttpCallResponseTrailers)
    } else {
        None
    }
}

/// Header map kind named by a wire code, if the code is valid.
pub fn map_type_from_code(code: u32) -> (map_type: Option<MapType>)
    ensures
        map_type == spec_map_type_from_code(code),
{
    if code == 0 {
        Some(MapType::HttpRequestHeaders)
    } else if code == 1 {
        Some(MapType::HttpRequestTrailers)
    } else if code == 2 {
        Some(MapType::HttpResponseHeaders)
    } else if code == 3 {
        Some(MapType::HttpResponseTrailers)
    } else if code == 4 {
        Some(MapType::GrpcReceiveInitialMetadata)
    } else if code == 5 {
        Some(MapType::GrpcReceiveTrailingMetadata)
    } else if code == 6 {
        Some(MapType::HttpCallResponseHeaders)
    } else if code == 7 {
        Some(MapType::HttpCallResponseTrailers)
    } else {
        None
    }
}

pub open spec fn spec_buffer_type_code(buffer_type: BufferType) -> u32 {
    match buffer_type {
        BufferType::HttpRequestBody => 0,
        BufferType::HttpResponseBody => 1,
        BufferType::DownstreamData => 2,
        BufferType::UpstreamData => 3,
        BufferType::HttpCallResponseBody => 4,
        BufferType::GrpcReceiveBuffer => 5,
        BufferType::VmConfiguration => 6,
        BufferType::PluginConfiguration => 7,
        BufferType::CallData => 8,
    }
}

/// Wire code of a buffer kind.
pub fn buffer_type_code(buffer_type: BufferType) -> (code: u32)
    ensures
        code == spec_buffer_type_code(buffer_type),
{
    match buffer_type {
        BufferType::HttpRequestBody => 0,
        BufferType::HttpResponseBody => 1,
        BufferType::DownstreamData => 2,
        BufferType::UpstreamData => 3,
        BufferType::HttpCallResponseBody => 4,
        BufferType::GrpcReceiveBuffer => 5,
        BufferType::VmConfiguration => 6,
        BufferType::PluginConfiguration => 7,
        BufferType::CallData => 8,
    }
}

pub open spec fn spec_buffer_type_from_code(code: u32) -> Option<BufferType> {
    if code == 0 {
        Some(BufferType::HttpRequestBody)
    } else if code == 1 {
        Some(BufferType::HttpResponseBody)
    } else if code == 2 {
        Some(BufferType::DownstreamData)
    } else if code == 3 {
        Some(BufferType::UpstreamData)
    } else if code == 4 {
        Some(BufferType::HttpCallResponseBody)
    } else if code == 5 {
        Some(BufferType::GrpcReceiveBuffer)
    } else if code == 6 {
        Some(BufferType::VmConfiguration)
    } else if code == 7 {
        Some(BufferType::PluginConfiguration)
    } else if code == 8 {
        Some(BufferType::CallData)
    } else {
        None
    }
}

/// Buffer kind named by a wire code, if the code is valid.
pub fn buffer_type_from_code(code: u32) -> (buffer_type: Option<BufferType>)
    ensures
        buffer_type == spec_buffer_type_from_code(code),
{
    if code == 0 {
        Some(BufferType::HttpRequestBody)
    } else if code == 1 {
        Some(BufferType::HttpResponseBody)
    } else if code == 2 {
        Some(BufferType::DownstreamData)
    } else if code == 3 {
        Some(BufferType::UpstreamData)
    } else if code == 4 {
        Some(BufferType::HttpCallResponseBody)
    } else if code == 5 {
        Some(BufferType::GrpcReceiveBuffer)
    } else if code == 6 {
        Some(BufferType::VmConfiguration)
    } else if code == 7 {
        Some(BufferType::PluginConfiguration)
    } else if code == 8 {
        Some(BufferType::CallData)
    } else {
        None
    }
}

pub open spec fn spec_peer_type_code(peer_type: PeerType) -> u32 {
    match peer_type {
        PeerType::Local => 0,
        PeerType::Remote => 1,
    }
}

/// Wire code of a peer kind.
pub fn peer_type_code(peer_type: PeerType) -> (code: u32)
    ensures
        code == spec_peer_type_code(peer_type),
{
    match peer_type {
        PeerType::Local => 0,
        PeerType::Remote => 1,
    }
}

pub open spec fn spec_action_code(action: Action) -> i32 {
    match action {
        Action::Continue => 0,
        Action::Pause => 1,
    }
}

/// Wire code of a streaming decision: `0` continues the stream, `1` pauses it.
pub fn action_code(action: Action) -> (code: i32)
    ensures
        code == spec_action_code(action),
{
    match action {
        Action::Continue => 0,
        Action::Pause => 1,
    }
}

pub open spec fn spec_bool_code(value: bool) -> i32 {
    if value {
        1
    } else {
        0
    }
}

/// Wire code of a boolean callback result.
pub fn bool_code(value: bool) -> (code: i32)
    ensures
        code == spec_bool_code(value),
{
    if value {
        1
    } else {
        0
    }
}

} // verus!
