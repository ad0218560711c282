//! Host-side test harness for proxy filter guest modules.
//!
//! The harness stands in for a real proxy host: it records the exported
//! callback a test is about to invoke, stages an ordered script of the
//! host-calls the guest is expected to make, runs the callback through the
//! embedding runtime, matches every observed host-call against the script,
//! and finally checks the guest's return value against the declared return
//! kind.

pub mod bytes;
pub mod callback;
pub mod errors;
pub mod codec;
pub mod driver;
pub mod expect;
pub mod hostcalls;
pub mod laws;
pub mod settings;
pub mod tester;
pub mod types;

pub use callback::CallbackBase;
pub use callback::CallbackProto;
pub use callback::CallbackReturn;
pub use callback::CallbackType;
pub use callback::CallbackV1;
pub use callback::CallbackV2;
pub use errors::HarnessError;
pub use expect::ExpectHandle;
pub use expect::ExpectedCall;
pub use expect::ObservedCall;
pub use hostcalls::HostResponse;
pub use settings::HostSettings;
pub use tester::Tester;
pub use types::Action;
pub use types::LogLevel;
pub use types::MapType;
pub use types::BufferType;
pub use types::PeerType;
pub use types::ReturnType;
pub use types::AbiVersion;
