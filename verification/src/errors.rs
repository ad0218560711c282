//! Failures the harness can report.
//!
//! Every error names the rule that failed and the position or values
//! involved, so a test author can see which expectation, host-call or
//! return value went wrong.

use vstd::prelude::*;
use crate::callback::CallbackReturn;
use crate::expect::HostCallKind;
use crate::types::ReturnType;

verus! {

/// A failure of one harness rule.
#[derive(Debug, Clone, PartialEq)]
#[allow(inconsistent_fields)]
pub enum HarnessError {
    /// `execute_and_expect` ran with no recorded callback or return kind.
    CallbackNotSet,
    /// The guest module does not export the named callback.
    MissingExport { name: String },
    /// The guest trapped or the runtime failed while running the callback.
    GuestTrap { detail: String },
    /// The declared return kind of the recorded callback does not fit the
    /// expected return value's variant.
    ReturnKindMismatch { declared: CallbackReturn, provided: ReturnType },
    /// The guest returned a different value than the test expected.
    ReturnValueMismatch { provided: ReturnType, observed: Option<i32> },
    /// The guest made a host-call of a different kind than the first
    /// unconsumed expectation anticipated.
    ExpectationOrderViolation { position: usize, declared: HostCallKind, observed: HostCallKind },
    /// The host-call kind was anticipated, but a constrained argument
    /// differed.
    ExpectationArgumentMismatch { position: usize, kind: HostCallKind },
    /// The callback returned while an expectation was still unconsumed.
    UnconsumedExpectation { position: usize, kind: HostCallKind },
}

} // verus!
