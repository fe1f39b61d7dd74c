//! Execution backend that runs untrusted, user-submitted source code in an
//! isolated, single-use sandbox and returns its captured combined output.
//!
//! The library holds the logic of the run: the language registry, the
//! per-request orchestrator state machine, and the output collector. The
//! surrounding process performs the container runtime calls and feeds their
//! results back to the orchestrator as events.

pub mod collector;
pub mod orchestrator;
pub mod registry;

use vstd::prelude::*;

verus! {

/// The stage of a run that failed. Every request reports at most one of
/// these; cleanup problems are swallowed and never reported.
#[derive(Clone, Copy, Debug, PartialEq, Eq, Structural)]
pub enum FailureKind {
    /// The language id matched no entry of the registry; nothing was provisioned.
    UnknownLanguage,
    /// The sandbox could not be created.
    ProvisionFailure,
    /// The source bytes could not be written into the sandbox.
    InjectionFailure,
    /// The combined output stream could not be opened.
    AttachFailure,
    /// The sandbox could not be started.
    StartFailure,
    /// The output stream reported a transport error mid-drain.
    StreamFailure,
    /// An output chunk was not valid UTF-8.
    DecodeFailure,
}

/// A failed run: the failing stage, tagged with a human-readable message.
#[derive(Debug, Clone)]
pub struct RunningError {
    pub kind: FailureKind,
    pub msg: String,
}

/// The mathematical value of a `RunningError`.
#[verifier::ext_equal]
pub ghost struct FailureModel {
    pub kind: FailureKind,
    pub msg: Seq<char>,
}

impl View for RunningError {
    type V = FailureModel;

    open spec fn view(&self) -> FailureModel {
        FailureModel { kind: self.kind, msg: self.msg@ }
    }
}

} // verus!
