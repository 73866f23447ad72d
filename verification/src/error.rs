use vstd::prelude::*;

use crate::kind::Type;
use crate::status::{Code, Status};

verus! {

/// Everything that can go wrong in this crate. All of these are ordinary
/// return values: nothing here panics, retries or aggregates.
#[derive(Clone, Debug, PartialEq)]
pub enum Error {
    /// The engine reported a non-OK status after a call.
    EngineFailure { code: Code, message: String },
    /// `run` was attempted while a named input had no tensor bound to it.
    UnboundInput { name: String },
    /// An extraction or reconstruction asked for one element type while the
    /// value at hand carries another.
    TypeMismatch { expected: Type, actual: Type },
    /// A tensor was declared with more elements than its data supplies.
    InsufficientData { needed: usize, given: usize },
    /// An extraction was attempted where no result has been placed yet.
    NotReady,
    /// The engine refused to allocate a tensor handle.
    AllocationFailure,
}

impl Error {
    /// A short stable label for each variant, for embedders that need to
    /// print an error.
    pub fn label(&self) -> (s: &'static str)
        ensures
            self is EngineFailure ==> s@ == "engine failure"@,
            self is UnboundInput ==> s@ == "unbound input"@,
            self is TypeMismatch ==> s@ == "type mismatch"@,
            self is InsufficientData ==> s@ == "insufficient data"@,
            self is NotReady ==> s@ == "not ready"@,
            self is AllocationFailure ==> s@ == "allocation failure"@,
    {
        proof {
            reveal_strlit("engine failure");
            reveal_strlit("unbound input");
            reveal_strlit("type mismatch");
            reveal_strlit("insufficient data");
            reveal_strlit("not ready");
            reveal_strlit("allocation failure");
        }
        match self {
            Error::EngineFailure { .. } => "engine failure",
            Error::UnboundInput { .. } => "unbound input",
            Error::TypeMismatch { .. } => "type mismatch",
            Error::InsufficientData { .. } => "insufficient data",
            Error::NotReady => "not ready",
            Error::AllocationFailure => "allocation failure",
        }
    }

    /// Translate the status channel: `None` while the last call succeeded,
    /// otherwise the engine's code and message as an error.
    pub fn current(status: &Status) -> (r: Option<Error>)
        ensures
            r == (if status.code is OK {
                Option::<Error>::None
            } else {
                Some(Error::EngineFailure { code: status.code, message: status.message })
            }),
    {
        if status.code == Code::OK {
            None
        } else {
            Some(Error::EngineFailure { code: status.code, message: status.message.clone() })
        }
    }
}

} // verus!
