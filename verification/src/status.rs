use vstd::prelude::*;

verus! {

/// The coarse outcome taxonomy the engine reports after every call.
#[derive(Clone, Copy, Debug, PartialEq, Eq, Structural)]
pub enum Code {
    OK,
    Cancelled,
    Unknown,
    InvalidArgument,
    DeadlineExceeded,
    NotFound,
    AlreadyExists,
    PermissionDenied,
    Unauthenticated,
    ResourceExhausted,
    FailedPrecondition,
    Aborted,
    OutOfRange,
    Unimplemented,
    Internal,
    Unavailable,
    DataLoss,
}

impl Code {
    /// The meaning of each numeric outcome code of the engine's wire
    /// convention. Numbers outside the taxonomy decode to `Unknown`.
    pub open spec fn spec_from_raw(raw: u32) -> Code {
        if raw == 0 {
            Code::OK
        } else if raw == 1 {
            Code::Cancelled
        } else if raw == 2 {
            Code::Unknown
        } else if raw == 3 {
            Code::InvalidArgument
        } else if raw == 4 {
            Code::DeadlineExceeded
        } else if raw == 5 {
            Code::NotFound
        } else if raw == 6 {
            Code::AlreadyExists
        } else if raw == 7 {
            Code::PermissionDenied
        } else if raw == 8 {
            Code::ResourceExhausted
        } else if raw == 9 {
            Code::FailedPrecondition
        } else if raw == 10 {
            Code::Aborted
        } else if raw == 11 {
            Code::OutOfRange
        } else if raw == 12 {
            Code::Unimplemented
        } else if raw == 13 {
            Code::Internal
        } else if raw == 14 {
            Code::Unavailable
        } else if raw == 15 {
            Code::DataLoss
        } else if raw == 16 {
            Code::Unauthenticated
        } else {
            Code::Unknown
        }
    }

    /// Decode the engine's numeric outcome code.
    pub fn from_raw(raw: u32) -> (c: Code)
        ensures
            c == Code::spec_from_raw(raw),
    {
        match raw {
            0 => Code::OK,
            1 => Code::Cancelled,
            2 => Code::Unknown,
            3 => Code::InvalidArgument,
            4 => Code::DeadlineExceeded,
            5 => Code::NotFound,
            6 => Code::AlreadyExists,
            7 => Code::PermissionDenied,
            8 => Code::ResourceExhausted,
            9 => Code::FailedPrecondition,
            10 => Code::Aborted,
            11 => Code::OutOfRange,
            12 => Code::Unimplemented,
            13 => Code::Internal,
            14 => Code::Unavailable,
            15 => Code::DataLoss,
            16 => Code::Unauthenticated,
            _ => Code::Unknown,
        }
    }
}

/// What the engine wrote into its status slot after one call: a raw numeric
/// outcome code and a diagnostic message. An embedder reads these two values
/// off the foreign status handle and passes them in unchanged.
#[derive(Clone, Debug)]
pub struct EngineStatus {
    pub code: u32,
    pub message: String,
}

impl EngineStatus {
    /// The outcome of a call the engine completed without complaint.
    pub fn ok() -> (s: EngineStatus)
        ensures
            s.code == 0,
            s.message@ == Seq::<char>::empty(),
    {
        EngineStatus { code: 0, message: String::new() }
    }

    /// Whether this outcome reports success.
    pub fn is_ok(&self) -> (b: bool)
        ensures
            b == (self.code == 0),
    {
        self.code == 0
    }
}

/// The single-slot status channel: the decoded outcome of the most recent
/// engine call. Every call overwrites it; it is never accumulated.
#[derive(Clone, Debug)]
pub struct Status {
    pub code: Code,
    pub message: String,
}

impl Status {
    /// A fresh channel, reporting success and carrying no message.
    pub fn new() -> (s: Status)
        ensures
            s.code == Code::OK,
            s.message@ == Seq::<char>::empty(),
    {
        Status { code: Code::OK, message: String::new() }
    }

    /// Overwrite the channel with the outcome of the engine call that just
    /// returned.
    pub fn record(&mut self, outcome: EngineStatus)
        ensures
            final(self).code == Code::spec_from_raw(outcome.code),
            final(self).message == outcome.message,
    {
        self.code = Code::from_raw(outcome.code);
        self.message = outcome.message;
    }
}

} // verus!
