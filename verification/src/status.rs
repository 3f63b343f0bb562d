//! Status codes reported by the native speech-to-text engine.
//!
//! The native library reports every outcome as a small non-negative integer.
//! `PvStatus` is the typed form of those integers; `code` and `from_code`
//! translate between the two representations at the foreign-function
//! boundary.

use vstd::prelude::*;

verus! {

/// One status code of the native engine.  `SUCCESS` is the only code that
/// does not signal a failure.
#[derive(Clone, Debug, PartialEq, Eq, Structural)]
#[allow(non_camel_case_types)]
pub enum PvStatus {
    SUCCESS,
    OUT_OF_MEMORY,
    IO_ERROR,
    INVALID_ARGUMENT,
    STOP_ITERATION,
    KEY_ERROR,
    INVALID_STATE,
    RUNTIME_ERROR,
    ACTIVATION_ERROR,
    ACTIVATION_LIMIT_REACHED,
    ACTIVATION_THROTTLED,
    ACTIVATION_REFUSED,
}

impl PvStatus {
    /// The integer that the native library uses for this status.
    pub open spec fn spec_code(self) -> int {
        match self {
            PvStatus::SUCCESS => 0,
            PvStatus::OUT_OF_MEMORY => 1,
            PvStatus::IO_ERROR => 2,
            PvStatus::INVALID_ARGUMENT => 3,
            PvStatus::STOP_ITERATION => 4,
            PvStatus::KEY_ERROR => 5,
            PvStatus::INVALID_STATE => 6,
            PvStatus::RUNTIME_ERROR => 7,
            PvStatus::ACTIVATION_ERROR => 8,
            PvStatus::ACTIVATION_LIMIT_REACHED => 9,
            PvStatus::ACTIVATION_THROTTLED => 10,
            PvStatus::ACTIVATION_REFUSED => 11,
        }
    }

    /// The integer that the native library uses for this status.
    pub fn code(&self) -> (c: i32)
        ensures
            c == self.spec_code(),
    {
        match self {
            PvStatus::SUCCESS => 0,
            PvStatus::OUT_OF_MEMORY => 1,
            PvStatus::IO_ERROR => 2,
            PvStatus::INVALID_ARGUMENT => 3,
            PvStatus::STOP_ITERATION => 4,
            PvStatus::KEY_ERROR => 5,
            PvStatus::INVALID_STATE => 6,
            PvStatus::RUNTIME_ERROR => 7,
            PvStatus::ACTIVATION_ERROR => 8,
            PvStatus::ACTIVATION_LIMIT_REACHED => 9,
            PvStatus::ACTIVATION_THROTTLED => 10,
            PvStatus::ACTIVATION_REFUSED => 11,
        }
    }

    /// Reads a status back from the integer the native library returned.
    /// Exactly the codes 0 through 11 are meaningful; anything else is not a
    /// status of the engine's interface and yields `None`.
    pub fn from_code(c: i32) -> (r: Option<PvStatus>)
        ensures
            r is Some <==> 0 <= c <= 11,
            r matches Some(s) ==> s.spec_code() == c,
    {
        match c {
            0 => Some(PvStatus::SUCCESS),
            1 => Some(PvStatus::OUT_OF_MEMORY),
            2 => Some(PvStatus::IO_ERROR),
            3 => Some(PvStatus::INVALID_ARGUMENT),
            4 => Some(PvStatus::STOP_ITERATION),
            5 => Some(PvStatus::KEY_ERROR),
            6 => Some(PvStatus::INVALID_STATE),
            7 => Some(PvStatus::RUNTIME_ERROR),
            8 => Some(PvStatus::ACTIVATION_ERROR),
            9 => Some(PvStatus::ACTIVATION_LIMIT_REACHED),
            10 => Some(PvStatus::ACTIVATION_THROTTLED),
            11 => Some(PvStatus::ACTIVATION_REFUSED),
            _ => None,
        }
    }

    /// The name of this status, as diagnostics print it.
    pub fn name(&self) -> (r: &'static str)
        ensures
            r@ == self.spec_name(),
    {
        match self {
            PvStatus::SUCCESS => "SUCCESS",
            PvStatus::OUT_OF_MEMORY => "OUT_OF_MEMORY",
            PvStatus::IO_ERROR => "IO_ERROR",
            PvStatus::INVALID_ARGUMENT => "INVALID_ARGUMENT",
            PvStatus::STOP_ITERATION => "STOP_ITERATION",
            PvStatus::KEY_ERROR => "KEY_ERROR",
            PvStatus::INVALID_STATE => "INVALID_STATE",
            PvStatus::RUNTIME_ERROR => "RUNTIME_ERROR",
            PvStatus::ACTIVATION_ERROR => "ACTIVATION_ERROR",
            PvStatus::ACTIVATION_LIMIT_REACHED => "ACTIVATION_LIMIT_REACHED",
            PvStatus::ACTIVATION_THROTTLED => "ACTIVATION_THROTTLED",
            PvStatus::ACTIVATION_REFUSED => "ACTIVATION_REFUSED",
        }
    }

    /// The name of this status, as diagnostics print it.
    pub open spec fn spec_name(self) -> Seq<char> {
        match self {
            PvStatus::SUCCESS => "SUCCESS"@,
            PvStatus::OUT_OF_MEMORY => "OUT_OF_MEMORY"@,
            PvStatus::IO_ERROR => "IO_ERROR"@,
            PvStatus::INVALID_ARGUMENT => "INVALID_ARGUMENT"@,
            PvStatus::STOP_ITERATION => "STOP_ITERATION"@,
            PvStatus::KEY_ERROR => "KEY_ERROR"@,
            PvStatus::INVALID_STATE => "INVALID_STATE"@,
            PvStatus::RUNTIME_ERROR => "RUNTIME_ERROR"@,
            PvStatus::ACTIVATION_ERROR => "ACTIVATION_ERROR"@,
            PvStatus::ACTIVATION_LIMIT_REACHED => "ACTIVATION_LIMIT_REACHED"@,
            PvStatus::ACTIVATION_THROTTLED => "ACTIVATION_THROTTLED"@,
            PvStatus::ACTIVATION_REFUSED => "ACTIVATION_REFUSED"@,
        }
    }
}

} // verus!
