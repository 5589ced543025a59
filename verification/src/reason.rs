//! Reason codes carried by stream resets.

use vstd::prelude::*;

verus! {

/// The code that internal failures are reported with.
pub const INTERNAL_ERROR_CODE: u32 = 2;

/// Why a stream was reset: the 32-bit error code of the reset frame.
#[derive(Clone, Copy, Debug, PartialEq, Eq, Structural)]
pub struct Reason {
    pub code: u32,
}

impl Reason {
    /// The reason with the given code.
    pub fn new(code: u32) -> (r: Reason)
        ensures
            r.code == code,
    {
        Reason { code }
    }

    /// The code of this reason.
    pub fn code(&self) -> (c: u32)
        ensures
            c == self.code,
    {
        self.code
    }

    /// The reason used when nothing more specific is known.
    pub open spec fn spec_internal_error() -> Reason {
        Reason { code: INTERNAL_ERROR_CODE }
    }

    /// The reason used when nothing more specific is known.
    #[verifier::when_used_as_spec(spec_internal_error)]
    pub fn internal_error() -> (r: Reason)
        ensures
            r == Reason::spec_internal_error(),
    {
        Reason { code: INTERNAL_ERROR_CODE }
    }

    /// The reason to reset a stream with, given what could be derived from
    /// a failure: the derived reason, or the internal one if there is none.
    pub open spec fn spec_or_internal(derived: Option<Reason>) -> Reason {
        match derived {
            Some(reason) => reason,
            None => Reason::spec_internal_error(),
        }
    }

    /// The reason to reset a stream with, given what could be derived from
    /// a failure: the derived reason, or the internal one if there is none.
    #[verifier::when_used_as_spec(spec_or_internal)]
    pub fn or_internal(derived: Option<Reason>) -> (r: Reason)
        ensures
            r == Reason::spec_or_internal(derived),
    {
        match derived {
            Some(reason) => reason,
            None => Reason::internal_error(),
        }
    }
}

} // verus!
