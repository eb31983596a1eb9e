//! The closed set of outcomes that the firmware reports for a call.

use vstd::prelude::*;

verus! {

/// The outcome that the firmware reports in the first word it returns.
#[derive(Debug, Clone, Copy, PartialEq, Eq, Structural)]
pub enum Error {
    Success,
    Failed,
    NotSupported,
    InvalidParam,
    Denied,
    InvalidAddress,
    AlreadyAvailable,
}

impl Error {
    /// The signed code by which the firmware reports this outcome.
    pub open spec fn code(self) -> int {
        match self {
            Error::Success => 0,
            Error::Failed => -1,
            Error::NotSupported => -2,
            Error::InvalidParam => -3,
            Error::Denied => -4,
            Error::InvalidAddress => -5,
            Error::AlreadyAvailable => -6,
        }
    }

    /// Whether `code` is one of the seven codes that stand for an outcome.
    pub open spec fn is_known(code: int) -> bool {
        -6 <= code <= 0
    }

    /// The outcome that `code` stands for. A code outside the known range
    /// stands for none: the firmware and this layer disagree on the
    /// interface, and the caller must stop.
    pub open spec fn decode(code: int) -> Option<Error> {
        if code == 0 {
            Some(Error::Success)
        } else if code == -1 {
            Some(Error::Failed)
        } else if code == -2 {
            Some(Error::NotSupported)
        } else if code == -3 {
            Some(Error::InvalidParam)
        } else if code == -4 {
            Some(Error::Denied)
        } else if code == -5 {
            Some(Error::InvalidAddress)
        } else if code == -6 {
            Some(Error::AlreadyAvailable)
        } else {
            None
        }
    }

    /// Reads a code returned by the firmware. `None` is the fatal case: the
    /// code is none of the seven, and no outcome is made up for it.
    pub fn from_code(code: isize) -> (r: Option<Error>)
        ensures
            r == Error::decode(code as int),
            r is Some <==> Error::is_known(code as int),
            r matches Some(e) ==> e.code() == code,
    {
        match code {
            0 => Some(Error::Success),
            -1 => Some(Error::Failed),
            -2 => Some(Error::NotSupported),
            -3 => Some(Error::InvalidParam),
            -4 => Some(Error::Denied),
            -5 => Some(Error::InvalidAddress),
            -6 => Some(Error::AlreadyAvailable),
            _ => None,
        }
    }
}

/// The seven codes and the seven outcomes pair off. Each outcome is read back
/// from its own code; a code is read as an outcome only if it is that
/// outcome's code; and the codes that are read as an outcome are the known
/// ones.
pub proof fn lemma_decode_inverts_code(e: Error, code: int)
    ensures
        Error::decode(e.code()) == Some(e),
        Error::decode(code) == Some(e) <==> code == e.code(),
        Error::decode(code) is Some <==> Error::is_known(code),
{
}

} // verus!
