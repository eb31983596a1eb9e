//! The system reset extension.

use vstd::prelude::*;
use vstd::std_specs::convert::FromSpecImpl;
use crate::call::{sbi_call, CallRequest, Platform, Sbi, SbiRet};

verus! {

/// The id of the system reset extension.
pub const EID: usize = 0x53525354;

/// What kind of reset is asked for.
#[derive(Debug, Clone, Copy, PartialEq, Eq, Structural)]
pub enum Type {
    Shutdown,
    ColdReboot,
    WarmReboot,
}

/// Why the reset is asked for.
#[derive(Debug, Clone, Copy, PartialEq, Eq, Structural)]
pub enum Reason {
    NoReason,
    SystemFailure,
}

impl Type {
    /// The word that the firmware knows this kind of reset by.
    pub open spec fn code(self) -> usize {
        match self {
            Type::Shutdown => 0,
            Type::ColdReboot => 1,
            Type::WarmReboot => 2,
        }
    }
}

impl Reason {
    /// The word that the firmware knows this reason by.
    pub open spec fn code(self) -> usize {
        match self {
            Reason::NoReason => 0,
            Reason::SystemFailure => 1,
        }
    }
}

impl From<Type> for usize {
    /// The code of a kind of reset, as `Type::code` gives it.
    fn from(x: Type) -> (code: usize) {
        match x {
            Type::Shutdown => 0x00000000,
            Type::ColdReboot => 0x00000001,
            Type::WarmReboot => 0x00000002,
        }
    }
}

impl FromSpecImpl<Type> for usize {
    open spec fn obeys_from_spec() -> bool {
        true
    }

    open spec fn from_spec(x: Type) -> usize {
        x.code()
    }
}

impl From<Reason> for usize {
    /// The code of a reason, as `Reason::code` gives it.
    fn from(x: Reason) -> (code: usize) {
        match x {
            Reason::NoReason => 0x00000000,
            Reason::SystemFailure => 0x00000001,
        }
    }
}

impl FromSpecImpl<Reason> for usize {
    open spec fn obeys_from_spec() -> bool {
        true
    }

    open spec fn from_spec(x: Reason) -> usize {
        x.code()
    }
}

/// Asks the firmware to reset the machine: function 0 of the reset
/// extension, with the codes of the kind and of the reason as its first two
/// arguments. Where the firmware obliges, the call does not come back; a
/// result, `Success` included, means that the machine was not reset.
pub fn sbi_system_reset<P: Platform>(
    sbi: &mut Sbi<P>,
    reset_type: Type,
    reset_reason: Reason,
) -> (ret: Option<SbiRet>)
    ensures
        old(sbi)@.call_step(
            final(sbi)@,
            (CallRequest {
                ext_id: 0x53525354,
                func_id: 0,
                arg0: reset_type.code(),
                arg1: reset_reason.code(),
                arg2: 0,
            }),
        ),
        ret == old(sbi)@.call_result(final(sbi)@),
{
    sbi_call(sbi, EID, 0, usize::from(reset_type), usize::from(reset_reason), 0)
}

} // verus!
