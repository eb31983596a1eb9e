//! The base extension: what the firmware is, and which extensions it has.

use vstd::prelude::*;
use crate::call::{sbi_call, CallRequest, Platform, Sbi, SbiRet};

verus! {

/// The id of the base extension.
pub const EID: usize = 0x10;

/// Asks for the version of the binary interface that the firmware
/// implements: function 0 of the base extension.
pub fn sbi_get_spec_version<P: Platform>(sbi: &mut Sbi<P>) -> (ret: Option<SbiRet>)
    ensures
        old(sbi)@.call_step(
            final(sbi)@,
            (CallRequest { ext_id: 0x10, func_id: 0, arg0: 0, arg1: 0, arg2: 0 }),
        ),
        ret == old(sbi)@.call_result(final(sbi)@),
{
    sbi_call(sbi, EID, 0, 0, 0, 0)
}

/// Asks for the id of the firmware implementation: function 1.
pub fn sbi_get_impl_id<P: Platform>(sbi: &mut Sbi<P>) -> (ret: Option<SbiRet>)
    ensures
        old(sbi)@.call_step(
            final(sbi)@,
            (CallRequest { ext_id: 0x10, func_id: 1, arg0: 0, arg1: 0, arg2: 0 }),
        ),
        ret == old(sbi)@.call_result(final(sbi)@),
{
    sbi_call(sbi, EID, 1, 0, 0, 0)
}

/// Asks for the version of the firmware implementation: function 2.
pub fn sbi_get_impl_version<P: Platform>(sbi: &mut Sbi<P>) -> (ret: Option<SbiRet>)
    ensures
        old(sbi)@.call_step(
            final(sbi)@,
            (CallRequest { ext_id: 0x10, func_id: 2, arg0: 0, arg1: 0, arg2: 0 }),
        ),
        ret == old(sbi)@.call_result(final(sbi)@),
{
    sbi_call(sbi, EID, 2, 0, 0, 0)
}

/// Asks whether the firmware has the extension `id`: function 3, with the id
/// as its one argument. Any id may be asked for. The answer is what the
/// firmware gave, value included: a `Success` with value 0 says that the
/// extension is absent.
pub fn sbi_probe_extension<P: Platform>(sbi: &mut Sbi<P>, id: usize) -> (ret: Option<SbiRet>)
    ensures
        old(sbi)@.call_step(
            final(sbi)@,
            (CallRequest { ext_id: 0x10, func_id: 3, arg0: id, arg1: 0, arg2: 0 }),
        ),
        ret == old(sbi)@.call_result(final(sbi)@),
{
    sbi_call(sbi, EID, 3, id, 0, 0)
}

/// Asks for the vendor id of the machine: function 4.
pub fn sbi_get_vendorid<P: Platform>(sbi: &mut Sbi<P>) -> (ret: Option<SbiRet>)
    ensures
        old(sbi)@.call_step(
            final(sbi)@,
            (CallRequest { ext_id: 0x10, func_id: 4, arg0: 0, arg1: 0, arg2: 0 }),
        ),
        ret == old(sbi)@.call_result(final(sbi)@),
{
    sbi_call(sbi, EID, 4, 0, 0, 0)
}

/// Asks for the architecture id of the machine: function 5.
pub fn sbi_get_marchid<P: Platform>(sbi: &mut Sbi<P>) -> (ret: Option<SbiRet>)
    ensures
        old(sbi)@.call_step(
            final(sbi)@,
            (CallRequest { ext_id: 0x10, func_id: 5, arg0: 0, arg1: 0, arg2: 0 }),
        ),
        ret == old(sbi)@.call_result(final(sbi)@),
{
    sbi_call(sbi, EID, 5, 0, 0, 0)
}

/// Asks for the implementation id of the machine: function 6.
pub fn sbi_get_mimpid<P: Platform>(sbi: &mut Sbi<P>) -> (ret: Option<SbiRet>)
    ensures
        old(sbi)@.call_step(
            final(sbi)@,
            (CallRequest { ext_id: 0x10, func_id: 6, arg0: 0, arg1: 0, arg2: 0 }),
        ),
        ret == old(sbi)@.call_result(final(sbi)@),
{
    sbi_call(sbi, EID, 6, 0, 0, 0)
}

} // verus!
