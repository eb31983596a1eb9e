//! The legacy extensions: console output, console input and shutdown, each
//! an extension of its own with the single function 0.

use vstd::prelude::*;
use crate::call::{sbi_call, CallRequest, Platform, Sbi, SbiRet};

verus! {

/// The id of the legacy console-putchar extension.
pub const CONSOLE_PUTC_EID: usize = 0x01;

/// The id of the legacy console-getchar extension.
pub const CONSOLE_GETC_EID: usize = 0x02;

/// The id of the legacy shutdown extension.
pub const SHUTDOWN_EID: usize = 0x08;

/// The request that writes the byte `c` to the console: the byte, widened,
/// is the one argument.
pub open spec fn putchar_request(c: u8) -> CallRequest {
    CallRequest { ext_id: 0x01, func_id: 0, arg0: c as usize, arg1: 0, arg2: 0 }
}

/// Writes the byte `c` to the console.
pub fn sbi_console_putchar<P: Platform>(sbi: &mut Sbi<P>, c: u8) -> (ret: Option<SbiRet>)
    ensures
        old(sbi)@.call_step(final(sbi)@, putchar_request(c)),
        ret == old(sbi)@.call_result(final(sbi)@),
{
    sbi_call(sbi, CONSOLE_PUTC_EID, 0, c as usize, 0, 0)
}

/// Reads one byte from the console. The firmware's answer is passed on as it
/// came, also where it says that no byte is waiting.
pub fn sbi_console_getchar<P: Platform>(sbi: &mut Sbi<P>) -> (ret: Option<SbiRet>)
    ensures
        old(sbi)@.call_step(
            final(sbi)@,
            (CallRequest { ext_id: 0x02, func_id: 0, arg0: 0, arg1: 0, arg2: 0 }),
        ),
        ret == old(sbi)@.call_result(final(sbi)@),
{
    sbi_call(sbi, CONSOLE_GETC_EID, 0, 0, 0, 0)
}

/// Asks the firmware to power the machine off. A result means that it did
/// not.
pub fn sbi_shutdown<P: Platform>(sbi: &mut Sbi<P>) -> (ret: Option<SbiRet>)
    ensures
        old(sbi)@.call_step(
            final(sbi)@,
            (CallRequest { ext_id: 0x08, func_id: 0, arg0: 0, arg1: 0, arg2: 0 }),
        ),
        ret == old(sbi)@.call_result(final(sbi)@),
{
    sbi_call(sbi, SHUTDOWN_EID, 0, 0, 0, 0)
}

} // verus!
