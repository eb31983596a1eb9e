//! Kernel entry: where the hart starts to run.

use vstd::prelude::*;
use vstd::string::StringSliceAdditionalSpecFns;
use crate::call::{Hart, Platform, Sbi};
use crate::console::{console_wrote, LegacyConsole};

verus! {

/// The kernel's entry point, reached once after reset with a stack and
/// nothing else. It takes the hart as running and greets on the console. The
/// handle is given back for the caller to go on with, or to find that the
/// greeting has halted the hart.
pub fn kinit<P: Platform>(platform: P) -> (sbi: Sbi<P>)
    ensures
        console_wrote(Hart::boot(), sbi@, "Hello world\r\n".spec_bytes()),
{
    let mut sbi = Sbi::new(platform);
    LegacyConsole.write_str(&mut sbi, "Hello world\r\n");
    sbi
}

} // verus!
