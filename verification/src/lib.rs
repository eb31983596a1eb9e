//! The supervisor side of the RISC-V Supervisor Binary Interface: how a
//! privileged call to the firmware is encoded, how the two words that come
//! back are read, and the console built on those calls.
//!
//! The trap instruction and the low-power wait are the only things done
//! outside: a `Platform` supplies them, and nothing is assumed of it. Every
//! call goes through an `Sbi` handle, whose view, a `Hart`, holds the state of
//! the hart and the record of the traps made. The contracts say which traps a
//! function makes and how it reads what came back, whatever that was.

pub mod base;
pub mod boot;
pub mod call;
pub mod console;
pub mod error;
pub mod hsm;
pub mod legacy;
pub mod reset;

pub use boot::kinit;
pub use call::{sbi_call, CallRequest, Exchange, Hart, Platform, Sbi, SbiRet, State};
pub use console::LegacyConsole;
pub use error::Error;
