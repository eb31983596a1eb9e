//! The console: a handle without state over the legacy console calls.

use vstd::prelude::*;
use vstd::string::StringSliceAdditionalSpecFns;
use crate::base::sbi_probe_extension;
use crate::call::{CallRequest, Exchange, Hart, Platform, Sbi, SbiRet};
use crate::error::Error;
use crate::legacy::{
    putchar_request, sbi_console_getchar, sbi_console_putchar, CONSOLE_GETC_EID, CONSOLE_PUTC_EID,
};

verus! {

/// Permission to use the legacy console. It holds nothing: what state there
/// is lives in the firmware, so any number of handles may be made, anywhere,
/// and all act alike.
#[derive(Debug, Clone, Copy, PartialEq, Eq, Structural)]
pub struct LegacyConsole;

/// Whether `answer`, given to a probe, says that the extension is there:
/// the call succeeded and its value is not zero.
pub open spec fn extension_found(answer: Option<SbiRet>) -> bool {
    answer matches Some(ret) && ret.error is Success && ret.value != 0
}

/// The byte that `answer`, given to a console read, carries: the low eight
/// bits of the value of a call that succeeded.
pub open spec fn byte_received(answer: Option<SbiRet>) -> Option<u8> {
    match answer {
        Some(ret) => if ret.error is Success {
            Some((ret.value % 256) as u8)
        } else {
            None
        },
        None => None,
    }
}

/// How writing `bytes` to the console moves `pre` to `post`. One putchar call
/// is made for each byte, in the order of the bytes and with nothing between
/// them, until the bytes end or a call comes back with an unknown code. That
/// call is the last one, and the hart has halted.
pub open spec fn console_wrote(pre: Hart, post: Hart, bytes: Seq<u8>) -> bool {
    let made = pre.made_since(post);
    &&& post.history == pre.history + made
    &&& made.len() <= bytes.len()
    &&& forall|k: int| 0 <= k < made.len() ==> (#[trigger] made[k]).request == putchar_request(bytes[k])
    &&& forall|k: int|
        0 <= k < made.len() - 1 ==> Error::is_known((#[trigger] made[k]).code as int)
    &&& if pre.state is Halted {
        &&& made.len() == 0
        &&& post.state is Halted
    } else {
        &&& post.state is Halted <==> made.len() > 0 && !Error::is_known(made.last().code as int)
        &&& post.state is Running ==> made.len() == bytes.len()
    }
}

/// Writing no bytes changes nothing.
pub proof fn lemma_wrote_nothing(hart: Hart)
    ensures
        console_wrote(hart, hart, Seq::<u8>::empty()),
{
    assert(hart.made_since(hart) =~= Seq::<Exchange>::empty());
    assert(hart.history + Seq::<Exchange>::empty() =~= hart.history);
}

/// Writing is putting byte by byte: if `bytes` were written from `pre` to
/// `mid`, and one putchar call for `c` leads from `mid` to `post`, then
/// `bytes` followed by `c` were written from `pre` to `post`.
pub proof fn lemma_wrote_one_more(pre: Hart, mid: Hart, post: Hart, bytes: Seq<u8>, c: u8)
    requires
        console_wrote(pre, mid, bytes),
        mid.call_step(post, putchar_request(c)),
    ensures
        console_wrote(pre, post, bytes.push(c)),
{
    let before = pre.made_since(mid);
    let after = pre.made_since(post);
    if mid.state is Halted {
        assert(after =~= before);
    } else {
        let done = post.history.last();
        assert(after =~= before.push(done));
        assert(post.history =~= pre.history + after);
    }
}

/// Nothing is written on a halted hart: it stays as it was, whatever the
/// bytes.
pub proof fn lemma_halted_writes_nothing(pre: Hart, post: Hart, bytes: Seq<u8>)
    requires
        pre.state is Halted,
        console_wrote(pre, post, bytes),
    ensures
        post == pre,
{
    assert(pre.history + pre.made_since(post) =~= pre.history);
}

/// A write that leaves the hart running has put every byte: the traps it
/// added to the history are as many as the bytes, each is the putchar call
/// for its byte, and each came back with a known code.
pub proof fn lemma_wrote_all(pre: Hart, post: Hart, bytes: Seq<u8>)
    requires
        console_wrote(pre, post, bytes),
        post.state is Running,
    ensures
        pre.state is Running,
        post.history.len() == pre.history.len() + bytes.len(),
        post.history.take(pre.history.len() as int) == pre.history,
        forall|j: int|
            pre.history.len() <= j < post.history.len() ==> {
                &&& (#[trigger] post.history[j]).request == putchar_request(
                    bytes[j - pre.history.len()],
                )
                &&& Error::is_known(post.history[j].code as int)
            },
{
    let made = pre.made_since(post);
    assert(post.history.take(pre.history.len() as int) =~= pre.history);
    assert forall|j: int| pre.history.len() <= j < post.history.len() implies {
        &&& (#[trigger] post.history[j]).request == putchar_request(bytes[j - pre.history.len()])
        &&& Error::is_known(post.history[j].code as int)
    } by {
        assert(post.history[j] == made[j - pre.history.len()]);
    }
}

impl LegacyConsole {
    /// Reads the answer to a probe: found exactly when the call succeeded
    /// with a value other than zero.
    pub fn is_found(answer: Option<SbiRet>) -> (found: bool)
        ensures
            found == extension_found(answer),
    {
        match answer {
            Some(ret) => match ret.error {
                Error::Success => ret.value != 0,
                _ => false,
            },
            None => false,
        }
    }

    /// Reads the answer to a console read: a byte exactly when the call
    /// succeeded.
    pub fn byte_of(answer: Option<SbiRet>) -> (byte: Option<u8>)
        ensures
            byte == byte_received(answer),
            byte is Some <==> (answer matches Some(ret) && ret.error is Success),
            answer matches Some(ret) ==> ret.error is Success ==> ret.value <= 255 ==> byte == Some(
                ret.value as u8,
            ),
    {
        match answer {
            Some(ret) => match ret.error {
                Error::Success => Some((ret.value % 256) as u8),
                _ => None,
            },
            None => None,
        }
    }

    /// Whether the console can be written to. Probes for the putchar
    /// extension; whatever is not a success with a value other than zero
    /// counts as no, a failed probe included.
    pub fn supports_write<P: Platform>(&self, sbi: &mut Sbi<P>) -> (supported: bool)
        ensures
            old(sbi)@.call_step(
                final(sbi)@,
                (CallRequest { ext_id: 0x10, func_id: 3, arg0: 0x01, arg1: 0, arg2: 0 }),
            ),
            supported == extension_found(old(sbi)@.call_result(final(sbi)@)),
    {
        LegacyConsole::is_found(sbi_probe_extension(sbi, CONSOLE_PUTC_EID))
    }

    /// Whether the console can be read from. Probes for the getchar
    /// extension, and reads the answer as `supports_write` does.
    pub fn supports_read<P: Platform>(&self, sbi: &mut Sbi<P>) -> (supported: bool)
        ensures
            old(sbi)@.call_step(
                final(sbi)@,
                (CallRequest { ext_id: 0x10, func_id: 3, arg0: 0x02, arg1: 0, arg2: 0 }),
            ),
            supported == extension_found(old(sbi)@.call_result(final(sbi)@)),
    {
        LegacyConsole::is_found(sbi_probe_extension(sbi, CONSOLE_GETC_EID))
    }

    /// Writes one byte with one putchar call, and does not look at the
    /// result.
    pub fn putc<P: Platform>(&self, sbi: &mut Sbi<P>, c: u8)
        ensures
            old(sbi)@.call_step(final(sbi)@, putchar_request(c)),
    {
        let _ = sbi_console_putchar(sbi, c);
    }

    /// Reads one byte with one getchar call. `None` says only that no byte
    /// was had: that none was waiting and that the call failed look alike.
    pub fn getc<P: Platform>(&self, sbi: &mut Sbi<P>) -> (byte: Option<u8>)
        ensures
            old(sbi)@.call_step(
                final(sbi)@,
                (CallRequest { ext_id: 0x02, func_id: 0, arg0: 0, arg1: 0, arg2: 0 }),
            ),
            byte == byte_received(old(sbi)@.call_result(final(sbi)@)),
    {
        LegacyConsole::byte_of(sbi_console_getchar(sbi))
    }

    /// Writes the bytes of `out` in order, one putchar call each, with no
    /// buffer in between.
    pub fn write_str<P: Platform>(&self, sbi: &mut Sbi<P>, out: &str)
        ensures
            console_wrote(old(sbi)@, final(sbi)@, out.spec_bytes()),
    {
        let bytes = out.as_bytes();
        let ghost pre = sbi@;
        let mut i: usize = 0;
        proof {
            lemma_wrote_nothing(pre);
            assert(bytes@.take(0) =~= Seq::<u8>::empty());
        }
        while i < bytes.len()
            invariant
                i <= bytes.len(),
                console_wrote(pre, sbi@, bytes@.take(i as int)),
            decreases bytes.len() - i,
        {
            let ghost mid = sbi@;
            self.putc(sbi, bytes[i]);
            proof {
                lemma_wrote_one_more(pre, mid, sbi@, bytes@.take(i as int), bytes@[i as int]);
                assert(bytes@.take(i as int).push(bytes@[i as int]) =~= bytes@.take(i + 1));
            }
            i += 1;
        }
        proof {
            assert(bytes@.take(bytes@.len() as int) =~= bytes@);
        }
    }
}

} // verus!
