//! The call encoder: one privileged call into the firmware, from the five
//! words that go out to the typed result that comes back.

use vstd::prelude::*;
use crate::error::Error;

verus! {

/// The five words of one call, as the calling convention lays them out:
/// the extension id in `a7`, the function id in `a6`, the arguments in
/// `a0`, `a1` and `a2`.
#[derive(Debug, Clone, Copy, PartialEq, Eq, Structural)]
pub struct CallRequest {
    pub ext_id: usize,
    pub func_id: usize,
    pub arg0: usize,
    pub arg1: usize,
    pub arg2: usize,
}

/// The result of a call. `value` means something only where `error` is
/// `Success`.
#[derive(Debug, Clone, Copy, PartialEq, Eq, Structural)]
pub struct SbiRet {
    pub error: Error,
    pub value: usize,
}

/// One completed trap: the request that went out, and the two words that the
/// firmware left in `a0` and `a1`.
#[derive(Debug, Clone, Copy, PartialEq, Eq, Structural)]
pub struct Exchange {
    pub request: CallRequest,
    pub code: isize,
    pub value: usize,
}

/// The two states of the hart as this layer sees it. It runs from kernel
/// entry until the halt primitive is entered; `Halted` is terminal.
#[derive(Debug, Clone, Copy, PartialEq, Eq, Structural)]
pub enum State {
    Running,
    Halted,
}

/// The two primitives that this layer cannot perform itself. Nothing is
/// assumed of either: whatever `ecall` returns is read by the error model,
/// and the layer stays consistent if `halt` comes back.
pub trait Platform {
    /// Loads the request into `a7`, `a6`, `a0`, `a1`, `a2`, executes the trap
    /// instruction, and returns what the firmware left in `a0` and `a1`.
    fn ecall(&mut self, request: CallRequest) -> (isize, usize);

    /// Stops the hart for good. On hardware this is an endless low-power
    /// wait and does not return.
    fn halt(&mut self);
}

impl SbiRet {
    /// The result that the two returned words stand for, if the first is a
    /// known code.
    pub open spec fn decode(code: int, value: usize) -> Option<SbiRet> {
        match Error::decode(code) {
            Some(error) => Some(SbiRet { error, value }),
            None => None,
        }
    }

    /// Reads the two words that a trap returned. The value is passed on as it
    /// came; `None` exactly when the code is not a known one.
    pub fn from_raw(code: isize, value: usize) -> (ret: Option<SbiRet>)
        ensures
            ret == SbiRet::decode(code as int, value),
            ret is Some <==> Error::is_known(code as int),
            ret matches Some(r) ==> r.error.code() == code && r.value == value,
    {
        match Error::from_code(code) {
            Some(error) => Some(SbiRet { error, value }),
            None => None,
        }
    }
}

/// The hart as the contracts see it: whether it still runs, and every trap
/// made so far, oldest first.
pub struct Hart {
    pub state: State,
    pub history: Seq<Exchange>,
}

impl Hart {
    /// The hart at kernel entry: running, with no trap made.
    pub open spec fn boot() -> Hart {
        Hart { state: State::Running, history: Seq::empty() }
    }

    /// How one call for `request` moves `self` to `next`. A running hart
    /// traps exactly once, with that request, and halts if and only if the
    /// code that came back is unknown. A halted hart does nothing.
    pub open spec fn call_step(self, next: Hart, request: CallRequest) -> bool {
        if self.state is Halted {
            next == self
        } else {
            let done = next.history.last();
            &&& next.history == self.history.push(done)
            &&& done.request == request
            &&& next.state is Halted <==> !Error::is_known(done.code as int)
        }
    }

    /// What the call that moved `self` to `next` returned: the decoded words
    /// of the trap it made, or nothing if it made none.
    pub open spec fn call_result(self, next: Hart) -> Option<SbiRet> {
        if self.state is Halted {
            None
        } else {
            SbiRet::decode(next.history.last().code as int, next.history.last().value)
        }
    }

    /// The traps that were made on the way from `self` to `next`.
    pub open spec fn made_since(self, next: Hart) -> Seq<Exchange> {
        next.history.skip(self.history.len() as int)
    }
}

/// `Halted` is a sink: a call on a halted hart leaves it as it was and
/// returns nothing.
pub proof fn lemma_halted_stays_halted(pre: Hart, post: Hart, request: CallRequest)
    requires
        pre.state is Halted,
        pre.call_step(post, request),
    ensures
        post == pre,
        pre.call_result(post) is None,
{
}

/// The supervisor's handle on the firmware: the platform it traps into, the
/// state of the hart, and the record of every trap made through it. The
/// record is kept where the trap is made, in `sbi_call`, and nowhere else.
pub struct Sbi<P> {
    platform: P,
    state: State,
    history: Ghost<Seq<Exchange>>,
}

impl<P> View for Sbi<P> {
    type V = Hart;

    closed spec fn view(&self) -> Hart {
        Hart { state: self.state, history: self.history@ }
    }
}

impl<P: Platform> Sbi<P> {
    /// The platform underneath.
    pub closed spec fn spec_platform(&self) -> P {
        self.platform
    }

    /// Takes control of the hart at kernel entry: running, with no trap made.
    pub fn new(platform: P) -> (sbi: Self)
        ensures
            sbi@ == Hart::boot(),
            sbi.spec_platform() == platform,
    {
        Sbi { platform, state: State::Running, history: Ghost(Seq::empty()) }
    }

    /// Whether the hart has halted.
    pub fn is_halted(&self) -> (halted: bool)
        ensures
            halted == (self@.state is Halted),
    {
        match self.state {
            State::Halted => true,
            State::Running => false,
        }
    }

    /// Read access to the platform underneath.
    pub fn platform(&self) -> (platform: &P)
        ensures
            *platform == self.spec_platform(),
    {
        &self.platform
    }

    /// Signals that going on is unsafe. The hart halts, from whatever state,
    /// without a trap; nothing is cleaned up, because nothing is held.
    pub fn panic(&mut self)
        ensures
            final(self)@.state is Halted,
            final(self)@.history == old(self)@.history,
    {
        self.halt();
    }

    /// The one way into `Halted`. The halt primitive runs on the transition
    /// and is not entered again from the halted state.
    fn halt(&mut self)
        ensures
            final(self)@.state is Halted,
            final(self)@.history == old(self)@.history,
    {
        match self.state {
            State::Halted => {},
            State::Running => {
                self.state = State::Halted;
                self.platform.halt();
            },
        }
    }
}

/// Makes one call into the firmware and reads its result. The five words are
/// passed on unchecked. An unknown code in the result halts the hart, and the
/// call then yields nothing; so does any call made after the hart has halted,
/// which no longer traps.
pub fn sbi_call<P: Platform>(
    sbi: &mut Sbi<P>,
    ext_id: usize,
    func_id: usize,
    arg0: usize,
    arg1: usize,
    arg2: usize,
) -> (ret: Option<SbiRet>)
    ensures
        old(sbi)@.call_step(final(sbi)@, (CallRequest { ext_id, func_id, arg0, arg1, arg2 })),
        ret == old(sbi)@.call_result(final(sbi)@),
{
    match sbi.state {
        State::Halted => None,
        State::Running => {
            let request = CallRequest { ext_id, func_id, arg0, arg1, arg2 };
            let (code, value) = sbi.platform.ecall(request);
            proof {
                sbi.history@ = sbi.history@.push(Exchange { request, code, value });
            }
            let ret = SbiRet::from_raw(code, value);
            if ret.is_none() {
                sbi.halt();
            }
            ret
        },
    }
}

} // verus!
