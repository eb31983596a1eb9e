use sbi::base;
use sbi::hsm;
use sbi::legacy;
use sbi::reset;
use sbi::{sbi_call, CallRequest, Error, Platform, Sbi, SbiRet};

/// A firmware that answers from a script and records what it was asked.
struct Scripted {
    answers: Vec<(isize, usize)>,
    calls: Vec<CallRequest>,
    halts: usize,
}

impl Scripted {
    fn new(answers: &[(isize, usize)]) -> Scripted {
        Scripted { answers: answers.to_vec(), calls: Vec::new(), halts: 0 }
    }
}

impl Platform for Scripted {
    fn ecall(&mut self, request: CallRequest) -> (isize, usize) {
        let answer = self.answers[self.calls.len()];
        self.calls.push(request);
        answer
    }

    fn halt(&mut self) {
        self.halts += 1;
    }
}

fn request(ext_id: usize, func_id: usize, arg0: usize, arg1: usize, arg2: usize) -> CallRequest {
    CallRequest { ext_id, func_id, arg0, arg1, arg2 }
}

#[test]
fn extension_ids_are_the_fixed_ones() {
    assert_eq!(base::EID, 0x10);
    assert_eq!(legacy::CONSOLE_PUTC_EID, 0x01);
    assert_eq!(legacy::CONSOLE_GETC_EID, 0x02);
    assert_eq!(legacy::SHUTDOWN_EID, 0x08);
    assert_eq!(hsm::EID, 0x48534D);
    assert_eq!(reset::EID, 0x53525354);
}

#[test]
fn call_passes_the_five_words_on() {
    let mut sbi = Sbi::new(Scripted::new(&[(0, 99)]));
    let ret = sbi_call(&mut sbi, 0xAAAA, 0xBBBB, usize::MAX, 0, 7);
    assert_eq!(ret, Some(SbiRet { error: Error::Success, value: 99 }));
    assert_eq!(sbi.platform().calls, vec![request(0xAAAA, 0xBBBB, usize::MAX, 0, 7)]);
    assert!(!sbi.is_halted());
    assert_eq!(sbi.platform().halts, 0);
}

#[test]
fn call_maps_each_known_code() {
    let expected = [
        (0, Error::Success),
        (-1, Error::Failed),
        (-2, Error::NotSupported),
        (-3, Error::InvalidParam),
        (-4, Error::Denied),
        (-5, Error::InvalidAddress),
        (-6, Error::AlreadyAvailable),
    ];
    for (code, error) in expected {
        let mut sbi = Sbi::new(Scripted::new(&[(code, 5)]));
        let ret = sbi_call(&mut sbi, 1, 2, 3, 4, 5);
        assert_eq!(ret, Some(SbiRet { error, value: 5 }));
        assert!(!sbi.is_halted());
    }
}

#[test]
fn unknown_code_halts_the_hart() {
    for code in [1isize, 7, -7, isize::MIN, isize::MAX] {
        let mut sbi = Sbi::new(Scripted::new(&[(code, 5)]));
        let ret = sbi_call(&mut sbi, 1, 2, 3, 4, 5);
        assert_eq!(ret, None);
        assert!(sbi.is_halted());
        assert_eq!(sbi.platform().halts, 1);
        assert_eq!(sbi.platform().calls.len(), 1);
    }
}

#[test]
fn halted_hart_makes_no_further_trap() {
    let mut sbi = Sbi::new(Scripted::new(&[(42, 0), (0, 0)]));
    assert_eq!(base::sbi_get_spec_version(&mut sbi), None);
    assert!(sbi.is_halted());
    assert_eq!(base::sbi_get_impl_id(&mut sbi), None);
    assert_eq!(legacy::sbi_console_putchar(&mut sbi, b'x'), None);
    assert_eq!(sbi.platform().calls, vec![request(0x10, 0, 0, 0, 0)]);
    assert_eq!(sbi.platform().halts, 1);
    assert!(sbi.is_halted());
}

#[test]
fn panic_halts_without_a_trap() {
    let mut sbi = Sbi::new(Scripted::new(&[(0, 0)]));
    assert!(!sbi.is_halted());
    sbi.panic();
    assert!(sbi.is_halted());
    assert_eq!(sbi.platform().halts, 1);
    assert!(sbi.platform().calls.is_empty());
    assert_eq!(base::sbi_get_mimpid(&mut sbi), None);
    assert!(sbi.platform().calls.is_empty());
}

#[test]
fn halted_state_is_not_entered_twice() {
    let mut sbi = Sbi::new(Scripted::new(&[]));
    sbi.panic();
    sbi.panic();
    assert!(sbi.is_halted());
    assert_eq!(sbi.platform().halts, 1);
}

#[test]
fn base_calls_use_their_function_ids() {
    let mut sbi = Sbi::new(Scripted::new(&[
        (0, 10),
        (0, 11),
        (0, 12),
        (0, 13),
        (0, 14),
        (0, 15),
        (0, 16),
    ]));
    assert_eq!(
        base::sbi_get_spec_version(&mut sbi),
        Some(SbiRet { error: Error::Success, value: 10 })
    );
    assert_eq!(base::sbi_get_impl_id(&mut sbi), Some(SbiRet { error: Error::Success, value: 11 }));
    assert_eq!(
        base::sbi_get_impl_version(&mut sbi),
        Some(SbiRet { error: Error::Success, value: 12 })
    );
    assert_eq!(
        base::sbi_probe_extension(&mut sbi, 0x77),
        Some(SbiRet { error: Error::Success, value: 13 })
    );
    assert_eq!(base::sbi_get_vendorid(&mut sbi), Some(SbiRet { error: Error::Success, value: 14 }));
    assert_eq!(base::sbi_get_marchid(&mut sbi), Some(SbiRet { error: Error::Success, value: 15 }));
    assert_eq!(base::sbi_get_mimpid(&mut sbi), Some(SbiRet { error: Error::Success, value: 16 }));
    assert_eq!(
        sbi.platform().calls,
        vec![
            request(0x10, 0, 0, 0, 0),
            request(0x10, 1, 0, 0, 0),
            request(0x10, 2, 0, 0, 0),
            request(0x10, 3, 0x77, 0, 0),
            request(0x10, 4, 0, 0, 0),
            request(0x10, 5, 0, 0, 0),
            request(0x10, 6, 0, 0, 0),
        ]
    );
}

#[test]
fn probe_of_arbitrary_id_returns_the_answer_verbatim() {
    let answers = [
        (0, 0),
        (0, 1),
        (0, 0x1234),
        (0, usize::MAX),
        (-1, 0x1234),
        (-2, 0),
        (-3, 9),
        (-4, 8),
        (-5, 7),
        (-6, 6),
    ];
    let expected = [
        SbiRet { error: Error::Success, value: 0 },
        SbiRet { error: Error::Success, value: 1 },
        SbiRet { error: Error::Success, value: 0x1234 },
        SbiRet { error: Error::Success, value: usize::MAX },
        SbiRet { error: Error::Failed, value: 0x1234 },
        SbiRet { error: Error::NotSupported, value: 0 },
        SbiRet { error: Error::InvalidParam, value: 9 },
        SbiRet { error: Error::Denied, value: 8 },
        SbiRet { error: Error::InvalidAddress, value: 7 },
        SbiRet { error: Error::AlreadyAvailable, value: 6 },
    ];
    let id = 0x0DEAD_BEE;
    let mut sbi = Sbi::new(Scripted::new(&answers));
    for want in expected {
        assert_eq!(base::sbi_probe_extension(&mut sbi, id), Some(want));
    }
    assert_eq!(sbi.platform().calls.len(), answers.len());
    for call in &sbi.platform().calls {
        assert_eq!(*call, request(0x10, 3, id, 0, 0));
    }
}

#[test]
fn legacy_calls_use_their_extension_ids() {
    let mut sbi = Sbi::new(Scripted::new(&[(0, 0), (0, 0x41), (-2, 0)]));
    assert_eq!(
        legacy::sbi_console_putchar(&mut sbi, 0xFF),
        Some(SbiRet { error: Error::Success, value: 0 })
    );
    assert_eq!(
        legacy::sbi_console_getchar(&mut sbi),
        Some(SbiRet { error: Error::Success, value: 0x41 })
    );
    assert_eq!(
        legacy::sbi_shutdown(&mut sbi),
        Some(SbiRet { error: Error::NotSupported, value: 0 })
    );
    assert_eq!(
        sbi.platform().calls,
        vec![request(0x01, 0, 0xFF, 0, 0), request(0x02, 0, 0, 0, 0), request(0x08, 0, 0, 0, 0)]
    );
}

#[test]
fn reset_codes_are_the_fixed_ones() {
    assert_eq!(usize::from(reset::Type::Shutdown), 0);
    assert_eq!(usize::from(reset::Type::ColdReboot), 1);
    assert_eq!(usize::from(reset::Type::WarmReboot), 2);
    assert_eq!(usize::from(reset::Reason::NoReason), 0);
    assert_eq!(usize::from(reset::Reason::SystemFailure), 1);
}

#[test]
fn reset_for_shutdown_after_system_failure_is_encoded() {
    let mut sbi = Sbi::new(Scripted::new(&[(-2, 0)]));
    let ret = reset::sbi_system_reset(
        &mut sbi,
        reset::Type::Shutdown,
        reset::Reason::SystemFailure,
    );
    assert_eq!(sbi.platform().calls, vec![request(0x53525354, 0, 0, 1, 0)]);
    assert_eq!(ret, Some(SbiRet { error: Error::NotSupported, value: 0 }));
}

#[test]
fn reset_that_returns_success_is_surfaced() {
    // A reset that succeeds does not come back. A firmware that comes back
    // and says it succeeded is not covered up: the caller gets that answer
    // and sees that the machine still runs.
    let mut sbi = Sbi::new(Scripted::new(&[(0, 0)]));
    let ret = reset::sbi_system_reset(
        &mut sbi,
        reset::Type::Shutdown,
        reset::Reason::SystemFailure,
    );
    assert_eq!(ret, Some(SbiRet { error: Error::Success, value: 0 }));
    assert!(!sbi.is_halted());
    assert_eq!(sbi.platform().calls, vec![request(0x53525354, 0, 0, 1, 0)]);
}

#[test]
fn reset_encodes_every_type_and_reason() {
    let types = [
        (reset::Type::Shutdown, 0),
        (reset::Type::ColdReboot, 1),
        (reset::Type::WarmReboot, 2),
    ];
    let reasons = [(reset::Reason::NoReason, 0), (reset::Reason::SystemFailure, 1)];
    for (reset_type, type_code) in types {
        for (reset_reason, reason_code) in reasons {
            let mut sbi = Sbi::new(Scripted::new(&[(-1, 0)]));
            let ret = reset::sbi_system_reset(&mut sbi, reset_type, reset_reason);
            assert_eq!(ret, Some(SbiRet { error: Error::Failed, value: 0 }));
            assert_eq!(
                sbi.platform().calls,
                vec![request(0x53525354, 0, type_code, reason_code, 0)]
            );
        }
    }
}
