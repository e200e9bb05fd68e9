use tidepool_core::signal_safety::{
    after_alt_stack, after_setjmp, combine_sa_flags, describe_signal, finish_protected, install,
    on_fault,
    FaultAction, InstallState, InstallStep, JumpTarget, ProtectStep, SigJmpBuf, SignalError,
    ALT_STACK_ALIGN, ALT_STACK_SIZE,
};

#[test]
fn sigill_is_named_as_case_trap() {
    assert_eq!(
        SignalError(libc::SIGILL).to_string(),
        "JIT signal: SIGILL (illegal instruction — likely exhausted case branch)"
    );
}

#[test]
fn sigsegv_is_named_as_bad_memory_access() {
    assert_eq!(
        SignalError(libc::SIGSEGV).to_string(),
        "JIT signal: SIGSEGV (segmentation fault — likely invalid memory access)"
    );
}

#[test]
fn sigbus_is_named_as_bus_error() {
    assert_eq!(
        SignalError(libc::SIGBUS).to_string(),
        "JIT signal: SIGBUS (bus error)"
    );
}

#[test]
fn other_signals_are_unknown() {
    assert_eq!(SignalError(99).to_string(), "JIT signal: unknown signal");
    assert_eq!(SignalError(0).to_string(), "JIT signal: unknown signal");
    assert_eq!(SignalError(-4).to_string(), "JIT signal: unknown signal");
}

#[test]
fn signal_numbers_match_the_platform() {
    assert_eq!(libc::SIGILL, 4);
    assert_eq!(libc::SIGSEGV, 11);
}

#[test]
fn describe_signal_uses_the_given_numbers() {
    assert_eq!(
        describe_signal(20, 20, 21, 22),
        "SIGILL (illegal instruction — likely exhausted case branch)"
    );
    assert_eq!(
        describe_signal(21, 20, 21, 22),
        "SIGSEGV (segmentation fault — likely invalid memory access)"
    );
    assert_eq!(describe_signal(22, 20, 21, 22), "SIGBUS (bus error)");
    assert_eq!(describe_signal(4, 20, 21, 22), "unknown signal");
}

#[test]
fn describe_signal_tries_sigill_first() {
    assert_eq!(
        describe_signal(3, 3, 3, 3),
        "SIGILL (illegal instruction — likely exhausted case branch)"
    );
    assert_eq!(
        describe_signal(3, 1, 3, 3),
        "SIGSEGV (segmentation fault — likely invalid memory access)"
    );
}

#[test]
fn signal_error_is_copy_and_compares_by_number() {
    let e = SignalError(11);
    let f = e;
    assert_eq!(e, f);
    assert_ne!(e, SignalError(4));
    assert_eq!(f.0, 11);
}

#[test]
fn jump_buffer_is_two_hundred_bytes_eight_aligned() {
    let _buf = SigJmpBuf::zeroed();
    assert_eq!(std::mem::size_of::<SigJmpBuf>(), 200);
    assert_eq!(std::mem::align_of::<SigJmpBuf>(), 8);
}

#[test]
fn first_setjmp_return_arms_and_runs() {
    let mut target = JumpTarget::Disarmed;
    assert_eq!(after_setjmp(&mut target, 0), ProtectStep::RunProtected);
    assert_eq!(target, JumpTarget::Armed);
}

#[test]
fn setjmp_return_from_handler_disarms_and_reports() {
    let mut target = JumpTarget::Armed;
    assert_eq!(
        after_setjmp(&mut target, libc::SIGSEGV),
        ProtectStep::Recovered(SignalError(libc::SIGSEGV))
    );
    assert_eq!(target, JumpTarget::Disarmed);
}

#[test]
fn normal_return_disarms_and_succeeds() {
    let mut target = JumpTarget::Armed;
    assert_eq!(finish_protected(&mut target, 42u64), Ok(42u64));
    assert_eq!(target, JumpTarget::Disarmed);
}

#[test]
fn fault_in_jit_context_jumps_back() {
    assert_eq!(on_fault(JumpTarget::Armed, 4), FaultAction::JumpBack(4));
}

#[test]
fn fault_outside_jit_context_is_raised_again() {
    assert_eq!(
        on_fault(JumpTarget::Disarmed, 11),
        FaultAction::RestoreDefaultAndRaise(11)
    );
}

#[test]
fn fault_during_protected_call_becomes_error() {
    // sigsetjmp returns 0, the call runs, SIGILL fires inside it.
    let mut target = JumpTarget::Disarmed;
    assert_eq!(after_setjmp(&mut target, 0), ProtectStep::RunProtected);
    let action = on_fault(target, libc::SIGILL);
    let val = match action {
        FaultAction::JumpBack(v) => v,
        FaultAction::RestoreDefaultAndRaise(_) => panic!("fault was not caught"),
    };
    // siglongjmp makes sigsetjmp return the signal number.
    let step = after_setjmp(&mut target, val);
    assert_eq!(step, ProtectStep::Recovered(SignalError(libc::SIGILL)));
    assert_eq!(target, JumpTarget::Disarmed);
    // A later fault outside any protected call is not swallowed.
    assert_eq!(
        on_fault(target, libc::SIGBUS),
        FaultAction::RestoreDefaultAndRaise(libc::SIGBUS)
    );
}

#[test]
fn first_install_asks_for_the_alternate_stack() {
    let mut state = InstallState::new();
    assert!(!state.is_installed());
    assert_eq!(
        install(&mut state),
        InstallStep::AllocateAltStack { size: 65536, align: 16 }
    );
    assert!(state.is_installed());
    assert_eq!(ALT_STACK_SIZE, 64 * 1024);
    assert_eq!(ALT_STACK_ALIGN, 16);
}

#[test]
fn install_is_idempotent() {
    let mut state = InstallState::new();
    let _ = install(&mut state);
    assert_eq!(install(&mut state), InstallStep::AlreadyInstalled);
    assert_eq!(install(&mut state), InstallStep::AlreadyInstalled);
    assert!(state.is_installed());
}

#[test]
fn failed_alt_stack_registers_nothing_and_is_not_retried() {
    let mut state = InstallState::new();
    let _ = install(&mut state);
    assert!(after_alt_stack(&mut state, false).is_none());
    assert!(!state.handlers_registered());
    assert_eq!(install(&mut state), InstallStep::AlreadyInstalled);
    assert!(!state.handlers_registered());
}

#[test]
fn allocated_alt_stack_registers_the_three_fault_signals() {
    let mut state = InstallState::new();
    let _ = install(&mut state);
    let setup = after_alt_stack(&mut state, true).expect("setup after allocation");
    assert!(state.handlers_registered());
    assert_eq!(setup.alt_stack_size, 65536);
    assert_eq!(setup.signals, vec![libc::SIGILL, libc::SIGSEGV, libc::SIGBUS]);
}

#[test]
fn handlers_take_siginfo_run_on_the_alt_stack_and_block_nothing() {
    let mut state = InstallState::new();
    let _ = install(&mut state);
    let setup = after_alt_stack(&mut state, true).expect("setup after allocation");
    assert!(setup.with_siginfo);
    assert!(setup.on_alt_stack);
    assert!(setup.blocked.is_empty());
    assert_eq!(setup.sa_flags(), libc::SA_SIGINFO | libc::SA_ONSTACK);
    assert_eq!(setup.sa_flags() & libc::SA_ONSTACK, libc::SA_ONSTACK);
    assert_eq!(setup.sa_flags() & libc::SA_SIGINFO, libc::SA_SIGINFO);
}

#[test]
fn sa_flags_combine_the_chosen_bits() {
    assert_eq!(combine_sa_flags(true, true, 0x4, 0x0800_0000), 0x0800_0004);
    assert_eq!(combine_sa_flags(true, false, 0x4, 0x0800_0000), 0x4);
    assert_eq!(combine_sa_flags(false, true, 0x4, 0x0800_0000), 0x0800_0000);
    assert_eq!(combine_sa_flags(false, false, 0x4, 0x0800_0000), 0);
}

#[test]
fn protected_call_in_fresh_process_installs_then_recovers() {
    // The protected call starts by installing the handlers.
    let mut state = InstallState::new();
    match install(&mut state) {
        InstallStep::AllocateAltStack { size, align } => {
            assert_eq!((size, align), (65536, 16));
        }
        InstallStep::AlreadyInstalled => panic!("fresh process was already installed"),
    }
    assert!(after_alt_stack(&mut state, true).is_some());
    assert!(state.handlers_registered());
    // Then it arms its jump target and runs; SIGSEGV fires inside.
    let mut target = JumpTarget::Disarmed;
    assert_eq!(after_setjmp(&mut target, 0), ProtectStep::RunProtected);
    let val = match on_fault(target, libc::SIGSEGV) {
        FaultAction::JumpBack(v) => v,
        FaultAction::RestoreDefaultAndRaise(_) => panic!("fault was not caught"),
    };
    assert_eq!(
        after_setjmp(&mut target, val),
        ProtectStep::Recovered(SignalError(libc::SIGSEGV))
    );
    assert_eq!(target, JumpTarget::Disarmed);
}
