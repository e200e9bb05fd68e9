//! Faults raised by JIT-compiled code (SIGILL from a case trap, SIGSEGV from a
//! bad memory access, SIGBUS) are turned into a clean error instead of killing
//! the process.

use vstd::prelude::*;

verus! {

/// Storage for a `sigsetjmp` jump target. glibc's `sigjmp_buf` is
/// `struct __jmp_buf_tag[1]`: 200 bytes, 8-byte aligned on x86_64. It is kept
/// here as 25 eight-byte words, which gives both the size and the alignment,
/// so that `sigsetjmp`/`siglongjmp` (macros in glibc) can be reached directly.
pub struct SigJmpBuf {
    _buf: [u64; 25],
}

impl View for SigJmpBuf {
    type V = Seq<u64>;

    closed spec fn view(&self) -> Seq<u64> {
        self._buf@
    }
}

impl SigJmpBuf {
    /// A jump buffer with every byte zero, ready to be filled by `sigsetjmp`.
    pub fn zeroed() -> (buf: SigJmpBuf)
        ensures
            buf@.len() == 25,
            forall|i: int| 0 <= i < 25 ==> buf@[i] == 0,
    {
        SigJmpBuf { _buf: [0u64; 25] }
    }
}

/// Signal number that caused the jump back out of JIT code.
#[derive(Debug, Clone, Copy, PartialEq, Eq, Structural)]
pub struct SignalError(pub i32);

/// `libc::SIGILL`. Every target in the libc source defines it as 4.
#[verifier::external_body]
fn libc_sigill() -> (n: i32)
    ensures
        n == 4,
{
    libc::SIGILL
}

/// `libc::SIGSEGV`. Every target in the libc source defines it as 11.
#[verifier::external_body]
fn libc_sigsegv() -> (n: i32)
    ensures
        n == 11,
{
    libc::SIGSEGV
}

/// `libc::SIGBUS`. Its value depends on the target: the libc source defines it
/// as 7 (most Linux targets), 10 (BSDs, macOS, MIPS and SPARC Linux) or 30
/// (Haiku); which one this build has is not stated.
#[verifier::external_body]
fn libc_sigbus() -> (n: i32)
    ensures
        n == 7 || n == 10 || n == 30,
{
    libc::SIGBUS
}

/// The human-readable name of a fault signal, given the platform's numbers of
/// SIGILL, SIGSEGV and SIGBUS, tried in that order.
pub open spec fn signal_name(sig: i32, ill: i32, segv: i32, bus: i32) -> Seq<char> {
    if sig == ill {
        "SIGILL (illegal instruction — likely exhausted case branch)"@
    } else if sig == segv {
        "SIGSEGV (segmentation fault — likely invalid memory access)"@
    } else if sig == bus {
        "SIGBUS (bus error)"@
    } else {
        "unknown signal"@
    }
}

/// The text shown for a signal error.
pub open spec fn signal_text(sig: i32, ill: i32, segv: i32, bus: i32) -> Seq<char> {
    "JIT signal: "@ + signal_name(sig, ill, segv, bus)
}

/// Names `sig`, given the platform's numbers of SIGILL, SIGSEGV and SIGBUS.
pub fn describe_signal(sig: i32, ill: i32, segv: i32, bus: i32) -> (name: &'static str)
    ensures
        name@ == signal_name(sig, ill, segv, bus),
{
    if sig == ill {
        "SIGILL (illegal instruction — likely exhausted case branch)"
    } else if sig == segv {
        "SIGSEGV (segmentation fault — likely invalid memory access)"
    } else if sig == bus {
        "SIGBUS (bus error)"
    } else {
        "unknown signal"
    }
}

impl SignalError {
    /// The text of this error: `JIT signal: ` and the signal's name.
    pub fn to_string(&self) -> (text: String)
        ensures
            exists|bus: i32|
                (bus == 7 || bus == 10 || bus == 30) && text@ == #[trigger] signal_text(
                    self.0,
                    4,
                    11,
                    bus,
                ),
    {
        let ill = libc_sigill();
        let segv = libc_sigsegv();
        let bus = libc_sigbus();
        let name = describe_signal(self.0, ill, segv, bus);
        let text = String::from_str("JIT signal: ").concat(name);
        assert(text@ == signal_text(self.0, ill, segv, bus));
        text
    }
}

/// Whether the fault handler has a jump target to return to: the state of the
/// global jump-buffer pointer (null, or set to the buffer of the call that is
/// running under protection). Only one JIT execution runs at a time.
#[derive(Debug, Clone, Copy, PartialEq, Eq, Structural)]
pub enum JumpTarget {
    Disarmed,
    Armed,
}

/// What a protected call does after `sigsetjmp` returns.
#[derive(Debug, Clone, Copy, PartialEq, Eq, Structural)]
pub enum ProtectStep {
    /// `sigsetjmp` returned 0 (its first return): the jump target is set and
    /// the protected call runs.
    RunProtected,
    /// `sigsetjmp` returned through `siglongjmp` from the fault handler with the
    /// signal number: the call fails with that signal.
    Recovered(SignalError),
}

/// What the fault handler does with a signal.
#[derive(Debug, Clone, Copy, PartialEq, Eq, Structural)]
pub enum FaultAction {
    /// In JIT context: `siglongjmp` back to the protected call with the signal
    /// number as the value `sigsetjmp` returns.
    JumpBack(i32),
    /// Not in JIT context: restore the default disposition of the signal and
    /// raise it again.
    RestoreDefaultAndRaise(i32),
}

/// The jump target and step after `sigsetjmp` returns `val`.
pub open spec fn setjmp_transition(val: i32) -> (JumpTarget, ProtectStep) {
    if val != 0 {
        (JumpTarget::Disarmed, ProtectStep::Recovered(SignalError(val)))
    } else {
        (JumpTarget::Armed, ProtectStep::RunProtected)
    }
}

/// The fault handler's reaction to `sig` while the jump target is `target`.
pub open spec fn fault_action(target: JumpTarget, sig: i32) -> FaultAction {
    match target {
        JumpTarget::Armed => FaultAction::JumpBack(sig),
        JumpTarget::Disarmed => FaultAction::RestoreDefaultAndRaise(sig),
    }
}

/// Decides what a protected call does once `sigsetjmp` has returned `val`: a
/// nonzero value means a fault handler jumped back, so the jump target is
/// cleared and the signal is reported; zero means the call is about to run,
/// so the jump target is set.
pub fn after_setjmp(target: &mut JumpTarget, val: i32) -> (step: ProtectStep)
    ensures
        (*final(target), step) == setjmp_transition(val),
{
    if val != 0 {
        *target = JumpTarget::Disarmed;
        ProtectStep::Recovered(SignalError(val))
    } else {
        *target = JumpTarget::Armed;
        ProtectStep::RunProtected
    }
}

/// Ends a protected call that returned normally: the jump target is cleared
/// and the call's result is handed back as a success.
pub fn finish_protected<R>(target: &mut JumpTarget, result: R) -> (out: Result<R, SignalError>)
    ensures
        *final(target) == JumpTarget::Disarmed,
        out == Ok::<R, SignalError>(result),
{
    *target = JumpTarget::Disarmed;
    Ok(result)
}

/// Decides what the fault handler does with `sig`: jump back into the
/// protected call when one is running, otherwise fall back to the default
/// behaviour of the signal.
pub fn on_fault(target: JumpTarget, sig: i32) -> (action: FaultAction)
    ensures
        action == fault_action(target, sig),
{
    match target {
        JumpTarget::Armed => FaultAction::JumpBack(sig),
        JumpTarget::Disarmed => FaultAction::RestoreDefaultAndRaise(sig),
    }
}

/// `b` is a single set bit of a flag word.
pub open spec fn single_bit(b: i32) -> bool {
    b > 0 && b & ((b - 1) as i32) == 0
}

/// `libc::SA_SIGINFO` (the handler receives a `siginfo_t`) and
/// `libc::SA_ONSTACK` (the handler runs on the alternate signal stack), the
/// two `sigaction` flags the handlers are registered with. Their bits differ
/// between targets; on every target of the libc source that defines both,
/// each is a single bit and the two bits differ.
#[verifier::external_body]
fn libc_sa_bits() -> (bits: (i32, i32))
    ensures
        single_bit(bits.0),
        single_bit(bits.1),
        bits.0 & bits.1 == 0,
{
    (libc::SA_SIGINFO, libc::SA_ONSTACK)
}

/// Size in bytes of the alternate signal stack, so the handler works even
/// when a fault comes from a stack overflow.
pub const ALT_STACK_SIZE: usize = 64 * 1024;

/// Alignment in bytes of the alternate signal stack.
pub const ALT_STACK_ALIGN: usize = 16;

/// Installation state of the fault handlers in this process: whether
/// installation has been attempted, and whether it got as far as handing out
/// the handler registration (the alternate stack was allocated).
pub struct InstallState {
    installed: bool,
    registered: bool,
}

impl View for InstallState {
    /// (attempted, handlers registered)
    type V = (bool, bool);

    closed spec fn view(&self) -> (bool, bool) {
        (self.installed, self.registered)
    }
}

impl InstallState {
    /// The state of a process in which nothing has been installed yet.
    pub fn new() -> (state: InstallState)
        ensures
            state@ == (false, false),
    {
        InstallState { installed: false, registered: false }
    }

    /// Whether installation has already been done or attempted.
    pub fn is_installed(&self) -> (b: bool)
        ensures
            b == self@.0,
    {
        self.installed
    }

    /// Whether the fault handlers have been registered.
    pub fn handlers_registered(&self) -> (b: bool)
        ensures
            b == self@.1,
    {
        self.registered
    }
}

/// What a call of [`install`] asks its caller to do.
#[derive(Debug, Clone, Copy, PartialEq, Eq, Structural)]
pub enum InstallStep {
    /// Installation was already done or attempted: nothing to do.
    AlreadyInstalled,
    /// Allocate the alternate signal stack with this size and alignment, then
    /// report the outcome to [`after_alt_stack`].
    AllocateAltStack { size: usize, align: usize },
}

/// The attempted flag and the step after one call of [`install`] on a process
/// whose flag is `installed`.
pub open spec fn install_transition(installed: bool) -> (bool, InstallStep) {
    if installed {
        (true, InstallStep::AlreadyInstalled)
    } else {
        (true, InstallStep::AllocateAltStack { size: ALT_STACK_SIZE, align: ALT_STACK_ALIGN })
    }
}

/// Starts installing the handlers for SIGILL, SIGSEGV and SIGBUS on an
/// alternate stack. The flag is set before anything else is done, so the
/// installation is attempted at most once per process: later calls do nothing.
pub fn install(state: &mut InstallState) -> (step: InstallStep)
    ensures
        (final(state)@.0, step) == install_transition(old(state)@.0),
        final(state)@.1 == old(state)@.1,
{
    let was_installed = state.installed;
    state.installed = true;
    if was_installed {
        InstallStep::AlreadyInstalled
    } else {
        InstallStep::AllocateAltStack { size: ALT_STACK_SIZE, align: ALT_STACK_ALIGN }
    }
}

/// How the fault handlers are to be registered once the alternate stack
/// exists.
pub struct HandlerSetup {
    /// Size of the alternate stack to hand to `sigaltstack`.
    pub alt_stack_size: usize,
    /// The signals to catch, in the order they are registered.
    pub signals: Vec<i32>,
    /// The handler takes the three-argument form and receives a `siginfo_t`
    /// (`SA_SIGINFO`).
    pub with_siginfo: bool,
    /// The handler runs on the alternate stack (`SA_ONSTACK`), so it works
    /// even when the fault is a stack overflow.
    pub on_alt_stack: bool,
    /// The signals blocked while the handler runs, besides the one it handles
    /// (the handler's `sa_mask`).
    pub blocked: Vec<i32>,
}

/// The signals caught in JIT code, in the order they are registered: the
/// platform's SIGILL (4), SIGSEGV (11) and SIGBUS (`bus`).
pub open spec fn fault_signals(bus: i32) -> Seq<i32> {
    seq![4i32, 11i32, bus]
}

/// Decides how installation goes on once the alternate stack has been
/// requested: if the allocation failed nothing is registered (and, the flag
/// being set already, never retried); otherwise the alternate stack and the
/// handlers for SIGILL, SIGSEGV and SIGBUS are registered, each taking a
/// `siginfo_t`, running on the alternate stack, with an empty mask.
pub fn after_alt_stack(state: &mut InstallState, allocated: bool) -> (setup: Option<HandlerSetup>)
    requires
        old(state)@.0,
    ensures
        setup is Some <==> allocated,
        final(state)@ == (old(state)@.0, old(state)@.1 || allocated),
        setup matches Some(s) ==> {
            &&& s.alt_stack_size == ALT_STACK_SIZE
            &&& s.with_siginfo
            &&& s.on_alt_stack
            &&& s.blocked@.len() == 0
            &&& exists|bus: i32|
                (bus == 7 || bus == 10 || bus == 30) && s.signals@ == #[trigger] fault_signals(bus)
        },
{
    if !allocated {
        return None;
    }
    state.registered = true;
    let mut signals: Vec<i32> = Vec::new();
    signals.push(libc_sigill());
    signals.push(libc_sigsegv());
    let bus = libc_sigbus();
    signals.push(bus);
    assert(signals@ == fault_signals(bus));
    Some(
        HandlerSetup {
            alt_stack_size: ALT_STACK_SIZE,
            signals,
            with_siginfo: true,
            on_alt_stack: true,
            blocked: Vec::new(),
        },
    )
}

/// The `sa_flags` word for a handler, given the platform's `SA_SIGINFO` and
/// `SA_ONSTACK` bits.
pub open spec fn flag_word(with_siginfo: bool, on_alt_stack: bool, siginfo_bit: i32, onstack_bit: i32) -> i32 {
    (if with_siginfo { siginfo_bit } else { 0i32 }) | (if on_alt_stack { onstack_bit } else { 0i32 })
}

/// Builds the `sa_flags` word from the chosen options and the platform's
/// `SA_SIGINFO` and `SA_ONSTACK` bits.
pub fn combine_sa_flags(with_siginfo: bool, on_alt_stack: bool, siginfo_bit: i32, onstack_bit: i32) -> (flags: i32)
    ensures
        flags == flag_word(with_siginfo, on_alt_stack, siginfo_bit, onstack_bit),
{
    let a: i32 = if with_siginfo { siginfo_bit } else { 0 };
    let b: i32 = if on_alt_stack { onstack_bit } else { 0 };
    a | b
}

/// Whatever positions the platform gives the `SA_SIGINFO` bit `s` and the
/// `SA_ONSTACK` bit `o` (single, distinct bits), the flag word holds `o`
/// exactly when the handler is to run on the alternate stack, holds `s`
/// exactly when it is to receive a `siginfo_t`, and holds no other bit.
pub proof fn lemma_flag_word_holds_exactly_the_chosen_bits(
    with_siginfo: bool,
    on_alt_stack: bool,
    s: i32,
    o: i32,
)
    requires
        single_bit(s),
        single_bit(o),
        s & o == 0,
    ensures
        flag_word(with_siginfo, on_alt_stack, s, o) & o == (if on_alt_stack { o } else { 0i32 }),
        flag_word(with_siginfo, on_alt_stack, s, o) & s == (if with_siginfo { s } else { 0i32 }),
        flag_word(with_siginfo, on_alt_stack, s, o) & !(s | o) == 0,
{
    let w = flag_word(with_siginfo, on_alt_stack, s, o);
    let x: i32 = if with_siginfo { s } else { 0i32 };
    let y: i32 = if on_alt_stack { o } else { 0i32 };
    assert(w == x | y);
    assert((x == s || x == 0) && (y == o || y == 0));
    assert((s | o) & o == o && (s | o) & s == s && (s | o) & !(s | o) == 0) by (bit_vector);
    assert(s & o == 0 ==> (s | 0i32) & o == 0 && (s | 0i32) & s == s && (s | 0i32) & !(s | o) == 0)
        by (bit_vector);
    assert(s & o == 0 ==> (0i32 | o) & s == 0 && (0i32 | o) & o == o && (0i32 | o) & !(s | o) == 0)
        by (bit_vector);
    assert((0i32 | 0i32) & o == 0 && (0i32 | 0i32) & s == 0 && (0i32 | 0i32) & !(s | o) == 0)
        by (bit_vector);
}

impl HandlerSetup {
    /// The `sa_flags` word with which the handlers are registered: the
    /// platform's `SA_SIGINFO` bit if `with_siginfo`, and its `SA_ONSTACK` bit
    /// if `on_alt_stack`.
    pub fn sa_flags(&self) -> (flags: i32)
        ensures
            exists|siginfo_bit: i32, onstack_bit: i32|
                {
                    &&& single_bit(siginfo_bit)
                    &&& single_bit(onstack_bit)
                    &&& siginfo_bit & onstack_bit == 0
                    &&& flags == #[trigger] flag_word(
                        self.with_siginfo,
                        self.on_alt_stack,
                        siginfo_bit,
                        onstack_bit,
                    )
                },
    {
        let bits = libc_sa_bits();
        combine_sa_flags(self.with_siginfo, self.on_alt_stack, bits.0, bits.1)
    }
}

/// Installation is idempotent: whatever state a process is in, once
/// [`install`] has been called a further call does nothing and leaves the
/// state as it is.
pub proof fn lemma_install_idempotent(installed: bool)
    ensures
        install_transition(install_transition(installed).0) == (true, InstallStep::AlreadyInstalled),
{
}

/// Whether the fault handlers are registered once a protected call has started,
/// given the installation state `before` it and whether the alternate stack
/// allocation succeeds if the call's [`install`] asks for it: the call installs
/// first, then arms its jump target.
pub open spec fn handlers_after_start(before: (bool, bool), allocated: bool) -> bool {
    match install_transition(before.0).1 {
        InstallStep::AlreadyInstalled => before.1,
        InstallStep::AllocateAltStack { .. } => before.1 || allocated,
    }
}

/// The end state and result of one protected call whose handlers are
/// registered (`handlers`) or not, composed from the steps above: `sigsetjmp`
/// first returns 0; then either the call returns normally (`fault` is `None`),
/// or `fault` is raised during it. Without handlers the signal's default
/// action ends the process; with them the handler acts, and a jump back makes
/// `sigsetjmp` return the value handed to `siglongjmp`. `None` stands for a
/// process that the signal ends.
pub open spec fn protected_outcome(handlers: bool, fault: Option<i32>) -> Option<(JumpTarget, Result<(), SignalError>)> {
    let (target, first) = setjmp_transition(0);
    match fault {
        None => Some((JumpTarget::Disarmed, Ok(()))),
        Some(sig) => if !handlers {
            None
        } else {
            match fault_action(target, sig) {
                FaultAction::JumpBack(v) => {
                    let (after, step) = setjmp_transition(if v == 0 { 1 } else { v });
                    match step {
                        ProtectStep::Recovered(e) => Some((after, Err(e))),
                        ProtectStep::RunProtected => Some((after, Ok(()))),
                    }
                },
                FaultAction::RestoreDefaultAndRaise(_) => None,
            }
        },
    }
}

/// A protected call in which SIGILL, SIGSEGV, SIGBUS (or any other signal sent
/// to the handler) fires fails with `SignalError` carrying that signal instead
/// of ending the process, also when the handlers were never installed before
/// the call (its own installation step registers them, provided the alternate
/// stack can be allocated); a call without a fault succeeds. Either way the
/// jump target is cleared afterwards.
pub proof fn lemma_protected_call_recovers(before: (bool, bool), allocated: bool, sig: i32)
    requires
        sig != 0,
        before.1 ==> before.0,
        before.0 ==> before.1,
        !before.0 ==> allocated,
    ensures
        handlers_after_start(before, allocated),
        protected_outcome(handlers_after_start(before, allocated), Some(sig)) == Some(
            (JumpTarget::Disarmed, Err::<(), SignalError>(SignalError(sig))),
        ),
        protected_outcome(handlers_after_start(before, allocated), None) == Some(
            (JumpTarget::Disarmed, Ok::<(), SignalError>(())),
        ),
{
}

/// A fault outside any protected call is not swallowed: the handler restores
/// the default disposition and raises the signal again.
pub proof fn lemma_fault_outside_protection_is_raised(sig: i32)
    ensures
        fault_action(JumpTarget::Disarmed, sig) == FaultAction::RestoreDefaultAndRaise(sig),
{
}

} // verus!
