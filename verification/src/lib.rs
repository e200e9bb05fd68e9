//! Verified decision logic of a JIT runtime: recovery from faults in generated
//! code via `sigsetjmp`/`siglongjmp`, installation of the fault handlers, and
//! routing of effect requests through a heterogeneous list of handlers.

pub mod dispatch;
pub mod signal_safety;
