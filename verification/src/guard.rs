//! The scope in which the calling context cannot be preempted. The guard is
//! `kernel_guard::NoPreempt`; the library takes it before it computes the
//! address of a variable on the current CPU and holds it until the access
//! is done.
use vstd::prelude::*;

verus! {

#[verifier::external_type_specification]
#[verifier::external_body]
pub struct ExNoPreempt(kernel_guard::NoPreempt);

/// `kernel_guard::NoPreempt::new`: disables preemption and returns the
/// guard that enables it again when it is dropped. Nothing is claimed of
/// the guard.
#[verifier::external_body]
pub(crate) fn no_preempt() -> (guard: kernel_guard::NoPreempt) {
    kernel_guard::NoPreempt::new()
}

} // verus!
