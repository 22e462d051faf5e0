//! The cell that records the base address of the per-CPU areas exactly
//! once. The cell is `spin::once::Once`; this module holds what the library
//! takes for granted of it.
use vstd::prelude::*;

verus! {

#[verifier::external_type_specification]
#[verifier::external_body]
#[verifier::reject_recursive_types(T)]
#[verifier::reject_recursive_types(R)]
pub struct ExOnce<T, R>(spin::once::Once<T, R>);

#[verifier::external_type_specification]
#[verifier::external_body]
pub struct ExSpin(spin::relax::Spin);

/// The value that the cell holds: `Some` once an initialization has run to
/// completion, `None` before.
pub uninterp spec fn once_value(cell: spin::once::Once<usize>) -> Option<usize>;

/// Whether an initialization of the cell panicked. Such a cell holds no
/// value and panics when it is asked to initialize again.
pub uninterp spec fn once_poisoned(cell: spin::once::Once<usize>) -> bool;

/// `spin::once::Once::new`: the new cell is in its initial state, in which
/// it holds no value and no initialization has panicked.
#[verifier::external_body]
pub(crate) fn once_new() -> (cell: spin::once::Once<usize>)
    ensures
        once_value(cell) is None,
        !once_poisoned(cell),
{
    spin::once::Once::new()
}

/// `spin::once::Once::get`: returns the value of a cell whose
/// initialization is complete, and `None` in every other state.
#[verifier::external_body]
pub(crate) fn once_get(cell: &spin::once::Once<usize>) -> (value: Option<usize>)
    ensures
        value == once_value(*cell),
{
    cell.get().copied()
}

/// `spin::once::Once::call_once` with a closure that returns `value`. A
/// cell that holds a value keeps it and the closure is not run; a cell that
/// holds none runs the closure and stores `value`. Either way the value
/// that the cell holds afterwards is returned. The exclusive borrow rules
/// out that another initialization is running; a poisoned cell, on which
/// the call panics, is left out.
#[verifier::external_body]
pub(crate) fn once_call_once(cell: &mut spin::once::Once<usize>, value: usize) -> (stored: usize)
    requires
        !once_poisoned(*old(cell)),
    ensures
        stored == match once_value(*old(cell)) {
            Some(earlier) => earlier,
            None => value,
        },
        once_value(*final(cell)) == Some(stored),
        !once_poisoned(*final(cell)),
{
    *cell.call_once(|| value)
}

} // verus!
