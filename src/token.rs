use vstd::prelude::*;

use qcell::{TCell, TCellOwner, TLCell, TLCellOwner};

verus! {

// The owner-token primitive. Its owners are singletons per marker type (per
// process for `TCellOwner`, per thread for `TLCellOwner`), and a cell's
// contents are reached only through `ro` with a shared owner or `rw` with an
// exclusive one.
#[verifier::external_type_specification]
#[verifier::external_body]
#[verifier::reject_recursive_types(Q)]
pub struct ExTCellOwner<Q: 'static>(TCellOwner<Q>);

#[verifier::external_type_specification]
#[verifier::external_body]
#[verifier::reject_recursive_types(Q)]
pub struct ExTLCellOwner<Q: 'static>(TLCellOwner<Q>);

#[verifier::external_type_specification]
#[verifier::external_body]
#[verifier::reject_recursive_types(Q)]
#[verifier::reject_recursive_types(T)]
pub struct ExTCell<Q, T: ?Sized>(TCell<Q, T>);

#[verifier::external_type_specification]
#[verifier::external_body]
#[verifier::reject_recursive_types(Q)]
#[verifier::reject_recursive_types(T)]
pub struct ExTLCell<Q, T: ?Sized>(TLCell<Q, T>);

/// Relies on qcell::TCellOwner::try_new: the process-wide owner for `Q`, or
/// `None` while another one is live. Which of the two depends on the process
/// state, so nothing is stated.
#[verifier::external_body]
pub(crate) fn t_owner_try_new<Q: 'static>() -> Option<TCellOwner<Q>> {
    TCellOwner::try_new()
}

/// Relies on qcell::TLCellOwner::try_new: this thread's owner for `Q`, or
/// `None` while another one is live in this thread.
#[verifier::external_body]
pub(crate) fn tl_owner_try_new<Q: 'static>() -> Option<TLCellOwner<Q>> {
    TLCellOwner::try_new()
}

/// Relies on qcell::TCell::new: a cell holding `value`, keyed by `Q`.
#[verifier::external_body]
pub(crate) fn t_cell_new<Q, T>(value: T) -> TCell<Q, T> {
    TCell::new(value)
}

/// Relies on qcell::TLCell::new: a cell holding `value`, keyed by `Q`.
#[verifier::external_body]
pub(crate) fn tl_cell_new<Q, T>(value: T) -> TLCell<Q, T> {
    TLCell::new(value)
}

/// Relies on qcell::TCell::ro: shared access to the contents through a shared owner.
#[verifier::external_body]
pub(crate) fn t_cell_ro<'a, Q, T>(cell: &'a TCell<Q, T>, owner: &'a TCellOwner<Q>) -> &'a T {
    cell.ro(owner)
}

/// Relies on qcell::TLCell::ro: shared access to the contents through a shared owner.
#[verifier::external_body]
pub(crate) fn tl_cell_ro<'a, Q, T>(cell: &'a TLCell<Q, T>, owner: &'a TLCellOwner<Q>) -> &'a T {
    cell.ro(owner)
}

/// Relies on qcell::TCell::rw: exclusive access to the contents through an
/// exclusive owner; the cell itself is only shared. It does not panic: it
/// only hands out the reference.
#[verifier::external_body]
pub(crate) fn t_cell_rw<'a, Q, T>(cell: &'a TCell<Q, T>, owner: &'a mut TCellOwner<Q>) -> &'a mut T
    no_unwind
{
    cell.rw(owner)
}

/// Relies on qcell::TLCell::rw: exclusive access to the contents through an
/// exclusive owner; the cell itself is only shared. It does not panic: it
/// only hands out the reference.
#[verifier::external_body]
pub(crate) fn tl_cell_rw<'a, Q, T>(cell: &'a TLCell<Q, T>, owner: &'a mut TLCellOwner<Q>) -> &'a mut T
    no_unwind
{
    cell.rw(owner)
}

} // verus!
