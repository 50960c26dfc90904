//! What this library believes of `vcell::VolatileCell`.
//!
//! A volatile cell stands for memory that something else may change between
//! any two accesses, so nothing is claimed about the value that a load
//! returns, and a store leaves nothing behind that a contract could speak of.

use vcell::VolatileCell;
use vstd::prelude::*;

verus! {

/// `vcell::VolatileCell<T>`: a cell whose loads and stores are volatile. Its
/// contents are not modelled.
#[verifier::external_type_specification]
#[verifier::external_body]
#[verifier::reject_recursive_types(T)]
pub struct ExVolatileCell<T>(VolatileCell<T>);

/// `VolatileCell::new` makes a cell around `value`. Nothing is claimed of the
/// cell.
pub assume_specification<T>[ VolatileCell::<T>::new ](value: T) -> (cell: VolatileCell<T>);

/// `VolatileCell::get` performs one volatile load. Nothing is claimed of the
/// value: the cell may sit on a register that the hardware changes.
pub assume_specification<T>[ VolatileCell::<T>::get ](cell: &VolatileCell<T>) -> (value: T)
    where T: Copy;

/// `VolatileCell::set` performs one volatile store of `value`.
pub assume_specification<T>[ VolatileCell::<T>::set ](cell: &VolatileCell<T>, value: T)
    where T: Copy;

} // verus!
