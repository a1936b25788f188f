//! Construction and destruction of a `Qt5List<bool>`.
use vstd::prelude::*;
use crate::qt5list::Qt5List;

verus! {

/// Constructs a copy of `v`.
pub fn clone(v: &Qt5List<bool>) -> (r: Qt5List<bool>)
    ensures
        r@ == v@,
{
    v.copy()
}

/// Constructs an empty list.
pub fn default() -> (r: Qt5List<bool>)
    ensures
        r@ == Seq::<bool>::empty(),
{
    Qt5List::new()
}

/// Destroys the list's contents.
pub fn drop(v: &mut Qt5List<bool>)
    ensures
        final(v)@ == Seq::<bool>::empty(),
{
    v.release();
}

} // verus!
