//! Construction and destruction of a `Qt5List<u16>`.
use vstd::prelude::*;
use crate::qt5list::Qt5List;

verus! {

/// Constructs a copy of `v`.
pub fn clone(v: &Qt5List<u16>) -> (r: Qt5List<u16>)
    ensures
        r@ == v@,
{
    v.copy()
}

/// Constructs an empty list.
pub fn default() -> (r: Qt5List<u16>)
    ensures
        r@ == Seq::<u16>::empty(),
{
    Qt5List::new()
}

/// Destroys the list's contents.
pub fn drop(v: &mut Qt5List<u16>)
    ensures
        final(v)@ == Seq::<u16>::empty(),
{
    v.release();
}

} // verus!
