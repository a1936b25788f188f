//! Construction and destruction of a `Qt5List<u8>`.
use vstd::prelude::*;
use crate::qt5list::Qt5List;

verus! {

/// Constructs a copy of `v`.
pub fn clone(v: &Qt5List<u8>) -> (r: Qt5List<u8>)
    ensures
        r@ == v@,
{
    v.copy()
}

/// Constructs an empty list.
pub fn default() -> (r: Qt5List<u8>)
    ensures
        r@ == Seq::<u8>::empty(),
{
    Qt5List::new()
}

/// Destroys the list's contents.
pub fn drop(v: &mut Qt5List<u8>)
    ensures
        final(v)@ == Seq::<u8>::empty(),
{
    v.release();
}

} // verus!
