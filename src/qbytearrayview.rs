//! `QByteArrayView`: a borrowed, possibly null, view on an array of bytes.
use vstd::prelude::*;
use core::cmp::Ordering;
use crate::bytes::{bytes_equal, compare_bytes, lexicographic_cmp};
use crate::qbytearray::{bytes_of, QByteArray};

verus! {

/// The view that a slice gives: an empty slice gives the null view.
pub open spec fn view_of_slice(s: Seq<u8>) -> Option<Seq<u8>> {
    if s.len() == 0 {
        None
    } else {
        Some(s)
    }
}

/// A view on an array of bytes with a read-only subset of the `QByteArray` API.
///
/// The view borrows its bytes for `'a` and owns nothing.
#[derive(Clone, Copy)]
pub struct QByteArrayView<'a> {
    size: isize,
    data: Option<&'a [u8]>,
}

impl<'a> View for QByteArrayView<'a> {
    /// `None` for the null view, else the viewed bytes.
    type V = Option<Seq<u8>>;

    closed spec fn view(&self) -> Option<Seq<u8>> {
        match self.data {
            Some(s) => Some(s@),
            None => None,
        }
    }
}

impl<'a> QByteArrayView<'a> {
    #[verifier::type_invariant]
    closed spec fn size_matches(&self) -> bool {
        self.size == bytes_of(self@).len()
    }

    /// Constructs a null view.
    pub fn new() -> (r: Self)
        ensures
            r@ == None::<Seq<u8>>,
    {
        QByteArrayView { size: 0, data: None }
    }

    /// The viewed bytes, or `None` for the null view.
    pub fn data(&self) -> (r: Option<&'a [u8]>)
        ensures
            r is None <==> self@ is None,
            r matches Some(s) ==> self@ == Some(s@),
    {
        self.data
    }

    /// Borrows the view's data as a slice of u8; empty for the null view.
    pub fn as_slice(&self) -> (r: &'a [u8])
        ensures
            r@ == bytes_of(self@),
    {
        match self.data {
            Some(s) => s,
            None => &[],
        }
    }

    /// Constructs a view on `slice`; an empty slice gives the null view.
    pub fn from_slice(slice: &'a [u8]) -> (r: Self)
        requires
            slice@.len() <= isize::MAX,
        ensures
            r@ == view_of_slice(slice@),
    {
        if slice.len() == 0 {
            Self::new()
        } else {
            QByteArrayView { size: slice.len() as isize, data: Some(slice) }
        }
    }

    /// Constructs a view on the storage of `bytes`, without copying; a null
    /// array gives the null view.
    pub fn from_qbytearray(bytes: &'a QByteArray) -> (r: Self)
        ensures
            r@ == bytes@,
    {
        let size = bytes.len();
        QByteArrayView { size, data: bytes.storage() }
    }

    /// Returns a deep copy of the viewed bytes. The copy is null if and only
    /// if this view is null.
    pub fn to_qbytearray(&self) -> (r: QByteArray)
        ensures
            r@ == self@,
    {
        proof {
            use_type_invariant(self);
        }
        match self.data {
            Some(s) => QByteArray::from_slice(s),
            None => QByteArray::new(),
        }
    }

    /// Returns true if the view holds no bytes: `self.len() == 0`.
    pub fn is_empty(&self) -> (r: bool)
        ensures
            r == (bytes_of(self@).len() == 0),
    {
        proof {
            use_type_invariant(self);
        }
        self.size == 0
    }

    /// Returns true if this is the null view.
    pub fn is_null(&self) -> (r: bool)
        ensures
            r == (self@ is None),
    {
        self.data.is_none()
    }

    /// Returns the number of bytes in the view.
    pub fn len(&self) -> (r: isize)
        ensures
            r == bytes_of(self@).len(),
    {
        proof {
            use_type_invariant(self);
        }
        self.size
    }
}

impl<'a> Default for QByteArrayView<'a> {
    /// Constructs a null view.
    fn default() -> (r: Self)
        ensures
            r@ == None::<Seq<u8>>,
    {
        Self::new()
    }
}

impl<'a> PartialEq for QByteArrayView<'a> {
    /// Compares the viewed bytes: a null and an empty view are equal.
    fn eq(&self, other: &Self) -> (r: bool) {
        bytes_equal(self.as_slice(), other.as_slice())
    }
}

impl<'a> vstd::std_specs::cmp::PartialEqSpecImpl for QByteArrayView<'a> {
    open spec fn obeys_eq_spec() -> bool {
        true
    }

    open spec fn eq_spec(&self, other: &Self) -> bool {
        bytes_of(self@) == bytes_of(other@)
    }
}

impl<'a> Eq for QByteArrayView<'a> {}

impl<'a> PartialOrd for QByteArrayView<'a> {
    /// Orders the viewed bytes lexicographically, as unsigned values.
    fn partial_cmp(&self, other: &Self) -> (r: Option<Ordering>) {
        Some(compare_bytes(self.as_slice(), other.as_slice()))
    }
}

impl<'a> vstd::std_specs::cmp::PartialOrdSpecImpl for QByteArrayView<'a> {
    open spec fn obeys_partial_cmp_spec() -> bool {
        true
    }

    open spec fn partial_cmp_spec(&self, other: &Self) -> Option<Ordering> {
        Some(lexicographic_cmp(bytes_of(self@), bytes_of(other@)))
    }
}

/// Viewing a byte array and copying the view back gives an array equal to
/// the first, null exactly when it was: `a` is the array, `v` the view that
/// `from_qbytearray` gives of it, `b` the copy that `to_qbytearray` gives of `v`.
pub proof fn lemma_view_round_trip(a: QByteArray, v: QByteArrayView, b: QByteArray)
    requires
        v@ == a@,
        b@ == v@,
    ensures
        bytes_of(b@) == bytes_of(a@),
        b@ == a@,
{
}

/// A view of an empty slice is null and empty; a view of a non-empty slice
/// or of a non-empty array is never null.
pub proof fn lemma_null_and_empty(s: Seq<u8>, a: Option<Seq<u8>>)
    ensures
        s.len() == 0 ==> view_of_slice(s) is None && bytes_of(view_of_slice(s)).len() == 0,
        s.len() > 0 ==> view_of_slice(s) is Some,
        bytes_of(a).len() > 0 ==> a is Some,
{
}

} // verus!
