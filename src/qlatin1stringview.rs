//! `QLatin1StringView`: a borrowed, possibly null, Latin-1 string.
use vstd::prelude::*;
use core::cmp::Ordering;
use crate::bytes::{bytes_equal, compare_bytes, lexicographic_cmp};
use crate::qbytearray::{bytes_of, QByteArray};
use crate::qbytearrayview::{view_of_slice, QByteArrayView};

verus! {

/// A thin view on a US-ASCII/Latin-1 encoded string. Nothing checks that the
/// bytes are valid Latin-1.
///
/// The view borrows its bytes for `'a` and owns nothing.
#[derive(Clone, Copy)]
pub struct QLatin1StringView<'a> {
    size: isize,
    data: Option<&'a [u8]>,
}

impl<'a> View for QLatin1StringView<'a> {
    /// `None` for the null view, else the viewed bytes.
    type V = Option<Seq<u8>>;

    closed spec fn view(&self) -> Option<Seq<u8>> {
        match self.data {
            Some(s) => Some(s@),
            None => None,
        }
    }
}

impl<'a> QLatin1StringView<'a> {
    #[verifier::type_invariant]
    closed spec fn size_matches(&self) -> bool {
        self.size == bytes_of(self@).len()
    }

    /// Constructs a null view.
    pub fn new() -> (r: Self)
        ensures
            r@ == None::<Seq<u8>>,
    {
        QLatin1StringView { size: 0, data: None }
    }

    /// The viewed bytes, or `None` for the null view.
    pub fn data(&self) -> (r: Option<&'a [u8]>)
        ensures
            r is None <==> self@ is None,
            r matches Some(s) ==> self@ == Some(s@),
    {
        self.data
    }

    /// Borrows the view's data as a slice of u8; empty for the null view.
    pub fn as_slice(&self) -> (r: &'a [u8])
        ensures
            r@ == bytes_of(self@),
    {
        match self.data {
            Some(s) => s,
            None => &[],
        }
    }

    /// Constructs a view on `slice`; an empty slice gives the null view.
    pub fn from_slice(slice: &'a [u8]) -> (r: Self)
        requires
            slice@.len() <= isize::MAX,
        ensures
            r@ == view_of_slice(slice@),
    {
        if slice.len() == 0 {
            Self::new()
        } else {
            QLatin1StringView { size: slice.len() as isize, data: Some(slice) }
        }
    }

    /// Constructs a view on the storage of `bytes`, without copying; a null
    /// array gives the null view.
    pub fn from_qbytearray(bytes: &'a QByteArray) -> (r: Self)
        ensures
            r@ == bytes@,
    {
        let size = bytes.len();
        QLatin1StringView { size, data: bytes.storage() }
    }

    /// Constructs a view on the bytes of a byte array view; an empty one
    /// gives the null view.
    pub fn from_qbytearrayview(value: &QByteArrayView<'a>) -> (r: Self)
        ensures
            r@ == view_of_slice(bytes_of(value@)),
    {
        // The length is known to fit in `isize`.
        let _len = value.len();
        Self::from_slice(value.as_slice())
    }

    /// Returns true if the view holds no bytes: `self.len() == 0`.
    pub fn is_empty(&self) -> (r: bool)
        ensures
            r == (bytes_of(self@).len() == 0),
    {
        proof {
            use_type_invariant(self);
        }
        self.size == 0
    }

    /// Returns true if this is the null view.
    pub fn is_null(&self) -> (r: bool)
        ensures
            r == (self@ is None),
    {
        self.data.is_none()
    }

    /// Returns the number of bytes in the view.
    pub fn len(&self) -> (r: isize)
        ensures
            r == bytes_of(self@).len(),
    {
        proof {
            use_type_invariant(self);
        }
        self.size
    }
}

impl<'a> Default for QLatin1StringView<'a> {
    /// Constructs a null view.
    fn default() -> (r: Self)
        ensures
            r@ == None::<Seq<u8>>,
    {
        Self::new()
    }
}

impl<'a> PartialEq for QLatin1StringView<'a> {
    /// Compares the strings byte by byte: a null and an empty view are equal.
    fn eq(&self, other: &Self) -> (r: bool) {
        bytes_equal(self.as_slice(), other.as_slice())
    }
}

impl<'a> vstd::std_specs::cmp::PartialEqSpecImpl for QLatin1StringView<'a> {
    open spec fn obeys_eq_spec() -> bool {
        true
    }

    open spec fn eq_spec(&self, other: &Self) -> bool {
        bytes_of(self@) == bytes_of(other@)
    }
}

impl<'a> Eq for QLatin1StringView<'a> {}

impl<'a> PartialOrd for QLatin1StringView<'a> {
    /// Orders the strings lexicographically by Latin-1 code, case-sensitively.
    fn partial_cmp(&self, other: &Self) -> (r: Option<Ordering>) {
        Some(compare_bytes(self.as_slice(), other.as_slice()))
    }
}

impl<'a> vstd::std_specs::cmp::PartialOrdSpecImpl for QLatin1StringView<'a> {
    open spec fn obeys_partial_cmp_spec() -> bool {
        true
    }

    open spec fn partial_cmp_spec(&self, other: &Self) -> Option<Ordering> {
        Some(lexicographic_cmp(bytes_of(self@), bytes_of(other@)))
    }
}

} // verus!
