//! `QByteArray`: an owning, possibly null, array of bytes.
use vstd::prelude::*;
use crate::bytes::{bytes_equal, copy_bytes};

verus! {

/// An owning array of bytes. A null array holds no storage at all; an empty
/// one holds storage of length zero. Both have length zero.
pub struct QByteArray {
    bytes: Option<Vec<u8>>,
}

/// The bytes of a possibly null sequence: none for null.
pub open spec fn bytes_of(v: Option<Seq<u8>>) -> Seq<u8> {
    match v {
        Some(s) => s,
        None => Seq::empty(),
    }
}

impl View for QByteArray {
    /// `None` for the null array, else its bytes.
    type V = Option<Seq<u8>>;

    closed spec fn view(&self) -> Option<Seq<u8>> {
        match self.bytes {
            Some(v) => Some(v@),
            None => None,
        }
    }
}

impl QByteArray {
    #[verifier::type_invariant]
    closed spec fn fits(&self) -> bool {
        bytes_of(self@).len() <= isize::MAX
    }

    /// Constructs a null byte array.
    pub fn new() -> (r: QByteArray)
        ensures
            r@ == None::<Seq<u8>>,
    {
        QByteArray { bytes: None }
    }

    /// Constructs a non-null byte array holding a copy of `slice`.
    pub fn from_slice(slice: &[u8]) -> (r: QByteArray)
        requires
            slice@.len() <= isize::MAX,
        ensures
            r@ == Some(slice@),
    {
        QByteArray { bytes: Some(copy_bytes(slice)) }
    }

    /// Borrows the array's bytes; empty for the null array.
    pub fn as_slice(&self) -> (r: &[u8])
        ensures
            r@ == bytes_of(self@),
    {
        match &self.bytes {
            Some(v) => v.as_slice(),
            None => &[],
        }
    }

    /// Borrows the array's storage, or `None` for the null array.
    pub fn storage(&self) -> (r: Option<&[u8]>)
        ensures
            r matches Some(s) ==> self@ == Some(s@),
            r is None <==> self@ is None,
    {
        match &self.bytes {
            Some(v) => Some(v.as_slice()),
            None => None,
        }
    }

    /// Returns the number of bytes.
    pub fn len(&self) -> (r: isize)
        ensures
            r == bytes_of(self@).len(),
    {
        proof {
            use_type_invariant(self);
        }
        match &self.bytes {
            Some(v) => v.len() as isize,
            None => 0,
        }
    }

    /// Returns true if the array holds no bytes.
    pub fn is_empty(&self) -> (r: bool)
        ensures
            r == (bytes_of(self@).len() == 0),
    {
        match &self.bytes {
            Some(v) => v.len() == 0,
            None => true,
        }
    }

    /// Returns true if this is the null array.
    pub fn is_null(&self) -> (r: bool)
        ensures
            r == (self@ is None),
    {
        self.bytes.is_none()
    }

    /// Removes all bytes. The array stays non-null if it was.
    pub fn clear(&mut self)
        ensures
            final(self)@ == (match old(self)@ {
                Some(_) => Some(Seq::<u8>::empty()),
                None => None,
            }),
    {
        if self.bytes.is_some() {
            self.bytes = Some(Vec::new());
        }
    }
}

impl Default for QByteArray {
    /// Constructs a null byte array.
    fn default() -> (r: QByteArray)
        ensures
            r@ == None::<Seq<u8>>,
    {
        QByteArray::new()
    }
}

impl Clone for QByteArray {
    /// A deep copy: null stays null.
    fn clone(&self) -> (r: QByteArray)
        ensures
            r@ == self@,
    {
        proof {
            use_type_invariant(self);
        }
        match &self.bytes {
            Some(v) => QByteArray { bytes: Some(copy_bytes(v.as_slice())) },
            None => QByteArray { bytes: None },
        }
    }
}

impl PartialEq for QByteArray {
    /// Compares the bytes: a null and an empty array are equal.
    fn eq(&self, other: &QByteArray) -> (r: bool) {
        bytes_equal(self.as_slice(), other.as_slice())
    }
}

impl vstd::std_specs::cmp::PartialEqSpecImpl for QByteArray {
    open spec fn obeys_eq_spec() -> bool {
        true
    }

    open spec fn eq_spec(&self, other: &QByteArray) -> bool {
        bytes_of(self@) == bytes_of(other@)
    }
}

impl Eq for QByteArray {}

} // verus!
