//! `QUuid`: a universally unique identifier with the binary layout of Qt's,
//! four fields that RFC 4122 lays out big-endian.
use vstd::prelude::*;

verus! {

/// The value in the variant field of a UUID.
#[derive(Clone, Copy, Debug, PartialEq, Eq, Structural)]
pub enum QUuidVariant {
    /// Variant is unknown
    VarUnknown,
    /// Reserved for NCS (Network Computing System) backward compatibility
    NCS,
    /// Distributed Computing Environment, the scheme used by QUuid
    DCE,
    /// Reserved for Microsoft backward compatibility (GUID)
    Microsoft,
    /// Reserved for future definition
    Reserved,
}

/// The value in the version field of a UUID.
#[derive(Clone, Copy, Debug, PartialEq, Eq, Structural)]
pub enum QUuidVersion {
    /// Version is unknown
    VerUnknown,
    /// Time-based, by using timestamp, clock sequence, and MAC network card address (if
    /// available) for the node sections
    Time,
    /// DCE Security version, with embedded POSIX UUIDs
    EmbeddedPOSIX,
    /// Name-based, by using values from a name for all sections
    Md5,
    /// Random-based, by using random numbers for all sections
    Random,
    /// Name-based, by using SHA-1 of a name for all sections
    Sha1,
}

/// A UUID as its four fields: `data1`, `data2`, `data3` and the eight bytes of `data4`.
pub type UuidFields = (u32, u16, u16, Seq<u8>);

/// A universally unique identifier.
#[derive(Clone, Copy, Debug, PartialEq, Eq, Hash)]
pub struct QUuid {
    data1: u32,
    data2: u16,
    data3: u16,
    data4: [u8; 8],
}

impl View for QUuid {
    type V = UuidFields;

    closed spec fn view(&self) -> UuidFields {
        (self.data1, self.data2, self.data3, self.data4@)
    }
}

/// The fields of an optional UUID.
pub open spec fn opt_fields(u: Option<QUuid>) -> Option<UuidFields> {
    match u {
        Some(u) => Some(u@),
        None => None,
    }
}

/// Whether `u` is the null UUID `{00000000-0000-0000-0000-000000000000}`.
pub open spec fn is_null_fields(u: UuidFields) -> bool {
    u.0 == 0 && u.1 == 0 && u.2 == 0 && u.3 == Seq::new(8, |i: int| 0u8)
}

/// The variant of `u`, read from the three most significant bits of `data4[0]`.
pub open spec fn variant_of(u: UuidFields) -> QUuidVariant {
    let b = u.3[0];
    if is_null_fields(u) {
        QUuidVariant::VarUnknown
    } else if b & 0x80 == 0 {
        QUuidVariant::NCS
    } else if b & 0xC0 == 0x80 {
        QUuidVariant::DCE
    } else if b & 0xE0 == 0xC0 {
        QUuidVariant::Microsoft
    } else {
        QUuidVariant::Reserved
    }
}

/// The version of `u`, read from the four most significant bits of `data3`;
/// only a DCE UUID has one.
pub open spec fn version_of(u: UuidFields) -> QUuidVersion {
    let v = u.2 >> 12;
    if is_null_fields(u) || variant_of(u) != QUuidVariant::DCE {
        QUuidVersion::VerUnknown
    } else if v == 1 {
        QUuidVersion::Time
    } else if v == 2 {
        QUuidVersion::EmbeddedPOSIX
    } else if v == 3 {
        QUuidVersion::Md5
    } else if v == 4 {
        QUuidVersion::Random
    } else if v == 5 {
        QUuidVersion::Sha1
    } else {
        QUuidVersion::VerUnknown
    }
}

/// The name-based UUID (version 3) of `name` in `namespace`, from its MD5 digest.
pub uninterp spec fn md5_name_uuid(namespace: UuidFields, name: Seq<u8>) -> UuidFields;

/// The name-based UUID (version 5) of `name` in `namespace`, from its SHA-1 digest.
pub uninterp spec fn sha1_name_uuid(namespace: UuidFields, name: Seq<u8>) -> UuidFields;

/// The UUID that the text `s` spells, if it spells one.
pub uninterp spec fn parsed_uuid(s: Seq<char>) -> Option<UuidFields>;

/// Relies on `uuid::Uuid::new_v3`: the MD5 name-based UUID, a function of
/// its arguments alone, with the RFC 4122 variant and version 3 set.
#[verifier::external_body]
fn uuid_new_v3(namespace: &QUuid, name: &[u8]) -> (r: QUuid)
    ensures
        r@ == md5_name_uuid(namespace@, name@),
        r@.2 >> 12 == 3,
        r@.3[0] & 0xC0 == 0x80,
{
    let ns = uuid::Uuid::from_fields(namespace.data1, namespace.data2, namespace.data3, &namespace.data4);
    let u = uuid::Uuid::new_v3(&ns, name);
    let (data1, data2, data3, data4) = u.as_fields();
    QUuid { data1, data2, data3, data4: *data4 }
}

/// Relies on `uuid::Uuid::new_v5`: the SHA-1 name-based UUID, a function of
/// its arguments alone, with the RFC 4122 variant and version 5 set.
#[verifier::external_body]
fn uuid_new_v5(namespace: &QUuid, name: &[u8]) -> (r: QUuid)
    ensures
        r@ == sha1_name_uuid(namespace@, name@),
        r@.2 >> 12 == 5,
        r@.3[0] & 0xC0 == 0x80,
{
    let ns = uuid::Uuid::from_fields(namespace.data1, namespace.data2, namespace.data3, &namespace.data4);
    let u = uuid::Uuid::new_v5(&ns, name);
    let (data1, data2, data3, data4) = u.as_fields();
    QUuid { data1, data2, data3, data4: *data4 }
}

/// Relies on `uuid::Uuid::new_v4`: random bits, with the RFC 4122 variant
/// and version 4 set.
#[verifier::external_body]
fn uuid_new_v4() -> (r: QUuid)
    ensures
        r@.2 >> 12 == 4,
        r@.3[0] & 0xC0 == 0x80,
{
    let u = uuid::Uuid::new_v4();
    let (data1, data2, data3, data4) = u.as_fields();
    QUuid { data1, data2, data3, data4: *data4 }
}

/// Relies on `uuid::Uuid::try_parse`: the UUID that `s` spells, or `None`
/// where it spells none.
#[verifier::external_body]
fn uuid_try_parse(s: &str) -> (r: Option<QUuid>)
    ensures
        opt_fields(r) == parsed_uuid(s@),
{
    match uuid::Uuid::try_parse(s) {
        Ok(u) => {
            let (data1, data2, data3, data4) = u.as_fields();
            Some(QUuid { data1, data2, data3, data4: *data4 })
        },
        Err(_) => None,
    }
}

/// Whether `s` has the shape of five hyphenated hex fields, optionally in
/// curly braces: 36 characters, or 38 with the braces.
pub open spec fn uuid_text_shape(s: Seq<char>) -> bool {
    s.len() == 36 || (s.len() == 38 && s[0] == '{' && s[37] == '}')
}

/// What [`QUuid::from_str`] gives for the text `s`.
pub open spec fn uuid_from_text(s: Seq<char>) -> Option<UuidFields> {
    if uuid_text_shape(s) {
        parsed_uuid(s)
    } else {
        None
    }
}

proof fn lemma_dce_variant(b: u8)
    requires
        b & 0xC0 == 0x80,
    ensures
        b & 0x80 != 0,
        b != 0,
{
    assert(b & 0x80 != 0) by (bit_vector)
        requires
            b & 0xC0 == 0x80,
    ;
    assert(b != 0) by (bit_vector)
        requires
            b & 0xC0 == 0x80,
    ;
}

impl QUuid {
    /// Creates a UUID with the value specified by the parameters.
    pub fn from_fields(d1: u32, d2: u16, d3: u16, d4: &[u8; 8]) -> (r: Self)
        ensures
            r@ == (d1, d2, d3, d4@),
    {
        QUuid { data1: d1, data2: d2, data3: d3, data4: *d4 }
    }

    /// The four fields of the UUID.
    pub fn as_fields(&self) -> (r: (u32, u16, u16, &[u8; 8]))
        ensures
            (r.0, r.1, r.2, r.3@) == self@,
    {
        (self.data1, self.data2, self.data3, &self.data4)
    }

    /// Returns true if this is the null UUID `{00000000-0000-0000-0000-000000000000}`.
    pub fn is_null(&self) -> (r: bool)
        ensures
            r == is_null_fields(self@),
    {
        let mut i: usize = 0;
        while i < 8
            invariant
                0 <= i <= 8,
                forall|j: int| 0 <= j < i ==> self.data4@[j] == 0,
            decreases 8 - i,
        {
            if self.data4[i] != 0 {
                return false;
            }
            i = i + 1;
        }
        assert(self.data4@ =~= Seq::new(8, |i: int| 0u8) <==> forall|j: int| 0 <= j < 8 ==> self.data4@[j] == 0);
        self.data1 == 0 && self.data2 == 0 && self.data3 == 0
    }

    /// Returns the value in the variant field of the UUID. The null UUID is
    /// of an unknown variant.
    pub fn variant(&self) -> (r: QUuidVariant)
        ensures
            r == variant_of(self@),
    {
        let b = self.data4[0];
        if self.is_null() {
            QUuidVariant::VarUnknown
        } else if b & 0x80 == 0 {
            QUuidVariant::NCS
        } else if b & 0xC0 == 0x80 {
            QUuidVariant::DCE
        } else if b & 0xE0 == 0xC0 {
            QUuidVariant::Microsoft
        } else {
            QUuidVariant::Reserved
        }
    }

    /// Returns the version field of the UUID, if its variant is
    /// `QUuidVariant::DCE`; otherwise `QUuidVersion::VerUnknown`.
    pub fn version(&self) -> (r: QUuidVersion)
        ensures
            r == version_of(self@),
    {
        let v = self.data3 >> 12;
        match self.variant() {
            QUuidVariant::DCE => {
                if v == 1 {
                    QUuidVersion::Time
                } else if v == 2 {
                    QUuidVersion::EmbeddedPOSIX
                } else if v == 3 {
                    QUuidVersion::Md5
                } else if v == 4 {
                    QUuidVersion::Random
                } else if v == 5 {
                    QUuidVersion::Sha1
                } else {
                    QUuidVersion::VerUnknown
                }
            },
            _ => QUuidVersion::VerUnknown,
        }
    }

    /// Returns a new UUID with variant `QUuidVariant::DCE` and version
    /// `QUuidVersion::Md5`. `namespace` is the namespace and `data` is the
    /// basic data as described by RFC 4122.
    pub fn new_v3(namespace: &Self, data: &[u8]) -> (r: Self)
        ensures
            r@ == md5_name_uuid(namespace@, data@),
            variant_of(r@) == QUuidVariant::DCE,
            version_of(r@) == QUuidVersion::Md5,
    {
        let r = uuid_new_v3(namespace, data);
        proof {
            lemma_dce_variant(r@.3[0]);
        }
        r
    }

    /// Returns a new random UUID with variant `QUuidVariant::DCE` and
    /// version `QUuidVersion::Random`.
    pub fn new_v4() -> (r: Self)
        ensures
            variant_of(r@) == QUuidVariant::DCE,
            version_of(r@) == QUuidVersion::Random,
    {
        let r = uuid_new_v4();
        proof {
            lemma_dce_variant(r@.3[0]);
        }
        r
    }

    /// Returns a new UUID with variant `QUuidVariant::DCE` and version
    /// `QUuidVersion::Sha1`. `namespace` is the namespace and `data` is the
    /// basic data as described by RFC 4122.
    pub fn new_v5(namespace: &Self, data: &[u8]) -> (r: Self)
        ensures
            r@ == sha1_name_uuid(namespace@, data@),
            variant_of(r@) == QUuidVariant::DCE,
            version_of(r@) == QUuidVersion::Sha1,
    {
        let r = uuid_new_v5(namespace, data);
        proof {
            lemma_dce_variant(r@.3[0]);
        }
        r
    }

    /// Creates a UUID from the text `s`, which must be formatted as five hex
    /// fields separated by '-', e.g., "{xxxxxxxx-xxxx-xxxx-xxxx-xxxxxxxxxxxx}"
    /// where each 'x' is a hex digit. The curly braces are optional.
    /// Returns `None` where `s` is no such text.
    pub fn from_str(s: &str) -> (r: Option<Self>)
        ensures
            opt_fields(r) == uuid_from_text(s@),
    {
        let n = s.unicode_len();
        let shaped = n == 36 || (n == 38 && s.get_char(0) == '{' && s.get_char(37) == '}');
        if shaped {
            uuid_try_parse(s)
        } else {
            None
        }
    }

    /// Creates a UUID from the text `uuid`, as [`QUuid::from_str`] does.
    pub fn from_string(uuid: &String) -> (r: Option<Self>)
        ensures
            opt_fields(r) == uuid_from_text(uuid@),
    {
        Self::from_str(uuid.as_str())
    }
}

impl Default for QUuid {
    /// Creates the null UUID `{00000000-0000-0000-0000-000000000000}`.
    fn default() -> (r: Self)
        ensures
            is_null_fields(r@),
    {
        let r = QUuid { data1: 0, data2: 0, data3: 0, data4: [0u8; 8] };
        assert(r.data4@ =~= Seq::new(8, |i: int| 0u8));
        r
    }
}

} // verus!
