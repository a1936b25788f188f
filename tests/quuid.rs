use qt_bridge::{QUuid, QUuidVariant, QUuidVersion};

fn dns_namespace() -> QUuid {
    QUuid::from_fields(0x6ba7b810, 0x9dad, 0x11d1, &[0x80, 0xb4, 0x00, 0xc0, 0x4f, 0xd4, 0x30, 0xc8])
}

#[test]
fn uuid_fields_round_trip() {
    let d4 = [1u8, 2, 3, 4, 5, 6, 7, 8];
    let u = QUuid::from_fields(0xa1a2a3a4, 0xb1b2, 0xc1c2, &d4);
    assert_eq!(u.as_fields(), (0xa1a2a3a4, 0xb1b2, 0xc1c2, &d4));
    assert!(!u.is_null());
}

#[test]
fn uuid_default_is_null() {
    let u = QUuid::default();
    assert!(u.is_null());
    assert_eq!(u.as_fields(), (0, 0, 0, &[0u8; 8]));
    assert_eq!(u.variant(), QUuidVariant::VarUnknown);
    assert_eq!(u.version(), QUuidVersion::VerUnknown);
}

#[test]
fn uuid_new_v3_matches_rfc_vector() {
    let u = QUuid::new_v3(&dns_namespace(), b"rust-lang.org");
    // c6db027c-615c-3b4d-959e-1a917747ca5a
    assert_eq!(
        u.as_fields(),
        (0xc6db027c, 0x615c, 0x3b4d, &[0x95, 0x9e, 0x1a, 0x91, 0x77, 0x47, 0xca, 0x5a])
    );
    assert_eq!(u.variant(), QUuidVariant::DCE);
    assert_eq!(u.version(), QUuidVersion::Md5);
    assert_eq!(u, QUuid::new_v3(&dns_namespace(), b"rust-lang.org"));
}

#[test]
fn uuid_new_v5_matches_rfc_vector() {
    let u = QUuid::new_v5(&dns_namespace(), b"example.org");
    // aad03681-8b63-5304-89e0-8ca8f49461b5
    assert_eq!(
        u.as_fields(),
        (0xaad03681, 0x8b63, 0x5304, &[0x89, 0xe0, 0x8c, 0xa8, 0xf4, 0x94, 0x61, 0xb5])
    );
    assert_eq!(u.variant(), QUuidVariant::DCE);
    assert_eq!(u.version(), QUuidVersion::Sha1);
}

#[test]
fn uuid_new_v4_is_random_dce() {
    let u = QUuid::new_v4();
    assert_eq!(u.variant(), QUuidVariant::DCE);
    assert_eq!(u.version(), QUuidVersion::Random);
    assert!(!u.is_null());
}

#[test]
fn uuid_from_str_accepts_braced_and_plain() {
    let expected = QUuid::from_fields(0x67e55044, 0x10b1, 0x426f, &[0x92, 0x47, 0xbb, 0x68, 0x0e, 0x5f, 0xe0, 0xc8]);
    assert_eq!(QUuid::from_str("{67e55044-10b1-426f-9247-bb680e5fe0c8}"), Some(expected));
    assert_eq!(QUuid::from_str("67e55044-10b1-426f-9247-bb680e5fe0c8"), Some(expected));
    assert_eq!(QUuid::from_string(&"67E55044-10B1-426F-9247-BB680E5FE0C8".to_string()), Some(expected));
}

#[test]
fn uuid_from_str_null_text_gives_null_uuid() {
    let n = QUuid::from_str("{00000000-0000-0000-0000-000000000000}").unwrap();
    assert!(n.is_null());
    let m = QUuid::from_str("00000000-0000-0000-0000-000000000000").unwrap();
    assert!(m.is_null());
}

#[test]
fn uuid_from_str_rejects_other_text() {
    assert_eq!(QUuid::from_str(""), None);
    assert_eq!(QUuid::from_str("not a uuid"), None);
    assert_eq!(QUuid::from_str("67e5504410b1426f9247bb680e5fe0c8"), None);
    assert_eq!(QUuid::from_str("{67e55044-10b1-426f-9247-bb680e5fe0cz}"), None);
    assert_eq!(QUuid::from_str("(67e55044-10b1-426f-9247-bb680e5fe0c8)"), None);
}

#[test]
fn uuid_variants_from_bits() {
    let ncs = QUuid::from_fields(1, 0, 0, &[0x00, 0, 0, 0, 0, 0, 0, 0]);
    assert_eq!(ncs.variant(), QUuidVariant::NCS);
    assert_eq!(ncs.version(), QUuidVersion::VerUnknown);
    let ms = QUuid::from_fields(1, 0, 0, &[0xC0, 0, 0, 0, 0, 0, 0, 0]);
    assert_eq!(ms.variant(), QUuidVariant::Microsoft);
    let reserved = QUuid::from_fields(1, 0, 0, &[0xE0, 0, 0, 0, 0, 0, 0, 0]);
    assert_eq!(reserved.variant(), QUuidVariant::Reserved);
    let time = QUuid::from_fields(1, 0, 0x1000, &[0x80, 0, 0, 0, 0, 0, 0, 0]);
    assert_eq!(time.version(), QUuidVersion::Time);
    let high = QUuid::from_fields(1, 0, 0x9000, &[0x80, 0, 0, 0, 0, 0, 0, 0]);
    assert_eq!(high.version(), QUuidVersion::VerUnknown);
}
