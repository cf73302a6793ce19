use rkyv::rancor::Error;
use rkyv::util::AlignedVec;
use rkyv::Archived;
use rkyv_versioned::envelope::{access, write_envelope};
use rkyv_versioned::error::{AccessError, HeaderError, UnexpectedTypeError, UnsupportedVersionError};
use rkyv_versioned::generate::{
    generate, Declaration, DeclarationError, VariantDecl, VariantFields, VersionedType,
};
use rkyv_versioned::header::{encode_header, peek, Header};
use rkyv_versioned::identity::derive_id;

fn variant(name: &str, fields: VariantFields) -> VariantDecl {
    VariantDecl { name: name.to_owned(), fields }
}

fn container(name: &str) -> VersionedType {
    let decl = Declaration {
        name: name.to_owned(),
        is_enum: true,
        variants: vec![
            variant("V1", VariantFields::Unnamed(1)),
            variant("V2", VariantFields::Unnamed(1)),
        ],
    };
    generate(&decl).unwrap()
}

fn aligned(bytes: &[u8]) -> AlignedVec {
    let mut out = AlignedVec::new();
    out.extend_from_slice(bytes);
    out
}

#[test]
fn test_versioned_container() {
    let t = container("TestContainer");
    let v1 = (1u32, 2u32, "YEET".to_owned());
    let v1_version = t.get_entry_version_id(&"V1".to_owned()).unwrap();
    let payload = rkyv::to_bytes::<Error>(&v1).unwrap();
    let bytes = aligned(&t.to_tagged_bytes(v1_version, &payload));
    assert_eq!(
        VersionedType::get_type_and_version_from_tagged_bytes(&bytes).unwrap(),
        Header { type_id: t.archive_type_id(), version: v1_version }
    );
    let (version, region) = t.get_ref_from_tagged_bytes(&bytes).unwrap();
    match version {
        0 => {
            let region = aligned(region);
            let v1_ref = rkyv::access::<Archived<(u32, u32, String)>, Error>(&region).unwrap();
            assert_eq!(v1_ref.0, 1);
            assert_eq!(v1_ref.1, 2);
            assert_eq!(v1_ref.2, "YEET");
        }
        _ => panic!("Expected V1"),
    }

    let v2 = (100u64, 200u64, 300u64, "SKEET".to_owned());
    let v2_version = t.get_entry_version_id(&"V2".to_owned()).unwrap();
    let payload = rkyv::to_bytes::<Error>(&v2).unwrap();
    let tswv_container_bytes = aligned(&t.to_tagged_bytes(v2_version, &payload));
    assert_eq!(
        VersionedType::get_type_and_version_from_tagged_bytes(&tswv_container_bytes).unwrap(),
        Header { type_id: t.archive_type_id(), version: v2_version }
    );
    let (version, region) = t.get_ref_from_tagged_bytes(&tswv_container_bytes).unwrap();
    match version {
        1 => {
            let region = aligned(region);
            let v2_ref = rkyv::access::<Archived<(u64, u64, u64, String)>, Error>(&region).unwrap();
            assert_eq!(v2_ref.0, 100);
            assert_eq!(v2_ref.1, 200);
            assert_eq!(v2_ref.2, 300);
            assert_eq!(v2_ref.3, "SKEET");
        }
        _ => panic!("Expected V2"),
    }

    let expected_type_id: u32 = const_crc32::crc32("TestContainer".as_bytes());
    let munged_type_id: u32 = 0x01010101;

    let mut invalid_type_bytes = tswv_container_bytes.clone();
    invalid_type_bytes[0] = 0x01;
    invalid_type_bytes[1] = 0x01;
    invalid_type_bytes[2] = 0x01;
    invalid_type_bytes[3] = 0x01;

    let invalid_type_result = t.get_ref_from_tagged_bytes(&invalid_type_bytes);
    assert!(invalid_type_result.is_err());
    assert_eq!(
        invalid_type_result.err().unwrap().message(),
        format!("Expected type_id {}, got {}", expected_type_id, munged_type_id)
    );

    let mut invalid_ver_bytes = tswv_container_bytes.clone();
    invalid_ver_bytes[4] = 9;

    let invalid_ver_result = t.get_ref_from_tagged_bytes(&invalid_ver_bytes);
    assert!(invalid_ver_result.is_err());
    assert_eq!(invalid_ver_result.err().unwrap().message(), "Unsupported version 9");
}

#[test]
fn derive_id_is_crc32_of_the_name() {
    assert_eq!(derive_id("The quick brown fox jumps over the lazy dog"), 0x414fa339);
    assert_eq!(derive_id("Container"), const_crc32::crc32(b"Container"));
    assert_ne!(derive_id("Container"), derive_id("Other"));
    assert_eq!(container("Container").archive_type_id(), derive_id("Container"));
}

#[test]
fn header_is_eight_little_endian_bytes() {
    let h = Header { type_id: 0x04030201, version: 0x0000_0102 };
    assert_eq!(encode_header(h), vec![1, 2, 3, 4, 2, 1, 0, 0]);
    let bytes = aligned(&encode_header(h));
    assert_eq!(peek(&bytes), Ok(h));
    let raw = rkyv::to_bytes::<Error>(&(0x04030201u32, 0x0102u32)).unwrap();
    assert_eq!(raw.as_slice(), encode_header(h).as_slice());
}

#[test]
fn peek_rejects_short_buffers() {
    let bytes = aligned(&[1, 2, 3, 4, 5, 6, 7]);
    assert_eq!(peek(&bytes), Err(HeaderError::TooShort));
    assert_eq!(peek(&[]), Err(HeaderError::TooShort));
    assert_eq!(access(&bytes, 0, 1).unwrap_err(), AccessError::HeaderTooShort);
    assert_eq!(
        VersionedType::get_type_and_version_from_tagged_bytes(&bytes),
        Err(AccessError::HeaderTooShort)
    );
}

#[test]
fn peek_ignores_the_payload() {
    let full = aligned(&write_envelope(77, 3, &[9, 9, 9, 9, 9, 9]));
    let truncated = aligned(&full[..8]);
    let mut corrupted = full.clone();
    corrupted[10] = 0xff;
    corrupted[13] = 0x00;
    let h = Header { type_id: 77, version: 3 };
    assert_eq!(peek(&full), Ok(h));
    assert_eq!(peek(&truncated), Ok(h));
    assert_eq!(peek(&corrupted), Ok(h));
}

#[test]
fn envelope_round_trips_any_payload() {
    let payload = [5u8, 6, 7, 8, 9];
    let bytes = aligned(&write_envelope(11, 2, &payload));
    assert_eq!(bytes.len(), 13);
    let (version, region) = access(&bytes, 11, 3).unwrap();
    assert_eq!(version, 2);
    assert_eq!(region, &payload[..]);
    let empty = aligned(&write_envelope(11, 0, &[]));
    assert_eq!(access(&empty, 11, 1).unwrap(), (0, &[][..]));
}

#[test]
fn access_reports_both_type_ids() {
    let a = container("Alpha");
    let b = container("Beta");
    let bytes = aligned(&a.to_tagged_bytes(1, &[1, 2, 3, 4]));
    let err = b.get_ref_from_tagged_bytes(&bytes).unwrap_err();
    assert_eq!(
        err,
        AccessError::TypeMismatch(UnexpectedTypeError(derive_id("Beta"), derive_id("Alpha")))
    );
    assert_eq!(
        UnexpectedTypeError(7, 16843009).message(),
        "Expected type_id 7, got 16843009"
    );
}

#[test]
fn access_rejects_undeclared_versions() {
    let t = container("Container");
    let bytes = aligned(&t.to_tagged_bytes(0, &[0xde, 0xad]));
    for v in [2u32, 3, 9, 0xffff_ffff] {
        let mut changed = bytes.clone();
        changed[4..8].copy_from_slice(&v.to_le_bytes());
        assert_eq!(
            t.get_ref_from_tagged_bytes(&changed).unwrap_err(),
            AccessError::UnsupportedVersion(UnsupportedVersionError(v))
        );
    }
    assert_eq!(UnsupportedVersionError(0).message(), "Unsupported version 0");
    assert_eq!(UnsupportedVersionError(4294967295).message(), "Unsupported version 4294967295");
    assert!(t.is_valid_version_id(0));
    assert!(t.is_valid_version_id(1));
    assert!(!t.is_valid_version_id(2));
    assert_eq!(t.variant_count(), 2);
}

#[test]
fn version_in_header_selects_the_shape() {
    let t = container("Container");
    let payload = [1u8, 0, 0, 0, 2, 0, 0, 0];
    let as_v0 = aligned(&t.to_tagged_bytes(0, &payload));
    let as_v1 = aligned(&t.to_tagged_bytes(1, &payload));
    assert_eq!(t.get_ref_from_tagged_bytes(&as_v0).unwrap().0, 0);
    assert_eq!(t.get_ref_from_tagged_bytes(&as_v1).unwrap().0, 1);
    assert_eq!(t.get_entry_version_id(&"V1".to_owned()), Some(0));
    assert_eq!(t.get_entry_version_id(&"V2".to_owned()), Some(1));
    assert_eq!(t.get_entry_version_id(&"V3".to_owned()), None);
}

#[test]
fn generate_rejects_malformed_variants() {
    let decl = Declaration {
        name: "Bad".to_owned(),
        is_enum: true,
        variants: vec![
            variant("Good", VariantFields::Unnamed(1)),
            variant("Two", VariantFields::Unnamed(2)),
            variant("Zero", VariantFields::Unnamed(0)),
            variant("Named", VariantFields::Named(1)),
            variant("Unit", VariantFields::Unit),
        ],
    };
    let errs = generate(&decl).unwrap_err();
    assert_eq!(
        errs,
        vec![
            DeclarationError::FieldCount { enum_name: "Bad".to_owned(), variant: "Two".to_owned() },
            DeclarationError::FieldCount { enum_name: "Bad".to_owned(), variant: "Zero".to_owned() },
            DeclarationError::NotUnnamed { enum_name: "Bad".to_owned(), variant: "Named".to_owned() },
            DeclarationError::NotUnnamed { enum_name: "Bad".to_owned(), variant: "Unit".to_owned() },
        ]
    );
    assert_eq!(
        errs[0].message(),
        "Only one unnamed field per enum variant is supported, found multiple fields in Bad::Two"
    );
    assert_eq!(
        errs[3].message(),
        "Only unnamed fields supported in enum variants, unsupported variant found in Bad::Unit"
    );
}

#[test]
fn generate_rejects_non_sum_types() {
    let decl = Declaration { name: "Plain".to_owned(), is_enum: false, variants: vec![] };
    let errs = generate(&decl).unwrap_err();
    assert_eq!(errs, vec![DeclarationError::NotAnEnum { enum_name: "Plain".to_owned() }]);
    assert_eq!(errs[0].message(), "#[derive(VersionedArchiveContainer)] is only defined for enums");
}

#[test]
fn generate_binds_names_in_order() {
    let decl = Declaration { name: "Empty".to_owned(), is_enum: true, variants: vec![] };
    let t = generate(&decl).unwrap();
    assert_eq!(t.variant_count(), 0);
    assert!(!t.is_valid_version_id(0));
    let t = container("Container");
    assert_eq!(t.name, "Container");
    assert_eq!(t.variants, vec!["V1".to_owned(), "V2".to_owned()]);
}

#[test]
fn access_error_messages() {
    assert_eq!(AccessError::HeaderTooShort.message(), "Buffer too short for an envelope header");
    assert_eq!(AccessError::HeaderMalformed.message(), "Envelope header failed validation");
    assert_eq!(AccessError::PayloadValidationFailed.message(), "Envelope payload failed validation");
    assert_eq!(
        AccessError::UnsupportedVersion(UnsupportedVersionError(12)).message(),
        "Unsupported version 12"
    );
}

#[test]
fn container_scenario_exact_errors() {
    let t = container("Container");
    let payload = rkyv::to_bytes::<Error>(&(1u32, 2u32, "YEET".to_owned())).unwrap();
    let bytes = aligned(&t.to_tagged_bytes(0, &payload));
    let mut munged = bytes.clone();
    munged[0..4].copy_from_slice(&[0x01, 0x01, 0x01, 0x01]);
    assert_eq!(
        t.get_ref_from_tagged_bytes(&munged).unwrap_err(),
        AccessError::TypeMismatch(UnexpectedTypeError(derive_id("Container"), 0x01010101))
    );
    let mut bad_version = bytes.clone();
    bad_version[4] = 9;
    assert_eq!(
        t.get_ref_from_tagged_bytes(&bad_version).unwrap_err(),
        AccessError::UnsupportedVersion(UnsupportedVersionError(9))
    );
    let (version, region) = t.get_ref_from_tagged_bytes(&bytes).unwrap();
    assert_eq!(version, 0);
    assert_eq!(region, payload.as_slice());
}
