use rockers::specs::descriptor::{
    is_hex_bytes, Algorithm, Descriptor, Digest, DigestParseError, EMPTY_BLOB_DIGEST,
};
use rockers::specs::media_type::MediaType;

#[test]
fn descriptor_empty_returns_empty_blob_descriptor() {
    let descriptor = Descriptor::empty();

    assert_eq!(descriptor.media_type, MediaType::OCI_EMPTY);
    assert_eq!(descriptor.digest.to_string(), EMPTY_BLOB_DIGEST);
    assert_eq!(descriptor.size, 2);
    assert!(descriptor.urls.is_none());
    assert!(descriptor.annotations.is_none());
    assert!(descriptor.data.is_none());
    assert!(descriptor.artifact_type.is_none());
    assert!(descriptor.platform.is_none());
    assert!(descriptor.is_empty());
}

#[test]
fn descriptor_is_empty_accepts_empty_blob_data_variants() {
    for data in [None, Some("e30=".to_owned())] {
        let mut descriptor = Descriptor::empty();
        descriptor.data = data;

        assert!(descriptor.is_empty());
    }
}

#[test]
fn descriptor_is_empty_rejects_other_descriptors() {
    let mut d = Descriptor::empty();
    d.data = Some("e31=".to_owned());
    assert!(!d.is_empty());

    let mut d = Descriptor::empty();
    d.size = 3;
    assert!(!d.is_empty());

    let mut d = Descriptor::empty();
    d.media_type = MediaType::OCI_DESCRIPTOR;
    assert!(!d.is_empty());

    let mut d = Descriptor::empty();
    d.digest = Digest::try_from(format!("sha512:{}", "a".repeat(128))).unwrap();
    assert!(!d.is_empty());

    let mut d = Descriptor::empty();
    d.urls = Some(vec![]);
    assert!(!d.is_empty());

    let mut d = Descriptor::empty();
    d.artifact_type = Some("x".to_owned());
    assert!(!d.is_empty());
}

#[test]
fn digest_try_from_reads_the_empty_blob_digest() {
    let d = Digest::try_from(EMPTY_BLOB_DIGEST.to_owned()).unwrap();
    assert_eq!(d.to_string(), EMPTY_BLOB_DIGEST);
    assert_eq!(String::from(d.clone()), EMPTY_BLOB_DIGEST);
    assert!(d.same_as(&Descriptor::empty().digest));
    assert_eq!(d, Descriptor::empty().digest);
}

#[test]
fn digest_try_from_rejects_missing_separator() {
    let err = Digest::try_from("sha256".to_owned()).unwrap_err();
    assert!(matches!(err, DigestParseError::MissingSeparator(ref v) if v == "sha256"));
}

#[test]
fn digest_try_from_rejects_invalid_algorithm() {
    let err = Digest::try_from("Sha256:abc".to_owned()).unwrap_err();
    assert!(matches!(err, DigestParseError::InvalidAlgorithmFormat(ref v) if v == "Sha256"));
}

#[test]
fn digest_try_from_rejects_invalid_encoded() {
    let err = Digest::try_from("sha256:abc".to_owned()).unwrap_err();
    assert!(matches!(err, DigestParseError::InvalidEncodedFormat(ref v) if v == "abc"));

    let err = Digest::try_from("custom:a.b".to_owned()).unwrap_err();
    assert!(matches!(err, DigestParseError::InvalidEncodedFormat(ref v) if v == "a.b"));
}

#[test]
fn digest_try_from_splits_at_the_first_separator() {
    let err = Digest::try_from("custom:ab:cd".to_owned()).unwrap_err();
    assert!(matches!(err, DigestParseError::InvalidEncodedFormat(ref v) if v == "ab:cd"));
}

#[test]
fn digest_written_then_read_round_trips() {
    for s in [
        EMPTY_BLOB_DIGEST.to_owned(),
        format!("sha512:{}", "0123456789abcdefABCDEF".repeat(6).chars().take(128).collect::<String>()),
        format!("blake3:{}", "f".repeat(64)),
        "custom.v1:abc_DEF-=".to_owned(),
    ] {
        let d = Digest::try_from(s.clone()).unwrap();
        assert_eq!(d.to_string(), s);
        let again = Digest::try_from(d.to_string()).unwrap();
        assert!(again.same_as(&d));
    }
}

#[test]
fn algorithm_try_from_accepts_known_algorithms() {
    for (value, expected) in [
        ("sha256", Algorithm::Sha256),
        ("sha512", Algorithm::Sha512),
        ("blake3", Algorithm::Blake3),
    ] {
        let algorithm = Algorithm::try_from(value.to_owned()).unwrap();

        assert_eq!(algorithm.to_string(), expected.to_string());
        assert_eq!(algorithm, expected);
    }
}

#[test]
fn algorithm_try_from_accepts_unregistered_algorithm_names() {
    for value in ["custom", "custom.v1", "custom+v1", "custom_v1", "custom-v1"] {
        let algorithm = Algorithm::try_from(value.to_owned()).unwrap();

        assert_eq!(algorithm.to_string(), value);
        assert_eq!(algorithm, Algorithm::Unregistered(value.to_owned()));
    }
}

#[test]
fn algorithm_try_from_rejects_invalid_unregistered_algorithm_names() {
    for value in ["", "Custom", ".custom", "custom.", "custom..v1"] {
        let err = Algorithm::try_from(value.to_owned()).unwrap_err();

        assert!(matches!(err, DigestParseError::InvalidAlgorithmFormat(_)));
    }
}

#[test]
fn algorithm_classify_decides_by_the_given_format_answer() {
    assert_eq!(Algorithm::classify("sha256".to_owned(), false).unwrap(), Algorithm::Sha256);
    assert_eq!(
        Algorithm::classify("Whatever".to_owned(), true).unwrap(),
        Algorithm::Unregistered("Whatever".to_owned())
    );
    assert!(matches!(
        Algorithm::classify("custom".to_owned(), false),
        Err(DigestParseError::InvalidAlgorithmFormat(ref v)) if v == "custom"
    ));
}

#[test]
fn algorithm_validate_encoded_accepts_hex_with_expected_length() {
    for (algorithm, len) in [(Algorithm::Sha256, 64), (Algorithm::Sha512, 128), (Algorithm::Blake3, 64)] {
        let encoded = "a".repeat(len);

        assert!(algorithm.validate_encoded(&encoded));
    }
}

#[test]
fn algorithm_validate_encoded_rejects_wrong_length() {
    for (algorithm, len) in [(Algorithm::Sha256, 63), (Algorithm::Sha512, 127), (Algorithm::Blake3, 63)] {
        let encoded = "a".repeat(len);

        assert!(!algorithm.validate_encoded(&encoded));
    }
}

#[test]
fn algorithm_validate_encoded_rejects_non_hex() {
    for (algorithm, len) in [(Algorithm::Sha256, 64), (Algorithm::Sha512, 128), (Algorithm::Blake3, 64)] {
        let encoded = "g".repeat(len);

        assert!(!algorithm.validate_encoded(&encoded));
    }
}

#[test]
fn algorithm_validate_encoded_counts_bytes() {
    // 32 two-byte characters are 64 bytes, none of them a hex digit.
    assert!(!Algorithm::Sha256.validate_encoded(&"é".repeat(32)));
}

#[test]
fn unregistered_algorithm_validate_encoded_accepts_matching_encoded_re() {
    let algorithm = Algorithm::Unregistered("custom".to_owned());
    for encoded in ["abcDEF", "123456", "abc_DEF", "abc-DEF", "abc=DEF"] {
        assert!(algorithm.validate_encoded(encoded));
    }
}

#[test]
fn unregistered_algorithm_validate_encoded_rejects_non_matching_encoded_re() {
    let algorithm = Algorithm::Unregistered("custom".to_owned());
    for encoded in ["", "abc.def", "abc+def", "abc/def", "abc:def"] {
        assert!(!algorithm.validate_encoded(encoded));
    }
}

#[test]
fn is_hex_bytes_accepts_only_hex_digits() {
    assert!(is_hex_bytes(""));
    assert!(is_hex_bytes("0123456789abcdefABCDEF"));
    assert!(!is_hex_bytes("0x12"));
    assert!(!is_hex_bytes("ä"));
}
