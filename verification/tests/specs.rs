use std::collections::HashSet;

use rockers::specs::config::{check_rootfs_type, StringSet};
use rockers::specs::descriptor::Descriptor;
use rockers::specs::index::check_index_media_type;
use rockers::specs::manifest::{check_layers, check_manifest_media_type};
use rockers::specs::media_type::MediaType;
use rockers::specs::validation::{check_schema_version, SpecError};

#[test]
fn schema_version_must_be_2() {
    assert_eq!(check_schema_version(2).unwrap(), 2);
    for v in [0u8, 1, 3] {
        let err = check_schema_version(v).unwrap_err();
        assert!(err.message().contains("schemaVersion must be 2"));
    }
}

#[test]
fn index_media_type_must_be_an_index_type() {
    for m in [MediaType::OCI_IMAGE_INDEX, MediaType::DOCKER_DISTRIBUTION_MANIFEST_LIST] {
        assert_eq!(check_index_media_type(m.clone()).unwrap(), Some(m));
    }
    for m in [
        MediaType::OCI_IMAGE_MANIFEST,
        MediaType::OCI_IMAGE_CONFIG,
        MediaType::UNKNOWN("application/octet-stream".to_owned()),
    ] {
        let err = check_index_media_type(m).unwrap_err();
        assert!(err.message().contains(
            "mediaType must be application/vnd.oci.image.index.v1+json, or compatible with it"
        ));
    }
}

#[test]
fn manifest_media_type_must_be_a_manifest_type() {
    for m in [MediaType::OCI_IMAGE_MANIFEST, MediaType::DOCKER_DISTRIBUTION_MANIFEST] {
        assert_eq!(check_manifest_media_type(m.clone()).unwrap(), Some(m));
    }
    for m in [
        MediaType::OCI_IMAGE_INDEX,
        MediaType::OCI_IMAGE_CONFIG,
        MediaType::UNKNOWN("application/octet-stream".to_owned()),
    ] {
        let err = check_manifest_media_type(m).unwrap_err();
        assert!(err.message().contains(
            "mediaType must be application/vnd.oci.image.manifest.v1+json, or compatible with it"
        ));
    }
}

#[test]
fn layers_must_not_be_empty() {
    for count in [1usize, 2] {
        let layers = std::iter::repeat_n(Descriptor::empty(), count).collect::<Vec<_>>();
        assert_eq!(check_layers(layers).unwrap().len(), count);
    }
    let err = check_layers(vec![]).unwrap_err();
    assert!(matches!(err, SpecError::EmptyLayers));
    assert!(err.message().contains("layers must contain at least 1 item"));
}

#[test]
fn rootfs_type_must_be_layers() {
    assert_eq!(check_rootfs_type("layers".to_owned()).unwrap(), "layers");
    let err = check_rootfs_type("overlay".to_owned()).unwrap_err();
    assert!(err.message().contains(r#"rootfs type must be "layers""#));
    assert_eq!(err.message(), r#"rootfs type must be "layers", got: overlay"#);
}

#[test]
fn string_set_clone_keeps_every_key() {
    let mut keys = HashSet::new();
    keys.insert("8080/tcp".to_owned());
    keys.insert("9090/udp".to_owned());
    let set = StringSet(keys);
    let copy = set.clone();
    assert_eq!(copy, set);
    assert_eq!(copy.0.len(), 2);
    assert!(copy.0.contains("8080/tcp"));
}
