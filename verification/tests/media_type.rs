use rockers::specs::media_type::{
    MediaType, DOCKER_CONTAINER_IMAGE, DOCKER_DISTRIBUTION_MANIFEST,
    DOCKER_DISTRIBUTION_MANIFEST_LIST, DOCKER_IMAGE_ROOTFS_DIFF_TAR_GZIP, OCI_DESCRIPTOR, OCI_EMPTY,
    OCI_IMAGE_CONFIG, OCI_IMAGE_INDEX, OCI_IMAGE_LAYER_TAR, OCI_IMAGE_LAYER_TAR_GZIP,
    OCI_IMAGE_LAYER_TAR_ZSTD, OCI_IMAGE_MANIFEST, OCI_LAYOUT_HEADER,
};

fn known() -> Vec<(&'static str, MediaType)> {
    vec![
        (OCI_DESCRIPTOR, MediaType::OCI_DESCRIPTOR),
        (OCI_LAYOUT_HEADER, MediaType::OCI_LAYOUT_HEADER),
        (OCI_IMAGE_INDEX, MediaType::OCI_IMAGE_INDEX),
        (OCI_IMAGE_MANIFEST, MediaType::OCI_IMAGE_MANIFEST),
        (OCI_IMAGE_CONFIG, MediaType::OCI_IMAGE_CONFIG),
        (OCI_IMAGE_LAYER_TAR, MediaType::OCI_IMAGE_LAYER_TAR),
        (OCI_IMAGE_LAYER_TAR_GZIP, MediaType::OCI_IMAGE_LAYER_TAR_GZIP),
        (OCI_IMAGE_LAYER_TAR_ZSTD, MediaType::OCI_IMAGE_LAYER_TAR_ZSTD),
        (OCI_EMPTY, MediaType::OCI_EMPTY),
        (DOCKER_DISTRIBUTION_MANIFEST_LIST, MediaType::DOCKER_DISTRIBUTION_MANIFEST_LIST),
        (DOCKER_DISTRIBUTION_MANIFEST, MediaType::DOCKER_DISTRIBUTION_MANIFEST),
        (DOCKER_CONTAINER_IMAGE, MediaType::DOCKER_CONTAINER_IMAGE),
        (DOCKER_IMAGE_ROOTFS_DIFF_TAR_GZIP, MediaType::DOCKER_IMAGE_ROOTFS_DIFF_TAR_GZIP),
    ]
}

#[test]
fn from_accepts_oci_media_types() {
    for (media_type, expected) in known().into_iter().take(9) {
        assert_eq!(MediaType::from(media_type.to_owned()), expected);
    }
}

#[test]
fn from_accepts_docker_media_types() {
    for (media_type, expected) in known().into_iter().skip(9) {
        assert_eq!(MediaType::from(media_type.to_string()), expected);
    }
}

#[test]
fn into_string_preserves_known_media_type_values() {
    for (expected, media_type) in known() {
        assert_eq!(String::from(media_type), expected);
    }
}

#[test]
fn from_preserves_unknown_media_type() {
    let media_type = "application/octet-stream";

    assert_eq!(
        MediaType::from(media_type.to_string()),
        MediaType::UNKNOWN(media_type.to_string())
    );
}

#[test]
fn into_string_preserves_unknown_media_type() {
    let media_type = "application/octet-stream";

    assert_eq!(
        String::from(MediaType::UNKNOWN(media_type.to_owned())),
        media_type
    );
}

#[test]
fn media_type_string_round_trips_for_known_and_unknown_strings() {
    for (s, _) in known() {
        assert_eq!(String::from(MediaType::from(s.to_owned())), s);
    }
    for s in ["", "application/json", "application/vnd.oci.image.index.v1+jsonx"] {
        assert_eq!(String::from(MediaType::from(s.to_owned())), s);
    }
}

#[test]
fn media_type_value_round_trips() {
    for (_, m) in known() {
        assert_eq!(MediaType::from(String::from(m.clone())), m);
    }
    let unknown = MediaType::UNKNOWN("text/plain".to_owned());
    assert_eq!(MediaType::from(String::from(unknown.clone())), unknown);
}

#[test]
fn unknown_holding_a_registered_string_reads_back_as_the_registered_type() {
    let m = MediaType::UNKNOWN(OCI_EMPTY.to_owned());
    assert_eq!(MediaType::from(String::from(m)), MediaType::OCI_EMPTY);
}
