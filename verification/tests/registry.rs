use rockers::image::ImageName;
use rockers::registry::resolve::{
    bearer_authorization, effective_media_type, find_platform_manifest, manifest_accept,
    manifest_shape, platform_arch, platform_manifest_digest, select_platform_manifest, token_url,
    ManifestShape,
    RegistryTarget, IMAGE_MANIFEST_ACCEPT,
};
use rockers::registry::{
    ManifestDescriptor, ManifestEnvelope, ManifestList, Platform, MANIFEST_LIST_V2, MANIFEST_V2,
    OCI_INDEX, OCI_MANIFEST,
};

fn entry(digest: &str, arch: &str, os: &str) -> ManifestDescriptor {
    ManifestDescriptor {
        digest: digest.to_owned(),
        platform: Platform { architecture: arch.to_owned(), os: os.to_owned() },
        size: 1,
    }
}

#[test]
fn target_names_repository_path_and_reference() {
    let t = RegistryTarget::new(ImageName::parse("ubuntu:22.04").unwrap());
    assert_eq!(t.repository, "library/ubuntu");
    assert_eq!(t.reference, "22.04");
    assert_eq!(t.token_scope(), "repository:library/ubuntu:pull");
    assert_eq!(
        t.manifest_url("22.04"),
        "https://registry-1.docker.io/v2/library/ubuntu/manifests/22.04"
    );
    assert_eq!(
        t.blob_url("sha256:abc"),
        "https://registry-1.docker.io/v2/library/ubuntu/blobs/sha256:abc"
    );
    assert_eq!(token_url(), "https://auth.docker.io/token");
    assert_eq!(bearer_authorization("tok"), "Bearer tok");
}

#[test]
fn x86_64_is_called_amd64() {
    assert_eq!(platform_arch("x86_64"), "amd64");
    assert_eq!(platform_arch("aarch64"), "aarch64");
}

#[test]
fn first_request_accepts_lists_and_manifests() {
    assert_eq!(
        manifest_accept(),
        format!("{MANIFEST_LIST_V2}, {OCI_INDEX},  {MANIFEST_V2}, {OCI_MANIFEST}")
    );
    assert_eq!(IMAGE_MANIFEST_ACCEPT, format!("{MANIFEST_V2}, {OCI_MANIFEST}"));
}

#[test]
fn media_type_falls_back_to_content_type() {
    let declared = ManifestEnvelope { media_type: Some(OCI_INDEX.to_owned()) };
    assert_eq!(effective_media_type(declared, "text/plain".to_owned()), OCI_INDEX);
    let absent = ManifestEnvelope { media_type: None };
    assert_eq!(effective_media_type(absent, MANIFEST_V2.to_owned()), MANIFEST_V2);
}

#[test]
fn lists_and_indexes_are_lists_everything_else_a_manifest() {
    assert_eq!(manifest_shape(MANIFEST_LIST_V2), ManifestShape::List);
    assert_eq!(manifest_shape(OCI_INDEX), ManifestShape::List);
    assert_eq!(manifest_shape(MANIFEST_V2), ManifestShape::Image);
    assert_eq!(manifest_shape(OCI_MANIFEST), ManifestShape::Image);
    assert_eq!(manifest_shape(""), ManifestShape::Image);
}

#[test]
fn platform_selection_takes_the_first_match() {
    let list = ManifestList {
        manifests: vec![
            entry("sha256:a", "arm64", "linux"),
            entry("sha256:b", "amd64", "windows"),
            entry("sha256:c", "amd64", "linux"),
            entry("sha256:d", "amd64", "linux"),
        ],
    };
    assert_eq!(find_platform_manifest(&list, "linux", "amd64"), Some(2));
    assert_eq!(select_platform_manifest(list, "linux", "amd64").unwrap().digest, "sha256:c");
}

#[test]
fn platform_selection_reports_the_missing_platform() {
    let list = ManifestList { manifests: vec![entry("sha256:a", "arm64", "linux")] };
    assert_eq!(find_platform_manifest(&list, "linux", "amd64"), None);
    let err = select_platform_manifest(list, "linux", "amd64").unwrap_err();
    assert_eq!(
        err.message(),
        "No manifest found for the current platform (os: linux, arch: amd64)"
    );
}

#[test]
fn after_a_list_the_first_matching_digest_is_fetched_next() {
    let list = ManifestList {
        manifests: vec![
            entry("sha256:a", "arm64", "linux"),
            entry("sha256:c", "amd64", "linux"),
            entry("sha256:d", "amd64", "linux"),
        ],
    };
    assert_eq!(platform_manifest_digest(list, "linux", "amd64").unwrap(), "sha256:c");
    let none = ManifestList { manifests: vec![] };
    assert!(platform_manifest_digest(none, "linux", "amd64").is_err());
}
