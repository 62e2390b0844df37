use rockers::image::{ImageName, ImageNameError, Reference};

fn parts(s: &str) -> (String, String, String, bool) {
    let img: ImageName = s.parse().unwrap();
    let (value, is_digest) = match img.reference {
        Reference::Tag(t) => (t, false),
        Reference::Digest(d) => (d, true),
    };
    (img.repository, img.name, value, is_digest)
}

#[test]
fn bare_name_gets_library_repository_and_latest_tag() {
    assert_eq!(parts("ubuntu"), ("library".into(), "ubuntu".into(), "latest".into(), false));
}

#[test]
fn name_with_tag() {
    assert_eq!(parts("ubuntu:22.04"), ("library".into(), "ubuntu".into(), "22.04".into(), false));
}

#[test]
fn repository_name_and_tag() {
    assert_eq!(parts("bitnami/redis:7"), ("bitnami".into(), "redis".into(), "7".into(), false));
}

#[test]
fn digest_reference_keeps_the_whole_digest() {
    let d = "sha256:44136fa355b3678a1146ad16f7e8649e94fb4fc21fe77e8310c060f61caaff8a";
    assert_eq!(parts(&format!("alpine@{d}")), ("library".into(), "alpine".into(), d.into(), true));
}

#[test]
fn only_the_first_slash_separates_repository() {
    assert_eq!(
        parts("docker.io/library/ubuntu"),
        ("docker.io".into(), "library/ubuntu".into(), "latest".into(), false)
    );
}

#[test]
fn empty_parts_are_refused() {
    for s in ["", ":tag", "/name", "repo/", "@sha256:abc", "repo/:tag"] {
        assert_eq!(ImageName::parse(s).unwrap_err(), ImageNameError::Invalid);
    }
    assert_eq!(
        ImageNameError::Invalid.message(),
        "Invalid image name. Expected format 'name:tag', 'name@digest', or 'repository/name:tag'"
    );
}
