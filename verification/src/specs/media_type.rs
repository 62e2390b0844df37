//! Media types of the OCI image specification and their Docker counterparts.

use vstd::prelude::*;

use crate::text::str_equals;

verus! {

pub const OCI_DESCRIPTOR: &'static str = "application/vnd.oci.descriptor.v1+json";
pub const OCI_LAYOUT_HEADER: &'static str = "application/vnd.oci.layout.header.v1+json";
pub const OCI_IMAGE_INDEX: &'static str = "application/vnd.oci.image.index.v1+json";
pub const OCI_IMAGE_MANIFEST: &'static str = "application/vnd.oci.image.manifest.v1+json";
pub const OCI_IMAGE_CONFIG: &'static str = "application/vnd.oci.image.config.v1+json";
pub const OCI_IMAGE_LAYER_TAR: &'static str = "application/vnd.oci.image.layer.v1.tar";
pub const OCI_IMAGE_LAYER_TAR_GZIP: &'static str = "application/vnd.oci.image.layer.v1.tar+gzip";
pub const OCI_IMAGE_LAYER_TAR_ZSTD: &'static str = "application/vnd.oci.image.layer.v1.tar+zstd";
pub const OCI_EMPTY: &'static str = "application/vnd.oci.empty.v1+json";
pub const DOCKER_DISTRIBUTION_MANIFEST_LIST: &'static str =
    "application/vnd.docker.distribution.manifest.list.v2+json";
pub const DOCKER_DISTRIBUTION_MANIFEST: &'static str =
    "application/vnd.docker.distribution.manifest.v2+json";
pub const DOCKER_CONTAINER_IMAGE: &'static str = "application/vnd.docker.container.image.v1+json";
pub const DOCKER_IMAGE_ROOTFS_DIFF_TAR_GZIP: &'static str =
    "application/vnd.docker.image.rootfs.diff.tar.gzip";

/// A media type: one of the registered OCI and Docker types, or any other
/// string kept as it was given.
#[allow(non_camel_case_types)]
#[derive(Debug, Clone, PartialEq, Eq)]
pub enum MediaType {
    OCI_DESCRIPTOR,
    OCI_LAYOUT_HEADER,
    /// Compatible with `DOCKER_DISTRIBUTION_MANIFEST_LIST`.
    OCI_IMAGE_INDEX,
    /// Compatible with `DOCKER_DISTRIBUTION_MANIFEST`.
    OCI_IMAGE_MANIFEST,
    /// Compatible with `DOCKER_CONTAINER_IMAGE`.
    OCI_IMAGE_CONFIG,
    OCI_IMAGE_LAYER_TAR,
    /// Compatible with `DOCKER_IMAGE_ROOTFS_DIFF_TAR_GZIP`.
    OCI_IMAGE_LAYER_TAR_GZIP,
    OCI_IMAGE_LAYER_TAR_ZSTD,
    OCI_EMPTY,
    /// Compatible with `OCI_IMAGE_INDEX`.
    DOCKER_DISTRIBUTION_MANIFEST_LIST,
    /// Compatible with `OCI_IMAGE_MANIFEST`.
    DOCKER_DISTRIBUTION_MANIFEST,
    /// Compatible with `OCI_IMAGE_LAYER_TAR_GZIP`.
    DOCKER_IMAGE_ROOTFS_DIFF_TAR_GZIP,
    /// Compatible with `OCI_IMAGE_CONFIG`.
    DOCKER_CONTAINER_IMAGE,
    /// Unknown media type.
    UNKNOWN(String),
}

/// The registered media type that the string `s` names, checked in the order
/// of the variants; `None` for any other string.
pub open spec fn known_media_type(s: Seq<char>) -> Option<MediaType> {
    if s == OCI_DESCRIPTOR@ {
        Some(MediaType::OCI_DESCRIPTOR)
    } else if s == OCI_LAYOUT_HEADER@ {
        Some(MediaType::OCI_LAYOUT_HEADER)
    } else if s == OCI_IMAGE_INDEX@ {
        Some(MediaType::OCI_IMAGE_INDEX)
    } else if s == OCI_IMAGE_MANIFEST@ {
        Some(MediaType::OCI_IMAGE_MANIFEST)
    } else if s == OCI_IMAGE_CONFIG@ {
        Some(MediaType::OCI_IMAGE_CONFIG)
    } else if s == OCI_IMAGE_LAYER_TAR@ {
        Some(MediaType::OCI_IMAGE_LAYER_TAR)
    } else if s == OCI_IMAGE_LAYER_TAR_GZIP@ {
        Some(MediaType::OCI_IMAGE_LAYER_TAR_GZIP)
    } else if s == OCI_IMAGE_LAYER_TAR_ZSTD@ {
        Some(MediaType::OCI_IMAGE_LAYER_TAR_ZSTD)
    } else if s == OCI_EMPTY@ {
        Some(MediaType::OCI_EMPTY)
    } else if s == DOCKER_DISTRIBUTION_MANIFEST_LIST@ {
        Some(MediaType::DOCKER_DISTRIBUTION_MANIFEST_LIST)
    } else if s == DOCKER_DISTRIBUTION_MANIFEST@ {
        Some(MediaType::DOCKER_DISTRIBUTION_MANIFEST)
    } else if s == DOCKER_IMAGE_ROOTFS_DIFF_TAR_GZIP@ {
        Some(MediaType::DOCKER_IMAGE_ROOTFS_DIFF_TAR_GZIP)
    } else if s == DOCKER_CONTAINER_IMAGE@ {
        Some(MediaType::DOCKER_CONTAINER_IMAGE)
    } else {
        None
    }
}

/// The media type that a string stands for.
pub open spec fn media_type_of(s: String) -> MediaType {
    match known_media_type(s@) {
        Some(m) => m,
        None => MediaType::UNKNOWN(s),
    }
}

/// The string that a media type is written as.
pub open spec fn media_type_str(m: MediaType) -> Seq<char> {
    match m {
        MediaType::OCI_DESCRIPTOR => OCI_DESCRIPTOR@,
        MediaType::OCI_LAYOUT_HEADER => OCI_LAYOUT_HEADER@,
        MediaType::OCI_IMAGE_INDEX => OCI_IMAGE_INDEX@,
        MediaType::OCI_IMAGE_MANIFEST => OCI_IMAGE_MANIFEST@,
        MediaType::OCI_IMAGE_CONFIG => OCI_IMAGE_CONFIG@,
        MediaType::OCI_IMAGE_LAYER_TAR => OCI_IMAGE_LAYER_TAR@,
        MediaType::OCI_IMAGE_LAYER_TAR_GZIP => OCI_IMAGE_LAYER_TAR_GZIP@,
        MediaType::OCI_IMAGE_LAYER_TAR_ZSTD => OCI_IMAGE_LAYER_TAR_ZSTD@,
        MediaType::OCI_EMPTY => OCI_EMPTY@,
        MediaType::DOCKER_DISTRIBUTION_MANIFEST_LIST => DOCKER_DISTRIBUTION_MANIFEST_LIST@,
        MediaType::DOCKER_DISTRIBUTION_MANIFEST => DOCKER_DISTRIBUTION_MANIFEST@,
        MediaType::DOCKER_IMAGE_ROOTFS_DIFF_TAR_GZIP => DOCKER_IMAGE_ROOTFS_DIFF_TAR_GZIP@,
        MediaType::DOCKER_CONTAINER_IMAGE => DOCKER_CONTAINER_IMAGE@,
        MediaType::UNKNOWN(s) => s@,
    }
}

impl MediaType {
    /// The media type that `media_type` names; any string that is not one of
    /// the registered types is kept as `UNKNOWN`.
    pub fn from_string(media_type: String) -> (r: MediaType)
        ensures
            r == media_type_of(media_type),
    {
        let s = media_type.as_str();
        if str_equals(s, OCI_DESCRIPTOR) {
            MediaType::OCI_DESCRIPTOR
        } else if str_equals(s, OCI_LAYOUT_HEADER) {
            MediaType::OCI_LAYOUT_HEADER
        } else if str_equals(s, OCI_IMAGE_INDEX) {
            MediaType::OCI_IMAGE_INDEX
        } else if str_equals(s, OCI_IMAGE_MANIFEST) {
            MediaType::OCI_IMAGE_MANIFEST
        } else if str_equals(s, OCI_IMAGE_CONFIG) {
            MediaType::OCI_IMAGE_CONFIG
        } else if str_equals(s, OCI_IMAGE_LAYER_TAR) {
            MediaType::OCI_IMAGE_LAYER_TAR
        } else if str_equals(s, OCI_IMAGE_LAYER_TAR_GZIP) {
            MediaType::OCI_IMAGE_LAYER_TAR_GZIP
        } else if str_equals(s, OCI_IMAGE_LAYER_TAR_ZSTD) {
            MediaType::OCI_IMAGE_LAYER_TAR_ZSTD
        } else if str_equals(s, OCI_EMPTY) {
            MediaType::OCI_EMPTY
        } else if str_equals(s, DOCKER_DISTRIBUTION_MANIFEST_LIST) {
            MediaType::DOCKER_DISTRIBUTION_MANIFEST_LIST
        } else if str_equals(s, DOCKER_DISTRIBUTION_MANIFEST) {
            MediaType::DOCKER_DISTRIBUTION_MANIFEST
        } else if str_equals(s, DOCKER_IMAGE_ROOTFS_DIFF_TAR_GZIP) {
            MediaType::DOCKER_IMAGE_ROOTFS_DIFF_TAR_GZIP
        } else if str_equals(s, DOCKER_CONTAINER_IMAGE) {
            MediaType::DOCKER_CONTAINER_IMAGE
        } else {
            MediaType::UNKNOWN(media_type)
        }
    }

    /// The string that this media type is written as.
    pub fn into_string(self) -> (r: String)
        ensures
            r@ == media_type_str(self),
    {
        match self {
            MediaType::OCI_DESCRIPTOR => OCI_DESCRIPTOR.to_owned(),
            MediaType::OCI_LAYOUT_HEADER => OCI_LAYOUT_HEADER.to_owned(),
            MediaType::OCI_IMAGE_INDEX => OCI_IMAGE_INDEX.to_owned(),
            MediaType::OCI_IMAGE_MANIFEST => OCI_IMAGE_MANIFEST.to_owned(),
            MediaType::OCI_IMAGE_CONFIG => OCI_IMAGE_CONFIG.to_owned(),
            MediaType::OCI_IMAGE_LAYER_TAR => OCI_IMAGE_LAYER_TAR.to_owned(),
            MediaType::OCI_IMAGE_LAYER_TAR_GZIP => OCI_IMAGE_LAYER_TAR_GZIP.to_owned(),
            MediaType::OCI_IMAGE_LAYER_TAR_ZSTD => OCI_IMAGE_LAYER_TAR_ZSTD.to_owned(),
            MediaType::OCI_EMPTY => OCI_EMPTY.to_owned(),
            MediaType::DOCKER_DISTRIBUTION_MANIFEST_LIST => DOCKER_DISTRIBUTION_MANIFEST_LIST.to_owned(),
            MediaType::DOCKER_DISTRIBUTION_MANIFEST => DOCKER_DISTRIBUTION_MANIFEST.to_owned(),
            MediaType::DOCKER_IMAGE_ROOTFS_DIFF_TAR_GZIP => DOCKER_IMAGE_ROOTFS_DIFF_TAR_GZIP.to_owned(),
            MediaType::DOCKER_CONTAINER_IMAGE => DOCKER_CONTAINER_IMAGE.to_owned(),
            MediaType::UNKNOWN(s) => s,
        }
    }
}

impl vstd::std_specs::convert::FromSpecImpl<String> for MediaType {
    open spec fn obeys_from_spec() -> bool {
        true
    }

    open spec fn from_spec(v: String) -> Self {
        media_type_of(v)
    }
}

impl From<String> for MediaType {
    fn from(media_type: String) -> (r: Self) {
        MediaType::from_string(media_type)
    }
}

impl vstd::std_specs::convert::FromSpecImpl<MediaType> for String {
    /// `from_spec` would have to name one particular `String` value, where
    /// only the characters of the result are determined; the conversion's
    /// own `ensures` states those characters.
    open spec fn obeys_from_spec() -> bool {
        false
    }

    open spec fn from_spec(v: MediaType) -> Self {
        arbitrary()
    }
}

impl From<MediaType> for String {
    fn from(media_type: MediaType) -> (r: Self)
        ensures
            r@ == media_type_str(media_type),
    {
        media_type.into_string()
    }
}

/// The lengths of the registered media type strings.
pub proof fn lemma_media_type_lengths()
    ensures
        OCI_DESCRIPTOR@.len() == 38,
        OCI_LAYOUT_HEADER@.len() == 41,
        OCI_IMAGE_INDEX@.len() == 39,
        OCI_IMAGE_MANIFEST@.len() == 42,
        OCI_IMAGE_CONFIG@.len() == 40,
        OCI_IMAGE_LAYER_TAR@.len() == 38,
        OCI_IMAGE_LAYER_TAR_GZIP@.len() == 43,
        OCI_IMAGE_LAYER_TAR_ZSTD@.len() == 43,
        OCI_EMPTY@.len() == 33,
        DOCKER_DISTRIBUTION_MANIFEST_LIST@.len() == 57,
        DOCKER_DISTRIBUTION_MANIFEST@.len() == 52,
        DOCKER_CONTAINER_IMAGE@.len() == 46,
        DOCKER_IMAGE_ROOTFS_DIFF_TAR_GZIP@.len() == 49,
{
    reveal_strlit("application/vnd.oci.descriptor.v1+json");
    reveal_strlit("application/vnd.oci.layout.header.v1+json");
    reveal_strlit("application/vnd.oci.image.index.v1+json");
    reveal_strlit("application/vnd.oci.image.manifest.v1+json");
    reveal_strlit("application/vnd.oci.image.config.v1+json");
    reveal_strlit("application/vnd.oci.image.layer.v1.tar");
    reveal_strlit("application/vnd.oci.image.layer.v1.tar+gzip");
    reveal_strlit("application/vnd.oci.image.layer.v1.tar+zstd");
    reveal_strlit("application/vnd.oci.empty.v1+json");
    reveal_strlit("application/vnd.docker.distribution.manifest.list.v2+json");
    reveal_strlit("application/vnd.docker.distribution.manifest.v2+json");
    reveal_strlit("application/vnd.docker.container.image.v1+json");
    reveal_strlit("application/vnd.docker.image.rootfs.diff.tar.gzip");
}

/// Each registered media type is written as the constant of the same name,
/// and a string reads as a registered media type exactly when it is that
/// type's constant.
pub proof fn law_registered_media_types_are_their_constants(s: String)
    ensures
        media_type_str(MediaType::OCI_DESCRIPTOR) == OCI_DESCRIPTOR@,
        media_type_of(s) == MediaType::OCI_DESCRIPTOR <==> s@ == OCI_DESCRIPTOR@,
        media_type_str(MediaType::OCI_LAYOUT_HEADER) == OCI_LAYOUT_HEADER@,
        media_type_of(s) == MediaType::OCI_LAYOUT_HEADER <==> s@ == OCI_LAYOUT_HEADER@,
        media_type_str(MediaType::OCI_IMAGE_INDEX) == OCI_IMAGE_INDEX@,
        media_type_of(s) == MediaType::OCI_IMAGE_INDEX <==> s@ == OCI_IMAGE_INDEX@,
        media_type_str(MediaType::OCI_IMAGE_MANIFEST) == OCI_IMAGE_MANIFEST@,
        media_type_of(s) == MediaType::OCI_IMAGE_MANIFEST <==> s@ == OCI_IMAGE_MANIFEST@,
        media_type_str(MediaType::OCI_IMAGE_CONFIG) == OCI_IMAGE_CONFIG@,
        media_type_of(s) == MediaType::OCI_IMAGE_CONFIG <==> s@ == OCI_IMAGE_CONFIG@,
        media_type_str(MediaType::OCI_IMAGE_LAYER_TAR) == OCI_IMAGE_LAYER_TAR@,
        media_type_of(s) == MediaType::OCI_IMAGE_LAYER_TAR <==> s@ == OCI_IMAGE_LAYER_TAR@,
        media_type_str(MediaType::OCI_IMAGE_LAYER_TAR_GZIP) == OCI_IMAGE_LAYER_TAR_GZIP@,
        media_type_of(s) == MediaType::OCI_IMAGE_LAYER_TAR_GZIP <==> s@ == OCI_IMAGE_LAYER_TAR_GZIP@,
        media_type_str(MediaType::OCI_IMAGE_LAYER_TAR_ZSTD) == OCI_IMAGE_LAYER_TAR_ZSTD@,
        media_type_of(s) == MediaType::OCI_IMAGE_LAYER_TAR_ZSTD <==> s@ == OCI_IMAGE_LAYER_TAR_ZSTD@,
        media_type_str(MediaType::OCI_EMPTY) == OCI_EMPTY@,
        media_type_of(s) == MediaType::OCI_EMPTY <==> s@ == OCI_EMPTY@,
        media_type_str(MediaType::DOCKER_DISTRIBUTION_MANIFEST_LIST) == DOCKER_DISTRIBUTION_MANIFEST_LIST@,
        media_type_of(s) == MediaType::DOCKER_DISTRIBUTION_MANIFEST_LIST <==> s@ == DOCKER_DISTRIBUTION_MANIFEST_LIST@,
        media_type_str(MediaType::DOCKER_DISTRIBUTION_MANIFEST) == DOCKER_DISTRIBUTION_MANIFEST@,
        media_type_of(s) == MediaType::DOCKER_DISTRIBUTION_MANIFEST <==> s@ == DOCKER_DISTRIBUTION_MANIFEST@,
        media_type_str(MediaType::DOCKER_IMAGE_ROOTFS_DIFF_TAR_GZIP) == DOCKER_IMAGE_ROOTFS_DIFF_TAR_GZIP@,
        media_type_of(s) == MediaType::DOCKER_IMAGE_ROOTFS_DIFF_TAR_GZIP <==> s@ == DOCKER_IMAGE_ROOTFS_DIFF_TAR_GZIP@,
        media_type_str(MediaType::DOCKER_CONTAINER_IMAGE) == DOCKER_CONTAINER_IMAGE@,
        media_type_of(s) == MediaType::DOCKER_CONTAINER_IMAGE <==> s@ == DOCKER_CONTAINER_IMAGE@,
{
    lemma_media_type_lengths();
    reveal_strlit("application/vnd.oci.descriptor.v1+json");
    reveal_strlit("application/vnd.oci.image.layer.v1.tar");
    reveal_strlit("application/vnd.oci.image.layer.v1.tar+gzip");
    reveal_strlit("application/vnd.oci.image.layer.v1.tar+zstd");
    assert(OCI_DESCRIPTOR@[20] != OCI_IMAGE_LAYER_TAR@[20]);
    assert(OCI_IMAGE_LAYER_TAR_GZIP@[39] != OCI_IMAGE_LAYER_TAR_ZSTD@[39]);
}

/// Writing a string as a media type and reading it back gives the same
/// string, whether or not it names a registered type. `MediaType::from`
/// returns `media_type_of` of its argument and `String::from` a string
/// whose characters are `media_type_str` of its argument, so this is the
/// round trip of the two conversions.
pub proof fn media_type_string_round_trip(s: String)
    ensures
        media_type_str(media_type_of(s)) == s@,
{
}

/// Reading back the string that a media type is written as gives the same
/// media type, for every media type but an `UNKNOWN` one that holds the
/// string of a registered type; `s` is any string with the characters that
/// `String::from(m)` returns.
pub proof fn media_type_value_round_trip(m: MediaType, s: String)
    requires
        s@ == media_type_str(m),
        m matches MediaType::UNKNOWN(u) ==> known_media_type(u@) is None,
    ensures
        m !is UNKNOWN ==> media_type_of(s) == m,
        m is UNKNOWN ==> media_type_of(s) == MediaType::UNKNOWN(s),
{
    reveal_strlit("application/vnd.oci.descriptor.v1+json");
    reveal_strlit("application/vnd.oci.layout.header.v1+json");
    reveal_strlit("application/vnd.oci.image.index.v1+json");
    reveal_strlit("application/vnd.oci.image.manifest.v1+json");
    reveal_strlit("application/vnd.oci.image.config.v1+json");
    reveal_strlit("application/vnd.oci.image.layer.v1.tar");
    reveal_strlit("application/vnd.oci.image.layer.v1.tar+gzip");
    reveal_strlit("application/vnd.oci.image.layer.v1.tar+zstd");
    reveal_strlit("application/vnd.oci.empty.v1+json");
    reveal_strlit("application/vnd.docker.distribution.manifest.list.v2+json");
    reveal_strlit("application/vnd.docker.distribution.manifest.v2+json");
    reveal_strlit("application/vnd.docker.container.image.v1+json");
    reveal_strlit("application/vnd.docker.image.rootfs.diff.tar.gzip");
    assert(OCI_DESCRIPTOR@.len() == 38);
    assert(OCI_LAYOUT_HEADER@.len() == 41);
    assert(OCI_IMAGE_INDEX@.len() == 39);
    assert(OCI_IMAGE_MANIFEST@.len() == 42);
    assert(OCI_IMAGE_CONFIG@.len() == 40);
    assert(OCI_IMAGE_LAYER_TAR@.len() == 38);
    assert(OCI_IMAGE_LAYER_TAR_GZIP@.len() == 43);
    assert(OCI_IMAGE_LAYER_TAR_ZSTD@.len() == 43);
    assert(OCI_EMPTY@.len() == 33);
    assert(DOCKER_DISTRIBUTION_MANIFEST_LIST@.len() == 57);
    assert(DOCKER_DISTRIBUTION_MANIFEST@.len() == 52);
    assert(DOCKER_CONTAINER_IMAGE@.len() == 46);
    assert(DOCKER_IMAGE_ROOTFS_DIFF_TAR_GZIP@.len() == 49);
    assert(OCI_DESCRIPTOR@[20] != OCI_IMAGE_LAYER_TAR@[20]);
    assert(OCI_DESCRIPTOR@ != OCI_IMAGE_LAYER_TAR@);
    assert(OCI_IMAGE_LAYER_TAR_GZIP@[39] != OCI_IMAGE_LAYER_TAR_ZSTD@[39]);
    assert(OCI_IMAGE_LAYER_TAR_GZIP@ != OCI_IMAGE_LAYER_TAR_ZSTD@);
}

} // verus!
