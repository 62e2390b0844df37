//! What the client asks the registry, and how it picks the manifest of the
//! image to pull from what the registry answers.

use vstd::prelude::*;

use crate::image::{ImageName, Reference};
use crate::registry::types::{ManifestDescriptor, ManifestEnvelope, ManifestList, MANIFEST_LIST_V2, MANIFEST_V2, OCI_INDEX, OCI_MANIFEST};
use crate::text::str_equals;

verus! {

pub const AUTH_URL: &'static str = "https://auth.docker.io";
pub const REGISTRY_URL: &'static str = "https://registry-1.docker.io";

/// The service that a pull token is asked for.
pub const TOKEN_SERVICE: &'static str = "registry.docker.io";

/// What the second request, for the manifest of one platform, accepts.
pub const IMAGE_MANIFEST_ACCEPT: &'static str =
    "application/vnd.docker.distribution.manifest.v2+json, application/vnd.oci.image.manifest.v1+json";

/// The repository path and the tag or digest that every request of a pull
/// names.
#[derive(Debug, Clone)]
pub struct RegistryTarget {
    pub repository: String,
    pub reference: String,
}

/// The tag or the digest of a reference, as written.
pub open spec fn reference_text(r: Reference) -> Seq<char> {
    match r {
        Reference::Tag(t) => t@,
        Reference::Digest(d) => d@,
    }
}

/// Whether a manifest of a list is the one for `os` and `arch`.
pub open spec fn is_platform_match(d: ManifestDescriptor, os: Seq<char>, arch: Seq<char>) -> bool {
    d.platform.architecture@ == arch && d.platform.os@ == os
}

/// The shape of a manifest document.
#[derive(Debug, Clone, Copy, PartialEq, Eq)]
pub enum ManifestShape {
    /// A list of manifests, one for each platform.
    List,
    /// The manifest of one image.
    Image,
}

/// The shape that the media type `m` announces: a list for the Docker
/// manifest list and the OCI index, an image manifest for anything else.
pub open spec fn shape_of(m: Seq<char>) -> ManifestShape {
    if m == MANIFEST_LIST_V2@ || m == OCI_INDEX@ {
        ManifestShape::List
    } else {
        ManifestShape::Image
    }
}

/// No manifest of a list is for the platform the client runs on.
#[derive(Debug, Clone)]
pub struct NoPlatformManifest {
    pub os: String,
    pub arch: String,
}

impl NoPlatformManifest {
    /// The message that reports the missing platform.
    pub fn message(&self) -> (r: String)
        ensures
            r@ == "No manifest found for the current platform (os: "@ + self.os@ + ", arch: "@
                + self.arch@ + ")"@,
    {
        "No manifest found for the current platform (os: ".to_owned().concat(self.os.as_str()).concat(
            ", arch: ",
        ).concat(self.arch.as_str()).concat(")")
    }
}

impl RegistryTarget {
    /// The repository path `repository/name` and the tag or digest of an
    /// image reference.
    pub fn new(image: ImageName) -> (r: RegistryTarget)
        ensures
            r.repository@ == image.repository@ + "/"@ + image.name@,
            r.reference@ == reference_text(image.reference),
            image.reference matches Reference::Digest(d) ==> r.reference@ == d@,
            image.reference matches Reference::Tag(t) ==> r.reference@ == t@,
    {
        let repository = image.repository.concat("/").concat(image.name.as_str());
        let reference = match image.reference {
            Reference::Tag(t) => t,
            Reference::Digest(d) => d,
        };
        RegistryTarget { repository, reference }
    }

    /// The scope that a pull token for this repository is asked for.
    pub fn token_scope(&self) -> (r: String)
        ensures
            r@ == "repository:"@ + self.repository@ + ":pull"@,
    {
        "repository:".to_owned().concat(self.repository.as_str()).concat(":pull")
    }

    /// The address of the manifest that `reference` names in this
    /// repository.
    pub fn manifest_url(&self, reference: &str) -> (r: String)
        ensures
            r@ == REGISTRY_URL@ + "/v2/"@ + self.repository@ + "/manifests/"@ + reference@,
    {
        REGISTRY_URL.to_owned().concat("/v2/").concat(self.repository.as_str()).concat(
            "/manifests/",
        ).concat(reference)
    }

    /// The address of the blob with digest `digest` in this repository.
    pub fn blob_url(&self, digest: &str) -> (r: String)
        ensures
            r@ == REGISTRY_URL@ + "/v2/"@ + self.repository@ + "/blobs/"@ + digest@,
    {
        REGISTRY_URL.to_owned().concat("/v2/").concat(self.repository.as_str()).concat(
            "/blobs/",
        ).concat(digest)
    }
}

/// The address that pull tokens are asked from.
pub fn token_url() -> (r: String)
    ensures
        r@ == AUTH_URL@ + "/token"@,
{
    AUTH_URL.to_owned().concat("/token")
}

/// The value of the `Authorization` header that carries `token`.
pub fn bearer_authorization(token: &str) -> (r: String)
    ensures
        r@ == "Bearer "@ + token@,
{
    "Bearer ".to_owned().concat(token)
}

/// The architecture name that registries use for the machine's
/// architecture `arch`: `x86_64` is called `amd64`.
pub fn platform_arch(arch: &str) -> (r: String)
    ensures
        arch@ == "x86_64"@ ==> r@ == "amd64"@,
        arch@ != "x86_64"@ ==> r@ == arch@,
{
    if str_equals(arch, "x86_64") {
        "amd64".to_owned()
    } else {
        arch.to_owned()
    }
}

/// What the first manifest request accepts: both manifest lists and image
/// manifests, in the Docker and the OCI form.
pub fn manifest_accept() -> (r: String)
    ensures
        r@ == MANIFEST_LIST_V2@ + ", "@ + OCI_INDEX@ + ",  "@ + MANIFEST_V2@ + ", "@ + OCI_MANIFEST@,
{
    MANIFEST_LIST_V2.to_owned().concat(", ").concat(OCI_INDEX).concat(",  ").concat(
        MANIFEST_V2,
    ).concat(", ").concat(OCI_MANIFEST)
}

/// The media type of a manifest: the one its document declares, or else
/// the `Content-Type` of the response.
pub fn effective_media_type(envelope: ManifestEnvelope, content_type: String) -> (r: String)
    ensures
        envelope.media_type matches Some(m) ==> r == m,
        envelope.media_type is None ==> r == content_type,
{
    match envelope.media_type {
        Some(m) => m,
        None => content_type,
    }
}

/// The shape of a manifest with media type `media_type`.
pub fn manifest_shape(media_type: &str) -> (r: ManifestShape)
    ensures
        r == shape_of(media_type@),
{
    if str_equals(media_type, MANIFEST_LIST_V2) || str_equals(media_type, OCI_INDEX) {
        ManifestShape::List
    } else {
        ManifestShape::Image
    }
}

/// The position of the first manifest of the list for `os` and `arch`.
pub fn find_platform_manifest(list: &ManifestList, os: &str, arch: &str) -> (r: Option<usize>)
    ensures
        r matches Some(i) ==> {
            &&& i < list.manifests@.len()
            &&& is_platform_match(list.manifests@[i as int], os@, arch@)
            &&& forall|j: int| 0 <= j < i ==> !is_platform_match(#[trigger] list.manifests@[j], os@, arch@)
        },
        r is None ==> forall|j: int|
            0 <= j < list.manifests@.len() ==> !is_platform_match(#[trigger] list.manifests@[j], os@, arch@),
{
    let n = list.manifests.len();
    let mut i: usize = 0;
    while i < n
        invariant
            n == list.manifests@.len(),
            i <= n,
            forall|j: int| 0 <= j < i ==> !is_platform_match(#[trigger] list.manifests@[j], os@, arch@),
        decreases n - i,
    {
        let m = &list.manifests[i];
        if str_equals(m.platform.architecture.as_str(), arch) && str_equals(m.platform.os.as_str(), os) {
            return Some(i);
        }
        i = i + 1;
    }
    None
}

/// The first manifest of the list for `os` and `arch`.
pub fn select_platform_manifest(list: ManifestList, os: &str, arch: &str) -> (r: Result<ManifestDescriptor, NoPlatformManifest>)
    ensures
        r matches Ok(d) ==> exists|i: int| {
            &&& 0 <= i < list.manifests@.len()
            &&& d == list.manifests@[i]
            &&& is_platform_match(list.manifests@[i], os@, arch@)
            &&& forall|j: int| 0 <= j < i ==> !is_platform_match(#[trigger] list.manifests@[j], os@, arch@)
        },
        r matches Err(e) ==> {
            &&& e.os@ == os@
            &&& e.arch@ == arch@
            &&& forall|j: int|
                0 <= j < list.manifests@.len() ==> !is_platform_match(#[trigger] list.manifests@[j], os@, arch@)
        },
        r is Ok <==> exists|j: int|
            0 <= j < list.manifests@.len() && is_platform_match(#[trigger] list.manifests@[j], os@, arch@),
{
    match find_platform_manifest(&list, os, arch) {
        Some(i) => {
            let ghost all = list.manifests@;
            let mut manifests = list.manifests;
            let d = manifests.remove(i);
            assert(d == all[i as int]);
            Ok(d)
        },
        None => Err(NoPlatformManifest { os: os.to_owned(), arch: arch.to_owned() }),
    }
}

/// A manifest is read as a list exactly when its media type is the Docker
/// manifest list or the OCI index; the Docker and OCI image manifests are
/// read as image manifests.
pub proof fn law_only_list_types_are_lists(m: Seq<char>)
    ensures
        shape_of(m) == ManifestShape::List <==> (m == MANIFEST_LIST_V2@ || m == OCI_INDEX@),
        shape_of(MANIFEST_V2@) == ManifestShape::Image,
        shape_of(OCI_MANIFEST@) == ManifestShape::Image,
{
    reveal_strlit("application/vnd.docker.distribution.manifest.list.v2+json");
    reveal_strlit("application/vnd.oci.image.index.v1+json");
    reveal_strlit("application/vnd.docker.distribution.manifest.v2+json");
    reveal_strlit("application/vnd.oci.image.manifest.v1+json");
    assert(MANIFEST_LIST_V2@.len() == 57);
    assert(OCI_INDEX@.len() == 39);
    assert(MANIFEST_V2@.len() == 52);
    assert(OCI_MANIFEST@.len() == 42);
}

/// The reference a target names is the text of the image's reference,
/// whatever its kind: the digest of a digest reference, the tag of a tag
/// reference. Its repository is the image's repository and name joined by
/// `/`.
pub proof fn law_target_names_the_image_reference(image: ImageName, t: RegistryTarget)
    requires
        t.repository@ == image.repository@ + "/"@ + image.name@,
        t.reference@ == reference_text(image.reference),
    ensures
        image.reference matches Reference::Digest(d) ==> t.reference@ == d@,
        image.reference matches Reference::Tag(tag) ==> t.reference@ == tag@,
        t.repository@.len() == image.repository@.len() + 1 + image.name@.len(),
        t.repository@.take(image.repository@.len() as int) == image.repository@,
        t.repository@.skip(image.repository@.len() as int + 1) == image.name@,
{
    reveal_strlit("/");
    assert(t.repository@.take(image.repository@.len() as int) =~= image.repository@);
    assert(t.repository@.skip(image.repository@.len() as int + 1) =~= image.name@);
}

/// The digest of the manifest to ask for next, when the first answer was a
/// manifest list: that of the first manifest of the list for `os` and
/// `arch`.
pub fn platform_manifest_digest(list: ManifestList, os: &str, arch: &str) -> (r: Result<String, NoPlatformManifest>)
    ensures
        r matches Ok(digest) ==> exists|i: int| {
            &&& 0 <= i < list.manifests@.len()
            &&& digest == list.manifests@[i].digest
            &&& is_platform_match(list.manifests@[i], os@, arch@)
            &&& forall|j: int| 0 <= j < i ==> !is_platform_match(#[trigger] list.manifests@[j], os@, arch@)
        },
        r matches Err(e) ==> {
            &&& e.os@ == os@
            &&& e.arch@ == arch@
            &&& forall|j: int|
                0 <= j < list.manifests@.len() ==> !is_platform_match(#[trigger] list.manifests@[j], os@, arch@)
        },
        r is Ok <==> exists|j: int|
            0 <= j < list.manifests@.len() && is_platform_match(#[trigger] list.manifests@[j], os@, arch@),
{
    match select_platform_manifest(list, os, arch) {
        Ok(d) => Ok(d.digest),
        Err(e) => Err(e),
    }
}

} // verus!
