//! The parts of the registry's manifest documents that the client reads.

use vstd::prelude::*;

verus! {

pub const MANIFEST_LIST_V2: &'static str = "application/vnd.docker.distribution.manifest.list.v2+json";
pub const OCI_INDEX: &'static str = "application/vnd.oci.image.index.v1+json";
pub const MANIFEST_V2: &'static str = "application/vnd.docker.distribution.manifest.v2+json";
pub const OCI_MANIFEST: &'static str = "application/vnd.oci.image.manifest.v1+json";

/// A list of manifests, one for each platform.
#[derive(Debug, Clone)]
pub struct ManifestList {
    pub manifests: Vec<ManifestDescriptor>,
}

/// The manifest of one platform in a manifest list.
#[derive(Debug, Clone)]
pub struct ManifestDescriptor {
    pub digest: String,
    pub platform: Platform,
    pub size: u64,
}

/// The operating system and architecture that an image runs on.
#[derive(Debug, Clone)]
pub struct Platform {
    pub architecture: String,
    pub os: String,
}

/// The configuration and the layers of one image.
#[derive(Debug, Clone)]
pub struct ImageManifest {
    pub config: Descriptor,
    pub layers: Vec<Descriptor>,
}

/// A blob that the registry serves.
#[derive(Debug, Clone)]
pub struct Descriptor {
    pub digest: String,
    pub size: u64,
}

/// The one field read from a manifest before its shape is known. OCI
/// manifests do not always include it.
pub struct ManifestEnvelope {
    pub media_type: Option<String>,
}

} // verus!
