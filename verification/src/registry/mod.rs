//! The image registry: the documents it serves and what the client asks of
//! it.

pub mod resolve;
pub mod types;

pub use types::{
    Descriptor, ImageManifest, ManifestDescriptor, ManifestEnvelope, ManifestList, Platform,
    MANIFEST_LIST_V2, MANIFEST_V2, OCI_INDEX, OCI_MANIFEST,
};
