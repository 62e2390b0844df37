//! The image manifest: the configuration and the layers of one image.

use std::collections::HashMap;

use vstd::prelude::*;

use crate::specs::descriptor::Descriptor;
use crate::specs::index::is_index_media_type;
use crate::specs::media_type::{
    lemma_media_type_lengths, media_type_str, MediaType, DOCKER_DISTRIBUTION_MANIFEST,
    OCI_IMAGE_MANIFEST,
};
use crate::specs::validation::SpecError;

verus! {

#[derive(Debug, Clone)]
pub struct Manifest {
    pub schema_version: u8,
    pub media_type: Option<MediaType>,
    pub artifact_type: Option<String>,
    pub config: Descriptor,
    pub layers: Vec<Descriptor>,
    pub subject: Option<Descriptor>,
    pub annotations: Option<HashMap<String, String>>,
}

/// The media types an image manifest may declare.
pub open spec fn is_manifest_media_type(m: MediaType) -> bool {
    m is OCI_IMAGE_MANIFEST || m is DOCKER_DISTRIBUTION_MANIFEST
}

/// The media types an image manifest may declare are exactly the
/// registered ones written as `application/vnd.oci.image.manifest.v1+json`
/// or as the Docker manifest; an `UNKNOWN` type is never one.
pub proof fn law_manifest_media_types_are_the_manifest_strings(m: MediaType)
    ensures
        is_manifest_media_type(m) <==> (m !is UNKNOWN && (media_type_str(m) == OCI_IMAGE_MANIFEST@
            || media_type_str(m) == DOCKER_DISTRIBUTION_MANIFEST@)),
{
    lemma_media_type_lengths();
}

/// No media type is accepted both for an image index and for an image
/// manifest.
pub proof fn law_index_and_manifest_media_types_are_disjoint(m: MediaType)
    ensures
        !(is_index_media_type(m) && is_manifest_media_type(m)),
{
}

/// Accepts as the `mediaType` of an image manifest only
/// `application/vnd.oci.image.manifest.v1+json` or the Docker manifest,
/// which is compatible with it.
pub fn check_manifest_media_type(value: MediaType) -> (r: Result<Option<MediaType>, SpecError>)
    ensures
        is_manifest_media_type(value) ==> r == Ok::<Option<MediaType>, SpecError>(Some(value)),
        !is_manifest_media_type(value) ==> r == Err::<Option<MediaType>, SpecError>(
            SpecError::ManifestMediaType(value),
        ),
{
    if !matches!(&value, MediaType::OCI_IMAGE_MANIFEST | MediaType::DOCKER_DISTRIBUTION_MANIFEST) {
        return Err(SpecError::ManifestMediaType(value));
    }
    Ok(Some(value))
}

/// Accepts a list of layers only when it holds at least one layer.
pub fn check_layers(layers: Vec<Descriptor>) -> (r: Result<Vec<Descriptor>, SpecError>)
    ensures
        layers.len() > 0 ==> r == Ok::<Vec<Descriptor>, SpecError>(layers),
        layers.len() == 0 ==> r == Err::<Vec<Descriptor>, SpecError>(SpecError::EmptyLayers),
{
    if layers.is_empty() {
        return Err(SpecError::EmptyLayers);
    }
    Ok(layers)
}

} // verus!
