//! The image index: a list of manifests, one for each platform.

use std::collections::HashMap;

use vstd::prelude::*;

use crate::specs::descriptor::Descriptor;
use crate::specs::media_type::{
    lemma_media_type_lengths, media_type_str, MediaType, DOCKER_DISTRIBUTION_MANIFEST_LIST,
    OCI_IMAGE_INDEX,
};
use crate::specs::validation::SpecError;

verus! {

#[derive(Debug, Clone)]
pub struct ImageIndex {
    pub schema_version: u8,
    pub media_type: Option<MediaType>,
    pub artifact_type: Option<String>,
    pub manifest: Vec<Descriptor>,
    pub subject: Option<Descriptor>,
    pub annotations: Option<HashMap<String, String>>,
}

/// The media types an image index may declare.
pub open spec fn is_index_media_type(m: MediaType) -> bool {
    m is OCI_IMAGE_INDEX || m is DOCKER_DISTRIBUTION_MANIFEST_LIST
}

/// The media types an image index may declare are exactly the registered
/// ones written as `application/vnd.oci.image.index.v1+json` or as the
/// Docker manifest list; an `UNKNOWN` type is never one, whatever it holds.
pub proof fn law_index_media_types_are_the_index_strings(m: MediaType)
    ensures
        is_index_media_type(m) <==> (m !is UNKNOWN && (media_type_str(m) == OCI_IMAGE_INDEX@
            || media_type_str(m) == DOCKER_DISTRIBUTION_MANIFEST_LIST@)),
{
    lemma_media_type_lengths();
}

/// Accepts as the `mediaType` of an image index only
/// `application/vnd.oci.image.index.v1+json` or the Docker manifest list,
/// which is compatible with it.
pub fn check_index_media_type(value: MediaType) -> (r: Result<Option<MediaType>, SpecError>)
    ensures
        is_index_media_type(value) ==> r == Ok::<Option<MediaType>, SpecError>(Some(value)),
        !is_index_media_type(value) ==> r == Err::<Option<MediaType>, SpecError>(
            SpecError::IndexMediaType(value),
        ),
{
    if !matches!(&value, MediaType::OCI_IMAGE_INDEX | MediaType::DOCKER_DISTRIBUTION_MANIFEST_LIST) {
        return Err(SpecError::IndexMediaType(value));
    }
    Ok(Some(value))
}

} // verus!
