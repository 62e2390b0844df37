//! Rules shared by the documents of the image specification, and the errors
//! that refuse a document.

use vstd::prelude::*;

use crate::specs::media_type::{MediaType, OCI_IMAGE_INDEX, OCI_IMAGE_MANIFEST};

verus! {

/// Why a field of a document was refused.
#[derive(Debug)]
pub enum SpecError {
    /// `schemaVersion` was not 2.
    SchemaVersion(u8),
    /// The `mediaType` of an image index is not an index type.
    IndexMediaType(MediaType),
    /// The `mediaType` of an image manifest is not a manifest type.
    ManifestMediaType(MediaType),
    /// An image manifest listed no layer.
    EmptyLayers,
    /// `rootfs.type` was not `layers`.
    RootFsType(String),
}

/// The message that refuses a document for the error `e`.
pub open spec fn spec_error_message(e: SpecError) -> Seq<char> {
    match e {
        SpecError::SchemaVersion(_) => "schemaVersion must be 2"@,
        SpecError::IndexMediaType(_) => "mediaType must be "@ + OCI_IMAGE_INDEX@
            + ", or compatible with it"@,
        SpecError::ManifestMediaType(_) => "mediaType must be "@ + OCI_IMAGE_MANIFEST@
            + ", or compatible with it"@,
        SpecError::EmptyLayers => "layers must contain at least 1 item"@,
        SpecError::RootFsType(v) => "rootfs type must be \"layers\", got: "@ + v@,
    }
}

impl SpecError {
    /// The message that refuses the document.
    pub fn message(&self) -> (r: String)
        ensures
            r@ == spec_error_message(*self),
    {
        match self {
            SpecError::SchemaVersion(_) => "schemaVersion must be 2".to_owned(),
            SpecError::IndexMediaType(_) => "mediaType must be ".to_owned().concat(
                OCI_IMAGE_INDEX,
            ).concat(", or compatible with it"),
            SpecError::ManifestMediaType(_) => "mediaType must be ".to_owned().concat(
                OCI_IMAGE_MANIFEST,
            ).concat(", or compatible with it"),
            SpecError::EmptyLayers => "layers must contain at least 1 item".to_owned(),
            SpecError::RootFsType(v) => "rootfs type must be \"layers\", got: ".to_owned().concat(
                v.as_str(),
            ),
        }
    }
}

/// Accepts `schemaVersion` 2 only, for backward compatibility with older
/// versions of Docker.
pub fn check_schema_version(value: u8) -> (r: Result<u8, SpecError>)
    ensures
        value == 2 ==> r == Ok::<u8, SpecError>(value),
        value != 2 ==> r == Err::<u8, SpecError>(SpecError::SchemaVersion(value)),
{
    if value != 2 {
        return Err(SpecError::SchemaVersion(value));
    }
    Ok(value)
}

} // verus!
