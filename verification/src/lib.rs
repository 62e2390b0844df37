//! Container image references, OCI image-spec data types and the decisions
//! taken while pulling and running an image.

pub mod text;
pub mod specs;
pub mod image;
pub mod registry;
pub mod cli;
