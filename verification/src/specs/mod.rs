//! Data types of the OCI image specification, and the rules that a document
//! must follow to be read as one of them.

pub mod config;
pub mod descriptor;
pub mod index;
pub mod manifest;
pub mod media_type;
pub mod validation;
