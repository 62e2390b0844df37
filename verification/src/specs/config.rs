//! The image configuration: the execution parameters of a container.

use std::collections::{HashMap, HashSet};

use vstd::prelude::*;

use crate::specs::descriptor::Digest;
use crate::specs::validation::SpecError;
use crate::text::str_equals;

verus! {

/// Defines the execution parameters for use within a container runtime.
/// Its corresponding media type is `application/vnd.oci.image.config.v1+json`.
#[derive(Debug, Clone)]
pub struct ImageConfiguration {
    pub created: Option<String>,
    pub author: Option<String>,
    pub architecture: String,
    pub os: String,
    pub os_version: Option<String>,
    pub os_features: Option<Vec<String>>,
    pub variant: Option<String>,
    pub config: Option<Config>,
    pub rootfs: RootFs,
    pub history: Option<Vec<History>>,
}

/// A set of strings, written as an object that maps each key to an empty
/// object, e.g. `{"8080/tcp": {}, "9090/udp": {}}`. Only the keys carry
/// meaning.
#[derive(Debug, Default, PartialEq, Eq)]
pub struct StringSet(pub HashSet<String>);

/// Calls `HashSet::clone`, which the standard library documents as
/// returning a set with the same elements; the contract claims that of the
/// sets' views.
#[verifier::external_body]
fn clone_key_set(keys: &HashSet<String>) -> (r: HashSet<String>)
    ensures
        r@ == keys@,
{
    keys.clone()
}

impl Clone for StringSet {
    fn clone(&self) -> (r: Self)
        ensures
            r.0@ == self.0@,
    {
        StringSet(clone_key_set(&self.0))
    }
}

/// Execution parameters which should be used as a base when running a
/// container.
#[derive(Debug, Clone, Default)]
pub struct Config {
    pub user: Option<String>,
    /// Keys are `port/tcp`, `port/udp`, or `port` (default protocol: tcp).
    pub exposed_ports: Option<StringSet>,
    pub env: Option<Vec<String>>,
    pub entrypoint: Option<Vec<String>>,
    pub cmd: Option<Vec<String>>,
    /// Directories likely to hold container-instance-specific data.
    pub volumes: Option<StringSet>,
    pub working_dir: Option<String>,
    pub labels: Option<HashMap<String, String>>,
    pub stop_signal: Option<String>,
}

/// References the layer content addresses used by the image.
#[derive(Debug, Clone)]
pub struct RootFs {
    pub fs_type: String,
    /// Digests of each layer's uncompressed tar archive, ordered first to
    /// last.
    pub diff_ids: Vec<Digest>,
}

/// Describes the history of a single layer. Purely informational.
#[derive(Debug, Clone, Default)]
pub struct History {
    pub created: Option<String>,
    pub author: Option<String>,
    pub created_by: Option<String>,
    pub comment: Option<String>,
    pub empty_layer: Option<bool>,
}

/// Accepts `layers` as the type of a root filesystem, and nothing else.
pub fn check_rootfs_type(value: String) -> (r: Result<String, SpecError>)
    ensures
        value@ == "layers"@ ==> r == Ok::<String, SpecError>(value),
        value@ != "layers"@ ==> r == Err::<String, SpecError>(SpecError::RootFsType(value)),
{
    if !str_equals(value.as_str(), "layers") {
        return Err(SpecError::RootFsType(value));
    }
    Ok(value)
}

} // verus!
