//! The command line: its arguments, and the names, paths and arguments that
//! pulling and running an image use.

use vstd::prelude::*;
use vstd::string::StringSliceAdditionalSpecFns;
use vstd::utf8::{encode_utf8, is_char_boundary};

use crate::text::{after_last, after_last_spec, byte_slice, decimal_digits, decimal_string};

verus! {

/// Where the layers of a pulled image are unpacked.
pub const TARGET: &'static str = "./tmp/rootfs";

/// The directory that a pull writes into.
pub const WORK_DIR: &'static str = "./tmp";

/// Where the configuration of a pulled image is written.
pub const CONFIG_PATH: &'static str = "./tmp/config.json";

/// The prefix of the temporary directory that holds downloaded layers.
pub const LAYERS_DIR_PREFIX: &'static str = "layers-";

/// The program that re-executes itself inside the new namespaces.
pub const SELF_EXE: &'static str = "/proc/self/exe";

/// The hidden subcommand that runs inside the new namespaces.
pub const CHILD_COMMAND: &'static str = "child";

/// The host name inside a container.
pub const CONTAINER_HOSTNAME: &'static str = "container";

/// What is written to `/proc/self/setgroups` before the group map.
pub const SETGROUPS_DENY: &'static str = "deny\n";

/// The command line of the program.
#[derive(Debug, Clone)]
pub struct Cli {
    pub command: Command,
}

/// The subcommands.
#[derive(Debug, Clone)]
pub enum Command {
    /// Download an image from a registry
    Pull(PullArgs),
    /// Create and run a new container from an image
    Run(RunArgs),
    Child(RunArgs),
}

#[derive(Debug, Clone)]
pub struct PullArgs {
    pub image: String,
}

#[derive(Debug, Clone)]
pub struct RunArgs {
    pub command: Vec<String>,
}

/// The arguments with which the program runs itself inside the new
/// namespaces: the hidden subcommand, then the user's command.
pub fn child_args(command: &Vec<String>) -> (r: Vec<String>)
    ensures
        r@.len() == command@.len() + 1,
        r@[0]@ == CHILD_COMMAND@,
        forall|i: int| 0 <= i < command@.len() ==> #[trigger] r@[i + 1]@ == command@[i]@,
{
    let mut r: Vec<String> = Vec::new();
    r.push(CHILD_COMMAND.to_owned());
    let n = command.len();
    let mut i: usize = 0;
    while i < n
        invariant
            n == command@.len(),
            i <= n,
            r@.len() == i + 1,
            r@[0]@ == CHILD_COMMAND@,
            forall|j: int| 0 <= j < i ==> #[trigger] r@[j + 1]@ == command@[j]@,
        decreases n - i,
    {
        r.push(command[i].clone());
        i = i + 1;
    }
    r
}

/// The line of a user or group map that maps `id` outside the namespace to
/// 0 inside it: `<inside-id> <outside-id> <range-length>`.
pub fn id_map_line(id: u32) -> (r: String)
    ensures
        r@ == "0 "@ + decimal_digits(id as nat) + " 1\n"@,
{
    "0 ".to_owned().concat(decimal_string(id as u64).as_str()).concat(" 1\n")
}

/// The file name under which the layer at position `index`, with digest
/// `digest`, is downloaded.
pub fn layer_file_name(index: usize, digest: &str) -> (r: String)
    ensures
        r@ == decimal_digits(index as nat) + "_"@ + digest@ + ".tar.gz"@,
{
    decimal_string(index as u64).concat("_").concat(digest).concat(".tar.gz")
}

/// The short form of a layer digest shown while it downloads: bytes 7 to
/// 19, the first twelve digits after `sha256:`.
pub fn digest_short(digest: &str) -> (r: &str)
    requires
        19 <= digest.spec_bytes().len(),
        is_char_boundary(digest.spec_bytes(), 7),
        is_char_boundary(digest.spec_bytes(), 19),
    ensures
        r.spec_bytes() == digest.spec_bytes().subrange(7, 19),
{
    byte_slice(digest, 7, 19)
}

/// The short form shown while a downloaded layer is unpacked, taken from
/// its file name: bytes 7 to 19 of what follows the last `:`.
pub fn archive_digest_short(file_name: &str) -> (r: &str)
    requires
        19 <= encode_utf8(after_last_spec(file_name@, ':')).len(),
        is_char_boundary(encode_utf8(after_last_spec(file_name@, ':')), 7),
        is_char_boundary(encode_utf8(after_last_spec(file_name@, ':')), 19),
    ensures
        r.spec_bytes() == encode_utf8(after_last_spec(file_name@, ':')).subrange(7, 19),
{
    let last = after_last(file_name, ':');
    byte_slice(last, 7, 19)
}

} // verus!
