//! Image references as a user writes them: `name`, `name:tag`,
//! `name@digest`, `repository/name:tag`.

use vstd::prelude::*;

use crate::text::{lemma_split_once_joined, split_once, split_once_spec};

verus! {

/// The tag that a reference without a tag or digest names.
pub const DEFAULT_TAG: &'static str = "latest";

/// The repository of an image name without a namespace.
pub const DEFAULT_REPOSITORY: &'static str = "library";

/// How an image reference picks one version of the image.
#[derive(Debug, Clone)]
pub enum Reference {
    Tag(String),
    Digest(String),
}

/// An image reference, split into its parts.
#[derive(Debug, Clone)]
pub struct ImageName {
    pub repository: String,
    pub name: String,
    pub reference: Reference,
}

/// Why an image reference was refused.
#[derive(Debug, Clone, PartialEq, Eq)]
pub enum ImageNameError {
    /// The repository or the name is empty.
    Invalid,
}

impl ImageNameError {
    /// The message that refuses the reference.
    pub fn message(&self) -> (r: String)
        ensures
            r@ == "Invalid image name. Expected format 'name:tag', 'name@digest', or 'repository/name:tag'"@,
    {
        "Invalid image name. Expected format 'name:tag', 'name@digest', or 'repository/name:tag'".to_owned()
    }
}

/// The image path of a reference, whether the reference is a digest, and
/// the tag or digest: the text after the first `@` is a digest; without
/// `@`, the text after the first `:` is a tag, and without either the tag
/// is `latest`.
pub open spec fn path_and_reference(s: Seq<char>) -> (Seq<char>, bool, Seq<char>) {
    match split_once_spec(s, '@') {
        Some((path, digest)) => (path, true, digest),
        None => match split_once_spec(s, ':') {
            Some((path, tag)) => (path, false, tag),
            None => (s, false, DEFAULT_TAG@),
        },
    }
}

/// The repository and the name of an image path: the text before and after
/// the first `/`, or `library` and the whole path when it has no `/`.
pub open spec fn repository_and_name(path: Seq<char>) -> (Seq<char>, Seq<char>) {
    match split_once_spec(path, '/') {
        Some((repository, name)) => (repository, name),
        None => (DEFAULT_REPOSITORY@, path),
    }
}

/// `r` is the reference that `path_and_reference` describes.
pub open spec fn reference_is(r: Reference, is_digest: bool, value: Seq<char>) -> bool {
    match r {
        Reference::Tag(t) => !is_digest && t@ == value,
        Reference::Digest(d) => is_digest && d@ == value,
    }
}

/// What reading the image reference `s` gives: its repository, name and tag
/// or digest, or `Invalid` exactly when the repository or the name is empty.
pub open spec fn parses_to_image_name(s: Seq<char>, r: Result<ImageName, ImageNameError>) -> bool {
    let (path, is_digest, value) = path_and_reference(s);
    let (repository, name) = repository_and_name(path);
    &&& r is Ok <==> (repository.len() > 0 && name.len() > 0)
    &&& r matches Ok(img) ==> {
        &&& img.repository@ == repository
        &&& img.name@ == name
        &&& reference_is(img.reference, is_digest, value)
    }
    &&& r is Err ==> r == Err::<ImageName, ImageNameError>(ImageNameError::Invalid)
}

impl ImageName {
    /// Splits an image reference into repository, name and tag or digest.
    /// The reference is refused when the repository or the name is empty.
    pub fn parse(s: &str) -> (r: Result<ImageName, ImageNameError>)
        ensures
            parses_to_image_name(s@, r),
    {
        // A digest reference first: name@sha256:...
        let (image_path, reference) = match split_once(s, '@') {
            Some((path, digest)) => (path, Reference::Digest(digest)),
            None => match split_once(s, ':') {
                // No '@': a tag reference, name:tag or just name.
                Some((path, tag)) => (path, Reference::Tag(tag)),
                None => (s.to_owned(), Reference::Tag(DEFAULT_TAG.to_owned())),
            },
        };
        // The optional namespace.
        let (repository, name) = match split_once(image_path.as_str(), '/') {
            Some((repo, name)) => (repo, name),
            None => (DEFAULT_REPOSITORY.to_owned(), image_path),
        };
        if repository.as_str().is_empty() || name.as_str().is_empty() {
            return Err(ImageNameError::Invalid);
        }
        Ok(ImageName { repository, name, reference })
    }
}

/// `s` does not hold `c`, nor does any of `s`'s characters equal `c`.
proof fn lemma_join_lacks(r: Seq<char>, sep: char, n: Seq<char>, c: char)
    requires
        !r.contains(c),
        !n.contains(c),
        sep != c,
    ensures
        !(r + seq![sep] + n).contains(c),
{
    let a = r + seq![sep] + n;
    assert forall|i: int| 0 <= i < a.len() implies a[i] != c by {
        if i < r.len() {
            assert(a[i] == r[i]);
        } else if i == r.len() {
        } else {
            assert(a[i] == n[i - r.len() - 1]);
        }
    }
}

/// A reference `repository/name@digest`, with a repository and a name that
/// are not empty and hold no `/` (the repository) and no `@` (both), reads
/// as that repository, that name and that digest, whatever the digest
/// holds.
pub proof fn law_digest_reference_keeps_repository_and_name(
    repository: Seq<char>,
    name: Seq<char>,
    digest: Seq<char>,
    r: Result<ImageName, ImageNameError>,
)
    requires
        repository.len() > 0,
        name.len() > 0,
        !repository.contains('/'),
        !repository.contains('@'),
        !name.contains('@'),
        parses_to_image_name(repository + seq!['/'] + name + seq!['@'] + digest, r),
    ensures
        r is Ok,
        r matches Ok(img) ==> {
            &&& img.repository@ == repository
            &&& img.name@ == name
            &&& (img.reference matches Reference::Digest(d) && d@ == digest)
        },
{
    let path = repository + seq!['/'] + name;
    lemma_join_lacks(repository, '/', name, '@');
    lemma_split_once_joined(path, '@', digest);
    assert(repository + seq!['/'] + name + seq!['@'] + digest =~= path + seq!['@'] + digest);
    lemma_split_once_joined(repository, '/', name);
}

/// A reference `repository/name:tag`, with a repository and a name that are
/// not empty and hold no `:` or `@` (and the repository no `/`), and a tag
/// without `@`, reads as that repository, that name and that tag.
pub proof fn law_tag_reference_keeps_repository_and_name(
    repository: Seq<char>,
    name: Seq<char>,
    tag: Seq<char>,
    r: Result<ImageName, ImageNameError>,
)
    requires
        repository.len() > 0,
        name.len() > 0,
        !repository.contains('/'),
        !repository.contains(':'),
        !repository.contains('@'),
        !name.contains(':'),
        !name.contains('@'),
        !tag.contains('@'),
        parses_to_image_name(repository + seq!['/'] + name + seq![':'] + tag, r),
    ensures
        r is Ok,
        r matches Ok(img) ==> {
            &&& img.repository@ == repository
            &&& img.name@ == name
            &&& (img.reference matches Reference::Tag(t) && t@ == tag)
        },
{
    let path = repository + seq!['/'] + name;
    let s = repository + seq!['/'] + name + seq![':'] + tag;
    lemma_join_lacks(repository, '/', name, ':');
    lemma_join_lacks(repository, '/', name, '@');
    lemma_join_lacks(path, ':', tag, '@');
    assert(s =~= path + seq![':'] + tag);
    lemma_split_once_joined(path, ':', tag);
    lemma_split_once_joined(repository, '/', name);
}

/// A bare name, with no `@`, `:` or `/`, reads as that name in the
/// `library` repository with the tag `latest`.
pub proof fn law_bare_name_is_library_latest(name: Seq<char>, r: Result<ImageName, ImageNameError>)
    requires
        name.len() > 0,
        !name.contains('@'),
        !name.contains(':'),
        !name.contains('/'),
        parses_to_image_name(name, r),
    ensures
        r is Ok,
        r matches Ok(img) ==> {
            &&& img.repository@ == "library"@
            &&& img.name@ == name
            &&& (img.reference matches Reference::Tag(t) && t@ == "latest"@)
        },
{
    reveal_strlit("library");
}

impl std::str::FromStr for ImageName {
    type Err = ImageNameError;

    fn from_str(s: &str) -> (r: Result<Self, Self::Err>)
        ensures
            parses_to_image_name(s@, r),
    {
        ImageName::parse(s)
    }
}

} // verus!
