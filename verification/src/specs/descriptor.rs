//! Descriptors, platforms and content digests.

use std::collections::HashMap;

use vstd::prelude::*;
use vstd::string::StringSliceAdditionalSpecFns;
use vstd::utf8::encode_utf8;

use crate::specs::media_type::MediaType;
use crate::text::{lemma_split_once, lemma_split_once_joined, split_once, split_once_spec, str_equals};

verus! {

broadcast use vstd::utf8::is_ascii_chars_encode_utf8;

/// The form that an algorithm name outside the registered ones must take.
pub const ALGORITHM_PATTERN: &'static str = r"^[a-z0-9]+(?:[.+_-][a-z0-9]+)*$";

/// The form that the encoded part of a digest of an unregistered algorithm
/// must take.
pub const ENCODED_PATTERN: &'static str = r"^[a-zA-Z0-9=_-]+$";

/// The encoded part of the digest of the empty blob `{}`.
pub const EMPTY_BLOB_ENCODED: &'static str =
    "44136fa355b3678a1146ad16f7e8649e94fb4fc21fe77e8310c060f61caaff8a";

/// The digest of the empty blob `{}`, as it is written.
pub const EMPTY_BLOB_DIGEST: &'static str =
    "sha256:44136fa355b3678a1146ad16f7e8649e94fb4fc21fe77e8310c060f61caaff8a";

/// Whether the regular expression `pattern` is valid and matches somewhere
/// in `haystack`.
pub uninterp spec fn regex_is_match(pattern: Seq<char>, haystack: Seq<char>) -> bool;

/// A lower-case ASCII letter or an ASCII digit: `[a-z0-9]`.
pub open spec fn is_name_char(c: char) -> bool {
    ('a' <= c <= 'z') || ('0' <= c <= '9')
}

/// A separator inside an algorithm name: `[.+_-]`.
pub open spec fn is_name_separator(c: char) -> bool {
    c == '.' || c == '+' || c == '_' || c == '-'
}

/// The strings that `ALGORITHM_PATTERN` matches: one or more runs of
/// lower-case letters and digits, joined by single separators.
pub open spec fn algorithm_name_form(s: Seq<char>) -> bool {
    &&& s.len() > 0
    &&& is_name_char(s[0])
    &&& is_name_char(s[s.len() - 1])
    &&& forall|i: int| 0 <= i < s.len() ==> is_name_char(#[trigger] s[i]) || is_name_separator(s[i])
    &&& forall|i: int| 0 <= i < s.len() - 1 && is_name_separator(#[trigger] s[i]) ==> is_name_char(s[i + 1])
}

/// A character of an encoded part of an unregistered algorithm:
/// `[a-zA-Z0-9=_-]`.
pub open spec fn is_encoded_char(c: char) -> bool {
    ('a' <= c <= 'z') || ('A' <= c <= 'Z') || ('0' <= c <= '9') || c == '=' || c == '_' || c == '-'
}

/// The strings that `ENCODED_PATTERN` matches: one or more characters of
/// `[a-zA-Z0-9=_-]`.
pub open spec fn encoded_form(s: Seq<char>) -> bool {
    &&& s.len() > 0
    &&& forall|i: int| 0 <= i < s.len() ==> is_encoded_char(#[trigger] s[i])
}

/// Compiles `pattern` with `regex::Regex::new` and, when that succeeds,
/// asks `regex::Regex::is_match` whether it matches somewhere in
/// `haystack`; an invalid pattern gives `false`. The contract claims that
/// the answer is a function of the two strings, and, for the two patterns
/// this library uses, which strings they match, as the `regex` crate's
/// syntax documentation gives it: without the multi-line flag `^` and `$`
/// match only at the start and the end of the haystack, a bracketed class
/// matches one character of the listed ranges and characters (a `-` last
/// in a class is itself), `+` is one or more and `(?:..)*` zero or more
/// repetitions of a group. What other patterns mean is left to the crate.
#[verifier::external_body]
fn regex_matches(pattern: &str, haystack: &str) -> (r: bool)
    ensures
        r == regex_is_match(pattern@, haystack@),
        pattern@ == ALGORITHM_PATTERN@ ==> (r <==> algorithm_name_form(haystack@)),
        pattern@ == ENCODED_PATTERN@ ==> (r <==> encoded_form(haystack@)),
{
    match regex::Regex::new(pattern) {
        Ok(re) => re.is_match(haystack),
        Err(_) => false,
    }
}

/// Descriptor describes the disposition of the targeted content.
/// Its corresponding media type is `application/vnd.oci.descriptor.v1+json`.
#[derive(Debug, Clone)]
pub struct Descriptor {
    pub media_type: MediaType,
    pub digest: Digest,
    pub size: u64,
    pub urls: Option<Vec<String>>,
    pub annotations: Option<HashMap<String, String>>,
    pub data: Option<String>,
    pub artifact_type: Option<String>,
    pub platform: Option<Platform>,
}

/// Platform describes the minimum runtime requirements of
/// platform-specific images.
#[derive(Debug, Clone)]
pub struct Platform {
    pub architecture: String,
    pub os: String,
    pub os_version: Option<String>,
    pub os_features: Option<Vec<String>>,
    pub variant: Option<String>,
    pub features: Option<Vec<String>>,
}

/// The cryptographic hash function used to compute a digest.
#[derive(Debug, Clone, Default, PartialEq, Eq)]
pub enum Algorithm {
    #[default]
    Sha256,
    Sha512,
    Blake3,
    Unregistered(String),
}

/// Errors in reading a digest from a string.
#[derive(Debug)]
pub enum DigestParseError {
    MissingSeparator(String),
    InvalidAlgorithmFormat(String),
    InvalidEncodedFormat(String),
}

/// Digest acts as a content identifier, enabling content addressability.
/// It uniquely identifies content by taking a collision-resistant hash of the bytes
#[derive(Debug, PartialEq, Eq)]
pub struct Digest {
    /// The cryptographic hash function used to compute the digest.
    algorithm: Algorithm,
    /// The hex-encoded digest value.
    encoded: String,
}

/// The name an algorithm is written as.
pub open spec fn algorithm_name(a: Algorithm) -> Seq<char> {
    match a {
        Algorithm::Sha256 => "sha256"@,
        Algorithm::Sha512 => "sha512"@,
        Algorithm::Blake3 => "blake3"@,
        Algorithm::Unregistered(s) => s@,
    }
}

/// The registered algorithm that `name` names, if any.
pub open spec fn registered_algorithm(name: Seq<char>) -> Option<Algorithm> {
    if name == "sha256"@ {
        Some(Algorithm::Sha256)
    } else if name == "sha512"@ {
        Some(Algorithm::Sha512)
    } else if name == "blake3"@ {
        Some(Algorithm::Blake3)
    } else {
        None
    }
}

/// The three registered algorithm names differ from one another.
pub proof fn lemma_registered_names_distinct()
    ensures
        "sha256"@ != "sha512"@,
        "sha256"@ != "blake3"@,
        "sha512"@ != "blake3"@,
{
    reveal_strlit("sha256");
    reveal_strlit("sha512");
    reveal_strlit("blake3");
    assert("sha256"@[3] != "sha512"@[3]);
    assert("sha256"@[0] != "blake3"@[0]);
    assert("sha512"@[0] != "blake3"@[0]);
}

/// An ASCII hexadecimal digit, as a byte.
pub open spec fn is_hex_byte(b: u8) -> bool {
    (0x30 <= b <= 0x39) || (0x41 <= b <= 0x46) || (0x61 <= b <= 0x66)
}

/// Every byte is an ASCII hexadecimal digit.
pub open spec fn all_hex_bytes(bytes: Seq<u8>) -> bool {
    forall|i: int| 0 <= i < bytes.len() ==> is_hex_byte(#[trigger] bytes[i])
}

/// `enc` is `len` bytes long in UTF-8, every one a hexadecimal digit.
pub open spec fn hex_of_length(enc: Seq<char>, len: nat) -> bool {
    encode_utf8(enc).len() == len && all_hex_bytes(encode_utf8(enc))
}

/// Whether `enc` is a valid encoded part for a digest computed with `a`.
pub open spec fn encoded_is_valid(a: Algorithm, enc: Seq<char>) -> bool {
    match a {
        Algorithm::Sha256 => hex_of_length(enc, 64),
        Algorithm::Sha512 => hex_of_length(enc, 128),
        Algorithm::Blake3 => hex_of_length(enc, 64),
        Algorithm::Unregistered(_) => encoded_form(enc),
    }
}

/// What reading an algorithm name gives, once it is known whether the name
/// has the form of `ALGORITHM_PATTERN`.
pub open spec fn algorithm_of(value: String, format_ok: bool) -> Result<Algorithm, DigestParseError> {
    match registered_algorithm(value@) {
        Some(a) => Ok(a),
        None => if format_ok {
            Ok(Algorithm::Unregistered(value))
        } else {
            Err(DigestParseError::InvalidAlgorithmFormat(value))
        },
    }
}

/// `name` is a registered algorithm name or has the form of
/// `ALGORITHM_PATTERN`.
pub open spec fn name_is_algorithm(name: Seq<char>) -> bool {
    registered_algorithm(name) is Some || algorithm_name_form(name)
}

/// `enc` is a valid encoded part for the algorithm named `name`.
pub open spec fn encoded_valid_for_name(name: Seq<char>, enc: Seq<char>) -> bool {
    match registered_algorithm(name) {
        Some(a) => encoded_is_valid(a, enc),
        None => encoded_form(enc),
    }
}

/// The algorithm name and encoded part of a well-formed digest.
pub open spec fn digest_view_valid(v: (Seq<char>, Seq<char>)) -> bool {
    &&& !v.0.contains(':')
    &&& name_is_algorithm(v.0)
    &&& encoded_valid_for_name(v.0, v.1)
}

/// A digest as it is written: the algorithm name, `:`, the encoded part.
pub open spec fn digest_string(v: (Seq<char>, Seq<char>)) -> Seq<char> {
    v.0 + seq![':'] + v.1
}

/// What reading `value` as a digest gives: each error carries the part of
/// the string that was refused.
pub open spec fn parses_to_digest(value: Seq<char>, r: Result<Digest, DigestParseError>) -> bool {
    match split_once_spec(value, ':') {
        None => r matches Err(DigestParseError::MissingSeparator(v)) && v@ == value,
        Some((name, enc)) => if !name_is_algorithm(name) {
            r matches Err(DigestParseError::InvalidAlgorithmFormat(v)) && v@ == name
        } else if !encoded_valid_for_name(name, enc) {
            r matches Err(DigestParseError::InvalidEncodedFormat(v)) && v@ == enc
        } else {
            r matches Ok(d) && d@ == (name, enc)
        },
    }
}

impl View for Digest {
    type V = (Seq<char>, Seq<char>);

    /// The algorithm name and the encoded part.
    closed spec fn view(&self) -> (Seq<char>, Seq<char>) {
        (algorithm_name(self.algorithm), self.encoded@)
    }
}

impl Clone for Digest {
    fn clone(&self) -> (r: Self)
        ensures
            r@ == self@,
    {
        proof {
            use_type_invariant(self);
        }
        let algorithm = match &self.algorithm {
            Algorithm::Sha256 => Algorithm::Sha256,
            Algorithm::Sha512 => Algorithm::Sha512,
            Algorithm::Blake3 => Algorithm::Blake3,
            Algorithm::Unregistered(s) => Algorithm::Unregistered(s.clone()),
        };
        Digest { algorithm, encoded: self.encoded.clone() }
    }
}

impl Digest {
    #[verifier::type_invariant]
    spec fn well_formed(self) -> bool {
        &&& digest_view_valid(self@)
        &&& self.algorithm is Unregistered ==> registered_algorithm(self@.0) is None
    }

    /// Reads a digest from its written form `algorithm:encoded`.
    pub fn parse(value: String) -> (r: Result<Digest, DigestParseError>)
        ensures
            parses_to_digest(value@, r),
    {
        proof {
            lemma_split_once(value@, ':');
        }
        match split_once(value.as_str(), ':') {
            None => Err(DigestParseError::MissingSeparator(value)),
            Some((algo, enc)) => {
                let algorithm = match Algorithm::parse(algo) {
                    Ok(a) => a,
                    Err(e) => return Err(e),
                };
                if !algorithm.validate_encoded(enc.as_str()) {
                    return Err(DigestParseError::InvalidEncodedFormat(enc));
                }
                let d = Digest { algorithm, encoded: enc };
                proof {
                    assert(d@ == (algorithm_name(algorithm), enc@));
                }
                Ok(d)
            },
        }
    }

    /// The digest as it is written: `algorithm:encoded`.
    pub fn to_string(&self) -> (r: String)
        ensures
            r@ == digest_string(self@),
            digest_view_valid(self@),
    {
        proof {
            use_type_invariant(self);
        }
        let name = self.algorithm.to_string();
        let with_sep = name.concat(":");
        proof {
            reveal_strlit(":");
        }
        with_sep.concat(self.encoded.as_str())
    }

    /// Whether this digest and `other` name the same algorithm and hold the
    /// same encoded part.
    pub fn same_as(&self, other: &Digest) -> (r: bool)
        ensures
            r == (self@ == other@),
    {
        proof {
            use_type_invariant(self);
            use_type_invariant(other);
        }
        let same_algorithm = match (&self.algorithm, &other.algorithm) {
            (Algorithm::Unregistered(a), Algorithm::Unregistered(b)) => *a == *b,
            (Algorithm::Unregistered(_), _) => false,
            (_, Algorithm::Unregistered(_)) => false,
            (Algorithm::Sha256, Algorithm::Sha256) => true,
            (Algorithm::Sha512, Algorithm::Sha512) => true,
            (Algorithm::Blake3, Algorithm::Blake3) => true,
            _ => {
                proof {
                    lemma_registered_names_distinct();
                }
                false
            },
        };
        same_algorithm && self.encoded == other.encoded
    }

    /// The digest of the empty blob `{}`.
    pub fn empty_blob() -> (r: Digest)
        ensures
            r@ == ("sha256"@, EMPTY_BLOB_ENCODED@),
    {
        let encoded = EMPTY_BLOB_ENCODED.to_owned();
        proof {
            reveal_strlit("44136fa355b3678a1146ad16f7e8649e94fb4fc21fe77e8310c060f61caaff8a");
            reveal_strlit("sha256");
            assert(vstd::utf8::is_ascii_chars(encoded@));
            assert(encode_utf8(encoded@).len() == 64);
            assert(all_hex_bytes(encode_utf8(encoded@)));
        }
        Digest { algorithm: Algorithm::Sha256, encoded }
    }
}

impl Descriptor {
    /// The descriptor of the empty blob `{}`, with its optional data absent
    /// or holding that blob in base64.
    pub open spec fn is_empty_spec(&self) -> bool {
        &&& self.media_type == MediaType::OCI_EMPTY
        &&& self.digest@ == ("sha256"@, EMPTY_BLOB_ENCODED@)
        &&& self.size == 2
        &&& match self.data {
            None => true,
            Some(d) => d@ == "e30="@,
        }
        &&& self.urls is None
        &&& self.annotations is None
        &&& self.artifact_type is None
        &&& self.platform is None
    }

    /// The descriptor of the empty blob `{}`: media type `OCI_EMPTY`, the
    /// digest `EMPTY_BLOB_DIGEST`, size 2, and no optional field.
    pub fn empty() -> (r: Self)
        ensures
            r.media_type == MediaType::OCI_EMPTY,
            r.digest@ == ("sha256"@, EMPTY_BLOB_ENCODED@),
            r.size == 2,
            r.urls is None,
            r.annotations is None,
            r.data is None,
            r.artifact_type is None,
            r.platform is None,
            r.is_empty_spec(),
    {
        Self {
            media_type: MediaType::OCI_EMPTY,
            digest: Digest::empty_blob(),
            size: 2,
            urls: None,
            annotations: None,
            data: None,
            artifact_type: None,
            platform: None,
        }
    }

    /// Whether this is the descriptor of the empty blob `{}`.
    pub fn is_empty(&self) -> (r: bool)
        ensures
            r == self.is_empty_spec(),
    {
        let data_ok = match &self.data {
            None => true,
            Some(d) => str_equals(d.as_str(), "e30="),
        };
        matches!(self.media_type, MediaType::OCI_EMPTY)
            && self.digest.same_as(&Digest::empty_blob())
            && self.size == 2
            && data_ok
            && self.urls.is_none()
            && self.annotations.is_none()
            && self.artifact_type.is_none()
            && self.platform.is_none()
    }
}

impl vstd::std_specs::convert::TryFromSpecImpl<String> for Digest {
    /// `try_from_spec` would have to name particular `String` values for the
    /// pieces of the digest, where only their characters are determined; the
    /// conversion's own `ensures` states what it returns.
    open spec fn obeys_try_from_spec() -> bool {
        false
    }

    open spec fn try_from_spec(v: String) -> Result<Self, Self::Error> {
        arbitrary()
    }
}

impl TryFrom<String> for Digest {
    type Error = DigestParseError;

    fn try_from(value: String) -> (r: Result<Self, Self::Error>)
        ensures
            parses_to_digest(value@, r),
    {
        Digest::parse(value)
    }
}

impl vstd::std_specs::convert::FromSpecImpl<Digest> for String {
    /// `from_spec` would have to name one particular `String` value, where
    /// only the characters of the result are determined; the conversion's
    /// own `ensures` states those characters.
    open spec fn obeys_from_spec() -> bool {
        false
    }

    open spec fn from_spec(v: Digest) -> Self {
        arbitrary()
    }
}

impl From<Digest> for String {
    fn from(d: Digest) -> (r: Self)
        ensures
            r@ == digest_string(d@),
    {
        d.to_string()
    }
}

impl vstd::std_specs::convert::TryFromSpecImpl<String> for Algorithm {
    open spec fn obeys_try_from_spec() -> bool {
        true
    }

    open spec fn try_from_spec(v: String) -> Result<Self, Self::Error> {
        algorithm_of(v, algorithm_name_form(v@))
    }
}

impl TryFrom<String> for Algorithm {
    type Error = DigestParseError;

    fn try_from(value: String) -> (r: Result<Self, Self::Error>) {
        Algorithm::parse(value)
    }
}

/// The empty-blob descriptor has media type `OCI_EMPTY`, size 2 and the
/// digest of `{}`, and carries no URLs, annotations, artifact type or
/// platform; a descriptor with any of those present is not it.
pub proof fn law_empty_descriptor_has_no_optional_fields(d: Descriptor)
    requires
        d.is_empty_spec(),
    ensures
        d.media_type == MediaType::OCI_EMPTY,
        d.size == 2,
        d.digest@ == ("sha256"@, EMPTY_BLOB_ENCODED@),
        d.urls is None,
        d.annotations is None,
        d.artifact_type is None,
        d.platform is None,
        d.data matches Some(x) ==> x@ == "e30="@,
{
}

/// An encoded part valid for a registered algorithm is all hexadecimal
/// digits, exactly 64 bytes long for `sha256` and `blake3` and exactly 128
/// for `sha512`; every such string is valid.
pub proof fn law_registered_encoded_lengths(a: Algorithm, enc: Seq<char>)
    ensures
        a is Sha256 ==> (encoded_is_valid(a, enc) <==> (encode_utf8(enc).len() == 64
            && all_hex_bytes(encode_utf8(enc)))),
        a is Sha512 ==> (encoded_is_valid(a, enc) <==> (encode_utf8(enc).len() == 128
            && all_hex_bytes(encode_utf8(enc)))),
        a is Blake3 ==> (encoded_is_valid(a, enc) <==> (encode_utf8(enc).len() == 64
            && all_hex_bytes(encode_utf8(enc)))),
{
}

/// A digest read with a registered algorithm holds an encoded part of
/// exactly the length of that algorithm's hash, in hexadecimal digits: 64
/// bytes for `sha256` and `blake3`, 128 for `sha512`.
pub proof fn law_read_digest_has_hash_length(value: Seq<char>, d: Digest)
    requires
        parses_to_digest(value, Ok(d)),
    ensures
        d@.0 == "sha256"@ ==> encode_utf8(d@.1).len() == 64 && all_hex_bytes(encode_utf8(d@.1)),
        d@.0 == "sha512"@ ==> encode_utf8(d@.1).len() == 128 && all_hex_bytes(encode_utf8(d@.1)),
        d@.0 == "blake3"@ ==> encode_utf8(d@.1).len() == 64 && all_hex_bytes(encode_utf8(d@.1)),
{
    lemma_registered_names_distinct();
    lemma_split_once(value, ':');
}

/// Every algorithm name that is read successfully is written back as the
/// same name.
pub proof fn algorithm_read_then_written(value: String, format_ok: bool)
    ensures
        algorithm_of(value, format_ok) matches Ok(a) ==> algorithm_name(a) == value@,
{
}

/// Reading a digest and writing it back gives the string that was read.
pub proof fn digest_read_then_written(value: Seq<char>, d: Digest)
    requires
        parses_to_digest(value, Ok(d)),
    ensures
        digest_string(d@) == value,
        digest_view_valid(d@),
{
    lemma_split_once(value, ':');
}

/// Writing a well-formed digest and reading it back gives the same digest.
pub proof fn digest_written_then_read(v: (Seq<char>, Seq<char>), r: Result<Digest, DigestParseError>)
    requires
        digest_view_valid(v),
        parses_to_digest(digest_string(v), r),
    ensures
        r matches Ok(d) && d@ == v,
{
    lemma_split_once_joined(v.0, ':', v.1);
}

/// Every byte of `encoded` is an ASCII hexadecimal digit.
pub fn is_hex_bytes(encoded: &str) -> (r: bool)
    ensures
        r == all_hex_bytes(encode_utf8(encoded@)),
{
    let bytes = encoded.as_bytes();
    let n = bytes.len();
    let mut i: usize = 0;
    while i < n
        invariant
            n == bytes@.len(),
            bytes@ == encoded.spec_bytes(),
            i <= n,
            forall|j: int| 0 <= j < i ==> is_hex_byte(#[trigger] bytes@[j]),
        decreases n - i,
    {
        let b = bytes[i];
        if !((0x30 <= b && b <= 0x39) || (0x41 <= b && b <= 0x46) || (0x61 <= b && b <= 0x66)) {
            assert(!is_hex_byte(bytes@[i as int]));
            return false;
        }
        i = i + 1;
    }
    true
}

impl Algorithm {
    /// Whether `encoded` is a valid encoded part for a digest computed with
    /// this algorithm.
    pub fn validate_encoded(&self, encoded: &str) -> (r: bool)
        ensures
            r == encoded_is_valid(*self, encoded@),
    {
        match self {
            Algorithm::Sha256 => encoded.as_bytes().len() == 64 && is_hex_bytes(encoded),
            Algorithm::Sha512 => encoded.as_bytes().len() == 128 && is_hex_bytes(encoded),
            Algorithm::Blake3 => encoded.as_bytes().len() == 64 && is_hex_bytes(encoded),
            Algorithm::Unregistered(_) => regex_matches(ENCODED_PATTERN, encoded),
        }
    }

    /// The algorithm named `value`, once it is known whether `value` has the
    /// form of `ALGORITHM_PATTERN`; the form matters only for names that are
    /// not registered.
    pub fn classify(value: String, format_ok: bool) -> (r: Result<Algorithm, DigestParseError>)
        ensures
            r == algorithm_of(value, format_ok),
    {
        let s = value.as_str();
        if str_equals(s, "sha256") {
            Ok(Algorithm::Sha256)
        } else if str_equals(s, "sha512") {
            Ok(Algorithm::Sha512)
        } else if str_equals(s, "blake3") {
            Ok(Algorithm::Blake3)
        } else if format_ok {
            Ok(Algorithm::Unregistered(value))
        } else {
            Err(DigestParseError::InvalidAlgorithmFormat(value))
        }
    }

    /// Reads an algorithm name: a registered name, or any other name of the
    /// form of `ALGORITHM_PATTERN`.
    pub fn parse(value: String) -> (r: Result<Algorithm, DigestParseError>)
        ensures
            r == algorithm_of(value, algorithm_name_form(value@)),
    {
        let s = value.as_str();
        if str_equals(s, "sha256") || str_equals(s, "sha512") || str_equals(s, "blake3") {
            Algorithm::classify(value, true)
        } else {
            let format_ok = regex_matches(ALGORITHM_PATTERN, s);
            Algorithm::classify(value, format_ok)
        }
    }

    /// The name the algorithm is written as.
    pub fn to_string(&self) -> (r: String)
        ensures
            r@ == algorithm_name(*self),
    {
        match self {
            Algorithm::Sha256 => "sha256".to_owned(),
            Algorithm::Sha512 => "sha512".to_owned(),
            Algorithm::Blake3 => "blake3".to_owned(),
            Algorithm::Unregistered(s) => s.clone(),
        }
    }
}

} // verus!
