//! Digests of text under a named algorithm, written in hexadecimal.

use crate::error::{Error, ErrorView, OptionsFault, OptionsFaultView};
use crate::text::{ascii_lower, is_ascii_text, is_lower_hex, unicode_lower};
use md5::Md5;
use sha2::{Digest, Sha256, Sha512};
use vstd::prelude::*;
use vstd::slice::slice_index_get;
use vstd::string::StringExecFns;
use vstd::utf8::encode_utf8;

verus! {

/// The algorithms that text can be hashed with.
#[derive(Clone, Copy, Debug, PartialEq, Eq, Structural)]
pub enum HashAlgorithm {
    Md5,
    Sha256,
    Sha512,
}

/// The MD5 digest of a sequence of bytes.
pub uninterp spec fn md5_digest(data: Seq<u8>) -> Seq<u8>;

/// The SHA-256 digest of a sequence of bytes.
pub uninterp spec fn sha256_digest(data: Seq<u8>) -> Seq<u8>;

/// The SHA-512 digest of a sequence of bytes.
pub uninterp spec fn sha512_digest(data: Seq<u8>) -> Seq<u8>;

/// `Md5::digest` hashes the whole of `data` at once; the digest has 16
/// bytes and depends on the bytes alone.
#[verifier::external_body]
fn md5_of(data: &[u8]) -> (digest: Vec<u8>)
    ensures
        digest@ == md5_digest(data@),
        digest@.len() == 16,
{
    Md5::digest(data).to_vec()
}

/// `Sha256::digest` hashes the whole of `data` at once; the digest has 32
/// bytes and depends on the bytes alone.
#[verifier::external_body]
fn sha256_of(data: &[u8]) -> (digest: Vec<u8>)
    ensures
        digest@ == sha256_digest(data@),
        digest@.len() == 32,
{
    Sha256::digest(data).to_vec()
}

/// `Sha512::digest` hashes the whole of `data` at once; the digest has 64
/// bytes and depends on the bytes alone.
#[verifier::external_body]
fn sha512_of(data: &[u8]) -> (digest: Vec<u8>)
    ensures
        digest@ == sha512_digest(data@),
        digest@.len() == 64,
{
    Sha512::digest(data).to_vec()
}

impl HashAlgorithm {
    /// The number of bytes in a digest of this algorithm.
    pub open spec fn digest_length(self) -> nat {
        match self {
            HashAlgorithm::Md5 => 16,
            HashAlgorithm::Sha256 => 32,
            HashAlgorithm::Sha512 => 64,
        }
    }

    /// The digest of `data` under this algorithm.
    pub open spec fn digest_of(self, data: Seq<u8>) -> Seq<u8> {
        match self {
            HashAlgorithm::Md5 => md5_digest(data),
            HashAlgorithm::Sha256 => sha256_digest(data),
            HashAlgorithm::Sha512 => sha512_digest(data),
        }
    }

    /// Hashes `data` under this algorithm.
    pub fn digest(&self, data: &[u8]) -> (digest: Vec<u8>)
        ensures
            digest@ == self.digest_of(data@),
            digest@.len() == self.digest_length(),
    {
        match self {
            HashAlgorithm::Md5 => md5_of(data),
            HashAlgorithm::Sha256 => sha256_of(data),
            HashAlgorithm::Sha512 => sha512_of(data),
        }
    }
}

/// The algorithm that a name in lower case stands for.
pub open spec fn algorithm_named(lower: Seq<char>) -> Option<HashAlgorithm> {
    if lower == "md5"@ {
        Some(HashAlgorithm::Md5)
    } else if lower == "sha256"@ {
        Some(HashAlgorithm::Sha256)
    } else if lower == "sha512"@ {
        Some(HashAlgorithm::Sha512)
    } else {
        None
    }
}

/// Looks the name of an algorithm, given in lower case, up.
pub fn algorithm_for(lower: &str) -> (algorithm: Option<HashAlgorithm>)
    ensures
        algorithm == algorithm_named(lower@),
{
    if lower.eq("md5") {
        Some(HashAlgorithm::Md5)
    } else if lower.eq("sha256") {
        Some(HashAlgorithm::Sha256)
    } else if lower.eq("sha512") {
        Some(HashAlgorithm::Sha512)
    } else {
        None
    }
}

/// The hexadecimal digit, in lower case, for a value below sixteen.
pub open spec fn hex_digit(value: int) -> char {
    if value < 10 {
        (48 + value) as char
    } else {
        (87 + value) as char
    }
}

/// The bytes written in hexadecimal: two digits in lower case for each, the
/// high half first.
pub open spec fn hex_text(bytes: Seq<u8>) -> Seq<char> {
    Seq::new(
        2 * bytes.len(),
        |i: int|
            if i % 2 == 0 {
                hex_digit(bytes[i / 2] as int / 16)
            } else {
                hex_digit(bytes[i / 2] as int % 16)
            },
    )
}

/// The sixteen digits are `0` to `9` and `a` to `f`, in this order.
pub proof fn lemma_hex_digits()
    ensures
        hex_digit(0) == '0' && hex_digit(9) == '9' && hex_digit(10) == 'a' && hex_digit(15) == 'f',
        forall|value: int| 0 <= value < 16 ==> is_lower_hex(#[trigger] hex_digit(value)),
        forall|a: int, b: int|
            0 <= a < b < 16 ==> (#[trigger] hex_digit(a) as int) < (#[trigger] hex_digit(b) as int),
{
}

/// Text in hexadecimal has two characters for each byte, each of them a
/// hexadecimal digit in lower case.
pub proof fn lemma_hex_text_shape(bytes: Seq<u8>)
    ensures
        hex_text(bytes).len() == 2 * bytes.len(),
        forall|i: int| 0 <= i < 2 * bytes.len() ==> is_lower_hex(#[trigger] hex_text(bytes)[i]),
{
    assert forall|i: int| 0 <= i < 2 * bytes.len() implies is_lower_hex(#[trigger] hex_text(bytes)[i]) by {
        let byte = bytes[i / 2] as int;
        assert(0 <= byte / 16 < 16 && 0 <= byte % 16 < 16);
    }
}

/// The hexadecimal digit for a value below sixteen.
fn digit_for(value: u8) -> (digit: char)
    requires
        value < 16,
    ensures
        digit == hex_digit(value as int),
{
    if value < 10 {
        (48 + value) as char
    } else {
        (87 + value) as char
    }
}

/// Writes bytes in hexadecimal, in lower case.
pub fn hex_lower(bytes: &[u8]) -> (text: String)
    ensures
        text@ == hex_text(bytes@),
{
    let mut text = String::new();
    let mut i: usize = 0;
    while i < bytes.len()
        invariant
            i <= bytes.len(),
            text@.len() == 2 * i,
            forall|j: int| 0 <= j < 2 * i ==> text@[j] == hex_text(bytes@)[j],
        decreases bytes.len() - i,
    {
        let byte: u8 = *slice_index_get(bytes, i);
        text.push(digit_for(byte / 16));
        text.push(digit_for(byte % 16));
        i = i + 1;
    }
    assert(text@ =~= hex_text(bytes@));
    text
}

/// The outcome of hashing `text` under the algorithm whose name in lower
/// case is `lower`, reporting `algorithm` where that names none.
pub open spec fn hashed_as(text: Seq<char>, algorithm: Seq<char>, lower: Seq<char>) -> Result<Seq<char>, ErrorView> {
    match algorithm_named(lower) {
        Some(a) => Ok(hex_text(a.digest_of(encode_utf8(text)))),
        None => Err(ErrorView::InvalidOptions(OptionsFaultView::UnsupportedAlgorithm(algorithm))),
    }
}

/// The outcome of hashing `text`: the digest of its UTF-8 bytes under the
/// algorithm that `algorithm` names in any letter case, in hexadecimal.
pub open spec fn hashed(text: Seq<char>, algorithm: Seq<char>) -> Result<Seq<char>, ErrorView> {
    hashed_as(text, algorithm, unicode_lower(algorithm))
}

/// The outcome of a request for text, with its texts as sequences of
/// characters.
pub open spec fn text_outcome(outcome: Result<String, Error>) -> Result<Seq<char>, ErrorView> {
    match outcome {
        Ok(text) => Ok(text@),
        Err(error) => Err(error@),
    }
}

/// Hashes `text` under an algorithm that is already chosen.
pub fn hash_with(algorithm: HashAlgorithm, text: &str) -> (digest: String)
    ensures
        digest@ == hex_text(algorithm.digest_of(encode_utf8(text@))),
        digest@.len() == 2 * algorithm.digest_length(),
{
    let bytes = algorithm.digest(text.as_bytes());
    hex_lower(bytes.as_slice())
}

/// Hashes `text` under the algorithm named `algorithm`, one of `md5`,
/// `sha256` and `sha512` in any letter case, and writes the digest in
/// hexadecimal. Any other name fails, and is reported as it was given.
pub fn generate_hash(text: &str, algorithm: &str) -> (outcome: Result<String, Error>)
    ensures
        text_outcome(outcome) == hashed(text@, algorithm@),
        is_ascii_text(algorithm@) ==> text_outcome(outcome) == hashed_as(
            text@,
            algorithm@,
            ascii_lower(algorithm@),
        ),
{
    let lower = algorithm.to_lowercase();
    match algorithm_for(lower.as_str()) {
        Some(a) => Ok(hash_with(a, text)),
        None => Err(Error::InvalidOptions(OptionsFault::UnsupportedAlgorithm(String::from_str(algorithm)))),
    }
}

/// Hashing is a function of the text and the algorithm's name: two
/// outcomes for the same two are the same.
pub proof fn lemma_hash_is_deterministic(
    text: Seq<char>,
    algorithm: Seq<char>,
    first: Result<String, Error>,
    second: Result<String, Error>,
)
    requires
        text_outcome(first) == hashed(text, algorithm),
        text_outcome(second) == hashed(text, algorithm),
    ensures
        text_outcome(first) == text_outcome(second),
{
}

} // verus!
