use vstd::prelude::*;
use vstd::utf8::encode_utf8;
use base64::Engine;
use rand::Rng;
use sha2::Digest;

verus! {

/// The byte sequence that SHA-256 assigns to `data`.
pub uninterp spec fn sha256_of(data: Seq<u8>) -> Seq<u8>;

/// The character sequence that unpadded URL-safe base64 assigns to `data`.
pub uninterp spec fn base64url_of(data: Seq<u8>) -> Seq<char>;

/// The URL-safe base64 alphabet of RFC 4648: letters, digits, `-` and `_`.
pub open spec fn is_base64url_char(c: char) -> bool {
    ('A' <= c && c <= 'Z') || ('a' <= c && c <= 'z') || ('0' <= c && c <= '9') || c == '-' || c
        == '_'
}

/// Length of the unpadded base64 encoding of `n` bytes: four characters per
/// full group of three bytes, and two or three for a trailing partial group.
pub open spec fn base64url_len(n: nat) -> nat {
    4 * (n / 3) + if n % 3 == 0 {
        0
    } else {
        (n % 3) + 1
    }
}

/// The challenge RFC 7636 derives from a verifier by the S256 method: the
/// unpadded URL-safe base64 encoding of the SHA-256 digest of the verifier's
/// bytes.
pub open spec fn challenge_of(verifier: Seq<char>) -> Seq<char> {
    base64url_of(sha256_of(encode_utf8(verifier)))
}

/// Relies on rand: `rand::rng()` is a cryptographically secure generator and
/// `Rng::fill_bytes` fills the whole buffer. Nothing is promised of the
/// drawn values themselves.
#[verifier::external_body]
fn random_bytes(n: usize) -> (r: Vec<u8>)
    ensures
        r@.len() == n,
{
    let mut buf = vec![0u8; n];
    rand::rng().fill_bytes(&mut buf);
    buf
}

/// Relies on sha2: `Sha256::digest` computes the 32-byte SHA-256 digest,
/// a function of the input alone.
#[verifier::external_body]
fn sha256(data: &[u8]) -> (r: Vec<u8>)
    ensures
        r@ == sha256_of(data@),
        r@.len() == 32,
{
    sha2::Sha256::digest(data).to_vec()
}

/// Relies on base64: `URL_SAFE_NO_PAD.encode` writes the URL-safe alphabet of
/// RFC 4648 without padding, a function of the input alone, four characters
/// per three input bytes rounded up.
#[verifier::external_body]
fn base64url(data: &[u8]) -> (r: String)
    ensures
        r@ == base64url_of(data@),
        r@.len() == base64url_len(data@.len()),
        forall|i: int| 0 <= i < r@.len() ==> is_base64url_char(#[trigger] r@[i]),
{
    base64::engine::general_purpose::URL_SAFE_NO_PAD.encode(data)
}

/// Draws 64 cryptographically secure random bytes and encodes them as an
/// unpadded URL-safe base64 string: 86 characters, within the RFC 7636
/// bound of 43 to 128.
pub fn generate_code_verifier() -> (r: String)
    ensures
        r@.len() == 86,
        43 <= r@.len() <= 128,
        forall|i: int| 0 <= i < r@.len() ==> is_base64url_char(#[trigger] r@[i]),
{
    let bytes = random_bytes(64);
    base64url(bytes.as_slice())
}

/// Derives the S256 code challenge of `verifier`: always 43 characters of
/// the URL-safe base64 alphabet, and a function of the verifier alone.
pub fn generate_code_challenge(verifier: &str) -> (r: String)
    ensures
        r@ == challenge_of(verifier@),
        r@.len() == 43,
        forall|i: int| 0 <= i < r@.len() ==> is_base64url_char(#[trigger] r@[i]),
{
    let digest = sha256(verifier.as_bytes());
    base64url(digest.as_slice())
}

/// Draws 24 cryptographically secure random bytes and encodes them as an
/// unpadded URL-safe base64 string of exactly 32 characters, used as the
/// anti-CSRF state parameter.
pub fn generate_state() -> (r: String)
    ensures
        r@.len() == 32,
        forall|i: int| 0 <= i < r@.len() ==> is_base64url_char(#[trigger] r@[i]),
{
    let bytes = random_bytes(24);
    base64url(bytes.as_slice())
}

/// The three PKCE values of one authentication attempt. Generated fresh per
/// attempt and never persisted.
pub struct PkceParameters {
    pub verifier: String,
    pub challenge: String,
    pub state: String,
}

impl PkceParameters {
    /// What holds of every generated set of parameters.
    pub open spec fn wf(&self) -> bool {
        &&& 43 <= self.verifier@.len() <= 128
        &&& forall|i: int|
            0 <= i < self.verifier@.len() ==> is_base64url_char(#[trigger] self.verifier@[i])
        &&& self.challenge@ == challenge_of(self.verifier@)
        &&& self.challenge@.len() == 43
        &&& forall|i: int|
            0 <= i < self.challenge@.len() ==> is_base64url_char(#[trigger] self.challenge@[i])
        &&& self.state@.len() == 32
        &&& forall|i: int|
            0 <= i < self.state@.len() ==> is_base64url_char(#[trigger] self.state@[i])
    }

    /// Generates a fresh verifier, its challenge, and a fresh state.
    pub fn generate() -> (p: Self)
        ensures
            p.wf(),
    {
        let verifier = generate_code_verifier();
        let challenge = generate_code_challenge(verifier.as_str());
        let state = generate_state();
        PkceParameters { verifier, challenge, state }
    }
}

/// The S256 derivation is deterministic: two challenges of one verifier are
/// the same challenge.
pub proof fn lemma_challenge_deterministic(v: Seq<char>, c1: Seq<char>, c2: Seq<char>)
    requires
        c1 == challenge_of(v),
        c2 == challenge_of(v),
    ensures
        c1 == c2,
{
}

} // verus!
