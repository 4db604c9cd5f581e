//! PKCE (Proof Key for Code Exchange, RFC 7636) helpers.

use vstd::prelude::*;
use vstd::utf8::*;

use base64::Engine;
use rand::Rng;
use sha2::Digest;

use crate::error::PkceError;
use crate::secret::Secret;
use crate::text::{is_alphanumeric_byte, is_unreserved, is_unreserved_byte, push_char, IntoText};

verus! {

/// Length of a generated verifier (within the RFC 7636 range of `43..=128`).
pub const GENERATED_LEN: usize = 64;

/// Minimum RFC 7636 code-verifier length.
pub const MIN_LEN: usize = 43;

/// Maximum RFC 7636 code-verifier length.
pub const MAX_LEN: usize = 128;

/// Whether every byte is in the RFC 7636 unreserved set.
pub open spec fn all_unreserved(bytes: Seq<u8>) -> bool {
    forall|i: int| 0 <= i < bytes.len() ==> is_unreserved_byte(#[trigger] bytes[i])
}

/// Whether a byte string is a valid RFC 7636 code verifier: `43..=128`
/// unreserved bytes.
pub open spec fn is_valid_verifier(bytes: Seq<u8>) -> bool {
    &&& MIN_LEN <= bytes.len() <= MAX_LEN
    &&& all_unreserved(bytes)
}

/// Whether every character is an ASCII letter or digit.
pub open spec fn all_alphanumeric(s: Seq<char>) -> bool {
    &&& is_ascii_chars(s)
    &&& forall|i: int| 0 <= i < s.len() ==> is_alphanumeric_byte((#[trigger] s[i]) as u8)
}

/// The base64url alphabet (RFC 4648, section 5).
pub open spec fn base64_url_symbol(v: int) -> char {
    if v < 26 {
        ((65 + v) as u32) as char
    } else if v < 52 {
        ((71 + v) as u32) as char
    } else if v < 62 {
        ((v - 4) as u32) as char
    } else if v == 62 {
        '-'
    } else {
        '_'
    }
}

/// The base64url encoding of `data`, without `=` padding (RFC 4648,
/// sections 4 and 5): each group of three bytes becomes four symbols, and a
/// final group of one or two bytes becomes two or three symbols.
pub open spec fn base64_url_nopad(data: Seq<u8>) -> Seq<char>
    decreases data.len(),
{
    let b0 = data[0] as int;
    let b1 = data[1] as int;
    let b2 = data[2] as int;
    if data.len() == 0 {
        seq![]
    } else if data.len() == 1 {
        seq![base64_url_symbol(b0 / 4), base64_url_symbol((b0 % 4) * 16)]
    } else if data.len() == 2 {
        seq![
            base64_url_symbol(b0 / 4),
            base64_url_symbol((b0 % 4) * 16 + b1 / 16),
            base64_url_symbol((b1 % 16) * 4),
        ]
    } else {
        seq![
            base64_url_symbol(b0 / 4),
            base64_url_symbol((b0 % 4) * 16 + b1 / 16),
            base64_url_symbol((b1 % 16) * 4 + b2 / 64),
            base64_url_symbol(b2 % 64),
        ] + base64_url_nopad(data.subrange(3, data.len() as int))
    }
}

/// The SHA-256 digest of `data` (FIPS 180-4).
pub uninterp spec fn sha256(data: Seq<u8>) -> Seq<u8>;

/// The S256 code challenge of a verifier: `BASE64URL(SHA256(verifier))`.
pub open spec fn s256_challenge(verifier: Seq<char>) -> Seq<char> {
    base64_url_nopad(sha256(encode_utf8(verifier)))
}

/// Computes SHA-256 with `sha2::Sha256::digest`.
///
/// Trusted: the digest is named by [`sha256`]; the crate documents a 32-byte
/// output, which is all that is claimed of its contents.
#[verifier::external_body]
fn sha256_digest(data: &[u8]) -> (r: Vec<u8>)
    ensures
        r@ == sha256(data@),
        r@.len() == 32,
{
    sha2::Sha256::digest(data).to_vec()
}

/// Encodes with `base64::engine::general_purpose::URL_SAFE_NO_PAD`.
///
/// Trusted: the engine uses the URL-safe alphabet and writes no padding, so
/// the result is [`base64_url_nopad`] of the input.
#[verifier::external_body]
fn base64_url_encode(data: &[u8]) -> (r: String)
    ensures
        r@ == base64_url_nopad(data@),
{
    base64::engine::general_purpose::URL_SAFE_NO_PAD.encode(data)
}

/// Draws one byte from `rand::distributions::Alphanumeric` with the thread
/// RNG.
///
/// Trusted: the distribution only yields bytes of `A-Z`, `a-z` and `0-9`;
/// which one comes out is left open.
#[verifier::external_body]
fn sample_alphanumeric() -> (r: u8)
    ensures
        is_alphanumeric_byte(r),
{
    rand::thread_rng().sample(rand::distributions::Alphanumeric)
}

/// Encodes a SHA-256 digest as an S256 code challenge.
pub fn encode_challenge(digest: &[u8]) -> (r: String)
    ensures
        r@ == base64_url_nopad(digest@),
{
    base64_url_encode(digest)
}

/// Generates a random string of `len` ASCII alphanumeric characters.
///
/// Shared by verifier generation and the OAuth `state` value.
pub fn random_alphanumeric(len: usize) -> (r: String)
    ensures
        r@.len() == len,
        all_alphanumeric(r@),
        encode_utf8(r@).len() == len,
        all_unreserved(encode_utf8(r@)),
{
    let mut s = String::new();
    let mut i: usize = 0;
    while i < len
        invariant
            i <= len,
            s@.len() == i,
            all_alphanumeric(s@),
        decreases len - i,
    {
        let b = sample_alphanumeric();
        let ghost before = s@;
        push_char(&mut s, b as char);
        assert(s@ =~= before.push(b as char));
        i = i + 1;
    }
    proof {
        is_ascii_chars_encode_utf8(s@);
        assert forall|k: int| 0 <= k < encode_utf8(s@).len() implies is_unreserved_byte(
            #[trigger] encode_utf8(s@)[k],
        ) by {
            assert(s@[k] as u8 == encode_utf8(s@)[k]);
        }
    }
    s
}

/// A PKCE code verifier: a high-entropy secret kept by the client between
/// building the authorization URL and exchanging the authorization code.
///
/// Store it securely (e.g. in session state) and never expose it to third
/// parties. Its `Debug` output is redacted.
pub struct PkceVerifier(Secret<String>);

impl core::fmt::Debug for PkceVerifier {
    /// Writes the type name around the redaction marker, never the verifier.
    fn fmt(&self, f: &mut core::fmt::Formatter<'_>) -> core::fmt::Result {
        let mut builder = crate::secret::debug_tuple(f, "PkceVerifier");
        crate::secret::tuple_field(&mut builder, &crate::secret::REDACTED);
        crate::secret::tuple_finish(&mut builder)
    }
}

impl Clone for PkceVerifier {
    /// A copy holding the same verifier text.
    fn clone(&self) -> (r: Self)
        ensures
            r@ == self@,
    {
        proof {
            use_type_invariant(self);
        }
        PkceVerifier(Secret::new(self.0.expose().clone()))
    }
}

impl View for PkceVerifier {
    type V = Seq<char>;

    closed spec fn view(&self) -> Seq<char> {
        self.0.inner()@
    }
}

impl PkceVerifier {
    /// Every verifier holds a valid RFC 7636 code verifier.
    #[verifier::type_invariant]
    closed spec fn holds_valid_verifier(self) -> bool {
        is_valid_verifier(encode_utf8(self.0.inner()@))
    }

    /// The verifier's bytes, as sent on the wire.
    pub open spec fn bytes(&self) -> Seq<u8> {
        encode_utf8(self@)
    }

    /// Generates a fresh random verifier from the unreserved alphabet.
    pub fn generate() -> (r: PkceVerifier)
        ensures
            r@.len() == GENERATED_LEN,
            all_alphanumeric(r@),
            is_valid_verifier(r.bytes()),
    {
        let value = random_alphanumeric(GENERATED_LEN);
        PkceVerifier(Secret::new(value))
    }

    /// Wraps an existing verifier string, validating its length and alphabet.
    ///
    /// # Errors
    /// Returns [`PkceError`] if the length is outside `43..=128` or the string
    /// contains characters outside the unreserved set.
    #[verifier::loop_isolation(false)]
    pub fn new<V: IntoText>(value: V) -> (r: Result<PkceVerifier, PkceError>)
        ensures
            !(MIN_LEN <= encode_utf8(value.text_of()).len() <= MAX_LEN) ==> r == Err::<
                PkceVerifier,
                PkceError,
            >(PkceError::InvalidVerifierLength(encode_utf8(value.text_of()).len() as usize)),
            MIN_LEN <= encode_utf8(value.text_of()).len() <= MAX_LEN && !all_unreserved(
                encode_utf8(value.text_of()),
            ) ==> r == Err::<PkceVerifier, PkceError>(PkceError::InvalidVerifierChars),
            is_valid_verifier(encode_utf8(value.text_of())) ==> r is Ok && r->Ok_0@
                == value.text_of(),
    {
        let ghost text = value.text_of();
        let value = value.into_text();
        let bytes = value.as_str().as_bytes();
        let n = bytes.len();
        if n < MIN_LEN || n > MAX_LEN {
            return Err(PkceError::InvalidVerifierLength(n));
        }
        let mut i: usize = 0;
        while i < n
            invariant
                n == bytes@.len(),
                bytes@ == encode_utf8(text),
                value@ == text,
                MIN_LEN <= n <= MAX_LEN,
                i <= n,
                forall|k: int| 0 <= k < i ==> is_unreserved_byte(#[trigger] bytes@[k]),
            decreases n - i,
        {
            if !is_unreserved(bytes[i]) {
                return Err(PkceError::InvalidVerifierChars);
            }
            i = i + 1;
        }
        Ok(PkceVerifier(Secret::new(value)))
    }

    /// The verifier as a string slice; whichever way the verifier was made,
    /// the text is a valid RFC 7636 code verifier.
    pub fn as_str(&self) -> (r: &str)
        ensures
            r@ == self@,
            is_valid_verifier(encode_utf8(r@)),
    {
        proof {
            use_type_invariant(self);
        }
        self.0.expose().as_str()
    }

    /// Computes the S256 code challenge: `BASE64URL(SHA256(verifier))`.
    pub fn code_challenge(&self) -> (r: String)
        ensures
            r@ == s256_challenge(self@),
    {
        let digest = sha256_digest(self.as_str().as_bytes());
        encode_challenge(digest.as_slice())
    }
}

} // verus!
