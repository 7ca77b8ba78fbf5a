//! Challenge–response authentication for web clients.
//!
//! The server offers a random challenge; a client proves possession of the
//! per-process secret key by returning the base64 of the HMAC-SHA-512 of
//! the challenge under the key.  The comparison runs in constant time
//! inside the MAC library.

use vstd::prelude::*;

use base64::Engine;
use hmac::KeyInit;
use hmac::Mac;
use rand::distr::SampleString;
use vstd::utf8::encode_utf8;

verus! {

/// The HMAC-SHA-512 tag of a message under a key: a function of the key
/// and message bytes alone.
pub uninterp spec fn hmac_sha512_of(key: Seq<u8>, msg: Seq<u8>) -> Seq<u8>;

/// The standard base64 rendering of a byte sequence.
pub uninterp spec fn base64_of(b: Seq<u8>) -> Seq<char>;

/// What base64 decoding yields: the bytes, or nothing for text that is not
/// valid base64.
pub uninterp spec fn base64_decode_of(s: Seq<char>) -> Option<Seq<u8>>;

/// Relies on hmac's `Hmac::<Sha512>` with `update` and `finalize`: the
/// 64-byte HMAC-SHA-512 tag, a function of key and message alone.  HMAC
/// accepts keys of any length.
#[verifier::external_body]
fn hmac_sha512(key: &[u8], msg: &[u8]) -> (r: Vec<u8>)
    ensures
        r@ == hmac_sha512_of(key@, msg@),
        r@.len() == 64,
{
    let mut mac = hmac::Hmac::<sha2::Sha512>::new_from_slice(key).expect(
        "HMAC accepts keys of any length",
    );
    mac.update(msg);
    mac.finalize().into_bytes().to_vec()
}

/// Relies on hmac's `Mac::verify_slice`: true exactly when the tag equals
/// the HMAC-SHA-512 of the message under the key, compared in constant
/// time.
#[verifier::external_body]
fn hmac_sha512_verify(key: &[u8], msg: &[u8], tag: &[u8]) -> (r: bool)
    ensures
        r == (tag@ == hmac_sha512_of(key@, msg@)),
{
    let mut mac = hmac::Hmac::<sha2::Sha512>::new_from_slice(key).expect(
        "HMAC accepts keys of any length",
    );
    mac.update(msg);
    mac.verify_slice(tag).is_ok()
}

/// Relies on base64's standard engine `encode`: the canonical base64 text
/// of the bytes, which `decode` maps back to exactly those bytes.
#[verifier::external_body]
fn base64_encode(b: &[u8]) -> (r: String)
    ensures
        r@ == base64_of(b@),
        base64_decode_of(r@) == Some(b@),
{
    base64::engine::general_purpose::STANDARD.encode(b)
}

/// Relies on base64's standard engine `decode`: the decoded bytes of valid
/// base64 text, and an error otherwise.
#[verifier::external_body]
fn base64_decode(s: &str) -> (r: Option<Vec<u8>>)
    ensures
        match base64_decode_of(s@) {
            Some(b) => r matches Some(v) && v@ == b,
            None => r is None,
        },
{
    base64::engine::general_purpose::STANDARD.decode(s.as_bytes()).ok()
}

/// Whether a digest authenticates a challenge under a key: it must be
/// valid base64 of exactly the 64-byte HMAC-SHA-512 of the challenge
/// under the key.
pub open spec fn authenticate_spec(challenge: Seq<char>, key: Seq<char>, digest: Seq<char>) -> bool {
    match base64_decode_of(digest) {
        Some(bin) => bin.len() == 64 && bin == hmac_sha512_of(
            encode_utf8(key),
            encode_utf8(challenge),
        ),
        None => false,
    }
}

/// Check a client's digest against a challenge and the secret key.
pub fn authenticate(challenge: &str, key: &str, digest: &str) -> (r: bool)
    ensures
        r == authenticate_spec(challenge@, key@, digest@),
{
    match base64_decode(digest) {
        None => false,
        Some(bin_digest) => {
            if bin_digest.len() != 64 {
                false
            } else {
                hmac_sha512_verify(key.as_bytes(), challenge.as_bytes(), bin_digest.as_slice())
            }
        },
    }
}

/// The digest an honest client sends: the base64 of the HMAC-SHA-512 of
/// the challenge under the key.
///
/// Law: authentication accepts the honest digest — `authenticate` holds of
/// exactly what this function builds.
pub fn make_digest(challenge: &str, key: &str) -> (r: String)
    ensures
        authenticate_spec(challenge@, key@, r@),
{
    let mac = hmac_sha512(key.as_bytes(), challenge.as_bytes());
    base64_encode(mac.as_slice())
}

/// Law: authentication rejects every other digest.  Text that decodes to
/// anything but the exact 64-byte tag — or does not decode at all — fails.
pub proof fn lemma_authenticate_rejects_others(
    challenge: Seq<char>,
    key: Seq<char>,
    digest: Seq<char>,
)
    requires
        match base64_decode_of(digest) {
            Some(bin) => bin != hmac_sha512_of(encode_utf8(key), encode_utf8(challenge)),
            None => true,
        },
    ensures
        !authenticate_spec(challenge, key, digest),
{
}

/// Relies on rand's `Alphanumeric.sample_string` over the thread
/// generator: 30 characters drawn from the alphanumeric alphabet; nothing
/// is assumed about which ones.
#[verifier::external_body]
pub fn make_random_string() -> (r: String)
    ensures
        r@.len() == 30,
{
    rand::distr::Alphanumeric.sample_string(&mut rand::rng(), 30)
}

} // verus!
