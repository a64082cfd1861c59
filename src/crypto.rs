//! The outside primitives the device identity rests on: Ed25519 (from
//! ed25519-dalek), SHA-256 (sha2), hex (hex), Base64 (base64), the system's
//! random source (rand) and JSON field lookup (serde_json).
use vstd::prelude::*;
use base64::Engine;
use ed25519_dalek::Signer;
use rand::RngCore;
use sha2::Digest;

verus! {

/// The Ed25519 public key of the 32-byte secret key `seed`.
pub uninterp spec fn public_key_of(seed: Seq<u8>) -> Seq<u8>;

/// The Ed25519 signature of `msg` under the secret key `seed`.
pub uninterp spec fn signature_of(seed: Seq<u8>, msg: Seq<u8>) -> Seq<u8>;

/// The SHA-256 digest of `data`.
pub uninterp spec fn sha256_of(data: Seq<u8>) -> Seq<u8>;

/// The standard, padded Base64 text of `data`.
pub uninterp spec fn base64_of(data: Seq<u8>) -> Seq<char>;

/// The bytes that the standard Base64 text `text` stands for, if it is valid.
pub uninterp spec fn base64_decoded(text: Seq<char>) -> Option<Seq<u8>>;

/// The string value of the top-level field `key` of the JSON object `text`,
/// if `text` is such an object and the field holds a string.
pub uninterp spec fn json_string_field(text: Seq<char>, key: Seq<char>) -> Option<Seq<char>>;

pub open spec fn hex_digits() -> Seq<char> {
    "0123456789abcdef"@
}

/// Lowercase hex: two digits per byte, high nibble first.
pub open spec fn hex_of(b: Seq<u8>) -> Seq<char> {
    Seq::new(
        2 * b.len(),
        |i: int|
            if i % 2 == 0 {
                hex_digits()[(b[i / 2] / 16) as int]
            } else {
                hex_digits()[(b[i / 2] % 16) as int]
            },
    )
}

/// Relies on ed25519_dalek::SigningKey::from_bytes and verifying_key: the
/// public key is a function of the secret key alone, 32 bytes long.
#[verifier::external_body]
pub(crate) fn public_key_from_seed(seed: &Vec<u8>) -> (r: Vec<u8>)
    requires
        seed@.len() == 32,
    ensures
        r@ == public_key_of(seed@),
        r@.len() == 32,
{
    let bytes: [u8; 32] = seed.as_slice().try_into().unwrap();
    ed25519_dalek::SigningKey::from_bytes(&bytes).verifying_key().to_bytes().to_vec()
}

/// Relies on ed25519_dalek's Signer impl for SigningKey: Ed25519 signing is
/// deterministic, and a signature is 64 bytes.
#[verifier::external_body]
pub(crate) fn sign(seed: &Vec<u8>, msg: &[u8]) -> (r: Vec<u8>)
    requires
        seed@.len() == 32,
    ensures
        r@ == signature_of(seed@, msg@),
        r@.len() == 64,
{
    let bytes: [u8; 32] = seed.as_slice().try_into().unwrap();
    ed25519_dalek::SigningKey::from_bytes(&bytes).sign(msg).to_bytes().to_vec()
}

/// Relies on sha2::Sha256::digest: a 32-byte digest of the input alone.
#[verifier::external_body]
pub(crate) fn sha256(data: &[u8]) -> (r: Vec<u8>)
    ensures
        r@ == sha256_of(data@),
        r@.len() == 32,
{
    sha2::Sha256::digest(data).to_vec()
}

/// Relies on hex::encode: two lowercase hex digits per byte.
#[verifier::external_body]
pub(crate) fn to_hex(data: &[u8]) -> (r: String)
    ensures
        r@ == hex_of(data@),
{
    hex::encode(data)
}

/// Relies on base64's STANDARD engine `encode`: canonical RFC 4648 text
/// with padding, which the same engine's `decode` (canonical padding
/// required) turns back into `data`.
#[verifier::external_body]
pub(crate) fn to_base64(data: &[u8]) -> (r: String)
    ensures
        r@ == base64_of(data@),
        base64_decoded(r@) == Some(data@),
{
    base64::engine::general_purpose::STANDARD.encode(data)
}

/// Relies on base64's STANDARD engine `decode`; its error becomes `None`.
#[verifier::external_body]
pub(crate) fn from_base64(text: &str) -> (r: Option<Vec<u8>>)
    ensures
        r matches Some(v) ==> base64_decoded(text@) == Some(v@),
        r is None ==> base64_decoded(text@) is None,
{
    base64::engine::general_purpose::STANDARD.decode(text).ok()
}

/// Relies on serde_json::from_str into a Value, then indexing by `key` and
/// `as_str`: a parse error, a missing field or a non-string gives `None`.
#[verifier::external_body]
pub(crate) fn string_field(text: &str, key: &str) -> (r: Option<String>)
    ensures
        r matches Some(v) ==> json_string_field(text@, key@) == Some(v@),
        r is None ==> json_string_field(text@, key@) is None,
{
    let v: serde_json::Value = serde_json::from_str(text).ok()?;
    v.get(key).and_then(|f| f.as_str()).map(|s| s.to_string())
}

/// Relies on rand's OsRng `fill_bytes`: 32 bytes from the system's random
/// source, as ed25519_dalek::SigningKey::generate draws them.
#[verifier::external_body]
pub(crate) fn random_seed() -> (r: Vec<u8>)
    ensures
        r@.len() == 32,
{
    let mut seed = [0u8; 32];
    rand::rngs::OsRng.fill_bytes(&mut seed);
    seed.to_vec()
}

} // verus!
