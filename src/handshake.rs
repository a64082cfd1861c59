//! The signed connect request that answers a gateway's challenge.
use vstd::prelude::*;
use vstd::string::{StrSliceExecFns, StringExecFns, StringSliceAdditionalSpecFns};
use crate::bytes::{append_bytes, append_decimal, decimal};
use crate::crypto::{base64_of, signature_of, to_base64};
use crate::identity::DeviceIdentity;

verus! {

/// Relies on rand::random: a value from the thread's generator; nothing is
/// known of it.
pub assume_specification<T>[ rand::random::<T> ]() -> (r: T)
    where
        rand::distributions::Standard: rand::distributions::Distribution<T>,
;

pub const CLIENT_ID: &'static str = "openclaw-control-ui";

pub const CLIENT_MODE: &'static str = "webchat";

pub const CLIENT_VERSION: &'static str = "1.0.0";

pub const CLIENT_PLATFORM: &'static str = "desktop";

pub const ROLE: &'static str = "operator";

pub const PROTOCOL_VERSION: u64 = 3;

/// The capabilities this client asks for, in order.
pub const SCOPES: [&'static str; 3] = ["operator.admin", "operator.approvals", "operator.pairing"];

/// The message a device signs: `v2|id|client|mode|role|scopes|signedAt||nonce`,
/// where the field before the nonce stays empty.
pub open spec fn canonical(device_id: Seq<u8>, signed_at: u64, nonce: Seq<u8>) -> Seq<u8> {
    "v2|".spec_bytes() + device_id
        + "|openclaw-control-ui|webchat|operator|operator.admin,operator.approvals,operator.pairing|".spec_bytes()
        + decimal(signed_at as nat) + "||".spec_bytes() + nonce
}

pub open spec fn digit_char(d: nat) -> char {
    if d == 0 { '0' }
    else if d == 1 { '1' }
    else if d == 2 { '2' }
    else if d == 3 { '3' }
    else if d == 4 { '4' }
    else if d == 5 { '5' }
    else if d == 6 { '6' }
    else if d == 7 { '7' }
    else if d == 8 { '8' }
    else { '9' }
}

/// The decimal text of `n`.
pub open spec fn decimal_text(n: nat) -> Seq<char>
    decreases n,
{
    if n < 10 {
        seq![digit_char(n)]
    } else {
        decimal_text(n / 10).push(digit_char(n % 10))
    }
}

fn digit_str(d: u64) -> (r: &'static str)
    requires
        d < 10,
    ensures
        r@ == seq![digit_char(d as nat)],
{
    if d == 0 {
        proof { reveal_strlit("0"); }
        "0"
    } else if d == 1 {
        proof { reveal_strlit("1"); }
        "1"
    } else if d == 2 {
        proof { reveal_strlit("2"); }
        "2"
    } else if d == 3 {
        proof { reveal_strlit("3"); }
        "3"
    } else if d == 4 {
        proof { reveal_strlit("4"); }
        "4"
    } else if d == 5 {
        proof { reveal_strlit("5"); }
        "5"
    } else if d == 6 {
        proof { reveal_strlit("6"); }
        "6"
    } else if d == 7 {
        proof { reveal_strlit("7"); }
        "7"
    } else if d == 8 {
        proof { reveal_strlit("8"); }
        "8"
    } else {
        proof { reveal_strlit("9"); }
        "9"
    }
}

fn append_decimal_text(s: &mut String, n: u64)
    ensures
        final(s)@ == old(s)@ + decimal_text(n as nat),
    decreases n,
{
    if n >= 10 {
        append_decimal_text(s, n / 10);
    }
    s.append(digit_str(n % 10));
    assert(s@ =~= old(s)@ + decimal_text(n as nat));
}

/// The id of the `n`th connect request: `cp-<n>`.
pub fn connect_request_id(n: u64) -> (r: String)
    ensures
        r@ == "cp-"@ + decimal_text(n as nat),
{
    let mut r = String::from_str("cp-");
    append_decimal_text(&mut r, n);
    r
}

/// The id of the `n`th chat message request: `msg-<n>`.
pub fn chat_request_id(n: u64) -> (r: String)
    ensures
        r@ == "msg-"@ + decimal_text(n as nat),
{
    let mut r = String::from_str("msg-");
    append_decimal_text(&mut r, n);
    r
}

/// The `width` lowest hex digits of `n`, most significant first.
pub open spec fn hex_fixed(n: nat, width: nat) -> Seq<char>
    decreases width,
{
    if width == 0 {
        Seq::empty()
    } else {
        hex_fixed(n / 16, (width - 1) as nat).push(crate::crypto::hex_digits()[(n % 16) as int])
    }
}

fn hex_digit_str(d: u64) -> (r: &'static str)
    requires
        d < 16,
    ensures
        r@ == seq![crate::crypto::hex_digits()[d as int]],
{
    proof {
        reveal_strlit("0123456789abcdef");
    }
    let digits = "0123456789abcdef";
    digits.substring_ascii(d as usize, d as usize + 1)
}

fn append_hex_fixed(s: &mut String, n: u64, width: u64)
    ensures
        final(s)@ == old(s)@ + hex_fixed(n as nat, width as nat),
    decreases width,
{
    if width > 0 {
        append_hex_fixed(s, n / 16, width - 1);
        s.append(hex_digit_str(n % 16));
        assert(s@ =~= old(s)@ + hex_fixed(n as nat, width as nat));
    } else {
        assert(s@ =~= old(s)@ + hex_fixed(n as nat, width as nat));
    }
}

/// An idempotency key in the shape of a UUID, `8-4-4-4-12` hex digits,
/// from five random numbers (of which `e` gives its low 48 bits).
pub fn idempotency_key(a: u32, b: u16, c: u16, d: u16, e: u64) -> (r: String)
    ensures
        r@ == hex_fixed(a as nat, 8) + "-"@ + hex_fixed(b as nat, 4) + "-"@ + hex_fixed(c as nat, 4)
            + "-"@ + hex_fixed(d as nat, 4) + "-"@ + hex_fixed(e as nat, 12),
{
    let mut r = String::new();
    append_hex_fixed(&mut r, a as u64, 8);
    r.append("-");
    append_hex_fixed(&mut r, b as u64, 4);
    r.append("-");
    append_hex_fixed(&mut r, c as u64, 4);
    r.append("-");
    append_hex_fixed(&mut r, d as u64, 4);
    r.append("-");
    append_hex_fixed(&mut r, e, 12);
    r
}

/// A fresh idempotency key from the thread's random generator.
pub fn new_idempotency_key() -> (r: String)
    ensures
        exists|a: u32, b: u16, c: u16, d: u16, e: u64|
            r@ == hex_fixed(a as nat, 8) + "-"@ + hex_fixed(b as nat, 4) + "-"@ + hex_fixed(c as nat, 4)
                + "-"@ + hex_fixed(d as nat, 4) + "-"@ + hex_fixed(e as nat, 12),
{
    let a: u32 = rand::random();
    let b: u16 = rand::random();
    let c: u16 = rand::random();
    let d: u16 = rand::random();
    let e: u64 = rand::random();
    idempotency_key(a, b, c, d, e)
}

/// The canonical message for this device, time and nonce.
pub fn canonical_message(device_id: &str, signed_at: u64, nonce: &[u8]) -> (r: Vec<u8>)
    ensures
        r@ == canonical(device_id.spec_bytes(), signed_at, nonce@),
{
    let mut r: Vec<u8> = Vec::new();
    append_bytes(&mut r, "v2|".as_bytes());
    append_bytes(&mut r, device_id.as_bytes());
    append_bytes(
        &mut r,
        "|openclaw-control-ui|webchat|operator|operator.admin,operator.approvals,operator.pairing|".as_bytes(),
    );
    append_decimal(&mut r, signed_at);
    append_bytes(&mut r, "||".as_bytes());
    append_bytes(&mut r, nonce);
    r
}

/// A connect request, signed, with what the request envelope carries.
pub struct SignedConnectRequest {
    pub request_id: String,
    pub device_id: String,
    pub canonical_message: Vec<u8>,
    pub signature: Vec<u8>,
    pub signature_base64: String,
    pub public_key_base64: String,
    pub signed_at: u64,
    pub nonce: Vec<u8>,
}

/// `r` is the request that `identity` makes with these inputs.
pub open spec fn is_signed_request(
    r: SignedConnectRequest,
    request_id: Seq<char>,
    nonce: Seq<u8>,
    identity: DeviceIdentity,
    signed_at: u64,
) -> bool {
    let msg = canonical(
        vstd::utf8::encode_utf8(identity.device_id_view()),
        signed_at,
        nonce,
    );
    &&& r.request_id@ == request_id
    &&& r.device_id@ == identity.device_id_view()
    &&& r.canonical_message@ == msg
    &&& r.signature@ == signature_of(identity.seed_view(), msg)
    &&& r.signature_base64@ == base64_of(signature_of(identity.seed_view(), msg))
    &&& r.public_key_base64@ == base64_of(identity.public_key_view())
    &&& r.signed_at == signed_at
    &&& r.nonce@ == nonce
}

/// Builds and signs the connect request answering the challenge `nonce`.
pub fn build(request_id: &str, nonce: &[u8], identity: &DeviceIdentity, signed_at: u64) -> (r:
    SignedConnectRequest)
    requires
        identity.wf(),
    ensures
        is_signed_request(r, request_id@, nonce@, *identity, signed_at),
        r.signature@.len() == 64,
{
    let device_id = identity.device_id();
    let msg = canonical_message(device_id, signed_at, nonce);
    let signature = identity.sign(msg.as_slice());
    let signature_base64 = to_base64(signature.as_slice());
    let public_key_base64 = to_base64(identity.public_key());
    let mut nonce_copy: Vec<u8> = Vec::new();
    append_bytes(&mut nonce_copy, nonce);
    assert(nonce_copy@ =~= nonce@);
    SignedConnectRequest {
        request_id: String::from_str(request_id),
        device_id: String::from_str(device_id),
        canonical_message: msg,
        signature,
        signature_base64,
        public_key_base64,
        signed_at,
        nonce: nonce_copy,
    }
}

/// Building is deterministic: two requests built from the same identity,
/// request id, nonce and time carry the same canonical message and the same
/// signature.
pub proof fn lemma_build_deterministic(
    a: SignedConnectRequest,
    b: SignedConnectRequest,
    request_id: Seq<char>,
    nonce: Seq<u8>,
    identity: DeviceIdentity,
    signed_at: u64,
)
    requires
        is_signed_request(a, request_id, nonce, identity, signed_at),
        is_signed_request(b, request_id, nonce, identity, signed_at),
    ensures
        a.canonical_message@ == b.canonical_message@,
        a.signature@ == b.signature@,
        a.signature_base64@ == b.signature_base64@,
        a.public_key_base64@ == b.public_key_base64@,
        a.request_id@ == b.request_id@,
{
}

} // verus!
