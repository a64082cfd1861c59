//! Classification of inbound gateway frames.
use vstd::prelude::*;
use vstd::string::StringSliceAdditionalSpecFns;
use crate::bytes::{contains, contains_bytes, copy_range, find_from, first_index, append_bytes};

verus! {

/// What an inbound text frame is, judged in this order: a challenge, an
/// acknowledgement of the outstanding connect request, an error, anything else.
#[derive(Debug, PartialEq, Eq)]
pub enum Inbound {
    /// A connect challenge with the nonce to sign.
    Challenge(Vec<u8>),
    /// A connect challenge without a nonce: dropped.
    Malformed,
    /// A success response to the outstanding connect request.
    Ack,
    /// An error report; holds the whole frame.
    Error(String),
    /// Any other frame; holds the whole frame.
    Event(String),
}

pub open spec fn challenge_marker() -> Seq<u8> {
    "\"event\":\"connect.challenge\"".spec_bytes()
}

pub open spec fn nonce_key() -> Seq<u8> {
    "\"nonce\":\"".spec_bytes()
}

pub open spec fn ok_marker() -> Seq<u8> {
    "\"ok\":true".spec_bytes()
}

pub open spec fn error_marker() -> Seq<u8> {
    "\"error\"".spec_bytes()
}

pub open spec fn quote() -> Seq<u8> {
    seq![34u8]
}

/// The field that names `id` as a response's request id.
pub open spec fn id_field(id: Seq<u8>) -> Seq<u8> {
    "\"id\":\"".spec_bytes() + id + quote()
}

/// The text between `"nonce":"` and the next `"`, if both are there.
pub open spec fn nonce_of(b: Seq<u8>) -> Option<Seq<u8>> {
    match first_index(b, nonce_key(), 0) {
        None => None,
        Some(k) => {
            let start = k + nonce_key().len();
            match first_index(b, quote(), start) {
                None => None,
                Some(end) => Some(b.subrange(start, end)),
            }
        },
    }
}

/// The nonce of a challenge frame.
pub fn extract_nonce(json: &str) -> (r: Option<Vec<u8>>)
    ensures
        r matches Some(n) ==> nonce_of(json.spec_bytes()) == Some(n@),
        r is None ==> nonce_of(json.spec_bytes()) is None,
{
    let b = json.as_bytes();
    let n = b.len();
    let key = "\"nonce\":\"".as_bytes();
    match find_from(b, key, 0) {
        None => None,
        Some(k) => {
            let start = k + key.len();
            let q: [u8; 1] = [34u8];
            let qs = q.as_slice();
            assert(qs@ =~= quote());
            match find_from(b, qs, start) {
                None => None,
                Some(end) => {
                    proof {
                        crate::bytes::lemma_first_index_some(b@, quote(), start as int);
                    }
                    Some(copy_range(b, start, end))
                },
            }
        },
    }
}

fn id_field_bytes(id: &str) -> (r: Vec<u8>)
    ensures
        r@ == id_field(id.spec_bytes()),
{
    let mut r: Vec<u8> = Vec::new();
    append_bytes(&mut r, "\"id\":\"".as_bytes());
    append_bytes(&mut r, id.as_bytes());
    r.push(34u8);
    assert(r@ =~= id_field(id.spec_bytes()));
    r
}

/// Whether `b` acknowledges the outstanding connect request `pending`: a
/// success naming its id exactly. With no request outstanding nothing is an
/// acknowledgement.
pub open spec fn is_ack(b: Seq<u8>, pending: Option<Seq<u8>>) -> bool {
    match pending {
        Some(id) => contains(b, ok_marker()) && contains(b, id_field(id)),
        None => false,
    }
}

pub open spec fn pending_bytes(request_id: Option<&str>) -> Option<Seq<u8>> {
    match request_id {
        Some(id) => Some(id.spec_bytes()),
        None => None,
    }
}

/// Classifies `frame`; `request_id` is the id of the outstanding connect
/// request, if any, which an acknowledgement must name exactly.
pub fn classify(frame: &str, request_id: Option<&str>) -> (r: Inbound)
    ensures
        contains(frame.spec_bytes(), challenge_marker()) ==> match nonce_of(frame.spec_bytes()) {
            Some(n) => (r matches Inbound::Challenge(m) && m@ == n),
            None => r is Malformed,
        },
        !contains(frame.spec_bytes(), challenge_marker()) && is_ack(
            frame.spec_bytes(),
            pending_bytes(request_id),
        ) ==> r is Ack,
        !contains(frame.spec_bytes(), challenge_marker()) && !is_ack(
            frame.spec_bytes(),
            pending_bytes(request_id),
        ) && contains(frame.spec_bytes(), error_marker()) ==> (r matches Inbound::Error(t) && t@
            == frame@),
        !contains(frame.spec_bytes(), challenge_marker()) && !is_ack(
            frame.spec_bytes(),
            pending_bytes(request_id),
        ) && !contains(frame.spec_bytes(), error_marker()) ==> (r matches Inbound::Event(t) && t@
            == frame@),
{
    let b = frame.as_bytes();
    if contains_bytes(b, "\"event\":\"connect.challenge\"".as_bytes()) {
        return match extract_nonce(frame) {
            Some(n) => Inbound::Challenge(n),
            None => Inbound::Malformed,
        };
    }
    let ack = match request_id {
        Some(id) => contains_bytes(b, "\"ok\":true".as_bytes()) && contains_bytes(
            b,
            id_field_bytes(id).as_slice(),
        ),
        None => false,
    };
    if ack {
        Inbound::Ack
    } else if contains_bytes(b, "\"error\"".as_bytes()) {
        Inbound::Error(frame.to_owned())
    } else {
        Inbound::Event(frame.to_owned())
    }
}

} // verus!
