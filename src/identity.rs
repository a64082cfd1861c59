//! The device identity: an Ed25519 key pair and the id derived from it, and
//! the JSON record it is kept in.
use vstd::prelude::*;
use vstd::string::StringExecFns;
use crate::crypto::{
    base64_decoded, base64_of, from_base64, hex_of, json_string_field, public_key_from_seed,
    public_key_of, random_seed, sha256, sha256_of, signature_of, string_field, to_base64, to_hex,
};

verus! {

/// Why a stored identity record cannot be used. Each is fatal: a new
/// identity is never made in place of a stored one.
#[derive(Debug, Clone, Copy, PartialEq, Eq, Structural)]
pub enum IdentityError {
    /// The record has no string `privateKey` field (or is not JSON).
    MissingPrivateKey,
    /// The record has no string `deviceId` field.
    MissingDeviceId,
    /// `privateKey` is not valid Base64.
    InvalidEncoding,
    /// `privateKey` does not decode to 32 bytes.
    InvalidKeyLength,
}

/// A device's signing key, its public key and its id.
pub struct DeviceIdentity {
    seed: Vec<u8>,
    public_key: Vec<u8>,
    device_id: String,
}

/// The id of a device with public key `public_key`: the hex SHA-256 digest.
pub open spec fn device_id_of(public_key: Seq<u8>) -> Seq<char> {
    hex_of(sha256_of(public_key))
}

/// The persisted record of an identity.
pub open spec fn record_text(seed: Seq<u8>, public_key: Seq<u8>, device_id: Seq<char>) -> Seq<char> {
    "{\"privateKey\":\""@ + base64_of(seed) + "\",\"publicKey\":\""@ + base64_of(public_key)
        + "\",\"deviceId\":\""@ + device_id + "\"}"@
}

/// What loading a record gives: the secret key and the stored device id, or
/// the first problem found.
pub open spec fn record_contents(text: Seq<char>) -> Result<(Seq<u8>, Seq<char>), IdentityError> {
    match json_string_field(text, "privateKey"@) {
        None => Err(IdentityError::MissingPrivateKey),
        Some(k) => match base64_decoded(k) {
            None => Err(IdentityError::InvalidEncoding),
            Some(seed) => if seed.len() != 32 {
                Err(IdentityError::InvalidKeyLength)
            } else {
                match json_string_field(text, "deviceId"@) {
                    None => Err(IdentityError::MissingDeviceId),
                    Some(id) => Ok((seed, id)),
                }
            },
        },
    }
}

/// Two well-formed identities with the same secret key have the same public
/// key and sign every message alike: reloading a stored identity keeps its
/// signature behaviour.
pub proof fn lemma_same_key_same_behaviour(a: DeviceIdentity, b: DeviceIdentity)
    requires
        a.wf(),
        b.wf(),
        a.seed_view() == b.seed_view(),
    ensures
        a.public_key_view() == b.public_key_view(),
        forall|msg: Seq<u8>|
            #[trigger] signature_of(a.seed_view(), msg) == signature_of(b.seed_view(), msg),
{
}

/// Reloading a written record gives back the secret key and the device id,
/// provided the JSON lookup reads back the two string fields as written.
/// (The Base64 round trip is what `to_record` and `load_or_create` state;
/// the JSON read-back is taken as a premise, as nothing here states it.)
pub proof fn lemma_record_reloads(seed: Seq<u8>, public_key: Seq<u8>, device_id: Seq<char>)
    requires
        seed.len() == 32,
        base64_decoded(base64_of(seed)) == Some(seed),
        json_string_field(record_text(seed, public_key, device_id), "privateKey"@) == Some(
            base64_of(seed),
        ),
        json_string_field(record_text(seed, public_key, device_id), "deviceId"@) == Some(device_id),
    ensures
        record_contents(record_text(seed, public_key, device_id)) == Ok::<
            (Seq<u8>, Seq<char>),
            IdentityError,
        >((seed, device_id)),
{
}

impl DeviceIdentity {
    pub closed spec fn seed_view(&self) -> Seq<u8> {
        self.seed@
    }

    pub closed spec fn public_key_view(&self) -> Seq<u8> {
        self.public_key@
    }

    pub closed spec fn device_id_view(&self) -> Seq<char> {
        self.device_id@
    }

    /// The secret key is 32 bytes and the public key is its own.
    pub open spec fn wf(&self) -> bool {
        &&& self.seed_view().len() == 32
        &&& self.public_key_view() == public_key_of(self.seed_view())
        &&& self.public_key_view().len() == 32
    }

    /// The identity of the secret key `seed`, with its id derived afresh.
    pub fn from_seed(seed: Vec<u8>) -> (r: DeviceIdentity)
        requires
            seed@.len() == 32,
        ensures
            r.wf(),
            r.seed_view() == seed@,
            r.device_id_view() == device_id_of(public_key_of(seed@)),
            r.device_id_view().len() == 64,
    {
        let public_key = public_key_from_seed(&seed);
        let digest = sha256(public_key.as_slice());
        let device_id = to_hex(digest.as_slice());
        DeviceIdentity { seed, public_key, device_id }
    }

    /// A new identity from a fresh random secret key.
    pub fn generate() -> (r: DeviceIdentity)
        ensures
            r.wf(),
            r.device_id_view() == device_id_of(r.public_key_view()),
            r.device_id_view().len() == 64,
    {
        DeviceIdentity::from_seed(random_seed())
    }

    /// The identity stored in `text`. The device id is taken as stored.
    pub fn from_record(text: &str) -> (r: Result<DeviceIdentity, IdentityError>)
        ensures
            match record_contents(text@) {
                Ok((seed, id)) => r matches Ok(d) && d.wf() && d.seed_view() == seed
                    && d.device_id_view() == id,
                Err(e) => r == Err::<DeviceIdentity, IdentityError>(e),
            },
    {
        let key = match string_field(text, "privateKey") {
            None => return Err(IdentityError::MissingPrivateKey),
            Some(k) => k,
        };
        let seed = match from_base64(key.as_str()) {
            None => return Err(IdentityError::InvalidEncoding),
            Some(s) => s,
        };
        if seed.len() != 32 {
            return Err(IdentityError::InvalidKeyLength);
        }
        let device_id = match string_field(text, "deviceId") {
            None => return Err(IdentityError::MissingDeviceId),
            Some(id) => id,
        };
        let public_key = public_key_from_seed(&seed);
        Ok(DeviceIdentity { seed, public_key, device_id })
    }

    /// The record that keeps this identity: the keys in Base64 and the id.
    pub fn to_record(&self) -> (r: String)
        ensures
            r@ == record_text(self.seed_view(), self.public_key_view(), self.device_id_view()),
            base64_decoded(base64_of(self.seed_view())) == Some(self.seed_view()),
    {
        let mut r = String::from_str("{\"privateKey\":\"");
        r.append(to_base64(self.seed.as_slice()).as_str());
        r.append("\",\"publicKey\":\"");
        r.append(to_base64(self.public_key.as_slice()).as_str());
        r.append("\",\"deviceId\":\"");
        r.append(self.device_id.as_str());
        r.append("\"}");
        r
    }

    /// The identity to use given what the store holds: the stored one, or
    /// a new one when nothing is stored, with the record to persist for it.
    /// A stored record that cannot be used is an error, never replaced.
    pub fn load_or_create(stored: Option<&str>) -> (r: Result<(DeviceIdentity, Option<String>), IdentityError>)
        ensures
            stored matches Some(text) ==> match record_contents(text@) {
                Ok((seed, id)) => (r matches Ok((d, w)) && w is None && d.wf() && d.seed_view() == seed
                    && d.device_id_view() == id),
                Err(e) => r == Err::<(DeviceIdentity, Option<String>), IdentityError>(e),
            },
            stored is None ==> (r matches Ok((d, w)) && d.wf() && d.device_id_view() == device_id_of(
                d.public_key_view(),
            ) && d.device_id_view().len() == 64 && base64_decoded(base64_of(d.seed_view())) == Some(
                d.seed_view(),
            ) && (w matches Some(t) && t@ == record_text(
                d.seed_view(),
                d.public_key_view(),
                d.device_id_view(),
            ))),
    {
        match stored {
            Some(text) => match DeviceIdentity::from_record(text) {
                Ok(d) => Ok((d, None)),
                Err(e) => Err(e),
            },
            None => {
                let d = DeviceIdentity::generate();
                let record = d.to_record();
                Ok((d, Some(record)))
            },
        }
    }

    pub fn device_id(&self) -> (r: &str)
        ensures
            r@ == self.device_id_view(),
    {
        self.device_id.as_str()
    }

    pub fn public_key(&self) -> (r: &[u8])
        ensures
            r@ == self.public_key_view(),
    {
        self.public_key.as_slice()
    }

    /// This device's signature of `msg`.
    pub fn sign(&self, msg: &[u8]) -> (r: Vec<u8>)
        requires
            self.wf(),
        ensures
            r@ == signature_of(self.seed_view(), msg@),
            r@.len() == 64,
    {
        crate::crypto::sign(&self.seed, msg)
    }
}

} // verus!
