//! The client's own state: its identity, its registration id, its address
//! and the counters that hand out pre-key ids.
use vstd::prelude::*;
use vstd::slice::slice_to_vec;

use crate::device::{is_valid_device_id, make_device_id, DeviceId};
use crate::error::{PreKeyKind, SignalError};
use crate::keys::{
    copy_bytes, secret_bytes, secret_copy, secret_new, IdentityKeyPairView, SecretBytes,
    WasmIdentityKeyPair,
};
use crate::random::{
    generate_registration_id, random_failure, registration_id_drawn, REGISTRATION_ID_RANGE,
};
use crate::uuid_text::uuid_parse;
use crate::uuids::validate_uuid;

verus! {

/// Version of the safety number format the client computes.
pub const SAFETY_NUMBER_VERSION: u32 = 2;

/// Hash iterations used when computing safety numbers.
pub const SAFETY_NUMBER_ITERATIONS: u32 = 5200;

/// The first id each pre-key family hands out.
pub const FIRST_PRE_KEY_ID: u32 = 1;

/// What a client holds.
pub struct ClientView {
    pub identity_public_key: Seq<u8>,
    pub identity_private_key: Seq<u8>,
    pub registration_id: u32,
    pub local_uuid: Seq<char>,
    pub local_device_id: u8,
    pub next_prekey_id: u32,
    pub next_signed_prekey_id: u32,
    pub next_kyber_prekey_id: u32,
}

/// The next id a pre-key family will hand out.
pub open spec fn next_id(v: ClientView, kind: PreKeyKind) -> u32 {
    match kind {
        PreKeyKind::OneTime => v.next_prekey_id,
        PreKeyKind::Signed => v.next_signed_prekey_id,
        PreKeyKind::Kyber => v.next_kyber_prekey_id,
    }
}

/// The client with the counter of one family set to `n`.
pub open spec fn with_next_id(v: ClientView, kind: PreKeyKind, n: u32) -> ClientView {
    match kind {
        PreKeyKind::OneTime => ClientView { next_prekey_id: n, ..v },
        PreKeyKind::Signed => ClientView { next_signed_prekey_id: n, ..v },
        PreKeyKind::Kyber => ClientView { next_kyber_prekey_id: n, ..v },
    }
}

/// `after` is `before` once `id` has been handed out from the `kind`
/// family: the id is the family's counter, which moves on by one.
pub open spec fn reserved(before: ClientView, kind: PreKeyKind, id: u32, after: ClientView) -> bool {
    &&& id == next_id(before, kind)
    &&& id < u32::MAX
    &&& after == with_next_id(before, kind, (id + 1) as u32)
}

/// The Signal Protocol client's own state. The cryptographic stores that
/// go with it are kept by the protocol engine.
pub struct SignalClient {
    identity_public_key: Vec<u8>,
    identity_private_key: SecretBytes,
    registration_id: u32,
    local_uuid: String,
    local_device_id: DeviceId,
    next_prekey_id: u32,
    next_signed_prekey_id: u32,
    next_kyber_prekey_id: u32,
}

impl View for SignalClient {
    type V = ClientView;

    closed spec fn view(&self) -> ClientView {
        ClientView {
            identity_public_key: self.identity_public_key@,
            identity_private_key: secret_bytes(self.identity_private_key),
            registration_id: self.registration_id,
            local_uuid: self.local_uuid@,
            local_device_id: self.local_device_id.value(),
            next_prekey_id: self.next_prekey_id,
            next_signed_prekey_id: self.next_signed_prekey_id,
            next_kyber_prekey_id: self.next_kyber_prekey_id,
        }
    }
}

impl SignalClient {
    /// A new client for the account `local_uuid` on device
    /// `local_device_id`, with the freshly generated identity key pair
    /// given, a random registration id in `1..=16380` and every pre-key
    /// counter at 1. The UUID is checked first, then the device id; a
    /// failure of the random source is returned as an error.
    pub fn new(
        local_uuid: &str,
        local_device_id: u32,
        identity_public_key: Vec<u8>,
        identity_private_key: Vec<u8>,
    ) -> (r: Result<SignalClient, SignalError>)
        ensures
            match r {
                Ok(c) => {
                    &&& uuid_parse(local_uuid@) is Some
                    &&& is_valid_device_id(local_device_id as int)
                    &&& 1 <= c@.registration_id <= REGISTRATION_ID_RANGE
                    &&& registration_id_drawn(c@.registration_id)
                    &&& c@ == (ClientView {
                        identity_public_key: identity_public_key@,
                        identity_private_key: identity_private_key@,
                        registration_id: c@.registration_id,
                        local_uuid: local_uuid@,
                        local_device_id: local_device_id as u8,
                        next_prekey_id: FIRST_PRE_KEY_ID,
                        next_signed_prekey_id: FIRST_PRE_KEY_ID,
                        next_kyber_prekey_id: FIRST_PRE_KEY_ID,
                    })
                },
                Err(e) => if uuid_parse(local_uuid@) is None {
                    e == SignalError::InvalidUuid
                } else if !is_valid_device_id(local_device_id as int) {
                    e == SignalError::InvalidDeviceId
                } else {
                    e matches SignalError::Csprng(t) && random_failure(t@)
                },
            },
    {
        match validate_uuid(local_uuid) {
            Ok(()) => {},
            Err(e) => return Err(e),
        }
        let device_id = match make_device_id(local_device_id) {
            Ok(d) => d,
            Err(e) => return Err(e),
        };
        let registration_id = match generate_registration_id() {
            Ok(id) => id,
            Err(e) => return Err(e),
        };
        Ok(SignalClient {
            identity_public_key,
            identity_private_key: secret_new(identity_private_key),
            registration_id,
            local_uuid: String::from_str(local_uuid),
            local_device_id: device_id,
            next_prekey_id: FIRST_PRE_KEY_ID,
            next_signed_prekey_id: FIRST_PRE_KEY_ID,
            next_kyber_prekey_id: FIRST_PRE_KEY_ID,
        })
    }

    /// A client restored from saved state. The UUID is checked first, then
    /// the device id; the identity keys are the serialised forms of keys the
    /// protocol engine has already read.
    pub fn restore(
        identity_public_key: &[u8],
        identity_private_key: &[u8],
        registration_id: u32,
        local_uuid: &str,
        local_device_id: u32,
        next_prekey_id: u32,
        next_signed_prekey_id: u32,
        next_kyber_prekey_id: u32,
    ) -> (r: Result<SignalClient, SignalError>)
        ensures
            match r {
                Ok(c) => uuid_parse(local_uuid@) is Some && is_valid_device_id(local_device_id as int)
                    && c@ == (ClientView {
                    identity_public_key: identity_public_key@,
                    identity_private_key: identity_private_key@,
                    registration_id,
                    local_uuid: local_uuid@,
                    local_device_id: local_device_id as u8,
                    next_prekey_id,
                    next_signed_prekey_id,
                    next_kyber_prekey_id,
                }),
                Err(e) => if uuid_parse(local_uuid@) is None {
                    e == SignalError::InvalidUuid
                } else {
                    !is_valid_device_id(local_device_id as int) && e == SignalError::InvalidDeviceId
                },
            },
    {
        match validate_uuid(local_uuid) {
            Ok(()) => {},
            Err(e) => return Err(e),
        }
        let device_id = match make_device_id(local_device_id) {
            Ok(d) => d,
            Err(e) => return Err(e),
        };
        Ok(SignalClient {
            identity_public_key: slice_to_vec(identity_public_key),
            identity_private_key: secret_new(slice_to_vec(identity_private_key)),
            registration_id,
            local_uuid: String::from_str(local_uuid),
            local_device_id: device_id,
            next_prekey_id,
            next_signed_prekey_id,
            next_kyber_prekey_id,
        })
    }

    /// The identity key pair, both halves serialised.
    pub fn get_identity_key_pair(&self) -> (r: WasmIdentityKeyPair)
        ensures
            r@ == (IdentityKeyPairView {
                public_key: self@.identity_public_key,
                private_key: self@.identity_private_key,
            }),
    {
        WasmIdentityKeyPair::new(
            copy_bytes(&self.identity_public_key),
            secret_copy(&self.identity_private_key),
        )
    }

    /// The serialised identity public key.
    pub fn get_identity_public_key(&self) -> (r: Vec<u8>)
        ensures
            r@ == self@.identity_public_key,
    {
        copy_bytes(&self.identity_public_key)
    }

    /// The registration id.
    pub fn get_registration_id(&self) -> (r: u32)
        ensures
            r == self@.registration_id,
    {
        self.registration_id
    }

    /// The account UUID.
    pub fn get_local_uuid(&self) -> (r: String)
        ensures
            r@ == self@.local_uuid,
    {
        self.local_uuid.clone()
    }

    /// The device id, in `1..=127`.
    pub fn get_local_device_id(&self) -> (r: u32)
        ensures
            r == self@.local_device_id,
            is_valid_device_id(r as int),
    {
        self.local_device_id.to_u32()
    }

    /// The id the next one-time pre-key will get.
    pub fn get_next_pre_key_id(&self) -> (r: u32)
        ensures
            r == self@.next_prekey_id,
    {
        self.next_prekey_id
    }

    /// The id the next signed pre-key will get.
    pub fn get_next_signed_pre_key_id(&self) -> (r: u32)
        ensures
            r == self@.next_signed_prekey_id,
    {
        self.next_signed_prekey_id
    }

    /// The id the next Kyber pre-key will get.
    pub fn get_next_kyber_pre_key_id(&self) -> (r: u32)
        ensures
            r == self@.next_kyber_prekey_id,
    {
        self.next_kyber_prekey_id
    }

    /// Hands out the next id of a pre-key family, before the key is
    /// generated: the family's counter is returned and moves on by one.
    /// When the counter has reached `u32::MAX` nothing is handed out and
    /// nothing changes.
    pub fn reserve_pre_key_id(&mut self, kind: PreKeyKind) -> (r: Result<u32, SignalError>)
        ensures
            match r {
                Ok(id) => reserved(old(self)@, kind, id, final(self)@),
                Err(e) => next_id(old(self)@, kind) == u32::MAX && e == SignalError::IdOverflow(
                    kind,
                ) && final(self)@ == old(self)@,
            },
    {
        match kind {
            PreKeyKind::OneTime => {
                let id = self.next_prekey_id;
                match id.checked_add(1) {
                    Some(n) => {
                        self.next_prekey_id = n;
                        Ok(id)
                    },
                    None => Err(SignalError::IdOverflow(kind)),
                }
            },
            PreKeyKind::Signed => {
                let id = self.next_signed_prekey_id;
                match id.checked_add(1) {
                    Some(n) => {
                        self.next_signed_prekey_id = n;
                        Ok(id)
                    },
                    None => Err(SignalError::IdOverflow(kind)),
                }
            },
            PreKeyKind::Kyber => {
                let id = self.next_kyber_prekey_id;
                match id.checked_add(1) {
                    Some(n) => {
                        self.next_kyber_prekey_id = n;
                        Ok(id)
                    },
                    None => Err(SignalError::IdOverflow(kind)),
                }
            },
        }
    }
}

/// Checks that an imported pre-key record carries the id it is imported
/// under.
pub fn check_imported_id(kind: PreKeyKind, requested: u32, record_id: u32) -> (r: Result<
    (),
    SignalError,
>)
    ensures
        r is Ok <==> requested == record_id,
        r matches Err(e) ==> e == SignalError::IdMismatch(kind),
{
    if record_id != requested {
        Err(SignalError::IdMismatch(kind))
    } else {
        Ok(())
    }
}

/// The one-time pre-key of a bundle: present only when both its id and its
/// key are given; a lone id or a lone key is ignored.
pub fn one_time_pre_key(prekey_id: Option<u32>, prekey: Option<Vec<u8>>) -> (r: Option<
    (u32, Vec<u8>),
>)
    ensures
        match r {
            Some((id, key)) => prekey_id == Some(id) && (prekey matches Some(k) && k@ == key@),
            None => prekey_id is None || prekey is None,
        },
{
    match (prekey_id, prekey) {
        (Some(id), Some(key)) => Some((id, key)),
        _ => None,
    }
}

/// Along a run of reservations from one family, each id is the first plus
/// its position, so the ids strictly increase and none is handed out twice.
pub proof fn lemma_reserved_ids_increase(states: Seq<ClientView>, ids: Seq<u32>, kind: PreKeyKind)
    requires
        states.len() == ids.len() + 1,
        forall|i: int| 0 <= i < ids.len() ==> reserved(states[i], kind, #[trigger] ids[i], states[i + 1]),
    ensures
        forall|i: int| 0 <= i < ids.len() ==> #[trigger] ids[i] == next_id(states[0], kind) + i,
        forall|i: int, j: int| 0 <= i < j < ids.len() ==> ids[i] < ids[j],
        forall|i: int| 0 <= i < ids.len() ==> ids[i] < next_id(states[ids.len() as int], kind),
    decreases ids.len(),
{
    if ids.len() > 0 {
        let n = ids.len() - 1;
        lemma_reserved_ids_increase(states.subrange(0, n + 1), ids.subrange(0, n), kind);
        assert forall|i: int| 0 <= i < ids.len() implies #[trigger] ids[i] == next_id(states[0], kind) + i by {
            if i < n {
                assert(ids.subrange(0, n)[i] == ids[i]);
            } else {
                assert(reserved(states[n], kind, ids[n], states[n + 1]));
                if n > 0 {
                    assert(ids.subrange(0, n)[n - 1] == ids[n - 1]);
                    assert(reserved(states[n - 1], kind, ids[n - 1], states[n]));
                }
            }
        }
        assert(reserved(states[n], kind, ids[n], states[n + 1]));
    }
}

/// Reserving an id of one family leaves the other families' counters and
/// everything else unchanged.
pub proof fn lemma_reservation_is_local(before: ClientView, kind: PreKeyKind, id: u32, after: ClientView, other: PreKeyKind)
    requires
        reserved(before, kind, id, after),
        other != kind,
    ensures
        next_id(after, other) == next_id(before, other),
        after.registration_id == before.registration_id,
        after.local_uuid == before.local_uuid,
        after.local_device_id == before.local_device_id,
        after.identity_public_key == before.identity_public_key,
        after.identity_private_key == before.identity_private_key,
{
}

} // verus!
