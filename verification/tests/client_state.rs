use signal_wasm::client::{check_imported_id, one_time_pre_key, SignalClient, FIRST_PRE_KEY_ID};
use signal_wasm::error::{PreKeyKind, SignalError};
use signal_wasm::keys::{
    WasmCiphertext, WasmIdentityKeyPair, WasmKyberPreKey, WasmPreKey, WasmSafetyNumber,
    WasmSignedPreKey,
};
use signal_wasm::messages::CiphertextKind;

const UUID: &str = "67e55044-10b1-426f-9247-bb680e5fe0c8";

fn public_key() -> Vec<u8> {
    let mut k = vec![0x05u8];
    k.extend((1u8..=32).collect::<Vec<u8>>());
    k
}

fn private_key() -> Vec<u8> {
    (100u8..132).collect()
}

#[test]
fn new_client_starts_counters_at_one() {
    let c = SignalClient::new(UUID, 3, public_key(), private_key()).unwrap();
    assert_eq!(c.get_local_uuid(), UUID);
    assert_eq!(c.get_local_device_id(), 3);
    assert_eq!(c.get_next_pre_key_id(), FIRST_PRE_KEY_ID);
    assert_eq!(c.get_next_signed_pre_key_id(), 1);
    assert_eq!(c.get_next_kyber_pre_key_id(), 1);
    assert!((1..=16380).contains(&c.get_registration_id()));
    assert_eq!(c.get_identity_public_key(), public_key());
    let pair = c.get_identity_key_pair();
    assert_eq!(pair.public_key(), public_key());
    assert_eq!(pair.private_key(), private_key());
}

#[test]
fn new_client_checks_uuid_before_device() {
    assert_eq!(
        SignalClient::new("nope", 0, public_key(), private_key()).err(),
        Some(SignalError::InvalidUuid)
    );
    assert_eq!(
        SignalClient::new("nope", 5, public_key(), private_key()).err(),
        Some(SignalError::InvalidUuid)
    );
    assert_eq!(
        SignalClient::new(UUID, 0, public_key(), private_key()).err(),
        Some(SignalError::InvalidDeviceId)
    );
    assert_eq!(
        SignalClient::new(UUID, 128, public_key(), private_key()).err(),
        Some(SignalError::InvalidDeviceId)
    );
}

#[test]
fn restore_gives_back_what_was_saved() {
    let c = SignalClient::restore(&public_key(), &private_key(), 4242, UUID, 127, 10, 20, 30)
        .unwrap();
    assert_eq!(c.get_identity_public_key(), public_key());
    assert_eq!(c.get_identity_key_pair().private_key(), private_key());
    assert_eq!(c.get_registration_id(), 4242);
    assert_eq!(c.get_local_uuid(), UUID);
    assert_eq!(c.get_local_device_id(), 127);
    assert_eq!(c.get_next_pre_key_id(), 10);
    assert_eq!(c.get_next_signed_pre_key_id(), 20);
    assert_eq!(c.get_next_kyber_pre_key_id(), 30);
}

#[test]
fn restore_checks_uuid_before_device() {
    assert_eq!(
        SignalClient::restore(&public_key(), &private_key(), 1, "not a uuid", 5, 1, 1, 1).err(),
        Some(SignalError::InvalidUuid)
    );
    assert_eq!(
        SignalClient::restore(&public_key(), &private_key(), 1, "not a uuid", 0, 1, 1, 1).err(),
        Some(SignalError::InvalidUuid)
    );
    let braced = "{67e55044-10b1-426f-9247-bb680e5fe0c8}";
    let c = SignalClient::restore(&public_key(), &private_key(), 1, braced, 5, 1, 1, 1).unwrap();
    assert_eq!(c.get_local_uuid(), braced);
}

#[test]
fn restore_checks_device_id() {
    assert_eq!(
        SignalClient::restore(&public_key(), &private_key(), 1, UUID, 0, 1, 1, 1).err(),
        Some(SignalError::InvalidDeviceId)
    );
    assert_eq!(
        SignalClient::restore(&public_key(), &private_key(), 1, UUID, 200, 1, 1, 1).err(),
        Some(SignalError::InvalidDeviceId)
    );
}

#[test]
fn reserved_ids_are_consecutive_per_family() {
    let mut c = SignalClient::new(UUID, 1, public_key(), private_key()).unwrap();
    let ids: Vec<u32> = (0..5).map(|_| c.reserve_pre_key_id(PreKeyKind::OneTime).unwrap()).collect();
    assert_eq!(ids, vec![1, 2, 3, 4, 5]);
    assert_eq!(c.get_next_pre_key_id(), 6);
    assert_eq!(c.reserve_pre_key_id(PreKeyKind::Signed), Ok(1));
    assert_eq!(c.reserve_pre_key_id(PreKeyKind::Kyber), Ok(1));
    assert_eq!(c.reserve_pre_key_id(PreKeyKind::Kyber), Ok(2));
    assert_eq!(c.get_next_signed_pre_key_id(), 2);
    assert_eq!(c.get_next_kyber_pre_key_id(), 3);
    assert_eq!(c.get_next_pre_key_id(), 6);
}

#[test]
fn exhausted_counter_refuses_and_stays() {
    let max = u32::MAX;
    let mut c =
        SignalClient::restore(&public_key(), &private_key(), 7, UUID, 2, max - 1, max, max).unwrap();
    assert_eq!(c.reserve_pre_key_id(PreKeyKind::OneTime), Ok(max - 1));
    assert_eq!(
        c.reserve_pre_key_id(PreKeyKind::OneTime),
        Err(SignalError::IdOverflow(PreKeyKind::OneTime))
    );
    assert_eq!(c.get_next_pre_key_id(), max);
    assert_eq!(
        c.reserve_pre_key_id(PreKeyKind::Signed),
        Err(SignalError::IdOverflow(PreKeyKind::Signed))
    );
    assert_eq!(
        c.reserve_pre_key_id(PreKeyKind::Kyber).unwrap_err().message(false),
        "Kyber PreKey ID overflow"
    );
    assert_eq!(c.get_next_signed_pre_key_id(), max);
    assert_eq!(c.get_next_kyber_pre_key_id(), max);
}

#[test]
fn imported_ids_must_match() {
    assert_eq!(check_imported_id(PreKeyKind::OneTime, 5, 5), Ok(()));
    assert_eq!(
        check_imported_id(PreKeyKind::OneTime, 5, 6),
        Err(SignalError::IdMismatch(PreKeyKind::OneTime))
    );
    assert_eq!(
        check_imported_id(PreKeyKind::Signed, 1, 0).unwrap_err().message(false),
        "Signed PreKey ID mismatch"
    );
    assert_eq!(
        check_imported_id(PreKeyKind::Kyber, 0, 1).unwrap_err().message(false),
        "Kyber PreKey ID mismatch"
    );
}

#[test]
fn one_time_pre_key_needs_both_parts() {
    assert_eq!(one_time_pre_key(Some(9), Some(vec![1, 2, 3])), Some((9, vec![1, 2, 3])));
    assert_eq!(one_time_pre_key(Some(9), None), None);
    assert_eq!(one_time_pre_key(None, Some(vec![1])), None);
    assert_eq!(one_time_pre_key(None, None), None);
}

#[test]
fn key_records_hold_their_parts() {
    let id_pair = WasmIdentityKeyPair::new(vec![5, 1], vec![9, 9, 9]);
    assert_eq!(id_pair.public_key(), vec![5, 1]);
    assert_eq!(id_pair.private_key(), vec![9, 9, 9]);

    let pk = WasmPreKey::new(11, vec![1, 2], vec![3, 4, 5]);
    assert_eq!(pk.id(), 11);
    assert_eq!(pk.public_key(), vec![1, 2]);
    assert_eq!(pk.record(), vec![3, 4, 5]);

    let spk = WasmSignedPreKey::new(12, vec![6], vec![7, 7], 1_700_000_000_000, vec![8]);
    assert_eq!(spk.id(), 12);
    assert_eq!(spk.public_key(), vec![6]);
    assert_eq!(spk.signature(), vec![7, 7]);
    assert_eq!(spk.timestamp(), 1_700_000_000_000);
    assert_eq!(spk.record(), vec![8]);

    let kpk = WasmKyberPreKey::new(13, vec![0xa], vec![0xb], 42, vec![0xc, 0xd]);
    assert_eq!(kpk.id(), 13);
    assert_eq!(kpk.public_key(), vec![0xa]);
    assert_eq!(kpk.signature(), vec![0xb]);
    assert_eq!(kpk.timestamp(), 42);
    assert_eq!(kpk.record(), vec![0xc, 0xd]);
}

#[test]
fn ciphertext_type_follows_its_kind() {
    let c = WasmCiphertext::new(CiphertextKind::PreKey, vec![1, 2, 3]);
    assert_eq!(c.message_type(), 3);
    assert_eq!(c.body(), vec![1, 2, 3]);
    assert_eq!(WasmCiphertext::new(CiphertextKind::Whisper, vec![]).message_type(), 2);
    assert_eq!(WasmCiphertext::new(CiphertextKind::SenderKey, vec![]).message_type(), 7);
}

#[test]
fn safety_number_matches_only_its_scannable_form() {
    let n = WasmSafetyNumber::new("12345 67890".to_string(), vec![1, 2, 3, 4]);
    assert_eq!(n.displayable(), "12345 67890");
    assert_eq!(n.scannable(), vec![1, 2, 3, 4]);
    assert!(n.matches_scanned(&[1, 2, 3, 4]));
    assert!(n.matches_scanned(&n.scannable()));
    assert!(!n.matches_scanned(&[1, 2, 3, 5]));
    assert!(!n.matches_scanned(&[1, 2, 3]));
    assert!(!n.matches_scanned(&[1, 2, 3, 4, 0]));
    assert!(!n.matches_scanned(&[]));
}
