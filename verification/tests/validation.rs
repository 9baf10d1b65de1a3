use signal_wasm::device::{make_device_id, MAX_DEVICE_ID, MIN_DEVICE_ID};
use signal_wasm::error::{PreKeyKind, SignalError};
use signal_wasm::messages::{
    classify_incoming, message_type_pre_key, message_type_sender_key, message_type_signal,
    CiphertextKind,
};
use signal_wasm::random::{
    generate_attachment_key, generate_random_bytes, generate_registration_id,
    registration_id_from_sample, ATTACHMENT_KEY_LENGTH, REGISTRATION_ID_RANGE,
    REGISTRATION_ID_SAMPLE_LIMIT,
};
use signal_wasm::uuids::{
    generate_uuid, group_distribution_id, sender_key_distribution_id, uuid_from_string,
    uuid_to_string, validate_uuid,
};

const SAMPLE_BYTES: [u8; 16] = [
    0x67, 0xe5, 0x50, 0x44, 0x10, 0xb1, 0x42, 0x6f, 0x92, 0x47, 0xbb, 0x68, 0x0e, 0x5f, 0xe0, 0xc8,
];

#[test]
fn device_id_bounds() {
    assert_eq!(make_device_id(0).unwrap_err(), SignalError::InvalidDeviceId);
    assert_eq!(make_device_id(1).unwrap().to_u32(), 1);
    assert_eq!(make_device_id(127).unwrap().to_u32(), 127);
    assert_eq!(make_device_id(128).unwrap_err(), SignalError::InvalidDeviceId);
    assert_eq!(make_device_id(u32::MAX).unwrap_err(), SignalError::InvalidDeviceId);
    assert_eq!(MIN_DEVICE_ID, 1);
    assert_eq!(MAX_DEVICE_ID, 127);
}

#[test]
fn error_messages() {
    assert_eq!(SignalError::InvalidDeviceId.message(false), "Invalid device ID (must be 1-127)");
    assert_eq!(SignalError::InvalidUuid.message(false), "Invalid UUID format");
    assert_eq!(SignalError::UuidLength.message(false), "UUID must be 16 bytes");
    assert_eq!(
        SignalError::GroupDistributionIdLength.message(false),
        "distribution_id must be 16 bytes (UUID)"
    );
    assert_eq!(
        SignalError::SenderKeyDistributionIdLength.message(true),
        "distribution_id must be 16 bytes"
    );
    assert_eq!(SignalError::IdOverflow(PreKeyKind::OneTime).message(false), "PreKey ID overflow");
    assert_eq!(
        SignalError::IdOverflow(PreKeyKind::Signed).message(false),
        "Signed PreKey ID overflow"
    );
    assert_eq!(
        SignalError::IdOverflow(PreKeyKind::Kyber).message(false),
        "Kyber PreKey ID overflow"
    );
    assert_eq!(SignalError::IdMismatch(PreKeyKind::OneTime).message(false), "PreKey ID mismatch");
    assert_eq!(
        SignalError::IdMismatch(PreKeyKind::Signed).message(false),
        "Signed PreKey ID mismatch"
    );
    assert_eq!(
        SignalError::IdMismatch(PreKeyKind::Kyber).message(false),
        "Kyber PreKey ID mismatch"
    );
    assert_eq!(
        SignalError::Csprng("no entropy".to_string()).message(false),
        "CSPRNG error: no entropy"
    );
}

#[test]
fn unknown_message_type_is_written_in_decimal() {
    assert_eq!(SignalError::UnknownMessageType(0).message(false), "Unknown message type: 0");
    assert_eq!(SignalError::UnknownMessageType(7).message(false), "Unknown message type: 7");
    assert_eq!(SignalError::UnknownMessageType(42).message(false), "Unknown message type: 42");
    assert_eq!(SignalError::UnknownMessageType(100).message(false), "Unknown message type: 100");
    assert_eq!(SignalError::UnknownMessageType(205).message(false), "Unknown message type: 205");
    assert_eq!(SignalError::UnknownMessageType(255).message(false), "Unknown message type: 255");
}

#[test]
fn engine_errors_are_flattened_unless_detailed() {
    let e = SignalError::Engine("invalid key".to_string());
    assert_eq!(e.message(true), "SignalError: invalid key");
    assert_eq!(e.message(false), "SignalError: Operation failed");
}

#[test]
fn uuid_forms_accepted() {
    assert!(validate_uuid("67e55044-10b1-426f-9247-bb680e5fe0c8").is_ok());
    assert!(validate_uuid("67E55044-10B1-426F-9247-BB680E5FE0C8").is_ok());
    assert!(validate_uuid("67e5504410b1426f9247bb680e5fe0c8").is_ok());
    assert!(validate_uuid("{67e55044-10b1-426f-9247-bb680e5fe0c8}").is_ok());
    assert!(validate_uuid("urn:uuid:67e55044-10b1-426f-9247-bb680e5fe0c8").is_ok());
    assert!(validate_uuid("URN:UUID:67e55044-10b1-426f-9247-bb680e5fe0c8").is_ok());
}

#[test]
fn uuid_forms_refused() {
    for bad in [
        "",
        "not-a-uuid",
        "67e55044-10b1-426f-9247-bb680e5fe0c",
        "67e55044-10b1-426f-9247-bb680e5fe0c8a",
        "67e55044x10b1-426f-9247-bb680e5fe0c8",
        "67e5504-410b1-426f-9247-bb680e5fe0c8",
        "g7e55044-10b1-426f-9247-bb680e5fe0c8",
        "(67e55044-10b1-426f-9247-bb680e5fe0c8)",
        "urx:uuid:67e55044-10b1-426f-9247-bb680e5fe0c8",
        "é7e55044-10b1-426f-9247-bb680e5fe0c8",
    ] {
        assert_eq!(validate_uuid(bad), Err(SignalError::InvalidUuid), "{bad}");
        assert!(matches!(uuid_from_string(bad), Err(SignalError::Engine(_))), "{bad}");
    }
}

#[test]
fn uuid_bytes_to_text() {
    assert_eq!(
        uuid_to_string(&SAMPLE_BYTES).unwrap(),
        "67e55044-10b1-426f-9247-bb680e5fe0c8"
    );
    assert_eq!(uuid_to_string(&[0u8; 16]).unwrap(), "00000000-0000-0000-0000-000000000000");
    assert_eq!(uuid_to_string(&[0xffu8; 16]).unwrap(), "ffffffff-ffff-ffff-ffff-ffffffffffff");
    assert_eq!(uuid_to_string(&[0u8; 15]), Err(SignalError::UuidLength));
    assert_eq!(uuid_to_string(&[0u8; 17]), Err(SignalError::UuidLength));
    assert_eq!(uuid_to_string(&[]), Err(SignalError::UuidLength));
}

#[test]
fn uuid_text_to_bytes() {
    let expected = SAMPLE_BYTES.to_vec();
    assert_eq!(uuid_from_string("67e55044-10b1-426f-9247-bb680e5fe0c8").unwrap(), expected);
    assert_eq!(uuid_from_string("67E55044-10B1-426F-9247-BB680E5FE0C8").unwrap(), expected);
    assert_eq!(uuid_from_string("67e5504410b1426f9247bb680e5fe0c8").unwrap(), expected);
    assert_eq!(uuid_from_string("{67e55044-10b1-426f-9247-bb680e5fe0c8}").unwrap(), expected);
    assert_eq!(
        uuid_from_string("urn:uuid:67e55044-10b1-426f-9247-bb680e5fe0c8").unwrap(),
        expected
    );
}

#[test]
fn uuid_text_round_trip() {
    for seed in 0u8..=255 {
        let bytes: Vec<u8> = (0u8..16).map(|i| i.wrapping_mul(37).wrapping_add(seed)).collect();
        let text = uuid_to_string(&bytes).unwrap();
        assert_eq!(text.len(), 36);
        assert!(validate_uuid(&text).is_ok());
        assert_eq!(uuid_from_string(&text).unwrap(), bytes);
    }
}

#[test]
fn generated_uuids_are_version_4() {
    let a = generate_uuid().unwrap();
    let b = generate_uuid().unwrap();
    assert_eq!(a.len(), 16);
    assert_eq!(a[6] >> 4, 4);
    assert_eq!(a[8] >> 6, 0b10);
    assert_ne!(a, b);
    let text = uuid_to_string(&a).unwrap();
    assert_eq!(&text[14..15], "4");
    assert_eq!(uuid_from_string(&text).unwrap(), a);
    for _ in 0..100 {
        let u = generate_uuid().unwrap();
        assert_eq!(u.len(), 16);
        assert_eq!(u[6] >> 4, 4);
        assert_eq!(u[8] >> 6, 0b10);
    }
}

#[test]
fn distribution_ids() {
    let g = group_distribution_id(&SAMPLE_BYTES).unwrap();
    assert_eq!(g.as_bytes(), &SAMPLE_BYTES);
    let s = sender_key_distribution_id(&SAMPLE_BYTES).unwrap();
    assert_eq!(s.as_bytes(), &SAMPLE_BYTES);
    assert_eq!(group_distribution_id(&[1u8; 15]).unwrap_err(), SignalError::GroupDistributionIdLength);
    assert_eq!(
        sender_key_distribution_id(&[1u8; 17]).unwrap_err(),
        SignalError::SenderKeyDistributionIdLength
    );
}

#[test]
fn random_bytes_have_requested_length() {
    assert_eq!(generate_random_bytes(0), Ok(vec![]));
    let a = generate_random_bytes(32).unwrap();
    let b = generate_random_bytes(32).unwrap();
    assert_eq!(a.len(), 32);
    assert_ne!(a, b);
    assert_eq!(generate_random_bytes(1000).unwrap().len(), 1000);
    assert_eq!(generate_attachment_key().unwrap().len(), ATTACHMENT_KEY_LENGTH);
    assert_eq!(ATTACHMENT_KEY_LENGTH, 64);
}

#[test]
fn registration_id_sampling() {
    assert_eq!(REGISTRATION_ID_SAMPLE_LIMIT, (u32::MAX / 16380) * 16380);
    assert_eq!(registration_id_from_sample(0), Some(1));
    assert_eq!(registration_id_from_sample(16379), Some(16380));
    assert_eq!(registration_id_from_sample(16380), Some(1));
    assert_eq!(registration_id_from_sample(123456), Some(123456 % 16380 + 1));
    assert_eq!(registration_id_from_sample(4294967039), Some(16380));
    assert_eq!(registration_id_from_sample(4294967040), None);
    assert_eq!(registration_id_from_sample(u32::MAX), None);
}

#[test]
fn registration_ids_are_in_range() {
    for _ in 0..1000 {
        let id = generate_registration_id().unwrap();
        assert!((1..=REGISTRATION_ID_RANGE).contains(&id));
    }
}

#[test]
fn message_types() {
    assert_eq!(message_type_signal(), 2);
    assert_eq!(message_type_pre_key(), 3);
    assert_eq!(message_type_sender_key(), 7);
    assert_eq!(CiphertextKind::Plaintext.type_byte(), 8);
    assert_eq!(classify_incoming(2), Ok(CiphertextKind::Whisper));
    assert_eq!(classify_incoming(3), Ok(CiphertextKind::PreKey));
    for t in [0u8, 1, 4, 7, 8, 255] {
        assert_eq!(classify_incoming(t), Err(SignalError::UnknownMessageType(t)));
    }
    assert_eq!(
        classify_incoming(9).unwrap_err().message(false),
        "Unknown message type: 9"
    );
}

#[test]
fn encrypted_kinds_read_back() {
    for kind in [CiphertextKind::Whisper, CiphertextKind::PreKey] {
        assert_eq!(classify_incoming(kind.type_byte()), Ok(kind));
    }
}
