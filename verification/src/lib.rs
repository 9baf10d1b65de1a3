//! Verified core of a Signal Protocol client for browser messaging.
//!
//! The cryptographic engine itself lives outside this crate; what stands here
//! is the client's own logic: input validation (device ids, UUIDs,
//! distribution ids), the counters that hand out pre-key ids, registration id
//! sampling, message type dispatch, safety number comparison and the records
//! handed to callers.

pub mod device;
pub mod error;
pub mod uuid_text;
pub mod uuids;
pub mod random;
pub mod messages;
pub mod keys;
pub mod client;

pub use client::SignalClient;
pub use keys::{
    WasmCiphertext, WasmIdentityKeyPair, WasmKyberPreKey, WasmPreKey, WasmSafetyNumber,
    WasmSignedPreKey,
};
pub use messages::{message_type_pre_key, message_type_sender_key, message_type_signal};
pub use random::{generate_attachment_key, generate_random_bytes};
pub use uuids::{generate_uuid, uuid_from_string, uuid_to_string};
