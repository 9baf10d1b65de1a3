//! Ciphertext message types and the dispatch of incoming messages.
use vstd::prelude::*;

use crate::error::SignalError;

verus! {

/// The kinds of ciphertext the protocol engine produces.
#[derive(Clone, Copy, Debug, PartialEq, Eq, Structural)]
pub enum CiphertextKind {
    /// A normal message on an established session.
    Whisper,
    /// A first message, establishing a session from a pre-key bundle.
    PreKey,
    /// A group message under a sender key.
    SenderKey,
    /// An unencrypted message.
    Plaintext,
}

/// The byte that identifies a ciphertext kind on the wire.
pub open spec fn kind_type_byte(kind: CiphertextKind) -> u8 {
    match kind {
        CiphertextKind::Whisper => 2,
        CiphertextKind::PreKey => 3,
        CiphertextKind::SenderKey => 7,
        CiphertextKind::Plaintext => 8,
    }
}

/// The kind of an incoming one-to-one message, by its type byte: only
/// normal and pre-key messages are accepted.
pub open spec fn incoming_kind(t: u8) -> Option<CiphertextKind> {
    if t == 2 {
        Some(CiphertextKind::Whisper)
    } else if t == 3 {
        Some(CiphertextKind::PreKey)
    } else {
        None
    }
}

impl CiphertextKind {
    /// The byte that identifies this kind on the wire.
    pub fn type_byte(&self) -> (r: u8)
        ensures
            r == kind_type_byte(*self),
    {
        match self {
            CiphertextKind::Whisper => 2,
            CiphertextKind::PreKey => 3,
            CiphertextKind::SenderKey => 7,
            CiphertextKind::Plaintext => 8,
        }
    }
}

/// Message type of a normal (whisper) message.
pub fn message_type_signal() -> (r: u8)
    ensures
        r == kind_type_byte(CiphertextKind::Whisper),
        r == 2,
{
    CiphertextKind::Whisper.type_byte()
}

/// Message type of a pre-key message, the first one that establishes a
/// session.
pub fn message_type_pre_key() -> (r: u8)
    ensures
        r == kind_type_byte(CiphertextKind::PreKey),
        r == 3,
{
    CiphertextKind::PreKey.type_byte()
}

/// Message type of a group (sender key) message.
pub fn message_type_sender_key() -> (r: u8)
    ensures
        r == kind_type_byte(CiphertextKind::SenderKey),
        r == 7,
{
    CiphertextKind::SenderKey.type_byte()
}

/// Decides how an incoming one-to-one message is to be read from its type
/// byte: 2 is a normal message, 3 a pre-key message, anything else is
/// refused.
pub fn classify_incoming(message_type: u8) -> (r: Result<CiphertextKind, SignalError>)
    ensures
        match r {
            Ok(kind) => incoming_kind(message_type) == Some(kind),
            Err(e) => incoming_kind(message_type) is None && e == SignalError::UnknownMessageType(
                message_type,
            ),
        },
{
    if message_type == 2 {
        Ok(CiphertextKind::Whisper)
    } else if message_type == 3 {
        Ok(CiphertextKind::PreKey)
    } else {
        Err(SignalError::UnknownMessageType(message_type))
    }
}

/// The kinds that one-to-one encryption produces are read back as
/// themselves, and no two kinds share a type byte.
pub proof fn lemma_type_bytes_round_trip(kind: CiphertextKind, other: CiphertextKind)
    ensures
        (kind == CiphertextKind::Whisper || kind == CiphertextKind::PreKey) ==> incoming_kind(
            kind_type_byte(kind),
        ) == Some(kind),
        (kind == CiphertextKind::SenderKey || kind == CiphertextKind::Plaintext) ==> incoming_kind(
            kind_type_byte(kind),
        ) is None,
        kind != other ==> kind_type_byte(kind) != kind_type_byte(other),
{
}

} // verus!
