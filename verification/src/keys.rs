//! The key and message records handed to callers.
use vstd::prelude::*;

use crate::messages::{kind_type_byte, CiphertextKind};
use zeroize::Zeroizing;

verus! {

/// A byte buffer that is overwritten with zeros when dropped. It holds a
/// `zeroize::Zeroizing<Vec<u8>>`, a type that cannot be declared to the
/// verifier because its parameter is bound by an outside trait.
#[verifier::external_body]
pub struct SecretBytes {
    bytes: Zeroizing<Vec<u8>>,
}

/// The bytes held in a zeroizing buffer.
pub uninterp spec fn secret_bytes(s: SecretBytes) -> Seq<u8>;

/// `zeroize::Zeroizing::new`: takes ownership of the bytes, unchanged.
#[verifier::external_body]
pub(crate) fn secret_new(v: Vec<u8>) -> (r: SecretBytes)
    ensures
        secret_bytes(r) == v@,
{
    SecretBytes { bytes: Zeroizing::new(v) }
}

/// `Deref` of `zeroize::Zeroizing`, then `Vec::clone`: a plain copy of the
/// bytes held.
#[verifier::external_body]
pub(crate) fn secret_copy(s: &SecretBytes) -> (r: Vec<u8>)
    ensures
        r@ == secret_bytes(*s),
{
    (*s.bytes).clone()
}

/// `subtle::ConstantTimeEq::ct_eq` on byte slices, read as a `bool`: true
/// exactly when the slices have the same length and the same bytes. The
/// comparison of equal-length slices takes time independent of their
/// contents.
#[verifier::external_body]
fn ct_eq_bytes(a: &[u8], b: &[u8]) -> (r: bool)
    ensures
        r == (a@ == b@),
{
    bool::from(subtle::ConstantTimeEq::ct_eq(a, b))
}

/// A copy of a byte vector.
pub(crate) fn copy_bytes(v: &Vec<u8>) -> (r: Vec<u8>)
    ensures
        r@ == v@,
{
    let r = v.clone();
    assert(r@ =~= v@);
    r
}

/// What an identity key pair holds.
pub struct IdentityKeyPairView {
    pub public_key: Seq<u8>,
    pub private_key: Seq<u8>,
}

/// A serialised identity key pair. The private half sits in a buffer that
/// is zeroed when dropped.
pub struct WasmIdentityKeyPair {
    public_key: Vec<u8>,
    private_key: SecretBytes,
}

impl View for WasmIdentityKeyPair {
    type V = IdentityKeyPairView;

    closed spec fn view(&self) -> IdentityKeyPairView {
        IdentityKeyPairView {
            public_key: self.public_key@,
            private_key: secret_bytes(self.private_key),
        }
    }
}

impl WasmIdentityKeyPair {
    /// A key pair from its serialised halves.
    pub fn new(public_key: Vec<u8>, private_key: Vec<u8>) -> (r: WasmIdentityKeyPair)
        ensures
            r@ == (IdentityKeyPairView { public_key: public_key@, private_key: private_key@ }),
    {
        WasmIdentityKeyPair { public_key, private_key: secret_new(private_key) }
    }

    /// The serialised public key.
    pub fn public_key(&self) -> (r: Vec<u8>)
        ensures
            r@ == self@.public_key,
    {
        copy_bytes(&self.public_key)
    }

    /// The serialised private key. The copy returned is an ordinary vector
    /// that is not zeroed when dropped.
    pub fn private_key(&self) -> (r: Vec<u8>)
        ensures
            r@ == self@.private_key,
    {
        secret_copy(&self.private_key)
    }
}

/// What a one-time pre-key record holds.
pub struct PreKeyView {
    pub id: u32,
    pub public_key: Seq<u8>,
    pub record: Seq<u8>,
}

/// A one-time pre-key for upload to the server, with its full serialised
/// record (private key included) for persistence.
pub struct WasmPreKey {
    id: u32,
    public_key: Vec<u8>,
    record: Vec<u8>,
}

impl View for WasmPreKey {
    type V = PreKeyView;

    closed spec fn view(&self) -> PreKeyView {
        PreKeyView { id: self.id, public_key: self.public_key@, record: self.record@ }
    }
}

impl WasmPreKey {
    /// A pre-key from its parts.
    pub fn new(id: u32, public_key: Vec<u8>, record: Vec<u8>) -> (r: WasmPreKey)
        ensures
            r@ == (PreKeyView { id, public_key: public_key@, record: record@ }),
    {
        WasmPreKey { id, public_key, record }
    }

    /// The pre-key id.
    pub fn id(&self) -> (r: u32)
        ensures
            r == self@.id,
    {
        self.id
    }

    /// The serialised public key.
    pub fn public_key(&self) -> (r: Vec<u8>)
        ensures
            r@ == self@.public_key,
    {
        copy_bytes(&self.public_key)
    }

    /// The serialised full record.
    pub fn record(&self) -> (r: Vec<u8>)
        ensures
            r@ == self@.record,
    {
        copy_bytes(&self.record)
    }
}

/// What a signed pre-key record (elliptic-curve or Kyber) holds.
pub struct SignedPreKeyView {
    pub id: u32,
    pub public_key: Seq<u8>,
    pub signature: Seq<u8>,
    pub timestamp: u64,
    pub record: Seq<u8>,
}

/// A signed elliptic-curve pre-key for upload to the server.
pub struct WasmSignedPreKey {
    id: u32,
    public_key: Vec<u8>,
    signature: Vec<u8>,
    timestamp: u64,
    record: Vec<u8>,
}

impl View for WasmSignedPreKey {
    type V = SignedPreKeyView;

    closed spec fn view(&self) -> SignedPreKeyView {
        SignedPreKeyView {
            id: self.id,
            public_key: self.public_key@,
            signature: self.signature@,
            timestamp: self.timestamp,
            record: self.record@,
        }
    }
}

impl WasmSignedPreKey {
    /// A signed pre-key from its parts.
    pub fn new(id: u32, public_key: Vec<u8>, signature: Vec<u8>, timestamp: u64, record: Vec<u8>) -> (r:
        WasmSignedPreKey)
        ensures
            r@ == (SignedPreKeyView {
                id,
                public_key: public_key@,
                signature: signature@,
                timestamp,
                record: record@,
            }),
    {
        WasmSignedPreKey { id, public_key, signature, timestamp, record }
    }

    /// The pre-key id.
    pub fn id(&self) -> (r: u32)
        ensures
            r == self@.id,
    {
        self.id
    }

    /// The serialised public key.
    pub fn public_key(&self) -> (r: Vec<u8>)
        ensures
            r@ == self@.public_key,
    {
        copy_bytes(&self.public_key)
    }

    /// The identity key's signature over the public key.
    pub fn signature(&self) -> (r: Vec<u8>)
        ensures
            r@ == self@.signature,
    {
        copy_bytes(&self.signature)
    }

    /// Creation time, in milliseconds since the Unix epoch.
    pub fn timestamp(&self) -> (r: u64)
        ensures
            r == self@.timestamp,
    {
        self.timestamp
    }

    /// The serialised full record.
    pub fn record(&self) -> (r: Vec<u8>)
        ensures
            r@ == self@.record,
    {
        copy_bytes(&self.record)
    }
}

/// A signed Kyber (post-quantum) pre-key for upload to the server.
pub struct WasmKyberPreKey {
    id: u32,
    public_key: Vec<u8>,
    signature: Vec<u8>,
    timestamp: u64,
    record: Vec<u8>,
}

impl View for WasmKyberPreKey {
    type V = SignedPreKeyView;

    closed spec fn view(&self) -> SignedPreKeyView {
        SignedPreKeyView {
            id: self.id,
            public_key: self.public_key@,
            signature: self.signature@,
            timestamp: self.timestamp,
            record: self.record@,
        }
    }
}

impl WasmKyberPreKey {
    /// A Kyber pre-key from its parts.
    pub fn new(id: u32, public_key: Vec<u8>, signature: Vec<u8>, timestamp: u64, record: Vec<u8>) -> (r:
        WasmKyberPreKey)
        ensures
            r@ == (SignedPreKeyView {
                id,
                public_key: public_key@,
                signature: signature@,
                timestamp,
                record: record@,
            }),
    {
        WasmKyberPreKey { id, public_key, signature, timestamp, record }
    }

    /// The pre-key id.
    pub fn id(&self) -> (r: u32)
        ensures
            r == self@.id,
    {
        self.id
    }

    /// The serialised KEM public key.
    pub fn public_key(&self) -> (r: Vec<u8>)
        ensures
            r@ == self@.public_key,
    {
        copy_bytes(&self.public_key)
    }

    /// The identity key's signature over the public key.
    pub fn signature(&self) -> (r: Vec<u8>)
        ensures
            r@ == self@.signature,
    {
        copy_bytes(&self.signature)
    }

    /// Creation time, in milliseconds since the Unix epoch.
    pub fn timestamp(&self) -> (r: u64)
        ensures
            r == self@.timestamp,
    {
        self.timestamp
    }

    /// The serialised full record.
    pub fn record(&self) -> (r: Vec<u8>)
        ensures
            r@ == self@.record,
    {
        copy_bytes(&self.record)
    }
}

/// What a safety number holds.
pub struct SafetyNumberView {
    pub displayable: Seq<char>,
    pub scannable: Seq<u8>,
}

/// A safety number for identity verification: the digits to read out and
/// the bytes to encode in a QR code.
pub struct WasmSafetyNumber {
    displayable: String,
    scannable: Vec<u8>,
}

impl View for WasmSafetyNumber {
    type V = SafetyNumberView;

    closed spec fn view(&self) -> SafetyNumberView {
        SafetyNumberView { displayable: self.displayable@, scannable: self.scannable@ }
    }
}

impl WasmSafetyNumber {
    /// A safety number from its two forms.
    pub fn new(displayable: String, scannable: Vec<u8>) -> (r: WasmSafetyNumber)
        ensures
            r@ == (SafetyNumberView { displayable: displayable@, scannable: scannable@ }),
    {
        WasmSafetyNumber { displayable, scannable }
    }

    /// The digits to read out.
    pub fn displayable(&self) -> (r: String)
        ensures
            r@ == self@.displayable,
    {
        self.displayable.clone()
    }

    /// The bytes to encode in a QR code.
    pub fn scannable(&self) -> (r: Vec<u8>)
        ensures
            r@ == self@.scannable,
    {
        copy_bytes(&self.scannable)
    }

    /// Whether a scanned code matches this safety number, compared in
    /// constant time.
    pub fn matches_scanned(&self, scanned: &[u8]) -> (r: bool)
        ensures
            r == (scanned@ == self@.scannable),
    {
        ct_eq_bytes(scanned, self.scannable.as_slice())
    }
}

/// What an encrypted message holds.
pub struct CiphertextView {
    pub message_type: u8,
    pub body: Seq<u8>,
}

/// An encrypted message: its type byte and serialised body.
pub struct WasmCiphertext {
    message_type: u8,
    body: Vec<u8>,
}

impl View for WasmCiphertext {
    type V = CiphertextView;

    closed spec fn view(&self) -> CiphertextView {
        CiphertextView { message_type: self.message_type, body: self.body@ }
    }
}

impl WasmCiphertext {
    /// A message of the given kind; its type byte is the kind's.
    pub fn new(kind: CiphertextKind, body: Vec<u8>) -> (r: WasmCiphertext)
        ensures
            r@ == (CiphertextView { message_type: kind_type_byte(kind), body: body@ }),
    {
        WasmCiphertext { message_type: kind.type_byte(), body }
    }

    /// The message type byte.
    pub fn message_type(&self) -> (r: u8)
        ensures
            r == self@.message_type,
    {
        self.message_type
    }

    /// The serialised body.
    pub fn body(&self) -> (r: Vec<u8>)
        ensures
            r@ == self@.body,
    {
        copy_bytes(&self.body)
    }
}

} // verus!
