//! UUID handling: validation of local UUIDs, conversion between the byte and
//! text forms, fresh random UUIDs and group distribution ids.
use vstd::prelude::*;

use crate::error::SignalError;
use crate::random::{generate_random_bytes, random_failure, random_fill};
use crate::uuid_text::{hyphenated_lower, uuid_parse};

verus! {

#[verifier::external_type_specification]
#[verifier::external_body]
pub struct ExUuid(uuid::Uuid);

#[verifier::external_type_specification]
#[verifier::external_body]
pub struct ExUuidError(uuid::Error);

/// The 16 bytes that a `uuid::Uuid` holds (it is a wrapper around a
/// `[u8; 16]`).
pub uninterp spec fn uuid_bytes(u: uuid::Uuid) -> Seq<u8>;

/// `uuid::Uuid::parse_str`: accepts exactly the simple, hyphenated, braced
/// and URN forms with hex digits of either case (its parser module), and
/// yields the bytes they spell.
#[verifier::external_body]
fn uuid_parse_str(s: &str) -> (r: Result<uuid::Uuid, uuid::Error>)
    ensures
        match r {
            Ok(u) => uuid_parse(s@) == Some(uuid_bytes(u)),
            Err(_) => uuid_parse(s@) is None,
        },
{
    uuid::Uuid::parse_str(s)
}

/// `uuid::Uuid::from_slice`: succeeds exactly on 16 bytes, which it copies.
#[verifier::external_body]
fn uuid_from_slice(b: &[u8]) -> (r: Result<uuid::Uuid, uuid::Error>)
    ensures
        match r {
            Ok(u) => b@.len() == 16 && uuid_bytes(u) == b@,
            Err(_) => b@.len() != 16,
        },
{
    uuid::Uuid::from_slice(b)
}

/// `uuid::Builder::from_random_bytes` then `into_uuid`: a version 4 UUID
/// from 16 random bytes. The bytes are kept except that the high nibble of
/// byte 6 becomes the version 4 and the top two bits of byte 8 become the
/// variant `10`.
#[verifier::external_body]
fn uuid_from_random_bytes(bytes: &[u8]) -> (r: uuid::Uuid)
    requires
        bytes@.len() == 16,
    ensures
        uuid_bytes(r) == version4_bytes(bytes@),
{
    let random_bytes: [u8; 16] = bytes.try_into().unwrap();
    uuid::Builder::from_random_bytes(random_bytes).into_uuid()
}

/// `uuid::Uuid::as_bytes`, copied into a vector: the 16 bytes held.
#[verifier::external_body]
fn uuid_as_bytes(u: &uuid::Uuid) -> (r: Vec<u8>)
    ensures
        r@ == uuid_bytes(*u),
        r@.len() == 16,
{
    u.as_bytes().to_vec()
}

/// `Display` of `uuid::Uuid` (through `to_string`): the hyphenated form in
/// lower case.
#[verifier::external_body]
fn uuid_display(u: &uuid::Uuid) -> (r: String)
    ensures
        r@ == hyphenated_lower(uuid_bytes(*u)),
{
    u.to_string()
}

/// `Display` of `uuid::Error`: a description of the failure. Nothing is
/// stated of its text.
#[verifier::external_body]
fn uuid_error_text(e: &uuid::Error) -> String {
    e.to_string()
}

/// Checks that `s` is a UUID in one of the accepted textual forms.
pub fn validate_uuid(s: &str) -> (r: Result<(), SignalError>)
    ensures
        r is Ok <==> uuid_parse(s@) is Some,
        r matches Err(e) ==> e == SignalError::InvalidUuid,
{
    match uuid_parse_str(s) {
        Ok(_) => Ok(()),
        Err(_) => Err(SignalError::InvalidUuid),
    }
}

/// Writes 16 UUID bytes in the hyphenated lower-case form.
pub fn uuid_to_string(bytes: &[u8]) -> (r: Result<String, SignalError>)
    ensures
        match r {
            Ok(s) => bytes@.len() == 16 && s@ == hyphenated_lower(bytes@),
            Err(e) => bytes@.len() != 16 && e == SignalError::UuidLength,
        },
{
    if bytes.len() != 16 {
        return Err(SignalError::UuidLength);
    }
    match uuid_from_slice(bytes) {
        Ok(u) => Ok(uuid_display(&u)),
        Err(e) => Err(SignalError::Engine(uuid_error_text(&e))),
    }
}

/// Reads a UUID in any accepted textual form into its 16 bytes.
pub fn uuid_from_string(s: &str) -> (r: Result<Vec<u8>, SignalError>)
    ensures
        match r {
            Ok(v) => uuid_parse(s@) == Some(v@),
            Err(e) => uuid_parse(s@) is None && e is Engine,
        },
{
    match uuid_parse_str(s) {
        Ok(u) => Ok(uuid_as_bytes(&u)),
        Err(e) => Err(SignalError::Engine(uuid_error_text(&e))),
    }
}

/// The version 4 UUID made from 16 random bytes: the bytes are kept, except
/// that the high nibble of byte 6 becomes the version 4 and the top two bits
/// of byte 8 become the variant `10`.
pub open spec fn version4_bytes(random: Seq<u8>) -> Seq<u8> {
    random.update(6, (random[6] % 16 + 64) as u8).update(8, (random[8] % 64 + 128) as u8)
}

/// A version 4 UUID keeps 122 of its 16 random bytes' 128 bits: every byte
/// but 6 and 8 unchanged, the low nibble of byte 6 and the low six bits of
/// byte 8; only the version nibble and the two variant bits are fixed.
pub proof fn lemma_version4_keeps_random_bits(random: Seq<u8>)
    requires
        random.len() == 16,
    ensures
        version4_bytes(random).len() == 16,
        forall|i: int| 0 <= i < 16 && i != 6 && i != 8 ==> #[trigger] version4_bytes(random)[i] == random[i],
        version4_bytes(random)[6] / 16 == 4,
        version4_bytes(random)[6] % 16 == random[6] % 16,
        version4_bytes(random)[8] / 64 == 2,
        version4_bytes(random)[8] % 64 == random[8] % 64,
{
}

/// A fresh random (version 4) UUID as 16 bytes: 16 bytes from the system's
/// secure random source, with the version and variant bits set. A failure
/// of the random source is returned as an error.
pub fn generate_uuid() -> (r: Result<Vec<u8>, SignalError>)
    ensures
        match r {
            Ok(v) => {
                &&& v@.len() == 16
                &&& v@[6] / 16 == 4
                &&& v@[8] / 64 == 2
                &&& exists|random: Seq<u8>| #[trigger] random_fill(16, random) && v@ == version4_bytes(random)
            },
            Err(e) => e matches SignalError::Csprng(t) && random_failure(t@),
        },
{
    let random_bytes = match generate_random_bytes(16) {
        Ok(v) => v,
        Err(e) => return Err(e),
    };
    let u = uuid_from_random_bytes(random_bytes.as_slice());
    proof {
        lemma_version4_keeps_random_bits(random_bytes@);
    }
    Ok(uuid_as_bytes(&u))
}

/// The distribution id of a group, from its 16 bytes.
pub fn group_distribution_id(bytes: &[u8]) -> (r: Result<uuid::Uuid, SignalError>)
    ensures
        match r {
            Ok(u) => bytes@.len() == 16 && uuid_bytes(u) == bytes@,
            Err(e) => bytes@.len() != 16 && e == SignalError::GroupDistributionIdLength,
        },
{
    if bytes.len() != 16 {
        return Err(SignalError::GroupDistributionIdLength);
    }
    match uuid_from_slice(bytes) {
        Ok(u) => Ok(u),
        Err(e) => Err(SignalError::Engine(uuid_error_text(&e))),
    }
}

/// The distribution id under which a sender key is stored, from its 16
/// bytes.
pub fn sender_key_distribution_id(bytes: &[u8]) -> (r: Result<uuid::Uuid, SignalError>)
    ensures
        match r {
            Ok(u) => bytes@.len() == 16 && uuid_bytes(u) == bytes@,
            Err(e) => bytes@.len() != 16 && e == SignalError::SenderKeyDistributionIdLength,
        },
{
    if bytes.len() != 16 {
        return Err(SignalError::SenderKeyDistributionIdLength);
    }
    match uuid_from_slice(bytes) {
        Ok(u) => Ok(u),
        Err(e) => Err(SignalError::Engine(uuid_error_text(&e))),
    }
}

} // verus!
