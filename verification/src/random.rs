//! Randomness: random byte strings and registration ids.
use vstd::prelude::*;
use vstd::string::to_string_from_display_ensures;

use crate::error::SignalError;

verus! {

#[verifier::external_type_specification]
#[verifier::external_body]
pub struct ExRandomError(getrandom::Error);

/// `getrandom::fill`: overwrites the buffer with bytes from the system's
/// secure random source and hands it back, or hands back the source's
/// error. It cannot change the buffer's length, and on an empty buffer it
/// succeeds without asking the system. Nothing is stated of the bytes, or of
/// when it fails on a non-empty buffer.
#[verifier::external_body]
pub(crate) fn fill_random(dest: Vec<u8>) -> (r: Result<Vec<u8>, getrandom::Error>)
    ensures
        r matches Ok(v) ==> v@.len() == dest@.len(),
        dest@.len() == 0 ==> r is Ok,
{
    let mut dest = dest;
    match getrandom::fill(dest.as_mut_slice()) {
        Ok(()) => Ok(dest),
        Err(e) => Err(e),
    }
}

/// `Display` of `getrandom::Error` (through `to_string`): the text that
/// `to_string` gives for the error. Nothing more is stated of that text.
#[verifier::external_body]
pub(crate) fn random_error_text(e: &getrandom::Error) -> (r: String)
    ensures
        to_string_from_display_ensures::<getrandom::Error>(e, r),
{
    e.to_string()
}

/// `getrandom::u32`: a random `u32` from the system's secure random source,
/// or the source's error. Nothing is stated of the value or of when it
/// fails.
#[verifier::external_body]
fn random_u32() -> Result<u32, getrandom::Error> {
    getrandom::u32()
}

/// `val` is a value that a draw of a `u32` from the system's secure random
/// source produced.
pub closed spec fn drawn_u32(val: u32) -> bool {
    call_ensures(random_u32, (), Ok::<u32, getrandom::Error>(val))
}

/// `v` is a buffer of `length` bytes exactly as the system's secure random
/// source filled it.
pub closed spec fn random_fill(length: nat, v: Seq<u8>) -> bool {
    exists|buf: Vec<u8>, out: Vec<u8>|
        #[trigger] call_ensures(fill_random, (buf,), Ok::<Vec<u8>, getrandom::Error>(out))
            && buf@.len() == length && out@ == v
}

/// `e` is an error that the system's secure random source reported.
pub closed spec fn source_failed(e: getrandom::Error) -> bool {
    ||| call_ensures(random_u32, (), Err::<u32, getrandom::Error>(e))
    ||| exists|buf: Vec<u8>| #[trigger] call_ensures(fill_random, (buf,), Err::<Vec<u8>, getrandom::Error>(e))
}

/// `text` describes a failure that the system's secure random source
/// reported: it is that error's `to_string`.
pub closed spec fn random_failure(text: Seq<char>) -> bool {
    exists|e: getrandom::Error, s: String|
        #[trigger] to_string_from_display_ensures::<getrandom::Error>(&e, s) && source_failed(e)
            && s@ == text
}

/// Draws one `u32`; a failure of the source is turned into the library's
/// error, with the source's own description.
fn draw_u32() -> (r: Result<u32, SignalError>)
    ensures
        match r {
            Ok(val) => drawn_u32(val),
            Err(e) => e matches SignalError::Csprng(t) && random_failure(t@),
        },
{
    let draw = random_u32;
    match draw() {
        Ok(v) => Ok(v),
        Err(e) => {
            let text = random_error_text(&e);
            assert(source_failed(e));
            assert(to_string_from_display_ensures::<getrandom::Error>(&e, text));
            Err(SignalError::Csprng(text))
        },
    }
}

/// The number of bytes in an attachment key.
pub const ATTACHMENT_KEY_LENGTH: usize = 64;

/// Registration ids are drawn from `1..=REGISTRATION_ID_RANGE`.
pub const REGISTRATION_ID_RANGE: u32 = 16380;

/// Samples at or above this bound are rejected, so that the accepted
/// samples cover every residue modulo `REGISTRATION_ID_RANGE` equally
/// often: it is the largest multiple of the range that fits in a `u32`.
pub const REGISTRATION_ID_SAMPLE_LIMIT: u32 = 4294967040;

/// The registration id that a random sample yields, if it is accepted.
pub open spec fn registration_id_of_sample(val: u32) -> Option<u32> {
    if val < REGISTRATION_ID_SAMPLE_LIMIT {
        Some((val % REGISTRATION_ID_RANGE + 1) as u32)
    } else {
        None
    }
}

/// The sample limit is the largest multiple of the range within `u32`.
pub proof fn lemma_sample_limit()
    ensures
        REGISTRATION_ID_SAMPLE_LIMIT == (u32::MAX / REGISTRATION_ID_RANGE) * REGISTRATION_ID_RANGE,
        REGISTRATION_ID_SAMPLE_LIMIT % REGISTRATION_ID_RANGE == 0,
        u32::MAX - REGISTRATION_ID_SAMPLE_LIMIT < REGISTRATION_ID_RANGE,
{
}

/// One step of rejection sampling: maps an accepted sample to an id in
/// `1..=REGISTRATION_ID_RANGE` and rejects the rest.
pub fn registration_id_from_sample(val: u32) -> (r: Option<u32>)
    ensures
        r == registration_id_of_sample(val),
        r matches Some(id) ==> 1 <= id <= REGISTRATION_ID_RANGE,
{
    if val < REGISTRATION_ID_SAMPLE_LIMIT {
        Some(val % REGISTRATION_ID_RANGE + 1)
    } else {
        None
    }
}

/// The sampling rule is uniform: the accepted samples that yield a given id
/// are exactly `id - 1 + REGISTRATION_ID_RANGE * k` for
/// `k < REGISTRATION_ID_SAMPLE_LIMIT / REGISTRATION_ID_RANGE`, so every id
/// in the range has the same number of accepted samples.
pub proof fn lemma_sampling_is_uniform(id: u32, val: u32)
    requires
        1 <= id <= REGISTRATION_ID_RANGE,
    ensures
        registration_id_of_sample(val) == Some(id) <==> exists|k: int|
            0 <= k < REGISTRATION_ID_SAMPLE_LIMIT / REGISTRATION_ID_RANGE && #[trigger] (
            REGISTRATION_ID_RANGE * k) + id - 1 == val,
{
    if registration_id_of_sample(val) == Some(id) {
        let k = val as int / REGISTRATION_ID_RANGE as int;
        assert(REGISTRATION_ID_RANGE * k + val % REGISTRATION_ID_RANGE == val) by (nonlinear_arith)
            requires
                k == val as int / REGISTRATION_ID_RANGE as int,
        ;
        assert(k < REGISTRATION_ID_SAMPLE_LIMIT / REGISTRATION_ID_RANGE) by (nonlinear_arith)
            requires
                k == val as int / REGISTRATION_ID_RANGE as int,
                val < REGISTRATION_ID_SAMPLE_LIMIT,
        ;
        assert(REGISTRATION_ID_RANGE * k + id - 1 == val);
    }
    if exists|k: int|
        0 <= k < REGISTRATION_ID_SAMPLE_LIMIT / REGISTRATION_ID_RANGE && #[trigger] (
        REGISTRATION_ID_RANGE * k) + id - 1 == val {
        let k = choose|k: int|
            0 <= k < REGISTRATION_ID_SAMPLE_LIMIT / REGISTRATION_ID_RANGE && #[trigger] (
            REGISTRATION_ID_RANGE * k) + id - 1 == val;
        assert(val < REGISTRATION_ID_SAMPLE_LIMIT) by (nonlinear_arith)
            requires
                0 <= k < REGISTRATION_ID_SAMPLE_LIMIT / REGISTRATION_ID_RANGE,
                REGISTRATION_ID_RANGE * k + id - 1 == val,
                1 <= id <= REGISTRATION_ID_RANGE,
        ;
        assert(val % REGISTRATION_ID_RANGE == id - 1) by (nonlinear_arith)
            requires
                0 <= k,
                REGISTRATION_ID_RANGE * k + id - 1 == val,
                1 <= id <= REGISTRATION_ID_RANGE,
        ;
    }
}

/// Every buffer the random source fills has the length of the buffer it
/// was handed.
pub proof fn lemma_random_fill_length(length: nat, v: Seq<u8>)
    requires
        random_fill(length, v),
    ensures
        v.len() == length,
{
    let (buf, out) = choose|buf: Vec<u8>, out: Vec<u8>|
        #[trigger] call_ensures(fill_random, (buf,), Ok::<Vec<u8>, getrandom::Error>(out))
            && buf@.len() == length && out@ == v;
    assert(call_ensures(fill_random, (buf,), Ok::<Vec<u8>, getrandom::Error>(out)));
}

/// Every sample in `rejected` was drawn from the system's secure random
/// source and rejected by the sampling rule.
pub open spec fn rejected_draws(rejected: Seq<u32>) -> bool {
    forall|i: int| 0 <= i < rejected.len() ==> #[trigger] drawn_u32(rejected[i]) && rejected[i]
        >= REGISTRATION_ID_SAMPLE_LIMIT
}

/// `id` is what rejection sampling yields: the id of a drawn sample that
/// the sampling rule accepts, or, only after 2^64 - 1 drawn samples in a
/// row were rejected, the next drawn sample reduced into the range.
pub open spec fn registration_id_drawn(id: u32) -> bool {
    exists|val: u32|
        #[trigger] drawn_u32(val) && (registration_id_of_sample(val) == Some(id) || (id == val
            % REGISTRATION_ID_RANGE + 1 && exists|rejected: Seq<u32>|
            rejected.len() == u64::MAX && #[trigger] rejected_draws(rejected)))
}

/// Draws a registration id, uniformly from `1..=REGISTRATION_ID_RANGE`, by
/// rejection sampling: random `u32`s are drawn from the system's secure
/// random source until one is accepted by [`registration_id_from_sample`].
/// A failure of the random source is returned as an error. A rejection
/// happens with probability 2^-24; should 2^64 - 1 draws in a row be
/// rejected, the next one is reduced into the range as it stands.
pub fn generate_registration_id() -> (r: Result<u32, SignalError>)
    ensures
        match r {
            Ok(id) => 1 <= id <= REGISTRATION_ID_RANGE && registration_id_drawn(id),
            Err(e) => e matches SignalError::Csprng(t) && random_failure(t@),
        },
{
    let mut attempts: u64 = 0;
    let ghost mut rejected: Seq<u32> = Seq::empty();
    let mut val: u32 = match draw_u32() {
        Ok(v) => v,
        Err(e) => return Err(e),
    };
    while attempts < u64::MAX
        invariant
            drawn_u32(val),
            rejected.len() == attempts,
            rejected_draws(rejected),
        decreases u64::MAX - attempts,
    {
        if let Some(id) = registration_id_from_sample(val) {
            return Ok(id);
        }
        proof {
            rejected = rejected.push(val);
        }
        val = match draw_u32() {
            Ok(v) => v,
            Err(e) => return Err(e),
        };
        attempts = attempts + 1;
    }
    assert(rejected_draws(rejected));
    Ok(val % REGISTRATION_ID_RANGE + 1)
}

/// `length` bytes from the system's secure random source, exactly as it
/// filled them.
pub fn generate_random_bytes(length: usize) -> (r: Result<Vec<u8>, SignalError>)
    ensures
        match r {
            Ok(v) => v@.len() == length && random_fill(length as nat, v@),
            Err(e) => e matches SignalError::Csprng(t) && random_failure(t@),
        },
        length == 0 ==> r is Ok,
{
    let bytes: Vec<u8> = vec![0u8; length];
    let ghost buf = bytes;
    let fill = fill_random;
    match fill(bytes) {
        Ok(v) => {
            assert(call_ensures(fill_random, (buf,), Ok::<Vec<u8>, getrandom::Error>(v)));
            Ok(v)
        },
        Err(e) => {
            let text = random_error_text(&e);
            assert(call_ensures(fill_random, (buf,), Err::<Vec<u8>, getrandom::Error>(e)));
            assert(source_failed(e));
            assert(to_string_from_display_ensures::<getrandom::Error>(&e, text));
            Err(SignalError::Csprng(text))
        },
    }
}

/// A fresh random attachment key of `ATTACHMENT_KEY_LENGTH` bytes: one
/// draw of that many bytes from the system's secure random source.
pub fn generate_attachment_key() -> (r: Result<Vec<u8>, SignalError>)
    ensures
        match r {
            Ok(v) => v@.len() == ATTACHMENT_KEY_LENGTH && random_fill(
                ATTACHMENT_KEY_LENGTH as nat,
                v@,
            ),
            Err(e) => e matches SignalError::Csprng(t) && random_failure(t@),
        },
{
    generate_random_bytes(ATTACHMENT_KEY_LENGTH)
}

} // verus!
