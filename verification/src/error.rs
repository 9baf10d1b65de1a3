use vstd::prelude::*;

verus! {

/// The three families of pre-keys the client issues and stores.
#[derive(Clone, Copy, Debug, PartialEq, Eq, Structural)]
pub enum PreKeyKind {
    /// One-time elliptic-curve pre-keys.
    OneTime,
    /// Signed elliptic-curve pre-keys.
    Signed,
    /// Signed Kyber (post-quantum) pre-keys.
    Kyber,
}

/// How a pre-key family is named in error messages.
pub open spec fn kind_label(kind: PreKeyKind) -> Seq<char> {
    match kind {
        PreKeyKind::OneTime => "PreKey"@,
        PreKeyKind::Signed => "Signed PreKey"@,
        PreKeyKind::Kyber => "Kyber PreKey"@,
    }
}

impl PreKeyKind {
    /// The name of the family as it appears in error messages.
    pub fn label(&self) -> (r: &'static str)
        ensures
            r@ == kind_label(*self),
    {
        match self {
            PreKeyKind::OneTime => "PreKey",
            PreKeyKind::Signed => "Signed PreKey",
            PreKeyKind::Kyber => "Kyber PreKey",
        }
    }
}

/// Everything that can go wrong in the client.
#[derive(Clone, Debug, PartialEq, Eq)]
pub enum SignalError {
    /// A device id outside `1..=127`.
    InvalidDeviceId,
    /// A local UUID that does not parse.
    InvalidUuid,
    /// UUID bytes whose length is not 16.
    UuidLength,
    /// A group distribution id whose length is not 16.
    GroupDistributionIdLength,
    /// A sender-key distribution id whose length is not 16.
    SenderKeyDistributionIdLength,
    /// The id counter of a pre-key family is exhausted.
    IdOverflow(PreKeyKind),
    /// An imported pre-key record carries another id than the one asked for.
    IdMismatch(PreKeyKind),
    /// An incoming message type byte that is neither 2 nor 3.
    UnknownMessageType(u8),
    /// The system random source failed; the text describes the failure.
    Csprng(String),
    /// An outside component (the protocol engine or a parser) failed; the
    /// text describes the failure.
    Engine(String),
}

/// The decimal digit `d` (`d < 10`) as a character.
pub open spec fn digit_char(d: int) -> char {
    if d == 0 { '0' }
    else if d == 1 { '1' }
    else if d == 2 { '2' }
    else if d == 3 { '3' }
    else if d == 4 { '4' }
    else if d == 5 { '5' }
    else if d == 6 { '6' }
    else if d == 7 { '7' }
    else if d == 8 { '8' }
    else { '9' }
}

/// The decimal representation of `n`, without leading zeros.
pub open spec fn decimal(n: nat) -> Seq<char>
    decreases n,
{
    if n < 10 {
        seq![digit_char(n as int)]
    } else {
        decimal(n / 10) + seq![digit_char((n % 10) as int)]
    }
}

/// The text shown for an error. Failures of outside components are shown
/// in full only when `detailed` holds; otherwise they are flattened to a
/// generic message that leaks nothing about the internals.
pub open spec fn error_message(e: SignalError, detailed: bool) -> Seq<char> {
    match e {
        SignalError::InvalidDeviceId => "Invalid device ID (must be 1-127)"@,
        SignalError::InvalidUuid => "Invalid UUID format"@,
        SignalError::UuidLength => "UUID must be 16 bytes"@,
        SignalError::GroupDistributionIdLength => "distribution_id must be 16 bytes (UUID)"@,
        SignalError::SenderKeyDistributionIdLength => "distribution_id must be 16 bytes"@,
        SignalError::IdOverflow(kind) => kind_label(kind) + " ID overflow"@,
        SignalError::IdMismatch(kind) => kind_label(kind) + " ID mismatch"@,
        SignalError::UnknownMessageType(t) => "Unknown message type: "@ + decimal(t as nat),
        SignalError::Csprng(detail) => "CSPRNG error: "@ + detail@,
        SignalError::Engine(detail) => if detailed {
            "SignalError: "@ + detail@
        } else {
            "SignalError: Operation failed"@
        },
    }
}

/// A decimal digit as a one-character string.
fn digit_str(d: u8) -> (r: &'static str)
    requires
        d < 10,
    ensures
        r@ == seq![digit_char(d as int)],
{
    match d {
        0 => { proof { reveal_strlit("0"); } "0" },
        1 => { proof { reveal_strlit("1"); } "1" },
        2 => { proof { reveal_strlit("2"); } "2" },
        3 => { proof { reveal_strlit("3"); } "3" },
        4 => { proof { reveal_strlit("4"); } "4" },
        5 => { proof { reveal_strlit("5"); } "5" },
        6 => { proof { reveal_strlit("6"); } "6" },
        7 => { proof { reveal_strlit("7"); } "7" },
        8 => { proof { reveal_strlit("8"); } "8" },
        _ => { proof { reveal_strlit("9"); } "9" },
    }
}

/// Appends the decimal representation of `n` to `out`.
pub fn push_decimal(out: &mut String, n: u8)
    ensures
        final(out)@ == old(out)@ + decimal(n as nat),
{
    let ghost start = out@;
    if n >= 100 {
        out.append(digit_str(n / 100));
        out.append(digit_str((n / 10) % 10));
        out.append(digit_str(n % 10));
        assert((n / 10) / 10 == n / 100);
        assert(decimal((n / 100) as nat) == seq![digit_char((n / 100) as int)]);
        assert(decimal((n / 10) as nat) == decimal((n / 100) as nat) + seq![digit_char(((n / 10) % 10) as int)]);
        assert(decimal(n as nat) == decimal((n / 10) as nat) + seq![digit_char((n % 10) as int)]);
    } else if n >= 10 {
        out.append(digit_str(n / 10));
        out.append(digit_str(n % 10));
        assert(decimal((n / 10) as nat) == seq![digit_char((n / 10) as int)]);
        assert(decimal(n as nat) == decimal((n / 10) as nat) + seq![digit_char((n % 10) as int)]);
    } else {
        out.append(digit_str(n));
    }
    assert(out@ =~= start + decimal(n as nat));
}

impl SignalError {
    /// The text shown for this error (see [`error_message`]).
    pub fn message(&self, detailed: bool) -> (r: String)
        ensures
            r@ == error_message(*self, detailed),
    {
        match self {
            SignalError::InvalidDeviceId => String::from_str("Invalid device ID (must be 1-127)"),
            SignalError::InvalidUuid => String::from_str("Invalid UUID format"),
            SignalError::UuidLength => String::from_str("UUID must be 16 bytes"),
            SignalError::GroupDistributionIdLength => String::from_str(
                "distribution_id must be 16 bytes (UUID)",
            ),
            SignalError::SenderKeyDistributionIdLength => String::from_str(
                "distribution_id must be 16 bytes",
            ),
            SignalError::IdOverflow(kind) => {
                let mut s = String::from_str(kind.label());
                s.append(" ID overflow");
                s
            },
            SignalError::IdMismatch(kind) => {
                let mut s = String::from_str(kind.label());
                s.append(" ID mismatch");
                s
            },
            SignalError::UnknownMessageType(t) => {
                let mut s = String::from_str("Unknown message type: ");
                push_decimal(&mut s, *t);
                s
            },
            SignalError::Csprng(detail) => {
                let mut s = String::from_str("CSPRNG error: ");
                s.append(detail.as_str());
                s
            },
            SignalError::Engine(detail) => {
                if detailed {
                    let mut s = String::from_str("SignalError: ");
                    s.append(detail.as_str());
                    s
                } else {
                    String::from_str("SignalError: Operation failed")
                }
            },
        }
    }
}

} // verus!
