//! The textual forms of a UUID: what the formatter writes and what the
//! parser accepts.
use vstd::prelude::*;
use vstd::utf8::is_ascii_chars;

verus! {

/// The lower-case hexadecimal digit for `n` (`0 <= n < 16`).
pub open spec fn hex_lower(n: int) -> char {
    if n < 10 {
        (n + 48) as char
    } else {
        (n + 87) as char
    }
}

/// The value of a hexadecimal digit of either case, if `c` is one.
pub open spec fn hex_value(c: char) -> Option<int> {
    if '0' <= c <= '9' {
        Some(c as int - 48)
    } else if 'a' <= c <= 'f' {
        Some(c as int - 87)
    } else if 'A' <= c <= 'F' {
        Some(c as int - 55)
    } else {
        None
    }
}

/// The `i`-th nibble of `b`, most significant nibble of each byte first.
pub open spec fn nibble(b: Seq<u8>, i: int) -> int {
    if i % 2 == 0 {
        b[i / 2] as int / 16
    } else {
        b[i / 2] as int % 16
    }
}

/// The simple form: two lower-case hex digits per byte.
pub open spec fn simple_lower(b: Seq<u8>) -> Seq<char> {
    Seq::new(2 * b.len(), |i: int| hex_lower(nibble(b, i)))
}

/// The hyphenated form `xxxxxxxx-xxxx-xxxx-xxxx-xxxxxxxxxxxx`, lower case.
pub open spec fn hyphenated_lower(b: Seq<u8>) -> Seq<char> {
    let s = simple_lower(b);
    s.subrange(0, 8) + seq!['-'] + s.subrange(8, 12) + seq!['-'] + s.subrange(12, 16) + seq!['-']
        + s.subrange(16, 20) + seq!['-'] + s.subrange(20, 32)
}

/// Decodes 32 hexadecimal digits (either case) into 16 bytes.
pub open spec fn decode_hex32(h: Seq<char>) -> Option<Seq<u8>> {
    if h.len() == 32 && forall|i: int| 0 <= i < 32 ==> #[trigger] hex_value(h[i]) is Some {
        Some(
            Seq::new(
                16,
                |j: int| (hex_value(h[2 * j])->0 * 16 + hex_value(h[2 * j + 1])->0) as u8,
            ),
        )
    } else {
        None
    }
}

/// The 32 digits of a hyphenated form, with its four hyphens removed.
pub open spec fn strip_hyphens(s: Seq<char>) -> Seq<char> {
    s.subrange(0, 8) + s.subrange(9, 13) + s.subrange(14, 18) + s.subrange(19, 23) + s.subrange(
        24,
        36,
    )
}

/// Parses the hyphenated form, hex digits of either case.
pub open spec fn parse_hyphenated(s: Seq<char>) -> Option<Seq<u8>> {
    if s.len() == 36 && s[8] == '-' && s[13] == '-' && s[18] == '-' && s[23] == '-' {
        decode_hex32(strip_hyphens(s))
    } else {
        None
    }
}

/// ASCII lower-casing of one character.
pub open spec fn ascii_lower(c: char) -> char {
    if 'A' <= c <= 'Z' {
        (c as int + 32) as char
    } else {
        c
    }
}

/// The URN prefix, compared without regard to ASCII case.
pub open spec fn urn_prefix() -> Seq<char> {
    seq!['u', 'r', 'n', ':', 'u', 'u', 'i', 'd', ':']
}

/// The 16 bytes that a UUID string denotes, if it is one. Four forms are
/// accepted, hex digits in either case: simple (32 digits), hyphenated,
/// braced (`{hyphenated}`) and URN (`urn:uuid:hyphenated`, prefix in any
/// case). Anything else, in particular any string with a non-ASCII
/// character, is refused.
pub open spec fn uuid_parse(s: Seq<char>) -> Option<Seq<u8>> {
    if !is_ascii_chars(s) {
        None
    } else if s.len() == 32 {
        decode_hex32(s)
    } else if s.len() == 36 {
        parse_hyphenated(s)
    } else if s.len() == 38 {
        if s[0] == '{' && s[37] == '}' {
            parse_hyphenated(s.subrange(1, 37))
        } else {
            None
        }
    } else if s.len() == 45 {
        if s.subrange(0, 9).map_values(|c: char| ascii_lower(c)) == urn_prefix() {
            parse_hyphenated(s.subrange(9, 45))
        } else {
            None
        }
    } else {
        None
    }
}

/// Every hex digit written by the formatter reads back as its value.
pub proof fn lemma_hex_digit_round_trip(n: int)
    requires
        0 <= n < 16,
    ensures
        hex_value(hex_lower(n)) == Some(n),
        '\0' <= hex_lower(n) <= '\u{7f}',
        hex_lower(n) != '-',
{
}

/// The formatter writes 36 ASCII characters for 16 bytes.
pub proof fn lemma_hyphenated_shape(b: Seq<u8>)
    requires
        b.len() == 16,
    ensures
        hyphenated_lower(b).len() == 36,
        is_ascii_chars(hyphenated_lower(b)),
{
    let h = hyphenated_lower(b);
    assert forall|i: int| 0 <= i < h.len() implies '\0' <= #[trigger] h[i] <= '\u{7f}' by {
        if i != 8 && i != 13 && i != 18 && i != 23 {
            let k = if i < 8 {
                i
            } else if i < 13 {
                i - 1
            } else if i < 18 {
                i - 2
            } else if i < 23 {
                i - 3
            } else {
                i - 4
            };
            assert(h[i] == simple_lower(b)[k]);
            lemma_hex_digit_round_trip(nibble(b, k));
        }
    }
}

/// Reading back what the formatter wrote gives the original 16 bytes:
/// a UUID printed as text parses to the same UUID.
pub proof fn lemma_uuid_text_round_trip(b: Seq<u8>)
    requires
        b.len() == 16,
    ensures
        uuid_parse(hyphenated_lower(b)) == Some(b),
{
    let h = hyphenated_lower(b);
    let s = simple_lower(b);
    lemma_hyphenated_shape(b);
    assert(strip_hyphens(h) =~= s);
    assert forall|i: int| 0 <= i < 32 implies #[trigger] hex_value(s[i]) == Some(nibble(b, i)) by {
        lemma_hex_digit_round_trip(nibble(b, i));
    }
    let d = decode_hex32(s);
    assert(d is Some);
    assert forall|j: int| 0 <= j < 16 implies #[trigger] d->0[j] == b[j] by {
        assert(hex_value(s[2 * j]) == Some(nibble(b, 2 * j)));
        assert(hex_value(s[2 * j + 1]) == Some(nibble(b, 2 * j + 1)));
        assert((2 * j) / 2 == j);
        assert((2 * j + 1) / 2 == j);
        assert((2 * j) % 2 == 0);
        assert((2 * j + 1) % 2 == 1);
    }
    assert(d->0 =~= b);
}

} // verus!
