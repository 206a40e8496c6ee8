//! Byte/text codecs used by the transport layer: lowercase hex encoding
//! of socket paths, decimal rendering of ports, and the conversions
//! between UTF-8 byte sequences and strings.

use vstd::prelude::*;
use vstd::string::{StrSliceExecFns, StringExecFns, StringSliceAdditionalSpecFns};
use vstd::utf8::{decode_utf8, valid_utf8};

verus! {

// ---------------------------------------------------------------------------
// Hexadecimal encoding, as the `hex` crate performs it.
// ---------------------------------------------------------------------------

/// The lowercase hex digit for a value below 16.
pub open spec fn hex_digit_char(n: u8) -> char
    recommends
        n < 16,
{
    if n < 10 {
        ((48 + n) as u8) as char
    } else {
        ((87 + n) as u8) as char
    }
}

/// The lowercase hex rendering of a byte sequence: two digits per byte,
/// high nibble first.
pub open spec fn hex_chars(b: Seq<u8>) -> Seq<char>
    decreases b.len(),
{
    if b.len() == 0 {
        Seq::empty()
    } else {
        seq![hex_digit_char(b[0] / 16), hex_digit_char(b[0] % 16)] + hex_chars(b.drop_first())
    }
}

/// Whether a character is a hex digit (either case).
pub open spec fn is_hex_char(c: char) -> bool {
    (48 <= c as u32 && c as u32 <= 57) || (97 <= c as u32 && c as u32 <= 102) || (65 <= c as u32
        && c as u32 <= 70)
}

/// The numeric value of a hex digit character.
pub open spec fn hex_char_val(c: char) -> u8
    recommends
        is_hex_char(c),
{
    if 48 <= c as u32 && c as u32 <= 57 {
        (c as u32 - 48) as u8
    } else if 97 <= c as u32 && c as u32 <= 102 {
        (c as u32 - 87) as u8
    } else {
        (c as u32 - 55) as u8
    }
}

/// Whether a character sequence is a well-formed hex string: an even
/// number of characters, all of them hex digits.
pub open spec fn hex_ok(s: Seq<char>) -> bool {
    s.len() % 2 == 0 && (forall|i: int| 0 <= i < s.len() ==> is_hex_char(#[trigger] s[i]))
}

/// The bytes denoted by a hex string, two characters per byte.
pub open spec fn unhex_chars(s: Seq<char>) -> Seq<u8>
    decreases s.len(),
{
    if s.len() < 2 {
        Seq::empty()
    } else {
        seq![(hex_char_val(s[0]) * 16 + hex_char_val(s[1])) as u8] + unhex_chars(s.skip(2))
    }
}

/// Hex encoding loses nothing: the rendering of any byte sequence is a
/// well-formed hex string, and decoding it yields the original bytes.
pub proof fn lemma_hex_round_trip(b: Seq<u8>)
    ensures
        hex_ok(hex_chars(b)),
        unhex_chars(hex_chars(b)) == b,
        hex_chars(b).len() == 2 * b.len(),
    decreases b.len(),
{
    if b.len() == 0 {
        assert(unhex_chars(hex_chars(b)) =~= b);
    } else {
        lemma_hex_round_trip(b.drop_first());
        let s = hex_chars(b);
        let rest = hex_chars(b.drop_first());
        assert(s[0] == hex_digit_char(b[0] / 16));
        assert(s[1] == hex_digit_char(b[0] % 16));
        assert forall|n: u8| n < 16 implies is_hex_char(hex_digit_char(n)) && hex_char_val(
            hex_digit_char(n),
        ) == n by {
            if n < 10 {
                assert(((48 + n) as u8) as char as u32 == 48 + n);
            } else {
                assert(((87 + n) as u8) as char as u32 == 87 + n);
            }
        }
        assert(s.skip(2) =~= rest);
        assert(hex_ok(s));
        assert(hex_char_val(s[0]) * 16 + hex_char_val(s[1]) == b[0]);
        assert(unhex_chars(s) =~= b);
    }
}

/// Relies on `hex::encode`: it renders each input byte as two lowercase
/// hex digits, high nibble first.
#[verifier::external_body]
pub fn hex_encode(data: &Vec<u8>) -> (r: String)
    ensures
        r@ == hex_chars(data@),
{
    hex::encode(data)
}

/// Relies on `hex::FromHex` for `Vec<u8>`: decoding succeeds exactly on
/// an even number of hex digits (either case) and yields one byte per
/// digit pair.
#[verifier::external_body]
pub fn hex_decode(s: &str) -> (r: Option<Vec<u8>>)
    ensures
        r is Some <==> hex_ok(s@),
        r is Some ==> r->0@ == unhex_chars(s@),
{
    <Vec<u8> as hex::FromHex>::from_hex(s).ok()
}

// ---------------------------------------------------------------------------
// Decimal rendering of small integers (ports, address octets).
// ---------------------------------------------------------------------------

/// The decimal rendering of a number, as characters.
pub open spec fn dec_chars(n: nat) -> Seq<char>
    decreases n,
{
    if n < 10 {
        seq![((48 + n) as u8) as char]
    } else {
        dec_chars(n / 10).push(((48 + n % 10) as u8) as char)
    }
}

/// The decimal rendering of a number, as ASCII bytes.
pub open spec fn dec_bytes(n: nat) -> Seq<u8>
    decreases n,
{
    if n < 10 {
        seq![(48 + n) as u8]
    } else {
        dec_bytes(n / 10).push((48 + n % 10) as u8)
    }
}

/// Appends the decimal rendering of `n` to `out`.
pub fn push_dec_u16(out: &mut Vec<u8>, n: u16)
    ensures
        final(out)@ == old(out)@ + dec_bytes(n as nat),
    decreases n,
{
    if n < 10 {
        out.push(48 + n as u8);
        assert(out@ =~= old(out)@ + dec_bytes(n as nat));
    } else {
        push_dec_u16(out, n / 10);
        out.push(48 + (n % 10) as u8);
        assert(out@ =~= old(out)@ + dec_bytes(n as nat));
    }
}

/// Appends the decimal rendering of `n` to a string.
pub fn append_dec_u16(s: &mut String, n: u16)
    ensures
        final(s)@ == old(s)@ + dec_chars(n as nat),
    decreases n,
{
    if n >= 10 {
        append_dec_u16(s, n / 10);
    }
    let d = if n < 10 {
        n
    } else {
        n % 10
    };
    let piece = match d {
        0 => "0",
        1 => "1",
        2 => "2",
        3 => "3",
        4 => "4",
        5 => "5",
        6 => "6",
        7 => "7",
        8 => "8",
        _ => "9",
    };
    proof {
        reveal_strlit("0");
        reveal_strlit("1");
        reveal_strlit("2");
        reveal_strlit("3");
        reveal_strlit("4");
        reveal_strlit("5");
        reveal_strlit("6");
        reveal_strlit("7");
        reveal_strlit("8");
        reveal_strlit("9");
    }
    assert(piece@ =~= seq![((48 + d) as u8) as char]);
    s.append(piece);
    assert(s@ =~= old(s)@ + dec_chars(n as nat));
}

// ---------------------------------------------------------------------------
// Strings and UTF-8 bytes.
// ---------------------------------------------------------------------------

/// Appends the UTF-8 bytes of `s` to `out`.
pub fn push_str_bytes(out: &mut Vec<u8>, s: &str)
    ensures
        final(out)@ == old(out)@ + s.spec_bytes(),
{
    let b = s.as_bytes_vec();
    let mut i: usize = 0;
    while i < b.len()
        invariant
            i <= b.len(),
            b@ == s.spec_bytes(),
            out@ == old(out)@ + b@.take(i as int),
        decreases b.len() - i,
    {
        out.push(b[i]);
        assert(out@ =~= old(out)@ + b@.take(i as int + 1));
        i = i + 1;
    }
    assert(out@ =~= old(out)@ + s.spec_bytes());
}

/// Relies on `String::from_utf8`: it succeeds exactly on valid UTF-8 and
/// decodes it.
#[verifier::external_body]
pub fn utf8_to_string(v: Vec<u8>) -> (r: Option<String>)
    ensures
        r is Some <==> valid_utf8(v@),
        r is Some ==> r->0@ == decode_utf8(v@),
{
    String::from_utf8(v).ok()
}

/// Relies on `String::from_utf8_lossy`: on valid UTF-8 it decodes the
/// bytes exactly (invalid sequences are replaced, not reported).
#[verifier::external_body]
pub fn utf8_lossy_string(v: &Vec<u8>) -> (r: String)
    ensures
        valid_utf8(v@) ==> r@ == decode_utf8(v@),
{
    String::from_utf8_lossy(v).into_owned()
}

} // verus!
