//! The textual encodings a secret key may arrive in, as mathematical objects.
use vstd::prelude::*;

verus! {

/// The human-readable part of a bech32 secret key, `nsec`, as bytes.
pub open spec fn nsec_prefix() -> Seq<u8> {
    seq![0x6eu8, 0x73u8, 0x65u8, 0x63u8]
}

/// `c` is one of `0-9`, `a-f`, `A-F`.
pub open spec fn is_hex_digit(c: char) -> bool {
    ||| ('0' as u32 <= c as u32 && c as u32 <= '9' as u32)
    ||| ('a' as u32 <= c as u32 && c as u32 <= 'f' as u32)
    ||| ('A' as u32 <= c as u32 && c as u32 <= 'F' as u32)
}

/// The value of a hexadecimal digit, in either case.
pub open spec fn hex_digit_value(c: char) -> nat {
    if '0' as u32 <= c as u32 && c as u32 <= '9' as u32 {
        (c as u32 - '0' as u32) as nat
    } else if 'a' as u32 <= c as u32 && c as u32 <= 'f' as u32 {
        (c as u32 - 'a' as u32 + 10) as nat
    } else {
        (c as u32 - 'A' as u32 + 10) as nat
    }
}

/// `s` is hexadecimal text for exactly `n` bytes.
pub open spec fn is_hex_text(s: Seq<char>, n: nat) -> bool {
    &&& s.len() == 2 * n
    &&& forall|i: int| 0 <= i < s.len() ==> is_hex_digit(#[trigger] s[i])
}

/// The bytes that hexadecimal text spells, high digit first.
pub open spec fn hex_decoded(s: Seq<char>) -> Seq<u8> {
    Seq::new(s.len() / 2, |i: int| (hex_digit_value(s[2 * i]) * 16 + hex_digit_value(s[2 * i + 1])) as u8)
}

/// The lower-case hexadecimal digit for a value below 16.
pub open spec fn hex_digit_char(v: nat) -> char {
    if v < 10 {
        (('0' as u32) + v) as char
    } else {
        (('a' as u32) + (v - 10)) as char
    }
}

/// The lower-case hexadecimal text of a byte string, high digit first.
pub open spec fn hex_text_of(b: Seq<u8>) -> Seq<char> {
    Seq::new(2 * b.len(), |i: int|
        if i % 2 == 0 { hex_digit_char(b[i / 2] as nat / 16) } else { hex_digit_char(b[i / 2] as nat % 16) })
}

/// Every digit of the lower-case hex text of `b` is a hex digit, and decoding
/// it gives `b` back.
pub proof fn lemma_hex_round_trip(b: Seq<u8>)
    ensures
        is_hex_text(hex_text_of(b), b.len()),
        hex_decoded(hex_text_of(b)) == b,
{
    let t = hex_text_of(b);
    assert forall|i: int| 0 <= i < t.len() implies is_hex_digit(#[trigger] t[i]) by {
        let v: nat = if i % 2 == 0 { b[i / 2] as nat / 16 } else { b[i / 2] as nat % 16 };
        assert(v < 16);
        assert(t[i] == hex_digit_char(v));
    }
    assert forall|j: int| 0 <= j < b.len() implies #[trigger] hex_decoded(t)[j] == b[j] by {
        let hi: nat = b[j] as nat / 16;
        let lo: nat = b[j] as nat % 16;
        assert(t[2 * j] == hex_digit_char(hi));
        assert(t[2 * j + 1] == hex_digit_char(lo));
        assert(hex_digit_value(hex_digit_char(hi)) == hi);
        assert(hex_digit_value(hex_digit_char(lo)) == lo);
    }
    assert(hex_decoded(t) =~= b);
}

} // verus!
