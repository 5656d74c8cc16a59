//! Lowercase hexadecimal encoding of byte sequences, with the `0x`
//! prefix used by every byte-valued document field, and the
//! specification-level decoding that inverts it.

use vstd::prelude::*;

verus! {

/// The character for a single hex digit value (0..16).
pub open spec fn hex_digit_char(d: u8) -> char {
    if d == 0 {
        '0'
    } else if d == 1 {
        '1'
    } else if d == 2 {
        '2'
    } else if d == 3 {
        '3'
    } else if d == 4 {
        '4'
    } else if d == 5 {
        '5'
    } else if d == 6 {
        '6'
    } else if d == 7 {
        '7'
    } else if d == 8 {
        '8'
    } else if d == 9 {
        '9'
    } else if d == 10 {
        'a'
    } else if d == 11 {
        'b'
    } else if d == 12 {
        'c'
    } else if d == 13 {
        'd'
    } else if d == 14 {
        'e'
    } else {
        'f'
    }
}

/// The numeric value of a lowercase hex digit character.
pub open spec fn hex_char_value(c: char) -> u8 {
    if c == '0' {
        0
    } else if c == '1' {
        1
    } else if c == '2' {
        2
    } else if c == '3' {
        3
    } else if c == '4' {
        4
    } else if c == '5' {
        5
    } else if c == '6' {
        6
    } else if c == '7' {
        7
    } else if c == '8' {
        8
    } else if c == '9' {
        9
    } else if c == 'a' {
        10
    } else if c == 'b' {
        11
    } else if c == 'c' {
        12
    } else if c == 'd' {
        13
    } else if c == 'e' {
        14
    } else {
        15
    }
}

/// Lowercase hex encoding of a byte sequence: two digits per byte,
/// high nibble first, no separators, leading zero bytes preserved.
pub open spec fn hex_of(bs: Seq<u8>) -> Seq<char> {
    Seq::new(
        2 * bs.len(),
        |j: int|
            if j % 2 == 0 {
                hex_digit_char(bs[j / 2] / 16)
            } else {
                hex_digit_char(bs[j / 2] % 16)
            },
    )
}

/// A `0x`-prefixed lowercase hex encoding, the form every byte-valued
/// document field takes.
pub open spec fn hex_field_of(bs: Seq<u8>) -> Seq<char> {
    seq!['0', 'x'] + hex_of(bs)
}

/// Decoding of an even-length lowercase-hex character sequence back to
/// bytes: each pair of digits yields one byte, high nibble first.
pub open spec fn hex_decode(s: Seq<char>) -> Seq<u8> {
    Seq::new(s.len() / 2, |i: int| (16 * hex_char_value(s[2 * i]) + hex_char_value(s[2 * i + 1])) as u8)
}

/// Decoding inverts encoding: hex-decoding the hex string of any byte
/// sequence recovers exactly the original bytes.
pub proof fn lemma_hex_round_trip(bs: Seq<u8>)
    ensures
        hex_decode(hex_of(bs)) == bs,
{
    let enc = hex_of(bs);
    assert(enc.len() == 2 * bs.len());
    assert forall|i: int| 0 <= i < bs.len() implies hex_decode(enc)[i] == bs[i] by {
        assert(enc[2 * i] == hex_digit_char(bs[i] / 16));
        assert(enc[2 * i + 1] == hex_digit_char(bs[i] % 16));
        assert(hex_char_value(hex_digit_char(bs[i] / 16)) == bs[i] / 16);
        assert(hex_char_value(hex_digit_char(bs[i] % 16)) == bs[i] % 16);
        assert(16 * (bs[i] / 16) + bs[i] % 16 == bs[i]) by (nonlinear_arith);
    }
    assert(hex_decode(enc) =~= bs);
}

/// The `0x`-prefixed form round-trips as well: stripping the two
/// prefix characters and decoding recovers the original bytes.
pub proof fn lemma_hex_field_round_trip(bs: Seq<u8>)
    ensures
        hex_field_of(bs).skip(2) == hex_of(bs),
        hex_decode(hex_field_of(bs).skip(2)) == bs,
{
    assert(hex_field_of(bs).skip(2) =~= hex_of(bs));
    lemma_hex_round_trip(bs);
}

/// A one-character string for a single hex digit value.
pub(crate) fn digit_str(d: u8) -> (r: &'static str)
    requires
        d < 16,
    ensures
        r@ == seq![hex_digit_char(d)],
{
    proof {
        reveal_strlit("0");
        reveal_strlit("1");
        reveal_strlit("2");
        reveal_strlit("3");
        reveal_strlit("4");
        reveal_strlit("5");
        reveal_strlit("6");
        reveal_strlit("7");
        reveal_strlit("8");
        reveal_strlit("9");
        reveal_strlit("a");
        reveal_strlit("b");
        reveal_strlit("c");
        reveal_strlit("d");
        reveal_strlit("e");
        reveal_strlit("f");
    }
    let r: &'static str = match d {
        0 => "0",
        1 => "1",
        2 => "2",
        3 => "3",
        4 => "4",
        5 => "5",
        6 => "6",
        7 => "7",
        8 => "8",
        9 => "9",
        10 => "a",
        11 => "b",
        12 => "c",
        13 => "d",
        14 => "e",
        _ => "f",
    };
    proof {
        assert(r@ =~= seq![hex_digit_char(d)]);
    }
    r
}

/// Lowercase hex encoding of a byte slice, without a prefix.
pub fn hex_str(bs: &[u8]) -> (s: String)
    ensures
        s@ == hex_of(bs@),
{
    let mut s = String::new();
    let mut i: usize = 0;
    while i < bs.len()
        invariant
            i <= bs@.len(),
            s@ =~= hex_of(bs@.take(i as int)),
        decreases bs@.len() - i,
    {
        let b = bs[i];
        s.append(digit_str(b / 16));
        s.append(digit_str(b % 16));
        i = i + 1;
        proof {
            assert(s@ =~= hex_of(bs@.take(i as int)));
        }
    }
    proof {
        assert(bs@.take(bs@.len() as int) =~= bs@);
    }
    s
}

/// `0x`-prefixed lowercase hex encoding of a byte slice.
pub fn hex_field_str(bs: &[u8]) -> (s: String)
    ensures
        s@ == hex_field_of(bs@),
{
    proof {
        reveal_strlit("0x");
    }
    let mut s = String::from_str("0x");
    s.append(hex_str(bs).as_str());
    proof {
        assert(s@ =~= hex_field_of(bs@));
    }
    s
}

} // verus!
