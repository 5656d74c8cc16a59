//! A 256-bit unsigned integer held as four 64-bit limbs, with verified
//! conversion to its exact base-10 string representation.
//!
//! Gas quantities can exceed the safe range of the document model's
//! numeric kinds, so they are encoded as decimal-digit strings; the
//! conversion here is proved exact, and a specification-level parse
//! proves the encoding loses no precision.

use vstd::prelude::*;
use vstd::arithmetic::div_mod::{
    lemma_fundamental_div_mod,
    lemma_fundamental_div_mod_converse_div,
    lemma_fundamental_div_mod_converse_mod,
    lemma_div_is_ordered,
};
use crate::hexcodec::{hex_digit_char, hex_char_value};

verus! {

/// An unsigned 256-bit integer: four 64-bit limbs, least significant
/// first.
#[derive(Clone, Copy, Debug, PartialEq, Eq, Structural)]
pub struct U256 {
    pub w0: u64,
    pub w1: u64,
    pub w2: u64,
    pub w3: u64,
}

impl U256 {
    /// The mathematical value of the limbs.
    pub open spec fn value(self) -> nat {
        (self.w0 + self.w1 * 0x1_0000_0000_0000_0000 + self.w2
            * 0x1_0000_0000_0000_0000_0000_0000_0000_0000 + self.w3
            * 0x1_0000_0000_0000_0000_0000_0000_0000_0000_0000_0000_0000_0000) as nat
    }

    /// Builds the value of a single 64-bit quantity.
    pub fn from_u64(n: u64) -> (r: U256)
        ensures
            r.value() == n,
    {
        U256 { w0: n, w1: 0, w2: 0, w3: 0 }
    }

    /// Builds a value from its four limbs, least significant first.
    pub fn from_limbs(w0: u64, w1: u64, w2: u64, w3: u64) -> (r: U256)
        ensures
            r.w0 == w0 && r.w1 == w1 && r.w2 == w2 && r.w3 == w3,
    {
        U256 { w0, w1, w2, w3 }
    }

    /// Whether the value is zero.
    pub fn is_zero(&self) -> (r: bool)
        ensures
            r == (self.value() == 0),
    {
        self.w0 == 0 && self.w1 == 0 && self.w2 == 0 && self.w3 == 0
    }

    /// Quotient and remainder of division by ten.
    pub fn div_rem_10(&self) -> (r: (U256, u8))
        ensures
            r.0.value() * 10 + r.1 == self.value(),
            r.1 < 10,
    {
        let c3: u128 = self.w3 as u128;
        proof {
            lemma_div10_fits(c3 as int);
        }
        let q3: u64 = (c3 / 10) as u64;
        let r3: u64 = (c3 % 10) as u64;
        let c2: u128 = (r3 as u128) * 0x1_0000_0000_0000_0000 + (self.w2 as u128);
        proof {
            lemma_div10_fits(c2 as int);
        }
        let q2: u64 = (c2 / 10) as u64;
        let r2: u64 = (c2 % 10) as u64;
        let c1: u128 = (r2 as u128) * 0x1_0000_0000_0000_0000 + (self.w1 as u128);
        proof {
            lemma_div10_fits(c1 as int);
        }
        let q1: u64 = (c1 / 10) as u64;
        let r1: u64 = (c1 % 10) as u64;
        let c0: u128 = (r1 as u128) * 0x1_0000_0000_0000_0000 + (self.w0 as u128);
        proof {
            lemma_div10_fits(c0 as int);
        }
        let q0: u64 = (c0 / 10) as u64;
        let r0: u64 = (c0 % 10) as u64;
        let q = U256 { w0: q0, w1: q1, w2: q2, w3: q3 };
        proof {
            lemma_fundamental_div_mod(c3 as int, 10);
            lemma_fundamental_div_mod(c2 as int, 10);
            lemma_fundamental_div_mod(c1 as int, 10);
            lemma_fundamental_div_mod(c0 as int, 10);
            assert(q.value() * 10 + r0 == self.value()) by {
                assert(c3 == 10 * q3 + r3);
                assert(c2 == 10 * q2 + r2);
                assert(c1 == 10 * q1 + r1);
                assert(c0 == 10 * q0 + r0);
            }
        }
        (q, r0 as u8)
    }
}

/// Division by ten keeps a value below `10 * 2^64` within 64 bits.
proof fn lemma_div10_fits(c: int)
    requires
        0 <= c < 10 * 0x1_0000_0000_0000_0000,
    ensures
        0 <= c / 10 < 0x1_0000_0000_0000_0000,
        0 <= c % 10 < 10,
{
    lemma_fundamental_div_mod(c, 10);
    lemma_fundamental_div_mod_converse_mod(c, 10, c / 10, c % 10);
    lemma_div_is_ordered(0, c, 10);
    lemma_div_is_ordered(c, 10 * 0x1_0000_0000_0000_0000 - 1, 10);
    lemma_fundamental_div_mod_converse_div(
        10 * 0x1_0000_0000_0000_0000 - 1,
        10,
        0x1_0000_0000_0000_0000 - 1,
        9,
    );
}

/// The decimal-digit character sequence of a natural number, most
/// significant digit first, with no leading zeros (zero itself is the
/// single digit `0`).
pub open spec fn dec_of(n: nat) -> Seq<char>
    decreases n,
{
    if n < 10 {
        seq![hex_digit_char(n as u8)]
    } else {
        dec_of(n / 10) + seq![hex_digit_char((n % 10) as u8)]
    }
}

/// Parsing of a decimal-digit character sequence back to the natural
/// number it denotes.
pub open spec fn parse_dec(s: Seq<char>) -> nat
    decreases s.len(),
{
    if s.len() == 0 {
        0
    } else {
        (parse_dec(s.drop_last()) * 10 + hex_char_value(s.last())) as nat
    }
}

/// A decimal string loses no precision: parsing the decimal encoding
/// of any natural number recovers exactly that number.
pub proof fn lemma_dec_round_trip(n: nat)
    ensures
        parse_dec(dec_of(n)) == n,
    decreases n,
{
    if n < 10 {
        let s = dec_of(n);
        assert(s.drop_last() =~= Seq::<char>::empty());
        assert(parse_dec(Seq::<char>::empty()) == 0);
        assert(hex_char_value(hex_digit_char(n as u8)) == n);
    } else {
        lemma_dec_round_trip(n / 10);
        let s = dec_of(n);
        assert(s.drop_last() =~= dec_of(n / 10));
        assert(s.last() == hex_digit_char((n % 10) as u8));
        assert(hex_char_value(hex_digit_char((n % 10) as u8)) == n % 10);
        lemma_fundamental_div_mod(n as int, 10);
    }
}

/// The digit characters of a digit-value sequence read in reverse.
pub open spec fn digit_chars_rev(ds: Seq<u8>) -> Seq<char> {
    Seq::new(ds.len(), |i: int| hex_digit_char(ds[ds.len() - 1 - i]))
}

/// The exact base-10 string of a 256-bit value.
pub fn dec_str(x: &U256) -> (s: String)
    ensures
        s@ == dec_of(x.value()),
{
    let ghost n0: nat = x.value();
    if x.is_zero() {
        proof {
            reveal_strlit("0");
        }
        let s = String::from_str("0");
        proof {
            assert(s@ =~= dec_of(0));
        }
        return s;
    }
    let mut cur: U256 = *x;
    let mut digits: Vec<u8> = Vec::new();
    proof {
        assert(dec_of(n0) + digit_chars_rev(digits@) =~= dec_of(n0));
    }
    while !cur.is_zero()
        invariant
            forall|j: int| 0 <= j < digits@.len() ==> digits@[j] < 10,
            cur.value() > 0 ==> dec_of(n0) == dec_of(cur.value()) + digit_chars_rev(digits@),
            cur.value() == 0 ==> digits@.len() > 0 && dec_of(n0) == digit_chars_rev(digits@),
        decreases cur.value(),
    {
        let ghost v: nat = cur.value();
        let (q, d) = cur.div_rem_10();
        proof {
            lemma_fundamental_div_mod_converse_div(v as int, 10, q.value() as int, d as int);
            lemma_fundamental_div_mod_converse_mod(v as int, 10, q.value() as int, d as int);
        }
        let ghost dpre = digits@;
        digits.push(d);
        cur = q;
        proof {
            assert(digits@.drop_last() =~= dpre);
            assert(digit_chars_rev(digits@) =~= seq![hex_digit_char(d)] + digit_chars_rev(dpre));
            assert(q.value() < v);
            if q.value() > 0 {
                assert(v >= 10);
                assert(dec_of(v) == dec_of(q.value()) + seq![hex_digit_char(d)]);
                assert(dec_of(q.value()) + (seq![hex_digit_char(d)] + digit_chars_rev(dpre)) =~= (
                dec_of(q.value()) + seq![hex_digit_char(d)]) + digit_chars_rev(dpre));
            } else {
                assert(v < 10);
                assert(dec_of(v) =~= seq![hex_digit_char(d)]);
            }
        }
    }
    let mut s = String::new();
    let mut i: usize = digits.len();
    while i > 0
        invariant
            i <= digits@.len(),
            forall|j: int| 0 <= j < digits@.len() ==> digits@[j] < 10,
            s@ =~= digit_chars_rev(digits@).take(digits@.len() - i),
        decreases i,
    {
        i = i - 1;
        s.append(crate::hexcodec::digit_str(digits[i]));
        proof {
            assert(s@ =~= digit_chars_rev(digits@).take(digits@.len() - i));
        }
    }
    proof {
        assert(digit_chars_rev(digits@).take(digits@.len() as int) =~= digit_chars_rev(digits@));
    }
    s
}

} // verus!
