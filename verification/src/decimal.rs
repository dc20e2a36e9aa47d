//! Base-10 rendering of the unsigned 256-bit quantities the chain
//! reports (gas prices, balances, token supplies).
//!
//! Numbers cross the HTTP boundary as decimal strings so that values
//! beyond 53 bits survive the trip without precision loss; the
//! round-trip lemma at the bottom states that the encoding is lossless.

use vstd::arithmetic::div_mod::lemma_fundamental_div_mod_converse;
use vstd::prelude::*;

verus! {

/// The character for a single decimal digit.
pub open spec fn digit_char(d: nat) -> char {
    if d == 0 {
        '0'
    } else if d == 1 {
        '1'
    } else if d == 2 {
        '2'
    } else if d == 3 {
        '3'
    } else if d == 4 {
        '4'
    } else if d == 5 {
        '5'
    } else if d == 6 {
        '6'
    } else if d == 7 {
        '7'
    } else if d == 8 {
        '8'
    } else {
        '9'
    }
}

/// The numeric value of a decimal digit character; other characters
/// count as zero.
pub open spec fn digit_val(c: char) -> nat {
    if c == '0' {
        0
    } else if c == '1' {
        1
    } else if c == '2' {
        2
    } else if c == '3' {
        3
    } else if c == '4' {
        4
    } else if c == '5' {
        5
    } else if c == '6' {
        6
    } else if c == '7' {
        7
    } else if c == '8' {
        8
    } else if c == '9' {
        9
    } else {
        0
    }
}

/// The canonical base-10 rendering of `n`: no sign, no leading zeros
/// (except that zero itself renders as "0").
pub open spec fn dec_str(n: nat) -> Seq<char>
    decreases n,
{
    if n < 10 {
        seq![digit_char(n)]
    } else {
        dec_str(n / 10) + seq![digit_char(n % 10)]
    }
}

/// The number a sequence of decimal digit characters denotes.
pub open spec fn dec_val(s: Seq<char>) -> nat
    decreases s.len(),
{
    if s.len() == 0 {
        0
    } else {
        dec_val(s.drop_last()) * 10 + digit_val(s.last())
    }
}

/// Decimal encoding is lossless: reading the rendered digits back
/// recovers the original number. This is what lets arbitrary-precision
/// chain quantities round-trip through the string boundary.
pub proof fn lemma_decimal_round_trip(n: nat)
    ensures
        dec_val(dec_str(n)) == n,
    decreases n,
{
    lemma_digit_round_trip(n % 10);
    if n < 10 {
        lemma_digit_round_trip(n);
        assert(dec_str(n) =~= seq![digit_char(n)]);
        assert(dec_str(n).drop_last() =~= Seq::<char>::empty());
        assert(dec_val(Seq::<char>::empty()) == 0);
        assert(dec_val(dec_str(n)) == dec_val(Seq::<char>::empty()) * 10 + digit_val(
            digit_char(n),
        ));
    } else {
        lemma_decimal_round_trip(n / 10);
        assert(dec_str(n).drop_last() =~= dec_str(n / 10));
        assert(dec_str(n).last() == digit_char(n % 10));
        assert(dec_val(dec_str(n)) == dec_val(dec_str(n / 10)) * 10 + digit_val(
            digit_char(n % 10),
        ));
    }
}

/// Reading back the character of a digit gives the digit.
proof fn lemma_digit_round_trip(d: nat)
    requires
        d < 10,
    ensures
        digit_val(digit_char(d)) == d,
{
}

/// An unsigned 256-bit integer, held as four 64-bit limbs from least to
/// most significant. This is the library's own carrier for the large
/// numeric values an RPC node reports.
#[derive(Clone, Copy, Debug, PartialEq, Eq, Structural)]
pub struct Uint256 {
    pub limb0: u64,
    pub limb1: u64,
    pub limb2: u64,
    pub limb3: u64,
}

impl Uint256 {
    /// The mathematical value of the four limbs.
    pub open spec fn as_nat(self) -> nat {
        (self.limb0 + self.limb1 * 0x1_0000_0000_0000_0000
            + self.limb2 * 0x1_0000_0000_0000_0000_0000_0000_0000_0000
            + self.limb3 * 0x1_0000_0000_0000_0000_0000_0000_0000_0000_0000_0000_0000_0000) as nat
    }

    /// Builds the value from its four limbs, least significant first.
    pub fn from_limbs(limb0: u64, limb1: u64, limb2: u64, limb3: u64) -> (r: Uint256)
        ensures
            r.limb0 == limb0 && r.limb1 == limb1 && r.limb2 == limb2 && r.limb3 == limb3,
    {
        Uint256 { limb0, limb1, limb2, limb3 }
    }

    /// Embeds a 64-bit value.
    pub fn from_u64(n: u64) -> (r: Uint256)
        ensures
            r.as_nat() == n,
    {
        Uint256 { limb0: n, limb1: 0, limb2: 0, limb3: 0 }
    }

    /// Whether the value is zero.
    pub fn is_zero(&self) -> (r: bool)
        ensures
            r <==> self.as_nat() == 0,
    {
        self.limb0 == 0 && self.limb1 == 0 && self.limb2 == 0 && self.limb3 == 0
    }

    /// Divides the value by ten, returning the quotient and remainder.
    pub fn div_rem_10(&self) -> (res: (Uint256, u64))
        ensures
            res.0.as_nat() * 10 + res.1 == self.as_nat(),
            res.1 < 10,
    {
        let q3: u64 = self.limb3 / 10;
        let r3: u64 = self.limb3 % 10;
        let c2: u128 = (r3 as u128) * 0x1_0000_0000_0000_0000u128 + (self.limb2 as u128);
        let q2: u64 = (c2 / 10) as u64;
        let r2: u64 = (c2 % 10) as u64;
        let c1: u128 = (r2 as u128) * 0x1_0000_0000_0000_0000u128 + (self.limb1 as u128);
        let q1: u64 = (c1 / 10) as u64;
        let r1: u64 = (c1 % 10) as u64;
        let c0: u128 = (r1 as u128) * 0x1_0000_0000_0000_0000u128 + (self.limb0 as u128);
        let q0: u64 = (c0 / 10) as u64;
        let r0: u64 = (c0 % 10) as u64;
        let q = Uint256 { limb0: q0, limb1: q1, limb2: q2, limb3: q3 };
        proof {
            assert(c2 < 10 * 0x1_0000_0000_0000_0000);
            assert(c2 / 10 < 0x1_0000_0000_0000_0000);
            assert(c1 < 10 * 0x1_0000_0000_0000_0000);
            assert(c1 / 10 < 0x1_0000_0000_0000_0000);
            assert(c0 < 10 * 0x1_0000_0000_0000_0000);
            assert(c0 / 10 < 0x1_0000_0000_0000_0000);
            assert(q.as_nat() * 10 + r0 == self.as_nat()) by {
                assert(self.limb3 == q3 * 10 + r3);
                assert(c2 == q2 * 10 + r2);
                assert(c1 == q1 * 10 + r1);
                assert(c0 == q0 * 10 + r0);
            };
        }
        (q, r0)
    }

    /// Renders the value as its canonical decimal digit sequence.
    pub fn to_decimal_chars(&self) -> (digits: Vec<char>)
        ensures
            digits@ == dec_str(self.as_nat()),
    {
        let mut out: Vec<char> = Vec::new();
        if self.is_zero() {
            out.push('0');
            proof {
                assert(out@ =~= dec_str(0));
            }
            return out;
        }
        let mut cur: Uint256 = *self;
        proof {
            assert(dec_str(cur.as_nat()) + out@ =~= dec_str(cur.as_nat()));
        }
        loop
            invariant
                cur.as_nat() > 0,
                dec_str(self.as_nat()) == dec_str(cur.as_nat()) + out@,
            decreases cur.as_nat(),
        {
            let (q, r) = cur.div_rem_10();
            let c = digit_to_char(r);
            let ghost prev = out@;
            out.insert(0, c);
            proof {
                lemma_fundamental_div_mod_converse(
                    cur.as_nat() as int,
                    10,
                    q.as_nat() as int,
                    r as int,
                );
                assert(out@ =~= seq![digit_char(r as nat)] + prev);
                if cur.as_nat() >= 10 {
                    assert(dec_str(cur.as_nat()) == dec_str(q.as_nat()) + seq![
                        digit_char((cur.as_nat() % 10) as nat),
                    ]);
                    assert(dec_str(cur.as_nat()) + prev =~= dec_str(q.as_nat()) + out@);
                } else {
                    assert(q.as_nat() == 0);
                    assert(dec_str(cur.as_nat()) =~= seq![digit_char(cur.as_nat())]);
                    assert(dec_str(cur.as_nat()) + prev =~= out@);
                }
            }
            if q.is_zero() {
                return out;
            }
            cur = q;
        }
    }

    /// Renders the value as a base-10 string.
    pub fn to_decimal_string(&self) -> (r: String)
        ensures
            r@ == dec_str(self.as_nat()),
    {
        let digits = self.to_decimal_chars();
        crate::text::chars_to_string(&digits)
    }
}

/// The character for one digit, as executable code.
pub fn digit_to_char(d: u64) -> (c: char)
    requires
        d < 10,
    ensures
        c == digit_char(d as nat),
{
    match d {
        0 => '0',
        1 => '1',
        2 => '2',
        3 => '3',
        4 => '4',
        5 => '5',
        6 => '6',
        7 => '7',
        8 => '8',
        _ => '9',
    }
}

} // verus!
