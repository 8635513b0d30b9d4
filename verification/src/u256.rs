//! Unsigned 256-bit amounts, held as four 64-bit words. Token and
//! reward amounts of this width cross the wire as decimal strings so
//! that no precision is lost; the rendering here is proved against the
//! mathematical value of the words.

use vstd::prelude::*;

use crate::hexfmt::{dec_digit_char, dec_of, push_char};

verus! {

/// A 256-bit unsigned amount. `w0` is the least significant word.
#[derive(Clone, Copy, PartialEq, Eq, Structural, Debug)]
pub struct U256Value {
    pub w0: u64,
    pub w1: u64,
    pub w2: u64,
    pub w3: u64,
}

impl U256Value {
    /// The mathematical value of the four words.
    pub open spec fn val(self) -> nat {
        (self.w0 + 0x10000000000000000 * (self.w1 + 0x10000000000000000 * (self.w2
            + 0x10000000000000000 * self.w3))) as nat
    }

    /// The amount with the given value of at most one word.
    pub fn from_u64(v: u64) -> (r: U256Value)
        ensures
            r.val() == v,
    {
        U256Value { w0: v, w1: 0, w2: 0, w3: 0 }
    }

    /// The amount with the given words, least significant first.
    pub fn from_words(w0: u64, w1: u64, w2: u64, w3: u64) -> (r: U256Value)
        ensures
            r == (U256Value { w0, w1, w2, w3 }),
    {
        U256Value { w0, w1, w2, w3 }
    }

    /// Whether the amount is zero.
    pub fn is_zero(&self) -> (r: bool)
        ensures
            r == (self.val() == 0),
    {
        self.w0 == 0 && self.w1 == 0 && self.w2 == 0 && self.w3 == 0
    }

    /// The quotient and remainder of division by ten.
    pub fn div10(&self) -> (qr: (U256Value, u8))
        ensures
            self.val() == qr.0.val() * 10 + qr.1,
            qr.1 < 10,
            qr.0.val() == self.val() / 10,
    {
        let (q3, r3) = div10_step(0, self.w3);
        let (q2, r2) = div10_step(r3, self.w2);
        let (q1, r1) = div10_step(r2, self.w1);
        let (q0, r0) = div10_step(r1, self.w0);
        let q = U256Value { w0: q0, w1: q1, w2: q2, w3: q3 };
        proof {
            let b: int = 0x10000000000000000;
            assert(self.w2 + b * self.w3 == 10 * (q2 + b * q3) + r2) by {
                assert(self.w3 == 10 * q3 + r3);
                assert(r3 * b + self.w2 == 10 * q2 + r2);
            }
            assert(self.w1 + b * (self.w2 + b * self.w3) == 10 * (q1 + b * (q2 + b * q3)) + r1)
                by {
                assert(self.w2 + b * self.w3 == 10 * (q2 + b * q3) + r2);
                assert(r2 * b + self.w1 == 10 * q1 + r1);
                assert(b * (10 * (q2 + b * q3) + r2) == 10 * (b * (q2 + b * q3)) + r2 * b)
                    by (nonlinear_arith);
            }
            assert(self.w0 + b * (self.w1 + b * (self.w2 + b * self.w3)) == 10 * (q0 + b * (q1 + b
                * (q2 + b * q3))) + r0) by {
                assert(self.w1 + b * (self.w2 + b * self.w3) == 10 * (q1 + b * (q2 + b * q3))
                    + r1);
                assert(r1 * b + self.w0 == 10 * q0 + r0);
                assert(b * (10 * (q1 + b * (q2 + b * q3)) + r1) == 10 * (b * (q1 + b * (q2 + b
                    * q3))) + r1 * b) by (nonlinear_arith);
            }
            assert(self.val() == q.val() * 10 + r0);
            assert(q.val() == self.val() / 10) by {
                assert(self.val() == q.val() * 10 + r0);
                assert(r0 < 10);
                assert((q.val() * 10 + r0) / 10 == q.val()) by (nonlinear_arith)
                    requires
                        r0 < 10,
                ;
            }
        }
        (q, (r0 % 10) as u8)
    }
}

/// One word of a long division by ten: divides `rem * 2^64 + limb`,
/// where `rem` is the running remainder from the more significant word.
fn div10_step(rem: u64, limb: u64) -> (qr: (u64, u64))
    requires
        rem < 10,
    ensures
        rem * 0x10000000000000000 + limb == qr.0 * 10 + qr.1,
        qr.1 < 10,
{
    let cur: u128 = (rem as u128) * 0x10000000000000000u128 + (limb as u128);
    let q: u64 = (cur / 10) as u64;
    let r: u64 = (cur % 10) as u64;
    proof {
        assert(cur < 10 * 0x100000000000000000000000000000000);
        assert(cur / 10 < 0x10000000000000000);
        assert(cur == (cur / 10) * 10 + cur % 10);
    }
    (q, r)
}

/// Appends the decimal rendering of `v` to `s`.
pub fn append_u256_dec(s: &mut String, v: &U256Value)
    ensures
        final(s)@ == old(s)@ + dec_of(v.val()),
    decreases v.val(),
{
    let (q, r) = v.div10();
    if q.is_zero() {
        push_char(s, dec_digit_char(r));
        proof {
            assert(v.val() < 10);
            assert(r == v.val() % 10);
            assert(v.val() % 10 == v.val());
        }
    } else {
        append_u256_dec(s, &q);
        push_char(s, dec_digit_char(r));
        proof {
            assert(v.val() >= 10) by {
                assert(q.val() == v.val() / 10);
                assert(q.val() > 0);
            }
            assert(r == v.val() % 10);
        }
    }
}

/// Builds the decimal string of an amount.
pub fn u256_decimal_string(v: &U256Value) -> (r: String)
    ensures
        r@ == dec_of(v.val()),
{
    let mut s = String::new();
    append_u256_dec(&mut s, v);
    proof {
        assert(Seq::<char>::empty() + dec_of(v.val()) =~= dec_of(v.val()));
    }
    s
}

} // verus!
