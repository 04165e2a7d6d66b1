//! 256-bit quantities as they appear in event words and in the records.

use crate::utils::format::{
    decimal, digit_str, digits_from_low, digits_to_string, lemma_decimal_is_digits,
};
use vstd::prelude::*;
use vstd::string::StringExecFns;

verus! {

/// 2^64.
pub open spec fn pow2_64() -> int {
    0x1_0000_0000_0000_0000int
}

/// 2^128.
pub open spec fn pow2_128() -> int {
    0x1_0000_0000_0000_0000_0000_0000_0000_0000int
}

/// 2^192.
pub open spec fn pow2_192() -> int {
    0x1_0000_0000_0000_0000_0000_0000_0000_0000_0000_0000_0000_0000int
}

/// 2^256.
pub open spec fn pow2_256() -> int {
    0x1_0000_0000_0000_0000_0000_0000_0000_0000_0000_0000_0000_0000_0000_0000_0000_0000int
}

/// The number that a byte string stands for when read as a big-endian
/// integer; 0 for the empty string.
pub open spec fn be_value(bytes: Seq<u8>) -> nat
    decreases bytes.len(),
{
    if bytes.len() == 0 {
        0
    } else {
        be_value(bytes.drop_last()) * 256 + bytes.last() as nat
    }
}

/// 256 to the power of `n`.
pub open spec fn pow256(n: nat) -> nat
    decreases n,
{
    if n == 0 {
        1
    } else {
        256 * pow256((n - 1) as nat)
    }
}

/// Reading two byte strings one after the other shifts the first by the
/// length of the second.
pub proof fn lemma_be_value_concat(a: Seq<u8>, b: Seq<u8>)
    ensures
        be_value(a + b) == be_value(a) * pow256(b.len()) + be_value(b),
    decreases b.len(),
{
    if b.len() == 0 {
        assert(a + b =~= a);
        assert(pow256(0) == 1);
        assert(be_value(b) == 0);
        assert(be_value(a) * 1 == be_value(a));
    } else {
        assert((a + b).drop_last() =~= a + b.drop_last());
        assert((a + b).last() == b.last());
        lemma_be_value_concat(a, b.drop_last());
        let shorter = pow256((b.len() - 1) as nat);
        assert(be_value(a + b) == be_value(a + b.drop_last()) * 256 + b.last() as nat);
        assert(be_value(b) == be_value(b.drop_last()) * 256 + b.last() as nat);
        assert(be_value(a) * pow256(b.len()) == 256 * (be_value(a) * shorter))
            by (nonlinear_arith)
            requires
                pow256(b.len()) == 256 * shorter,
        ;
        assert(be_value(a + b.drop_last()) == be_value(a) * shorter + be_value(b.drop_last()));
        assert(be_value(a + b) == be_value(a) * pow256(b.len()) + be_value(b));
    }
}

/// A word of four limbs of eight bytes stands for the limbs' numbers,
/// each shifted to its place.
pub proof fn lemma_be_value_of_limbs(s3: Seq<u8>, s2: Seq<u8>, s1: Seq<u8>, s0: Seq<u8>)
    requires
        s2.len() == 8,
        s1.len() == 8,
        s0.len() == 8,
    ensures
        be_value(s3 + s2 + s1 + s0) == be_value(s3) * pow2_192() + be_value(s2) * pow2_128()
            + be_value(s1) * pow2_64() + be_value(s0),
{
    lemma_be_value_concat(s3, s2);
    lemma_be_value_concat(s3 + s2, s1);
    lemma_be_value_concat(s3 + s2 + s1, s0);
    assert(pow256(8) == 0x1_0000_0000_0000_0000int) by {
        reveal_with_fuel(pow256, 9);
    }
    let a = be_value(s3) as int;
    let b = be_value(s2) as int;
    let c = be_value(s1) as int;
    let d = be_value(s0) as int;
    let ab = be_value(s3 + s2) as int;
    let abc = be_value(s3 + s2 + s1) as int;
    let abcd = be_value(s3 + s2 + s1 + s0) as int;
    assert(ab == a * 0x1_0000_0000_0000_0000int + b);
    assert(abc == ab * 0x1_0000_0000_0000_0000int + c);
    assert(abcd == abc * 0x1_0000_0000_0000_0000int + d);
    assert(abcd == a * 0x1_0000_0000_0000_0000_0000_0000_0000_0000_0000_0000_0000_0000int + b
        * 0x1_0000_0000_0000_0000_0000_0000_0000_0000int + c * 0x1_0000_0000_0000_0000int + d);
}

/// A byte string of `n` bytes stands for a number below 256 to the `n`.
pub proof fn lemma_be_value_bound(bytes: Seq<u8>)
    ensures
        be_value(bytes) < pow256(bytes.len()),
    decreases bytes.len(),
{
    if bytes.len() > 0 {
        lemma_be_value_bound(bytes.drop_last());
    }
}

/// The big-endian number of the eight bytes of `bytes` from `at` on.
pub fn be_u64(bytes: &[u8], at: usize) -> (v: u64)
    requires
        at + 8 <= bytes@.len(),
    ensures
        v == be_value(bytes@.subrange(at as int, at + 8)),
{
    let _len = bytes.len();
    let b0 = bytes[at] as u64;
    let b1 = bytes[at + 1] as u64;
    let b2 = bytes[at + 2] as u64;
    let b3 = bytes[at + 3] as u64;
    let b4 = bytes[at + 4] as u64;
    let b5 = bytes[at + 5] as u64;
    let b6 = bytes[at + 6] as u64;
    let b7 = bytes[at + 7] as u64;
    proof {
        let s = bytes@.subrange(at as int, at + 8);
        let s7 = s.drop_last();
        let s6 = s7.drop_last();
        let s5 = s6.drop_last();
        let s4 = s5.drop_last();
        let s3 = s4.drop_last();
        let s2 = s3.drop_last();
        let s1 = s2.drop_last();
        let s0 = s1.drop_last();
        assert(be_value(s0) == 0);
        assert(be_value(s1) == b0);
        assert(be_value(s2) == b0 * 256 + b1);
        assert(be_value(s3) == be_value(s2) * 256 + b2);
        assert(be_value(s4) == be_value(s3) * 256 + b3);
        assert(be_value(s5) == be_value(s4) * 256 + b4);
        assert(be_value(s6) == be_value(s5) * 256 + b5);
        assert(be_value(s7) == be_value(s6) * 256 + b6);
        assert(be_value(s) == be_value(s7) * 256 + b7);
    }
    b0 * 0x100_0000_0000_0000 + b1 * 0x1_0000_0000_0000 + b2 * 0x100_0000_0000 + b3
        * 0x1_0000_0000 + b4 * 0x100_0000 + b5 * 0x1_0000 + b6 * 0x100 + b7
}

/// An unsigned 256-bit integer, held as four 64-bit limbs; `w3` is the
/// most significant.
#[derive(Clone, Copy, Debug, PartialEq, Eq, Structural, Hash)]
pub struct U256 {
    pub w3: u64,
    pub w2: u64,
    pub w1: u64,
    pub w0: u64,
}

impl View for U256 {
    type V = nat;

    /// The number that the limbs stand for.
    open spec fn view(&self) -> nat {
        (self.w3 * pow2_192() + self.w2 * pow2_128() + self.w1 * pow2_64() + self.w0) as nat
    }
}

impl U256 {
    /// The 256-bit integer that stands for `n`; for a number that does
    /// not fit, the one that stands for its low 256 bits.
    pub open spec fn of(n: nat) -> U256 {
        U256 {
            w3: ((n / pow2_192() as nat) % pow2_64() as nat) as u64,
            w2: ((n / pow2_128() as nat) % pow2_64() as nat) as u64,
            w1: ((n / pow2_64() as nat) % pow2_64() as nat) as u64,
            w0: (n % pow2_64() as nat) as u64,
        }
    }

    /// A 256-bit integer is known by its number: no two stand for one.
    pub proof fn lemma_of_view(self)
        ensures
            U256::of(self@) == self,
            self@ < pow2_256(),
    {
        let n = self@ as int;
        let low = self.w2 * pow2_128() + self.w1 * pow2_64() + self.w0;
        let mid = self.w1 * pow2_64() + self.w0;
        vstd::arithmetic::div_mod::lemma_fundamental_div_mod_converse(
            n,
            pow2_192(),
            self.w3 as int,
            low,
        );
        vstd::arithmetic::div_mod::lemma_fundamental_div_mod_converse(
            n,
            pow2_128(),
            self.w3 * pow2_64() + self.w2,
            mid,
        );
        vstd::arithmetic::div_mod::lemma_fundamental_div_mod_converse(
            self.w3 * pow2_64() + self.w2,
            pow2_64(),
            self.w3 as int,
            self.w2 as int,
        );
        vstd::arithmetic::div_mod::lemma_fundamental_div_mod_converse(
            n,
            pow2_64(),
            self.w3 * pow2_128() + self.w2 * pow2_64() + self.w1,
            self.w0 as int,
        );
        vstd::arithmetic::div_mod::lemma_fundamental_div_mod_converse(
            self.w3 * pow2_128() + self.w2 * pow2_64() + self.w1,
            pow2_64(),
            self.w3 * pow2_64() + self.w2,
            self.w1 as int,
        );
        vstd::arithmetic::div_mod::lemma_small_mod(self.w3 as nat, pow2_64() as nat);
    }

    /// Every number below 2^256 has its 256-bit integer.
    pub proof fn lemma_view_of(n: nat)
        requires
            n < pow2_256(),
        ensures
            U256::of(n)@ == n,
    {
        let x = n as int;
        let b = x / pow2_64();
        let a = x / pow2_128();
        let q = x / pow2_192();
        vstd::arithmetic::div_mod::lemma_fundamental_div_mod(x, pow2_64());
        vstd::arithmetic::div_mod::lemma_fundamental_div_mod(b, pow2_64());
        vstd::arithmetic::div_mod::lemma_fundamental_div_mod(a, pow2_64());
        vstd::arithmetic::div_mod::lemma_div_denominator(x, pow2_64(), pow2_64());
        vstd::arithmetic::div_mod::lemma_div_denominator(x, pow2_128(), pow2_64());
        assert(pow2_64() * pow2_64() == pow2_128());
        assert(pow2_128() * pow2_64() == pow2_192());
        assert(b / pow2_64() == a);
        assert(a / pow2_64() == q);
        assert(0 <= q < pow2_64());
        vstd::arithmetic::div_mod::lemma_small_mod(q as nat, pow2_64() as nat);
    }

    pub fn zero() -> (z: U256)
        ensures
            z@ == 0,
    {
        U256 { w3: 0, w2: 0, w1: 0, w0: 0 }
    }

    pub fn from_u64(v: u64) -> (r: U256)
        ensures
            r@ == v,
    {
        U256 { w3: 0, w2: 0, w1: 0, w0: v }
    }

    pub fn is_zero(&self) -> (z: bool)
        ensures
            z == (self@ == 0),
    {
        self.w3 == 0 && self.w2 == 0 && self.w1 == 0 && self.w0 == 0
    }

    pub fn from_u128(v: u128) -> (r: U256)
        ensures
            r@ == v,
    {
        let high: u128 = v / 0x1_0000_0000_0000_0000;
        let low: u128 = v % 0x1_0000_0000_0000_0000;
        U256 { w3: 0, w2: 0, w1: high as u64, w0: low as u64 }
    }

    /// The big-endian number of the 32 bytes of `bytes` from `at` on: one
    /// word of event data.
    pub fn from_be_bytes(bytes: &[u8], at: usize) -> (r: U256)
        requires
            at + 32 <= bytes@.len(),
        ensures
            r@ == be_value(bytes@.subrange(at as int, at + 32)),
            r == U256::of(be_value(bytes@.subrange(at as int, at + 32))),
    {
        let _len = bytes.len();
        let w3 = be_u64(bytes, at);
        let w2 = be_u64(bytes, at + 8);
        let w1 = be_u64(bytes, at + 16);
        let w0 = be_u64(bytes, at + 24);
        proof {
            let s3 = bytes@.subrange(at as int, at + 8);
            let s2 = bytes@.subrange(at + 8, at + 16);
            let s1 = bytes@.subrange(at + 16, at + 24);
            let s0 = bytes@.subrange(at + 24, at + 32);
            assert(bytes@.subrange(at as int, at + 32) =~= s3 + s2 + s1 + s0);
            lemma_be_value_of_limbs(s3, s2, s1, s0);
        }
        let r = U256 { w3, w2, w1, w0 };
        proof {
            r.lemma_of_view();
        }
        r
    }

    /// The product of a 64-bit and a 128-bit number; it always fits.
    pub fn from_product(a: u64, b: u128) -> (r: U256)
        ensures
            r@ == a * b,
    {
        let high: u128 = b / 0x1_0000_0000_0000_0000;
        let low: u128 = b % 0x1_0000_0000_0000_0000;
        assert(a * low <= 0xffff_ffff_ffff_ffff * 0xffff_ffff_ffff_ffff) by (nonlinear_arith)
            requires
                a <= 0xffff_ffff_ffff_ffff,
                low <= 0xffff_ffff_ffff_ffff,
        ;
        assert(a * high <= 0xffff_ffff_ffff_ffff * 0xffff_ffff_ffff_ffff) by (nonlinear_arith)
            requires
                a <= 0xffff_ffff_ffff_ffff,
                high <= 0xffff_ffff_ffff_ffff,
        ;
        let p0: u128 = (a as u128) * low;
        let p1: u128 = (a as u128) * high;
        let w0: u128 = p0 % 0x1_0000_0000_0000_0000;
        let carry: u128 = p0 / 0x1_0000_0000_0000_0000;
        let t: u128 = p1 + carry;
        let w1: u128 = t % 0x1_0000_0000_0000_0000;
        let w2: u128 = t / 0x1_0000_0000_0000_0000;
        assert(a * b == a * high * pow2_64() + a * low) by (nonlinear_arith)
            requires
                b == high * pow2_64() + low,
        ;
        U256 { w3: 0, w2: w2 as u64, w1: w1 as u64, w0: w0 as u64 }
    }

    /// The sum, where it fits in 256 bits.
    pub fn checked_add(&self, other: &U256) -> (sum: Option<U256>)
        ensures
            sum is Some <==> self@ + other@ < pow2_256(),
            sum matches Some(s) ==> s@ == self@ + other@,
    {
        let t0: u128 = self.w0 as u128 + other.w0 as u128;
        let c0: u128 = t0 / 0x1_0000_0000_0000_0000;
        let t1: u128 = self.w1 as u128 + other.w1 as u128 + c0;
        let c1: u128 = t1 / 0x1_0000_0000_0000_0000;
        let t2: u128 = self.w2 as u128 + other.w2 as u128 + c1;
        let c2: u128 = t2 / 0x1_0000_0000_0000_0000;
        let t3: u128 = self.w3 as u128 + other.w3 as u128 + c2;
        if t3 >= 0x1_0000_0000_0000_0000 {
            None
        } else {
            Some(
                U256 {
                    w3: t3 as u64,
                    w2: (t2 % 0x1_0000_0000_0000_0000) as u64,
                    w1: (t1 % 0x1_0000_0000_0000_0000) as u64,
                    w0: (t0 % 0x1_0000_0000_0000_0000) as u64,
                },
            )
        }
    }

    /// The quotient and the remainder of a division by ten.
    pub fn div_rem_10(&self) -> (qr: (U256, u8))
        ensures
            qr.0@ == self@ / 10,
            qr.1 == self@ % 10,
    {
        let c3: u128 = self.w3 as u128;
        let q3: u64 = (c3 / 10) as u64;
        let r3: u128 = c3 % 10;
        let c2: u128 = r3 * 0x1_0000_0000_0000_0000 + self.w2 as u128;
        let q2: u64 = (c2 / 10) as u64;
        let r2: u128 = c2 % 10;
        let c1: u128 = r2 * 0x1_0000_0000_0000_0000 + self.w1 as u128;
        let q1: u64 = (c1 / 10) as u64;
        let r1: u128 = c1 % 10;
        let c0: u128 = r1 * 0x1_0000_0000_0000_0000 + self.w0 as u128;
        let q0: u64 = (c0 / 10) as u64;
        let r0: u128 = c0 % 10;
        let q = U256 { w3: q3, w2: q2, w1: q1, w0: q0 };
        proof {
            assert(self@ == 10 * q@ + r0);
            vstd::arithmetic::div_mod::lemma_fundamental_div_mod_converse(
                self@ as int,
                10,
                q@ as int,
                r0 as int,
            );
        }
        (q, r0 as u8)
    }

    /// The number in decimal.
    pub fn to_string(&self) -> (text: String)
        ensures
            text@ == decimal(self@),
    {
        if self.is_zero() {
            return String::from_str(digit_str(0));
        }
        let mut digits: Vec<u8> = Vec::new();
        let mut rest: U256 = *self;
        while !rest.is_zero()
            invariant
                digits@ + digits_from_low(rest@) == digits_from_low(self@),
                forall|i: int| 0 <= i < digits@.len() ==> digits@[i] < 10,
            decreases rest@,
        {
            let (q, d) = rest.div_rem_10();
            let ghost before = digits@;
            digits.push(d);
            assert(digits@ + digits_from_low(q@) =~= before + digits_from_low(rest@));
            rest = q;
        }
        assert(digits@ =~= digits_from_low(self@));
        proof {
            lemma_decimal_is_digits(self@);
        }
        digits_to_string(&digits)
    }
}

/// A signed 256-bit integer in two's complement, as event words carry it.
#[derive(Clone, Copy, Debug, PartialEq, Eq, Structural, Hash)]
pub struct I256 {
    pub raw: U256,
}

impl View for I256 {
    type V = int;

    /// The signed number that the word stands for.
    open spec fn view(&self) -> int {
        if self.raw.w3 >= 0x8000_0000_0000_0000 {
            self.raw@ - pow2_256()
        } else {
            self.raw@ as int
        }
    }
}

impl I256 {
    pub fn is_negative(&self) -> (n: bool)
        ensures
            n == (self@ < 0),
    {
        self.raw.w3 >= 0x8000_0000_0000_0000
    }
}

} // verus!
