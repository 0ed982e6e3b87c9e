//! Unsigned 256-bit integers as the bridge contract returns them.

use vstd::prelude::*;

verus! {

broadcast use vstd::slice::group_slice_axioms;

/// Two to the power 64.
pub open spec fn pow2_64() -> nat {
    0x1_0000_0000_0000_0000nat
}

/// Two to the power 128.
pub open spec fn pow2_128() -> nat {
    0x1_0000_0000_0000_0000_0000_0000_0000_0000nat
}

/// Two to the power 192.
pub open spec fn pow2_192() -> nat {
    0x1_0000_0000_0000_0000_0000_0000_0000_0000_0000_0000_0000_0000nat
}

/// Two to the power 256.
pub open spec fn pow2_256() -> nat {
    0x1_0000_0000_0000_0000_0000_0000_0000_0000_0000_0000_0000_0000_0000_0000_0000_0000nat
}

/// 256 to the power `n`.
pub open spec fn pow256(n: nat) -> nat
    decreases n,
{
    if n == 0 {
        1
    } else {
        256 * pow256((n - 1) as nat)
    }
}

/// The number that a byte string stands for, most significant byte first.
pub open spec fn be_value(bytes: Seq<u8>) -> nat
    decreases bytes.len(),
{
    if bytes.len() == 0 {
        0
    } else {
        be_value(bytes.drop_last()) * 256 + bytes.last() as nat
    }
}

/// The powers of 256 that the limbs of a 256-bit integer are weighted with.
pub proof fn lemma_pow256_limbs()
    ensures
        pow256(8) == pow2_64(),
        pow256(16) == pow2_128(),
        pow256(24) == pow2_192(),
        pow256(32) == pow2_256(),
{
    reveal_with_fuel(pow256, 9);
    assert(pow256(8) == pow2_64());
    assert(pow256(16) == pow2_64() * pow256(8));
    assert(pow256(24) == pow2_64() * pow256(16));
    assert(pow256(32) == pow2_64() * pow256(24));
}

/// A byte string stands for a number below 256 to the power of its length.
pub proof fn lemma_be_value_bound(bytes: Seq<u8>)
    ensures
        be_value(bytes) < pow256(bytes.len()),
    decreases bytes.len(),
{
    if bytes.len() > 0 {
        lemma_be_value_bound(bytes.drop_last());
    }
}

/// The number of two byte strings in a row: the first one shifted left by the
/// length of the second, plus the second.
pub proof fn lemma_be_value_concat(high: Seq<u8>, low: Seq<u8>)
    ensures
        be_value(high + low) == be_value(high) * pow256(low.len()) + be_value(low),
    decreases low.len(),
{
    let h = be_value(high);
    if low.len() == 0 {
        assert(high + low =~= high);
        assert(be_value(low) == 0);
        assert(pow256(0) == 1);
        assert(h * 1 == h);
    } else {
        let whole = high + low;
        assert(whole.drop_last() =~= high + low.drop_last());
        assert(whole.last() == low.last());
        lemma_be_value_concat(high, low.drop_last());
        let p = pow256(low.drop_last().len());
        let q = pow256(low.len());
        let rest = be_value(low.drop_last());
        let last = low.last() as nat;
        assert(q == 256 * p);
        assert(be_value(whole) == (h * p + rest) * 256 + last);
        assert(be_value(low) == rest * 256 + last);
        assert((h * p + rest) * 256 + last == h * q + (rest * 256 + last)) by (nonlinear_arith)
            requires
                q == 256 * p,
        ;
    }
}

/// An unsigned integer of up to 256 bits, as a remote call returns it. It has
/// no meaning as a counter until it has been narrowed to 64 bits.
#[derive(Clone, Copy, Debug, PartialEq, Eq, Structural)]
pub struct RawChainInteger {
    /// The least significant 64 bits.
    pub limb0: u64,
    /// Bits 64 to 127.
    pub limb1: u64,
    /// Bits 128 to 191.
    pub limb2: u64,
    /// The most significant 64 bits.
    pub limb3: u64,
}

impl View for RawChainInteger {
    type V = nat;

    open spec fn view(&self) -> nat {
        self.limb0 as nat + self.limb1 as nat * pow2_64() + self.limb2 as nat * pow2_128()
            + self.limb3 as nat * pow2_192()
    }
}

impl RawChainInteger {
    /// The integer with the given 64-bit value.
    pub fn from_u64(value: u64) -> (r: Self)
        ensures
            r@ == value as nat,
    {
        RawChainInteger { limb0: value, limb1: 0, limb2: 0, limb3: 0 }
    }

    /// The integer with the given value, where that value is below two to the
    /// power 256.
    pub open spec fn spec_from_nat(value: nat) -> Self {
        RawChainInteger {
            limb0: (value % pow2_64()) as u64,
            limb1: ((value / pow2_64()) % pow2_64()) as u64,
            limb2: ((value / pow2_128()) % pow2_64()) as u64,
            limb3: ((value / pow2_192()) % pow2_64()) as u64,
        }
    }

    /// The integer made from a value below two to the power 256 has that
    /// value.
    pub proof fn lemma_from_nat(value: nat)
        requires
            value < pow2_256(),
        ensures
            Self::spec_from_nat(value)@ == value,
    {
        let m = pow2_64();
        let q1 = value / m;
        let q2 = value / pow2_128();
        let q3 = value / pow2_192();
        assert(value == m * q1 + value % m && q1 == m * (q1 / m) + q1 % m && q1 / m == q2 && q2 == m
            * (q2 / m) + q2 % m && q2 / m == q3 && q3 < m) by (nonlinear_arith)
            requires
                m == pow2_64(),
                q1 == value / m,
                q2 == value / pow2_128(),
                q3 == value / pow2_192(),
                pow2_128() == m * m,
                pow2_192() == m * m * m,
                value < m * m * m * m,
        ;
        assert(q3 % m == q3);
        assert(value == value % m + (q1 % m) * m + (q2 % m) * pow2_128() + q3 * pow2_192())
            by (nonlinear_arith)
            requires
                value == m * q1 + value % m,
                q1 == m * q2 + q1 % m,
                q2 == m * q3 + q2 % m,
                pow2_128() == m * m,
                pow2_192() == m * m * m,
        ;
    }

    /// An integer is below two to the power 256, and it is the only one with
    /// its value.
    pub proof fn lemma_value(self)
        ensures
            self@ < pow2_256(),
            Self::spec_from_nat(self@) == self,
    {
        let a = self.limb0 as nat;
        let b = self.limb1 as nat;
        let c = self.limb2 as nat;
        let d = self.limb3 as nat;
        let m = pow2_64();
        assert(self@ == a + m * (b + m * (c + m * d))) by (nonlinear_arith)
            requires
                self@ == a + b * m + c * pow2_128() + d * pow2_192(),
                m == pow2_64(),
                pow2_128() == m * m,
                pow2_192() == m * m * m,
        ;
        assert(self@ % m == a && self@ / m == b + m * (c + m * d)) by (nonlinear_arith)
            requires
                self@ == a + m * (b + m * (c + m * d)),
                a < m,
                m > 0,
        ;
        let v1 = b + m * (c + m * d);
        assert(v1 % m == b && v1 / m == c + m * d) by (nonlinear_arith)
            requires
                v1 == b + m * (c + m * d),
                b < m,
                m > 0,
        ;
        let v2 = c + m * d;
        assert(v2 % m == c && v2 / m == d) by (nonlinear_arith)
            requires
                v2 == c + m * d,
                c < m,
                m > 0,
        ;
        assert(self@ / pow2_128() == v2 && self@ / pow2_192() == d) by (nonlinear_arith)
            requires
                self@ / m == v1,
                v1 / m == v2,
                v2 / m == d,
                m == pow2_64(),
                pow2_128() == m * m,
                pow2_192() == m * m * m,
        ;
        assert(d % m == d);
    }

    /// Reads the eight bytes at `offset` as one limb, most significant byte
    /// first.
    fn limb_at(bytes: &[u8], offset: usize) -> (limb: u64)
        requires
            offset + 8 <= bytes.len(),
        ensures
            limb as nat == be_value(bytes@.subrange(offset as int, offset + 8)),
    {
        let mut limb: u64 = 0;
        let mut i: usize = 0;
        while i < 8
            invariant
                i <= 8,
                offset + 8 <= bytes.len(),
                limb as nat == be_value(bytes@.subrange(offset as int, offset + i)),
            decreases 8 - i,
        {
            let byte: u64 = bytes[offset + i] as u64;
            proof {
                let before = bytes@.subrange(offset as int, offset + i);
                let after = bytes@.subrange(offset as int, offset + i + 1);
                assert(after.drop_last() =~= before);
                assert(after.last() == bytes@[offset + i]);
                lemma_be_value_bound(before);
                reveal_with_fuel(pow256, 9);
                assert(pow256(i as nat) <= pow256(7));
                assert(pow256(7) == 0x100_0000_0000_0000nat);
            }
            limb = limb * 256 + byte;
            i = i + 1;
        }
        limb
    }

    /// Reads the 32 bytes at `offset` as an integer, most significant byte
    /// first: one word of a call's reply.
    pub fn from_be_word(bytes: &[u8], offset: usize) -> (r: Self)
        requires
            offset + 32 <= bytes.len(),
        ensures
            r@ == be_value(bytes@.subrange(offset as int, offset + 32)),
    {
        let l3 = Self::limb_at(bytes, offset);
        let l2 = Self::limb_at(bytes, offset + 8);
        let l1 = Self::limb_at(bytes, offset + 16);
        let l0 = Self::limb_at(bytes, offset + 24);
        proof {
            let o = offset as int;
            let b3 = bytes@.subrange(o, o + 8);
            let b2 = bytes@.subrange(o + 8, o + 16);
            let b1 = bytes@.subrange(o + 16, o + 24);
            let b0 = bytes@.subrange(o + 24, o + 32);
            assert(bytes@.subrange(o, o + 16) =~= b3 + b2);
            assert(bytes@.subrange(o, o + 24) =~= b3 + b2 + b1);
            assert(bytes@.subrange(o, o + 32) =~= b3 + b2 + b1 + b0);
            lemma_be_value_concat(b3, b2);
            lemma_be_value_concat(b3 + b2, b1);
            lemma_be_value_concat(b3 + b2 + b1, b0);
            lemma_pow256_limbs();
            let v3 = be_value(b3);
            let v2 = be_value(b2);
            let v1 = be_value(b1);
            let v0 = be_value(b0);
            assert(((v3 * pow2_64() + v2) * pow2_64() + v1) * pow2_64() + v0 == v0 + v1
                * pow2_64() + v2 * pow2_128() + v3 * pow2_192()) by (nonlinear_arith);
        }
        RawChainInteger { limb0: l0, limb1: l1, limb2: l2, limb3: l3 }
    }

    /// Narrows the integer to 64 bits: the value itself where it is at most
    /// `u64::MAX`, nothing where it is larger.
    pub fn downcast_to_u64(&self) -> (r: Option<u64>)
        ensures
            self@ <= u64::MAX ==> r == Some(self@ as u64),
            self@ > u64::MAX ==> r is None,
    {
        if self.limb1 == 0 && self.limb2 == 0 && self.limb3 == 0 {
            Some(self.limb0)
        } else {
            None
        }
    }
}

/// `U256::checked_mul` of ethers: the product of two 256-bit integers where
/// it is below two to the power 256, and nothing where it is not. The limbs
/// go in and come out least significant first, as `U256` holds them.
#[verifier::external_body]
fn checked_mul_u256(a: &RawChainInteger, b: &RawChainInteger) -> (r: Option<RawChainInteger>)
    ensures
        r is Some <==> a@ * b@ < pow2_256(),
        r is Some ==> r->0@ == a@ * b@,
{
    let x = ethers::types::U256([a.limb0, a.limb1, a.limb2, a.limb3]);
    let y = ethers::types::U256([b.limb0, b.limb1, b.limb2, b.limb3]);
    match x.checked_mul(y) {
        Some(p) => Some(
            RawChainInteger { limb0: p.0[0], limb1: p.0[1], limb2: p.0[2], limb3: p.0[3] },
        ),
        None => None,
    }
}

impl RawChainInteger {
    /// The product of two integers, where it is below two to the power 256.
    pub fn checked_mul(&self, other: &RawChainInteger) -> (r: Option<RawChainInteger>)
        ensures
            self@ * other@ < pow2_256() ==> r == Some(Self::spec_from_nat(self@ * other@)),
            self@ * other@ >= pow2_256() ==> r is None,
    {
        let r = checked_mul_u256(self, other);
        proof {
            if r is Some {
                r->0.lemma_value();
            }
        }
        r
    }
}

} // verus!
