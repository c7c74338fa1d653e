use vstd::prelude::*;

verus! {

/// Two to the power 64, the weight of the second limb.
pub open spec fn pow2_64() -> nat {
    0x1_0000_0000_0000_0000nat
}

/// Two to the power 128, the weight of the third limb.
pub open spec fn pow2_128() -> nat {
    0x1_0000_0000_0000_0000_0000_0000_0000_0000nat
}

/// Two to the power 192, the weight of the fourth limb.
pub open spec fn pow2_192() -> nat {
    0x1_0000_0000_0000_0000_0000_0000_0000_0000_0000_0000_0000_0000nat
}

/// Two to the power 256, the least number that a `U256` cannot hold.
pub open spec fn u256_limit() -> nat {
    0x1_0000_0000_0000_0000_0000_0000_0000_0000_0000_0000_0000_0000_0000_0000_0000_0000nat
}

/// 256 to the power `n`, the number of values that `n` bytes tell apart.
pub open spec fn pow256(n: nat) -> nat
    decreases n,
{
    if n == 0 {
        1
    } else {
        256 * pow256((n - 1) as nat)
    }
}

/// The number that `bytes` spell in base 256, the most significant byte first.
pub open spec fn be_value(bytes: Seq<u8>) -> nat
    decreases bytes.len(),
{
    if bytes.len() == 0 {
        0
    } else {
        be_value(bytes.drop_last()) * 256 + bytes.last() as nat
    }
}

/// Bytes spell a number below 256 to the power of their count.
pub proof fn lemma_be_value_bound(bytes: Seq<u8>)
    ensures
        be_value(bytes) < pow256(bytes.len()),
    decreases bytes.len(),
{
    if bytes.len() > 0 {
        lemma_be_value_bound(bytes.drop_last());
    }
}

/// The bytes `high` followed by the bytes `low` spell the number of `high`,
/// shifted left by the length of `low`, plus the number of `low`.
pub proof fn lemma_be_value_concat(high: Seq<u8>, low: Seq<u8>)
    ensures
        be_value(high + low) == be_value(high) * pow256(low.len()) + be_value(low),
    decreases low.len(),
{
    if low.len() == 0 {
        assert(high + low =~= high);
        assert(be_value(high) * pow256(0) == be_value(high)) by (nonlinear_arith)
            requires
                pow256(0) == 1,
        ;
    } else {
        let front = low.drop_last();
        let shifted = pow256(front.len());
        lemma_be_value_concat(high, front);
        assert((high + low).drop_last() =~= high + front);
        assert((be_value(high) * shifted + be_value(front)) * 256 == be_value(high) * (256
            * shifted) + be_value(front) * 256) by (nonlinear_arith);
    }
}

/// The `len` bytes that spell `value` in base 256, the most significant byte
/// first. A value that needs more bytes loses its upper part.
pub open spec fn be_bytes(value: nat, len: nat) -> Seq<u8>
    decreases len,
{
    if len == 0 {
        Seq::empty()
    } else {
        be_bytes(value / 256, (len - 1) as nat).push((value % 256) as u8)
    }
}

/// A number that `len` bytes can spell is read back from its bytes.
pub proof fn lemma_be_bytes_read_back(value: nat, len: nat)
    requires
        value < pow256(len),
    ensures
        be_bytes(value, len).len() == len,
        be_value(be_bytes(value, len)) == value,
    decreases len,
{
    if len > 0 {
        lemma_be_bytes_read_back(value / 256, (len - 1) as nat);
        assert(be_bytes(value, len).drop_last() =~= be_bytes(value / 256, (len - 1) as nat));
    }
}

/// An unsigned 256-bit integer: balances, fees and the value of a transaction, in wei.
///
/// The four limbs are 64 bits each, the least significant first. Every
/// combination of limbs is a valid number.
#[derive(Clone, Copy, Debug, PartialEq, Eq)]
pub struct U256 {
    pub limbs: [u64; 4],
}

impl View for U256 {
    type V = nat;

    open spec fn view(&self) -> nat {
        (self.limbs[0] as nat) + (self.limbs[1] as nat) * pow2_64() + (self.limbs[2] as nat)
            * pow2_128() + (self.limbs[3] as nat) * pow2_192()
    }
}

impl U256 {
    /// The number zero.
    pub fn zero() -> (r: U256)
        ensures
            r@ == 0,
    {
        U256 { limbs: [0, 0, 0, 0] }
    }

    /// The number `value`.
    pub fn from_u64(value: u64) -> (r: U256)
        ensures
            r@ == value,
    {
        U256 { limbs: [value, 0, 0, 0] }
    }

    /// The number `value`.
    pub fn from_u128(value: u128) -> (r: U256)
        ensures
            r@ == value,
    {
        let low: u64 = (value % 0x1_0000_0000_0000_0000u128) as u64;
        let high: u64 = (value / 0x1_0000_0000_0000_0000u128) as u64;
        U256 { limbs: [low, high, 0, 0] }
    }

    /// The number that the 32 bytes of `data` from `start` on spell, the most
    /// significant byte first.
    pub fn from_be_bytes(data: &[u8], start: usize) -> (r: U256)
        requires
            start + 32 <= data.len(),
        ensures
            r@ == be_value(data@.subrange(start as int, start + 32)),
    {
        let l3 = limb_from_be_bytes(data, start);
        let l2 = limb_from_be_bytes(data, start + 8);
        let l1 = limb_from_be_bytes(data, start + 16);
        let l0 = limb_from_be_bytes(data, start + 24);
        proof {
            let s = start as int;
            let b3 = data@.subrange(s, s + 8);
            let b2 = data@.subrange(s + 8, s + 16);
            let b1 = data@.subrange(s + 16, s + 24);
            let b0 = data@.subrange(s + 24, s + 32);
            let p = pow2_64();
            assert(pow256(8) == p) by {
                reveal_with_fuel(pow256, 9);
            }
            lemma_be_value_concat(b3, b2);
            assert(be_value(b3 + b2) == l3 * p + l2);
            lemma_be_value_concat(b3 + b2, b1);
            assert(be_value(b3 + b2 + b1) == (l3 * p + l2) * p + l1);
            lemma_be_value_concat(b3 + b2 + b1, b0);
            assert(be_value(b3 + b2 + b1 + b0) == ((l3 * p + l2) * p + l1) * p + l0);
            assert(b3 + b2 + b1 + b0 =~= data@.subrange(s, s + 32));
        }
        U256 { limbs: [l0, l1, l2, l3] }
    }

    /// The greatest number that 256 bits hold.
    pub fn max_value() -> (r: U256)
        ensures
            r@ == u256_limit() - 1,
    {
        U256 { limbs: [u64::MAX, u64::MAX, u64::MAX, u64::MAX] }
    }
}

/// The number that the 8 bytes of `data` from `start` on spell, the most
/// significant byte first.
fn limb_from_be_bytes(data: &[u8], start: usize) -> (r: u64)
    requires
        start + 8 <= data.len(),
    ensures
        r == be_value(data@.subrange(start as int, start + 8)),
{
    let mut acc: u64 = 0;
    let mut i: usize = 0;
    assert(data@.subrange(start as int, start as int) =~= Seq::<u8>::empty());
    while i < 8
        invariant
            i <= 8,
            start + 8 <= data.len(),
            acc == be_value(data@.subrange(start as int, start + i)),
        decreases 8 - i,
    {
        proof {
            let seen = data@.subrange(start as int, start + i);
            lemma_be_value_bound(seen);
            assert(pow256(i as nat) <= 0x100_0000_0000_0000) by {
                reveal_with_fuel(pow256, 8);
            }
            assert(data@.subrange(start as int, start + i + 1).drop_last() =~= seen);
        }
        acc = acc * 256 + data[start + i] as u64;
        i = i + 1;
    }
    acc
}

/// A 512-bit number, wide enough for the product of any two `U256`. It is the
/// intermediate of fee arithmetic and never leaves the crate.
///
/// The eight limbs are 64 bits each, the least significant first.
#[derive(Clone, Copy, Debug)]
pub(crate) struct U512 {
    pub(crate) limbs: [u64; 8],
}

impl View for U512 {
    type V = nat;

    closed spec fn view(&self) -> nat {
        self.low() + u256_limit() * self.high()
    }
}

impl U512 {
    /// The number that the lower four limbs hold.
    closed spec fn low(&self) -> nat {
        (self.limbs[0] as nat) + (self.limbs[1] as nat) * pow2_64() + (self.limbs[2] as nat)
            * pow2_128() + (self.limbs[3] as nat) * pow2_192()
    }

    /// The number that the upper four limbs hold.
    closed spec fn high(&self) -> nat {
        (self.limbs[4] as nat) + (self.limbs[5] as nat) * pow2_64() + (self.limbs[6] as nat)
            * pow2_128() + (self.limbs[7] as nat) * pow2_192()
    }

    /// The number fits in 256 bits where its upper half is zero, and only there.
    proof fn lemma_fits_where_high_is_zero(&self)
        ensures
            self@ < u256_limit() <==> self.high() == 0,
    {
        let high = self.high();
        if high >= 1 {
            assert(u256_limit() * high >= u256_limit()) by (nonlinear_arith)
                requires
                    high >= 1,
            ;
        }
    }

    /// The number `value`.
    pub(crate) fn from_u64(value: u64) -> (r: U512)
        ensures
            r@ == value,
    {
        U512 { limbs: [value, 0, 0, 0, 0, 0, 0, 0] }
    }

    /// Whether the number fits in 256 bits.
    pub(crate) fn fits_u256(&self) -> (r: bool)
        ensures
            r == (self@ < u256_limit()),
    {
        proof {
            self.lemma_fits_where_high_is_zero();
        }
        self.limbs[4] == 0 && self.limbs[5] == 0 && self.limbs[6] == 0 && self.limbs[7] == 0
    }

    /// The lower 256 bits, which are the whole number where it fits.
    pub(crate) fn low_u256(&self) -> (r: U256)
        ensures
            self@ < u256_limit() ==> r@ == self@,
    {
        proof {
            self.lemma_fits_where_high_is_zero();
        }
        U256 { limbs: [self.limbs[0], self.limbs[1], self.limbs[2], self.limbs[3]] }
    }
}

/// `ethers::types::U256::full_mul`: the product of two 256-bit numbers as a
/// 512-bit number, which holds every such product, so nothing is cut off.
#[verifier::external_body]
pub(crate) fn full_mul(a: &U256, b: &U256) -> (r: U512)
    ensures
        r@ == a@ * b@,
{
    U512 { limbs: ethers::types::U256(a.limbs).full_mul(ethers::types::U256(b.limbs)).0 }
}

/// The operator `/` of `ethers::types::U512`: the quotient of two 512-bit
/// numbers, rounded down. The outside function panics on a divisor of zero,
/// which is left out here.
#[verifier::external_body]
pub(crate) fn wide_div(a: &U512, b: &U512) -> (r: U512)
    requires
        b@ != 0,
    ensures
        r@ == a@ / b@,
{
    U512 { limbs: (ethers::types::U512(a.limbs) / ethers::types::U512(b.limbs)).0 }
}

} // verus!
