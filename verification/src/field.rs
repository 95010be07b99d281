//! Field elements of the scalar field of the BN254 curve.
//!
//! A `Felt` holds the canonical (fully reduced) representative of a field
//! element as four 64-bit limbs, least significant first. All arithmetic is
//! done by the `ark` field library; this module only fixes the representation
//! and states what the arithmetic means for the represented integers.

use vstd::prelude::*;

verus! {

/// Weight of the second limb: 2^64.
pub open spec fn weight1() -> int {
    0x10000000000000000int
}

/// Weight of the third limb: 2^128.
pub open spec fn weight2() -> int {
    0x100000000000000000000000000000000int
}

/// Weight of the fourth limb: 2^192.
pub open spec fn weight3() -> int {
    0x1000000000000000000000000000000000000000000000000int
}

/// The order of the scalar field of BN254.
pub open spec fn field_order() -> int {
    21888242871839275222246405745257275088548364400416034343698204186575808495617int
}

/// One element of the scalar field, as the four little-endian 64-bit limbs of
/// its canonical representative.
#[derive(Clone, Copy, PartialEq, Eq, Structural, Debug)]
pub struct Felt {
    pub l0: u64,
    pub l1: u64,
    pub l2: u64,
    pub l3: u64,
}

/// The integer a `Felt` represents.
#[verifier::opaque]
pub open spec fn val(f: Felt) -> int {
    f.l0 + f.l1 * weight1() + f.l2 * weight2() + f.l3 * weight3()
}

/// A `Felt` is canonical when its represented integer is reduced below the
/// field order.
pub open spec fn canonical(f: Felt) -> bool {
    val(f) < field_order()
}

/// Two limb vectors represent the same integer exactly when they are equal:
/// `val` is the value of a base-2^64 numeral.
pub proof fn lemma_val_injective(a: Felt, b: Felt)
    ensures
        (val(a) == val(b)) <==> (a == b),
{
    reveal(val);
    if val(a) == val(b) {
        assert(a.l3 == b.l3) by {
            if a.l3 != b.l3 {
                assert(val(a) != val(b));
            }
        };
        assert(a.l2 == b.l2) by {
            if a.l2 != b.l2 {
                assert(val(a) != val(b));
            }
        };
        assert(a.l1 == b.l1) by {
            if a.l1 != b.l1 {
                assert(val(a) != val(b));
            }
        };
        assert(a.l0 == b.l0);
    }
}

impl Felt {
    /// The field element with a given small representative. Every `u64` is
    /// below the field order, so no reduction is involved.
    pub fn from_u64(u: u64) -> (r: Felt)
        ensures
            val(r) == u,
            canonical(r),
    {
        proof {
            reveal(val);
        }
        Felt { l0: u, l1: 0, l2: 0, l3: 0 }
    }

    /// Field addition.
    ///
    /// Relies on `ark_bn254::Fr` (`ark_ff`'s `Fp`): `+` adds two field
    /// elements, which on canonical representatives is addition of the
    /// represented integers modulo the field order; `from_bigint` reads the
    /// little-endian limbs of a reduced representative, and `into_bigint`
    /// returns the canonical representative's limbs.
    #[verifier::external_body]
    pub fn add(&self, other: &Felt) -> (r: Felt)
        requires
            canonical(*self),
            canonical(*other),
        ensures
            canonical(r),
            val(r) == (val(*self) + val(*other)) % field_order(),
    {
        let x = ark_bn254::Fr::from(ark_ff::BigInt::new([self.l0, self.l1, self.l2, self.l3]));
        let y = ark_bn254::Fr::from(ark_ff::BigInt::new([other.l0, other.l1, other.l2, other.l3]));
        let s = ark_ff::PrimeField::into_bigint(x + y).0;
        Felt { l0: s[0], l1: s[1], l2: s[2], l3: s[3] }
    }
}

} // verus!
