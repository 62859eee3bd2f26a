//! Fixed-point numbers of the ledger: 128 bits, the low 64 of them the
//! fraction.

use crate::chance::random_u128;
use crate::felt::{pow256, Felt};
use vstd::prelude::*;

verus! {

/// Number of fraction bits in a fixed-point number.
pub const FRACTION_BITS: u32 = 64;

/// The fixed-point encoding of one: `2^64`.
pub const FIXED_ONE: u128 = 0x1_0000_0000_0000_0000;

/// Seeds are drawn as whole numbers below this bound.
pub const SEED_BOUND: u128 = 200;

/// A decoded fixed-point number: `whole + fraction / 2^64`.
#[derive(Clone, Copy, Debug, PartialEq, Eq, Structural)]
pub struct Fixed {
    /// The part before the point.
    pub whole: u64,
    /// The part after the point, in units of `2^-64`.
    pub fraction: u64,
}

impl Fixed {
    /// The encoded number: `whole * 2^64 + fraction`.
    pub open spec fn raw(self) -> nat {
        (self.whole as nat) * (FIXED_ONE as nat) + self.fraction as nat
    }

    /// The fixed-point encoding of this number.
    pub fn encode(&self) -> (raw: u128)
        ensures
            raw == self.raw(),
    {
        assert((self.whole as nat) * (FIXED_ONE as nat) + (self.fraction as nat) <= u128::MAX)
            by (nonlinear_arith)
            requires
                self.whole <= u64::MAX,
                self.fraction <= u64::MAX,
                FIXED_ONE == 0x1_0000_0000_0000_0000,
        ;
        (self.whole as u128) * FIXED_ONE + self.fraction as u128
    }
}

/// Splits a fixed-point number into the part before the point and the part
/// after it: `raw / 2^64` and `raw % 2^64`.
pub fn decode_fixed(raw: u128) -> (out: Fixed)
    ensures
        out.whole == raw / FIXED_ONE,
        out.fraction == raw % FIXED_ONE,
        out.raw() == raw,
{
    let whole: u128 = raw / FIXED_ONE;
    let fraction: u128 = raw % FIXED_ONE;
    assert(whole <= u64::MAX) by (nonlinear_arith)
        requires
            whole == raw / 0x1_0000_0000_0000_0000,
            raw <= u128::MAX,
    ;
    assert(whole * 0x1_0000_0000_0000_0000 + fraction == raw) by (nonlinear_arith)
        requires
            whole == raw / 0x1_0000_0000_0000_0000,
            fraction == raw % 0x1_0000_0000_0000_0000,
    ;
    Fixed { whole: whole as u64, fraction: fraction as u64 }
}

/// Decodes a field element as a fixed-point number. There is a result
/// exactly where the element fits in 128 bits.
pub fn decode_felt(val: &Felt) -> (out: Option<Fixed>)
    ensures
        out is Some <==> val.value() < pow256(16),
        out matches Some(fixed) ==> fixed.raw() == val.value(),
{
    match val.as_u128() {
        Some(raw) => Some(decode_fixed(raw)),
        None => None,
    }
}

/// Whether `seed` is a whole fixed-point number below [`SEED_BOUND`].
pub open spec fn is_seed(seed: Felt) -> bool {
    seed.value() % (FIXED_ONE as nat) == 0 && seed.value() / (FIXED_ONE as nat) < SEED_BOUND
}

/// The seed that a random draw gives: the draw reduced below
/// [`SEED_BOUND`], as a whole fixed-point number.
pub fn seed_from_draw(draw: u128) -> (seed: Felt)
    ensures
        seed.value() == (draw % SEED_BOUND) * (FIXED_ONE as nat),
        is_seed(seed),
{
    let whole: u64 = (draw % SEED_BOUND) as u64;
    let seed = Felt::from_u128(Fixed { whole, fraction: 0 }.encode());
    assert(is_seed(seed)) by (nonlinear_arith)
        requires
            whole < 200,
            seed.value() == whole * 0x1_0000_0000_0000_0000,
            FIXED_ONE == 0x1_0000_0000_0000_0000,
            SEED_BOUND == 200,
    ;
    seed
}

/// A random seed for spawning racers: a whole fixed-point number below
/// [`SEED_BOUND`], as a field element.
pub fn rand_felt_fixed_point() -> (seed: Felt)
    ensures
        is_seed(seed),
{
    seed_from_draw(random_u128())
}

} // verus!
