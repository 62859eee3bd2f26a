//! The map from the ledger's coordinates to those of the simulation.
//!
//! The map is kept in whole numbers. Its coefficients are counted in a unit
//! of the caller's choosing (thousandths of a simulation unit, say), and so
//! are the coordinates that come out.

use vstd::prelude::*;

verus! {

/// An affine map: `x` is scaled and shifted, `y` is scaled only.
#[derive(Clone, Copy, Debug, PartialEq, Eq, Structural)]
pub struct CoordinateMap {
    /// What one ledger unit along `x` comes to.
    pub scale_x: i64,
    /// Where the ledger's origin lies along `x`.
    pub offset_x: i64,
    /// What one ledger unit along `y` comes to.
    pub scale_y: i64,
}

impl CoordinateMap {
    /// The simulation's `x` for the ledger's `dojo_x`.
    pub open spec fn spec_x(self, dojo_x: int) -> int {
        dojo_x * self.scale_x + self.offset_x
    }

    /// The simulation's `y` for the ledger's `dojo_y`.
    pub open spec fn spec_y(self, dojo_y: int) -> int {
        dojo_y * self.scale_y
    }
}

/// Maps a position of the ledger to one of the simulation:
/// `x * scale_x + offset_x` and `y * scale_y`.
pub fn dojo_to_bevy_coordinate(map: &CoordinateMap, dojo_x: i64, dojo_y: i64) -> (bevy: (
    i128,
    i128,
))
    ensures
        bevy.0 == map.spec_x(dojo_x as int),
        bevy.1 == map.spec_y(dojo_y as int),
{
    let (scale_x, offset_x, scale_y) = (map.scale_x, map.offset_x, map.scale_y);
    assert(-0x4000_0000_0000_0000_0000_0000_0000_0000 <= dojo_x * scale_x
        <= 0x4000_0000_0000_0000_0000_0000_0000_0000) by (nonlinear_arith)
        requires
            -0x8000_0000_0000_0000 <= dojo_x <= 0x7fff_ffff_ffff_ffff,
            -0x8000_0000_0000_0000 <= scale_x <= 0x7fff_ffff_ffff_ffff,
    ;
    assert(-0x4000_0000_0000_0000_0000_0000_0000_0000 <= dojo_y * scale_y
        <= 0x4000_0000_0000_0000_0000_0000_0000_0000) by (nonlinear_arith)
        requires
            -0x8000_0000_0000_0000 <= dojo_y <= 0x7fff_ffff_ffff_ffff,
            -0x8000_0000_0000_0000 <= scale_y <= 0x7fff_ffff_ffff_ffff,
    ;
    let bevy_x: i128 = (dojo_x as i128) * (scale_x as i128) + offset_x as i128;
    let bevy_y: i128 = (dojo_y as i128) * (scale_y as i128);
    (bevy_x, bevy_y)
}

/// The map keeps differences in proportion: two positions that differ by
/// `dx` and `dy` come out `dx * scale_x` and `dy * scale_y` apart, wherever
/// they lie.
pub proof fn lemma_map_is_affine(map: CoordinateMap, x: int, y: int, dx: int, dy: int)
    ensures
        map.spec_x(x + dx) - map.spec_x(x) == dx * map.scale_x,
        map.spec_y(y + dy) - map.spec_y(y) == dy * map.scale_y,
        map.spec_x(0) == map.offset_x,
        map.spec_y(0) == 0,
{
    assert((x + dx) * map.scale_x == x * map.scale_x + dx * map.scale_x) by (nonlinear_arith);
    assert((y + dy) * map.scale_y == y * map.scale_y + dy * map.scale_y) by (nonlinear_arith);
}

} // verus!
