//! Fixed-point vectors and look-orientation rotations.
//!
//! Angles never appear here directly: a rotation is given by the cosine and
//! sine of its angle, as fixed-point numbers in units of [`TRIG_ONE`]
//! (so `TRIG_ONE` stands for 1.0). Applying a rotation therefore multiplies
//! every component of the result by `TRIG_ONE`; applying the full look
//! orientation (yaw about the vertical axis, then pitch about the right
//! axis) multiplies it by `TRIG_ONE * TRIG_ONE`. Callers divide the scale
//! back out when they hand the vector on.

use vstd::prelude::*;

verus! {

/// Fixed-point value standing for 1.0 in a trigonometric coefficient.
pub const TRIG_ONE: i64 = 1_000_000;

/// Largest component magnitude accepted by the rotation routines.
pub const VEC_BOUND: i64 = 1_000_000;

/// An integer 3-vector. The unit of its components is the caller's choice;
/// the contracts here are exact integer identities, so any fixed-point
/// interpretation carries through.
#[derive(Clone, Copy, PartialEq, Eq, Structural, Debug)]
pub struct Vec3I {
    pub x: i64,
    pub y: i64,
    pub z: i64,
}

/// Cosine and sine of one angle, in units of [`TRIG_ONE`].
#[derive(Clone, Copy, PartialEq, Eq, Structural, Debug)]
pub struct Trig {
    pub c: i64,
    pub s: i64,
}

impl Vec3I {
    pub open spec fn zero_spec() -> Vec3I {
        Vec3I { x: 0, y: 0, z: 0 }
    }

    pub fn zero() -> (v: Vec3I)
        ensures
            v == Vec3I::zero_spec(),
    {
        Vec3I { x: 0, y: 0, z: 0 }
    }

    pub open spec fn in_bounds(self) -> bool {
        &&& -VEC_BOUND <= self.x <= VEC_BOUND
        &&& -VEC_BOUND <= self.y <= VEC_BOUND
        &&& -VEC_BOUND <= self.z <= VEC_BOUND
    }
}

/// A cosine/sine pair describes a rotation only if both coefficients lie
/// in the fixed-point range of 1.0.
pub open spec fn trig_ok(t: Trig) -> bool {
    &&& -TRIG_ONE <= t.c <= TRIG_ONE
    &&& -TRIG_ONE <= t.s <= TRIG_ONE
}

/// Rotation about the vertical (up) axis: the x component of the result,
/// scaled by `TRIG_ONE` relative to the input.
pub open spec fn yaw_x(t: Trig, x: int, z: int) -> int {
    t.c * x + t.s * z
}

/// Rotation about the vertical (up) axis: the z component of the result.
pub open spec fn yaw_z(t: Trig, x: int, z: int) -> int {
    t.c * z - t.s * x
}

/// Rotation about the right axis: the y component of the result,
/// scaled by `TRIG_ONE` relative to the input.
pub open spec fn pitch_y(t: Trig, y: int, z: int) -> int {
    t.c * y - t.s * z
}

/// Rotation about the right axis: the z component of the result.
pub open spec fn pitch_z(t: Trig, y: int, z: int) -> int {
    t.s * y + t.c * z
}

/// The look orientation applied to a vector: pitch about the right axis
/// first, then yaw about the up axis, so that the composed rotation is
/// yaw-after-pitch. The result is scaled by `TRIG_ONE * TRIG_ONE`.
pub open spec fn orient_x(yaw: Trig, pitch: Trig, v: Vec3I) -> int {
    yaw_x(yaw, TRIG_ONE * v.x, pitch_z(pitch, v.y as int, v.z as int))
}

pub open spec fn orient_y(yaw: Trig, pitch: Trig, v: Vec3I) -> int {
    TRIG_ONE * pitch_y(pitch, v.y as int, v.z as int)
}

pub open spec fn orient_z(yaw: Trig, pitch: Trig, v: Vec3I) -> int {
    yaw_z(yaw, TRIG_ONE * v.x, pitch_z(pitch, v.y as int, v.z as int))
}

/// The opposite composition: yaw applied to the vector first, then pitch.
/// Only stated so that the fixed order above can be compared against it.
pub open spec fn swapped_x(yaw: Trig, pitch: Trig, v: Vec3I) -> int {
    TRIG_ONE * yaw_x(yaw, v.x as int, v.z as int)
}

pub open spec fn swapped_y(yaw: Trig, pitch: Trig, v: Vec3I) -> int {
    pitch_y(pitch, TRIG_ONE * v.y, yaw_z(yaw, v.x as int, v.z as int))
}

pub open spec fn swapped_z(yaw: Trig, pitch: Trig, v: Vec3I) -> int {
    pitch_z(pitch, TRIG_ONE * v.y, yaw_z(yaw, v.x as int, v.z as int))
}

/// `|a| <= am` and `|b| <= bm` bound the product by `am * bm`.
pub(crate) proof fn lemma_abs_mul_le(a: int, b: int, am: int, bm: int)
    by (nonlinear_arith)
    requires
        -am <= a <= am,
        -bm <= b <= bm,
        0 <= am,
        0 <= bm,
    ensures
        -(am * bm) <= a * b <= am * bm,
{
}

/// Applies the look orientation (yaw after pitch) to `v`.
///
/// The components of the result are exact: they equal the composed
/// rotation formulas, at a scale of `TRIG_ONE * TRIG_ONE`.
pub fn apply_orientation(yaw: Trig, pitch: Trig, v: Vec3I) -> (r: Vec3I)
    requires
        trig_ok(yaw),
        trig_ok(pitch),
        v.in_bounds(),
    ensures
        r.x == orient_x(yaw, pitch, v),
        r.y == orient_y(yaw, pitch, v),
        r.z == orient_z(yaw, pitch, v),
{
    proof {
        lemma_abs_mul_le(pitch.s as int, v.y as int, TRIG_ONE as int, VEC_BOUND as int);
        lemma_abs_mul_le(pitch.c as int, v.z as int, TRIG_ONE as int, VEC_BOUND as int);
        lemma_abs_mul_le(pitch.c as int, v.y as int, TRIG_ONE as int, VEC_BOUND as int);
        lemma_abs_mul_le(pitch.s as int, v.z as int, TRIG_ONE as int, VEC_BOUND as int);
    }
    let px: i64 = TRIG_ONE * v.x;
    let py: i64 = pitch.c * v.y - pitch.s * v.z;
    let pz: i64 = pitch.s * v.y + pitch.c * v.z;
    proof {
        lemma_abs_mul_le(yaw.c as int, px as int, TRIG_ONE as int, TRIG_ONE * VEC_BOUND);
        lemma_abs_mul_le(yaw.s as int, pz as int, TRIG_ONE as int, 2 * TRIG_ONE * VEC_BOUND);
        lemma_abs_mul_le(yaw.s as int, px as int, TRIG_ONE as int, TRIG_ONE * VEC_BOUND);
        lemma_abs_mul_le(yaw.c as int, pz as int, TRIG_ONE as int, 2 * TRIG_ONE * VEC_BOUND);
    }
    let rx: i64 = yaw.c * px + yaw.s * pz;
    let ry: i64 = TRIG_ONE * py;
    let rz: i64 = yaw.c * pz - yaw.s * px;
    Vec3I { x: rx, y: ry, z: rz }
}

/// Law: the composition order of the look rotations matters. For a
/// quarter-turn yaw, a quarter-turn pitch and a unit up-vector, applying
/// pitch-then-yaw (the fixed order) and yaw-then-pitch give different
/// vectors, so swapping the order would change the orientation.
pub proof fn lemma_orientation_order_matters()
    ensures
        ({
            let yaw = Trig { c: 0, s: TRIG_ONE };
            let pitch = Trig { c: 0, s: TRIG_ONE };
            let v = Vec3I { x: 0, y: 1, z: 0 };
            orient_x(yaw, pitch, v) != swapped_x(yaw, pitch, v)
                || orient_y(yaw, pitch, v) != swapped_y(yaw, pitch, v)
                || orient_z(yaw, pitch, v) != swapped_z(yaw, pitch, v)
        }),
{
}

} // verus!
