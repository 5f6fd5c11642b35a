//! Motion samples of a spatial input device.

use vstd::prelude::*;

verus! {

/// One sample of device motion: a translation and a rotation vector in
/// device units. The rotation vector's direction is the axis and its length
/// the amount of the turn.
#[derive(Clone, Copy, Debug, PartialEq, Eq, Structural)]
pub struct MotionSample {
    pub event_type: i32,
    pub x: i32,
    pub y: i32,
    pub z: i32,
    pub rx: i32,
    pub ry: i32,
    pub rz: i32,
    pub period: u32,
}

/// The square of the length of the vector `(a, b, c)`.
pub open spec fn norm_squared(a: int, b: int, c: int) -> int {
    a * a + b * b + c * c
}

impl MotionSample {
    /// The sample that the server plays back on each frame update of the
    /// client: a small turn about the first axis and no translation.
    pub open spec fn synthetic() -> MotionSample {
        MotionSample { event_type: 0, x: 0, y: 0, z: 0, rx: 50, ry: 0, rz: 0, period: 0 }
    }

    /// See [`MotionSample::synthetic`].
    pub fn synthesize() -> (sample: MotionSample)
        ensures
            sample == MotionSample::synthetic(),
    {
        MotionSample { event_type: 0, x: 0, y: 0, z: 0, rx: 50, ry: 0, rz: 0, period: 0 }
    }

    /// The square of one component.
    fn square(v: i32) -> (sq: u64)
        ensures
            sq == v * v,
            sq <= 0x4000_0000_0000_0000,
    {
        let wide: i64 = v as i64;
        assert(0 <= wide * wide <= 0x4000_0000_0000_0000) by (nonlinear_arith)
            requires
                -0x8000_0000 <= wide <= 0x8000_0000,
        ;
        (wide * wide) as u64
    }

    /// The square of the length of the rotation vector, exactly.
    pub fn rotation_norm_squared(&self) -> (n: u64)
        ensures
            n == norm_squared(self.rx as int, self.ry as int, self.rz as int),
    {
        let a: u64 = Self::square(self.rx);
        let b: u64 = Self::square(self.ry);
        let c: u64 = Self::square(self.rz);
        a + b + c
    }

    /// Whether the sample turns at all: its rotation vector is not zero.
    pub fn has_rotation(&self) -> (turns: bool)
        ensures
            turns == (self.rx != 0 || self.ry != 0 || self.rz != 0),
            turns == (norm_squared(self.rx as int, self.ry as int, self.rz as int) != 0),
    {
        assert(norm_squared(self.rx as int, self.ry as int, self.rz as int) != 0 <==> (self.rx != 0
            || self.ry != 0 || self.rz != 0)) by (nonlinear_arith);
        self.rx != 0 || self.ry != 0 || self.rz != 0
    }
}

} // verus!
