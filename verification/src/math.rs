//! Single-precision vectors and matrices as they lie in device memory.
//!
//! Each component is held as the 32-bit IEEE-754 encoding of its value, so the
//! types here carry numbers to the device without doing arithmetic on them.

use vstd::prelude::*;

verus! {

/// The encoding of the number zero.
pub const ZERO_BITS: u32 = 0;

/// The encoding of the number one.
pub const ONE_BITS: u32 = 0x3F80_0000;

/// One single-precision number.
#[derive(Debug, Copy, Clone, PartialEq, Eq, Structural)]
pub struct Scalar {
    /// The IEEE-754 encoding of the number.
    pub bits: u32,
}

impl Scalar {
    /// The number with the given encoding.
    pub fn from_bits(bits: u32) -> (scalar: Scalar)
        ensures
            scalar.bits == bits,
    {
        Scalar { bits }
    }

    /// The encoding of the number.
    pub fn to_bits(self) -> (bits: u32)
        ensures
            bits == self.bits,
    {
        self.bits
    }
}

/// A vector of two numbers.
#[derive(Debug, Copy, Clone, PartialEq, Eq, Structural)]
pub struct Vec2 {
    pub x: Scalar,
    pub y: Scalar,
}

impl Vec2 {
    /// The vector with the given components.
    pub fn new(x: Scalar, y: Scalar) -> (v: Vec2)
        ensures
            v == (Vec2 { x, y }),
    {
        Vec2 { x, y }
    }
}

/// A vector of three numbers.
#[derive(Debug, Copy, Clone, PartialEq, Eq, Structural)]
pub struct Vec3 {
    pub x: Scalar,
    pub y: Scalar,
    pub z: Scalar,
}

impl Vec3 {
    /// The vector with the given components.
    pub fn new(x: Scalar, y: Scalar, z: Scalar) -> (v: Vec3)
        ensures
            v == (Vec3 { x, y, z }),
    {
        Vec3 { x, y, z }
    }
}

/// A vector of four numbers.
#[derive(Debug, Copy, Clone, PartialEq, Eq, Structural)]
pub struct Vec4 {
    pub x: Scalar,
    pub y: Scalar,
    pub z: Scalar,
    pub w: Scalar,
}

impl Vec4 {
    /// The vector with the given components.
    pub fn new(x: Scalar, y: Scalar, z: Scalar, w: Scalar) -> (v: Vec4)
        ensures
            v == (Vec4 { x, y, z, w }),
    {
        Vec4 { x, y, z, w }
    }
}

/// A matrix of four columns of four numbers.
#[derive(Debug, Copy, Clone, PartialEq, Eq, Structural)]
pub struct Mat4 {
    pub c0: Vec4,
    pub c1: Vec4,
    pub c2: Vec4,
    pub c3: Vec4,
}

impl Mat4 {
    /// The component in column `column` and row `row`.
    pub open spec fn entry(self, column: int, row: int) -> Scalar {
        let c = if column == 0 {
            self.c0
        } else if column == 1 {
            self.c1
        } else if column == 2 {
            self.c2
        } else {
            self.c3
        };
        if row == 0 {
            c.x
        } else if row == 1 {
            c.y
        } else if row == 2 {
            c.z
        } else {
            c.w
        }
    }

    /// Whether the matrix holds one on its diagonal and zero elsewhere.
    pub open spec fn is_identity(self) -> bool {
        forall|column: int, row: int|
            0 <= column < 4 && 0 <= row < 4 ==> (#[trigger] self.entry(column, row)).bits == if column
                == row {
                ONE_BITS
            } else {
                ZERO_BITS
            }
    }

    /// The matrix that leaves every vector as it is.
    pub fn identity() -> (m: Mat4)
        ensures
            m.is_identity(),
    {
        let o = Scalar { bits: ZERO_BITS };
        let i = Scalar { bits: ONE_BITS };
        Mat4 {
            c0: Vec4 { x: i, y: o, z: o, w: o },
            c1: Vec4 { x: o, y: i, z: o, w: o },
            c2: Vec4 { x: o, y: o, z: i, w: o },
            c3: Vec4 { x: o, y: o, z: o, w: i },
        }
    }
}

/// The three matrices that take a vertex from model space to the screen.
#[derive(Debug, Copy, Clone, PartialEq, Eq, Structural)]
pub struct Mvp {
    pub model: Mat4,
    pub view: Mat4,
    pub proj: Mat4,
}

impl Mvp {
    /// The three matrices as given.
    pub fn new(model: Mat4, view: Mat4, proj: Mat4) -> (mvp: Mvp)
        ensures
            mvp == (Mvp { model, view, proj }),
    {
        Self { model, view, proj }
    }

    /// Three identity matrices.
    pub fn identity() -> (mvp: Mvp)
        ensures
            mvp.model.is_identity(),
            mvp.view.is_identity(),
            mvp.proj.is_identity(),
    {
        Self::new(Mat4::identity(), Mat4::identity(), Mat4::identity())
    }
}

} // verus!
