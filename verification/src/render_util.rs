use vstd::prelude::*;

verus! {

/// Bits of the `f32` value 1.0.
pub const F32_ONE_BITS: u32 = 0x3f80_0000;

/// A 3×3 matrix in row-major order, each entry given by the bits of its `f32` value.
#[derive(Clone, Copy, Debug)]
pub struct Matrix3 {
    pub m: [u32; 9],
}

impl Matrix3 {
    /// The matrix with the given entries, row by row.
    pub fn from_floats(
        m00: u32,
        m01: u32,
        m02: u32,
        m10: u32,
        m11: u32,
        m12: u32,
        m20: u32,
        m21: u32,
        m22: u32,
    ) -> (r: Matrix3)
        ensures
            r.m@ == seq![m00, m01, m02, m10, m11, m12, m20, m21, m22],
    {
        let r = Matrix3 { m: [m00, m01, m02, m10, m11, m12, m20, m21, m22] };
        assert(r.m@ =~= seq![m00, m01, m02, m10, m11, m12, m20, m21, m22]);
        r
    }

    /// The identity matrix.
    pub fn identity() -> (r: Matrix3)
        ensures
            r.m@ == seq![F32_ONE_BITS, 0u32, 0u32, 0u32, F32_ONE_BITS, 0u32, 0u32, 0u32, F32_ONE_BITS],
    {
        Matrix3::from_floats(F32_ONE_BITS, 0, 0, 0, F32_ONE_BITS, 0, 0, 0, F32_ONE_BITS)
    }
}

/// A 2-D transform held as a 3×3 matrix; its six affine elements are read in the order
/// m00, m10, m01, m11, m02, m12.
#[derive(Clone, Copy, Debug)]
pub struct Transform2D {
    pub matrix: Matrix3,
}

/// The matrix index of affine element `i` (0 to 5) of a transform.
pub open spec fn element_index(i: int) -> int {
    if i == 0 {
        0
    } else if i == 1 {
        3
    } else if i == 2 {
        1
    } else if i == 3 {
        4
    } else if i == 4 {
        2
    } else {
        5
    }
}

impl Transform2D {
    /// The identity transform.
    pub fn new() -> (t: Transform2D)
        ensures
            t.matrix.m@ == seq![F32_ONE_BITS, 0u32, 0u32, 0u32, F32_ONE_BITS, 0u32, 0u32, 0u32, F32_ONE_BITS],
    {
        Transform2D { matrix: Matrix3::identity() }
    }

    /// The transform holding a copy of `m`.
    pub fn from_matrix(m: &Matrix3) -> (t: Transform2D)
        ensures
            t.matrix == *m,
    {
        Transform2D { matrix: *m }
    }

    /// Affine element `i` (0 to 5, in the order m00, m10, m01, m11, m02, m12).
    pub fn get_element(&self, i: usize) -> (v: u32)
        requires
            i < 6,
        ensures
            v == self.matrix.m@[element_index(i as int)],
    {
        let k: usize = if i == 0 {
            0
        } else if i == 1 {
            3
        } else if i == 2 {
            1
        } else if i == 3 {
            4
        } else if i == 4 {
            2
        } else {
            5
        };
        self.matrix.m[k]
    }
}

/// The matrix of `t`'s affine part: its first two rows as they are, the bottom row
/// forced to (0, 0, 1) whatever `t` holds there.
pub fn to_matrix3(t: &Transform2D) -> (r: Matrix3)
    ensures
        r.m@ == t.matrix.m@.subrange(0, 6) + seq![0u32, 0u32, F32_ONE_BITS],
{
    let s8 = t.get_element(0);
    let s9 = t.get_element(2);
    let s10 = t.get_element(4);
    let s11 = t.get_element(1);
    let s12 = t.get_element(3);
    let s5 = t.get_element(5);
    let r = Matrix3::from_floats(s8, s9, s10, s11, s12, s5, 0, 0, F32_ONE_BITS);
    assert(r.m@ =~= t.matrix.m@.subrange(0, 6) + seq![0u32, 0u32, F32_ONE_BITS]);
    r
}

} // verus!
