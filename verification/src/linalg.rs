//! Fixed-point vectors and 4x4 homogeneous matrices.
//!
//! Every operation mirrors its contract exactly: the `s...` spec functions
//! build the result value from the fixed-point operation specs, and each
//! executable method ensures it returns precisely that value.

use vstd::prelude::*;

use crate::fixed;
use crate::fixed::{
    iabs, is_isqrt, isqrt_u128, lemma_sqrt_floor, sadd, sat64, sdivi, smul, sneg, sqrt_floor, ssub,
    tdiv, Fx,
};

verus! {

/// A 2-component fixed-point vector (texture coordinates).
#[derive(Clone, Copy, PartialEq, Eq, Structural, Debug)]
pub struct Vec2 {
    pub x: Fx,
    pub y: Fx,
}

/// A 3-component fixed-point vector.
#[derive(Clone, Copy, PartialEq, Eq, Structural, Debug)]
pub struct Vec3 {
    pub x: Fx,
    pub y: Fx,
    pub z: Fx,
}

/// A 4-component fixed-point vector (homogeneous coordinates).
#[derive(Clone, Copy, PartialEq, Eq, Structural, Debug)]
pub struct Vec4 {
    pub x: Fx,
    pub y: Fx,
    pub z: Fx,
    pub w: Fx,
}

/// A 4x4 fixed-point matrix, stored by rows.
#[derive(Clone, Copy, PartialEq, Eq, Structural, Debug)]
pub struct Mat4 {
    pub r0: Vec4,
    pub r1: Vec4,
    pub r2: Vec4,
    pub r3: Vec4,
}

/// Dot product of two 3-vectors, summed left to right.
pub open spec fn sdot3(a: Vec3, b: Vec3) -> Fx {
    sadd(sadd(smul(a.x, b.x), smul(a.y, b.y)), smul(a.z, b.z))
}

/// Cross product of two 3-vectors.
pub open spec fn scross(a: Vec3, b: Vec3) -> Vec3 {
    Vec3 {
        x: ssub(smul(a.y, b.z), smul(a.z, b.y)),
        y: ssub(smul(a.z, b.x), smul(a.x, b.z)),
        z: ssub(smul(a.x, b.y), smul(a.y, b.x)),
    }
}

/// Exact sum of the squared raw components (no saturation: computed wide).
pub open spec fn norm2_raw(v: Vec3) -> int {
    (v.x.raw as int) * (v.x.raw as int) + (v.y.raw as int) * (v.y.raw as int) + (v.z.raw as int)
        * (v.z.raw as int)
}

/// Normalization to unit length: each component is divided by the integer
/// square root of the exact sum of squares.  The zero vector stays zero.
pub open spec fn snormalize3(v: Vec3) -> Vec3 {
    let len = sqrt_floor(norm2_raw(v));
    if len == 0 {
        Vec3 { x: Fx { raw: 0 }, y: Fx { raw: 0 }, z: Fx { raw: 0 } }
    } else {
        Vec3 {
            x: Fx { raw: sat64(tdiv((v.x.raw as int) * 65536, len)) as i64 },
            y: Fx { raw: sat64(tdiv((v.y.raw as int) * 65536, len)) as i64 },
            z: Fx { raw: sat64(tdiv((v.z.raw as int) * 65536, len)) as i64 },
        }
    }
}

/// Dot product of two 4-vectors, summed left to right.
pub open spec fn sdot4(a: Vec4, b: Vec4) -> Fx {
    sadd(sadd(sadd(smul(a.x, b.x), smul(a.y, b.y)), smul(a.z, b.z)), smul(a.w, b.w))
}

/// Column `0` of a matrix, as a vector.
pub open spec fn scol0(m: Mat4) -> Vec4 {
    Vec4 { x: m.r0.x, y: m.r1.x, z: m.r2.x, w: m.r3.x }
}

/// Column `1` of a matrix, as a vector.
pub open spec fn scol1(m: Mat4) -> Vec4 {
    Vec4 { x: m.r0.y, y: m.r1.y, z: m.r2.y, w: m.r3.y }
}

/// Column `2` of a matrix, as a vector.
pub open spec fn scol2(m: Mat4) -> Vec4 {
    Vec4 { x: m.r0.z, y: m.r1.z, z: m.r2.z, w: m.r3.z }
}

/// Column `3` of a matrix, as a vector.
pub open spec fn scol3(m: Mat4) -> Vec4 {
    Vec4 { x: m.r0.w, y: m.r1.w, z: m.r2.w, w: m.r3.w }
}

/// The transpose: rows become columns.
pub open spec fn stranspose(m: Mat4) -> Mat4 {
    Mat4 { r0: scol0(m), r1: scol1(m), r2: scol2(m), r3: scol3(m) }
}

/// Matrix-vector product: each component is a row-vector dot product.
pub open spec fn smatvec(m: Mat4, v: Vec4) -> Vec4 {
    Vec4 { x: sdot4(m.r0, v), y: sdot4(m.r1, v), z: sdot4(m.r2, v), w: sdot4(m.r3, v) }
}

/// Matrix product: entry `(i, j)` is row `i` of `a` dot column `j` of `b`.
pub open spec fn smatmul(a: Mat4, b: Mat4) -> Mat4 {
    Mat4 {
        r0: Vec4 {
            x: sdot4(a.r0, scol0(b)),
            y: sdot4(a.r0, scol1(b)),
            z: sdot4(a.r0, scol2(b)),
            w: sdot4(a.r0, scol3(b)),
        },
        r1: Vec4 {
            x: sdot4(a.r1, scol0(b)),
            y: sdot4(a.r1, scol1(b)),
            z: sdot4(a.r1, scol2(b)),
            w: sdot4(a.r1, scol3(b)),
        },
        r2: Vec4 {
            x: sdot4(a.r2, scol0(b)),
            y: sdot4(a.r2, scol1(b)),
            z: sdot4(a.r2, scol2(b)),
            w: sdot4(a.r2, scol3(b)),
        },
        r3: Vec4 {
            x: sdot4(a.r3, scol0(b)),
            y: sdot4(a.r3, scol1(b)),
            z: sdot4(a.r3, scol2(b)),
            w: sdot4(a.r3, scol3(b)),
        },
    }
}

/// 3x3 determinant by cofactor expansion along the first row.
pub open spec fn sdet3(a: Fx, b: Fx, c: Fx, d: Fx, e: Fx, f: Fx, g: Fx, h: Fx, i: Fx) -> Fx {
    sadd(
        ssub(
            smul(a, ssub(smul(e, i), smul(f, h))),
            smul(b, ssub(smul(d, i), smul(f, g))),
        ),
        smul(c, ssub(smul(d, h), smul(e, g))),
    )
}

/// Cofactor of entry `(0, 0)`.
pub open spec fn sc00(m: Mat4) -> Fx {
    sdet3(m.r1.y, m.r1.z, m.r1.w, m.r2.y, m.r2.z, m.r2.w, m.r3.y, m.r3.z, m.r3.w)
}

/// Cofactor of entry `(0, 1)`.
pub open spec fn sc01(m: Mat4) -> Fx {
    sneg(sdet3(m.r1.x, m.r1.z, m.r1.w, m.r2.x, m.r2.z, m.r2.w, m.r3.x, m.r3.z, m.r3.w))
}

/// Cofactor of entry `(0, 2)`.
pub open spec fn sc02(m: Mat4) -> Fx {
    sdet3(m.r1.x, m.r1.y, m.r1.w, m.r2.x, m.r2.y, m.r2.w, m.r3.x, m.r3.y, m.r3.w)
}

/// Cofactor of entry `(0, 3)`.
pub open spec fn sc03(m: Mat4) -> Fx {
    sneg(sdet3(m.r1.x, m.r1.y, m.r1.z, m.r2.x, m.r2.y, m.r2.z, m.r3.x, m.r3.y, m.r3.z))
}

/// Cofactor of entry `(1, 0)`.
pub open spec fn sc10(m: Mat4) -> Fx {
    sneg(sdet3(m.r0.y, m.r0.z, m.r0.w, m.r2.y, m.r2.z, m.r2.w, m.r3.y, m.r3.z, m.r3.w))
}

/// Cofactor of entry `(1, 1)`.
pub open spec fn sc11(m: Mat4) -> Fx {
    sdet3(m.r0.x, m.r0.z, m.r0.w, m.r2.x, m.r2.z, m.r2.w, m.r3.x, m.r3.z, m.r3.w)
}

/// Cofactor of entry `(1, 2)`.
pub open spec fn sc12(m: Mat4) -> Fx {
    sneg(sdet3(m.r0.x, m.r0.y, m.r0.w, m.r2.x, m.r2.y, m.r2.w, m.r3.x, m.r3.y, m.r3.w))
}

/// Cofactor of entry `(1, 3)`.
pub open spec fn sc13(m: Mat4) -> Fx {
    sdet3(m.r0.x, m.r0.y, m.r0.z, m.r2.x, m.r2.y, m.r2.z, m.r3.x, m.r3.y, m.r3.z)
}

/// Cofactor of entry `(2, 0)`.
pub open spec fn sc20(m: Mat4) -> Fx {
    sdet3(m.r0.y, m.r0.z, m.r0.w, m.r1.y, m.r1.z, m.r1.w, m.r3.y, m.r3.z, m.r3.w)
}

/// Cofactor of entry `(2, 1)`.
pub open spec fn sc21(m: Mat4) -> Fx {
    sneg(sdet3(m.r0.x, m.r0.z, m.r0.w, m.r1.x, m.r1.z, m.r1.w, m.r3.x, m.r3.z, m.r3.w))
}

/// Cofactor of entry `(2, 2)`.
pub open spec fn sc22(m: Mat4) -> Fx {
    sdet3(m.r0.x, m.r0.y, m.r0.w, m.r1.x, m.r1.y, m.r1.w, m.r3.x, m.r3.y, m.r3.w)
}

/// Cofactor of entry `(2, 3)`.
pub open spec fn sc23(m: Mat4) -> Fx {
    sneg(sdet3(m.r0.x, m.r0.y, m.r0.z, m.r1.x, m.r1.y, m.r1.z, m.r3.x, m.r3.y, m.r3.z))
}

/// Cofactor of entry `(3, 0)`.
pub open spec fn sc30(m: Mat4) -> Fx {
    sneg(sdet3(m.r0.y, m.r0.z, m.r0.w, m.r1.y, m.r1.z, m.r1.w, m.r2.y, m.r2.z, m.r2.w))
}

/// Cofactor of entry `(3, 1)`.
pub open spec fn sc31(m: Mat4) -> Fx {
    sdet3(m.r0.x, m.r0.z, m.r0.w, m.r1.x, m.r1.z, m.r1.w, m.r2.x, m.r2.z, m.r2.w)
}

/// Cofactor of entry `(3, 2)`.
pub open spec fn sc32(m: Mat4) -> Fx {
    sneg(sdet3(m.r0.x, m.r0.y, m.r0.w, m.r1.x, m.r1.y, m.r1.w, m.r2.x, m.r2.y, m.r2.w))
}

/// Cofactor of entry `(3, 3)`.
pub open spec fn sc33(m: Mat4) -> Fx {
    sdet3(m.r0.x, m.r0.y, m.r0.z, m.r1.x, m.r1.y, m.r1.z, m.r2.x, m.r2.y, m.r2.z)
}

/// 4x4 determinant by cofactor expansion along the first row.
#[verifier::opaque]
pub open spec fn sdet4(m: Mat4) -> Fx {
    sadd(
        sadd(smul(m.r0.x, sc00(m)), smul(m.r0.y, sc01(m))),
        sadd(smul(m.r0.z, sc02(m)), smul(m.r0.w, sc03(m))),
    )
}

/// The inverse: the adjugate (transposed cofactors) divided by the
/// determinant.  Meaningful only when `sdet4(m).raw != 0`.
#[verifier::opaque]
pub open spec fn sinverse(m: Mat4) -> Mat4 {
    let d = sdet4(m);
    Mat4 {
        r0: Vec4 {
            x: sdivi(sc00(m), d),
            y: sdivi(sc10(m), d),
            z: sdivi(sc20(m), d),
            w: sdivi(sc30(m), d),
        },
        r1: Vec4 {
            x: sdivi(sc01(m), d),
            y: sdivi(sc11(m), d),
            z: sdivi(sc21(m), d),
            w: sdivi(sc31(m), d),
        },
        r2: Vec4 {
            x: sdivi(sc02(m), d),
            y: sdivi(sc12(m), d),
            z: sdivi(sc22(m), d),
            w: sdivi(sc32(m), d),
        },
        r3: Vec4 {
            x: sdivi(sc03(m), d),
            y: sdivi(sc13(m), d),
            z: sdivi(sc23(m), d),
            w: sdivi(sc33(m), d),
        },
    }
}

impl Vec2 {
    /// Builds a 2-vector from its components.
    pub fn new(x: Fx, y: Fx) -> (r: Vec2)
        ensures
            r.x == x && r.y == y,
    {
        Vec2 { x, y }
    }
}

impl Vec3 {
    /// Builds a 3-vector from its components.
    pub fn new(x: Fx, y: Fx, z: Fx) -> (r: Vec3)
        ensures
            r.x == x && r.y == y && r.z == z,
    {
        Vec3 { x, y, z }
    }

    /// The zero vector.
    pub fn zero() -> (r: Vec3)
        ensures
            r.x.raw == 0 && r.y.raw == 0 && r.z.raw == 0,
    {
        Vec3 { x: Fx { raw: 0 }, y: Fx { raw: 0 }, z: Fx { raw: 0 } }
    }

    /// Component-wise sum.
    pub fn plus_v(self, o: Vec3) -> (r: Vec3)
        ensures
            r.x == sadd(self.x, o.x) && r.y == sadd(self.y, o.y) && r.z == sadd(self.z, o.z),
    {
        Vec3 { x: self.x.plus(o.x), y: self.y.plus(o.y), z: self.z.plus(o.z) }
    }

    /// Component-wise difference.
    pub fn minus_v(self, o: Vec3) -> (r: Vec3)
        ensures
            r.x == ssub(self.x, o.x) && r.y == ssub(self.y, o.y) && r.z == ssub(self.z, o.z),
    {
        Vec3 { x: self.x.minus(o.x), y: self.y.minus(o.y), z: self.z.minus(o.z) }
    }

    /// Multiplication by a scalar.
    pub fn scale(self, s: Fx) -> (r: Vec3)
        ensures
            r.x == smul(self.x, s) && r.y == smul(self.y, s) && r.z == smul(self.z, s),
    {
        Vec3 { x: self.x.times(s), y: self.y.times(s), z: self.z.times(s) }
    }

    /// Dot product.
    pub fn dot(self, o: Vec3) -> (r: Fx)
        ensures
            r == sdot3(self, o),
    {
        self.x.times(o.x).plus(self.y.times(o.y)).plus(self.z.times(o.z))
    }

    /// Cross product.
    pub fn cross(self, o: Vec3) -> (r: Vec3)
        ensures
            r == scross(self, o),
    {
        Vec3 {
            x: self.y.times(o.z).minus(self.z.times(o.y)),
            y: self.z.times(o.x).minus(self.x.times(o.z)),
            z: self.x.times(o.y).minus(self.y.times(o.x)),
        }
    }

    /// Normalization to unit length (the zero vector stays zero).
    pub fn normalize(self) -> (r: Vec3)
        ensures
            r == snormalize3(self),
    {
        let mx: u64 = fixed::mag64(self.x.raw);
        let my: u64 = fixed::mag64(self.y.raw);
        let mz: u64 = fixed::mag64(self.z.raw);
        proof {
            assert((mx as int) * (mx as int) == (self.x.raw as int) * (self.x.raw as int))
                by (nonlinear_arith)
                requires
                    mx as int == iabs(self.x.raw as int),
            ;
            assert((my as int) * (my as int) == (self.y.raw as int) * (self.y.raw as int))
                by (nonlinear_arith)
                requires
                    my as int == iabs(self.y.raw as int),
            ;
            assert((mz as int) * (mz as int) == (self.z.raw as int) * (self.z.raw as int))
                by (nonlinear_arith)
                requires
                    mz as int == iabs(self.z.raw as int),
            ;
            assert((mx as int) * (mx as int) <= 0x8000_0000_0000_0000 * 0x8000_0000_0000_0000
                && (my as int) * (my as int) <= 0x8000_0000_0000_0000 * 0x8000_0000_0000_0000
                && (mz as int) * (mz as int) <= 0x8000_0000_0000_0000 * 0x8000_0000_0000_0000)
                by (nonlinear_arith)
                requires
                    0 <= mx as int <= 0x8000_0000_0000_0000,
                    0 <= my as int <= 0x8000_0000_0000_0000,
                    0 <= mz as int <= 0x8000_0000_0000_0000,
            ;
        }
        let n2: u128 = (mx as u128) * (mx as u128) + (my as u128) * (my as u128) + (mz as u128)
            * (mz as u128);
        let len: u64 = isqrt_u128(n2);
        if len == 0 {
            Vec3 { x: Fx { raw: 0 }, y: Fx { raw: 0 }, z: Fx { raw: 0 } }
        } else {
            proof {
                fixed::lemma_tdiv_div(self.x.raw as int, len as int);
                fixed::lemma_tdiv_div(self.y.raw as int, len as int);
                fixed::lemma_tdiv_div(self.z.raw as int, len as int);
            }
            Vec3 {
                x: Fx {
                    raw: fixed::sat_signed(
                        self.x.raw < 0,
                        ((mx as u128) * 65536u128) / (len as u128),
                    ),
                },
                y: Fx {
                    raw: fixed::sat_signed(
                        self.y.raw < 0,
                        ((my as u128) * 65536u128) / (len as u128),
                    ),
                },
                z: Fx {
                    raw: fixed::sat_signed(
                        self.z.raw < 0,
                        ((mz as u128) * 65536u128) / (len as u128),
                    ),
                },
            }
        }
    }

    /// Extension to homogeneous coordinates with the given `w`.
    pub fn to_h(self, w: Fx) -> (r: Vec4)
        ensures
            r.x == self.x && r.y == self.y && r.z == self.z && r.w == w,
    {
        Vec4 { x: self.x, y: self.y, z: self.z, w }
    }
}

impl Vec4 {
    /// Builds a 4-vector from its components.
    pub fn new(x: Fx, y: Fx, z: Fx, w: Fx) -> (r: Vec4)
        ensures
            r.x == x && r.y == y && r.z == z && r.w == w,
    {
        Vec4 { x, y, z, w }
    }

    /// Dot product.
    pub fn dot4(self, o: Vec4) -> (r: Fx)
        ensures
            r == sdot4(self, o),
    {
        self.x.times(o.x).plus(self.y.times(o.y)).plus(self.z.times(o.z)).plus(self.w.times(o.w))
    }

    /// The first three components, dropping `w`.
    pub fn xyz(self) -> (r: Vec3)
        ensures
            r.x == self.x && r.y == self.y && r.z == self.z,
    {
        Vec3 { x: self.x, y: self.y, z: self.z }
    }

    /// Perspective division: the first three components divided by `w`.
    pub fn project(self) -> (r: Vec3)
        ensures
            r.x == sdivi(self.x, self.w) && r.y == sdivi(self.y, self.w) && r.z == sdivi(
                self.z,
                self.w,
            ),
    {
        Vec3 {
            x: self.x.divide(self.w),
            y: self.y.divide(self.w),
            z: self.z.divide(self.w),
        }
    }
}

impl Mat4 {
    /// The identity matrix.
    pub fn identity() -> (r: Mat4)
        ensures
            r == Mat4::spec_identity(),
    {
        let o = Fx { raw: 65536 };
        let n = Fx { raw: 0 };
        Mat4 {
            r0: Vec4 { x: o, y: n, z: n, w: n },
            r1: Vec4 { x: n, y: o, z: n, w: n },
            r2: Vec4 { x: n, y: n, z: o, w: n },
            r3: Vec4 { x: n, y: n, z: n, w: o },
        }
    }

    /// The identity matrix, as a spec value.
    pub open spec fn spec_identity() -> Mat4 {
        let o = Fx { raw: 65536 };
        let n = Fx { raw: 0 };
        Mat4 {
            r0: Vec4 { x: o, y: n, z: n, w: n },
            r1: Vec4 { x: n, y: o, z: n, w: n },
            r2: Vec4 { x: n, y: n, z: o, w: n },
            r3: Vec4 { x: n, y: n, z: n, w: o },
        }
    }

    /// The all-zero matrix.
    pub fn zeros() -> (r: Mat4)
        ensures
            r == Mat4::spec_zeros(),
    {
        let n = Fx { raw: 0 };
        Mat4 {
            r0: Vec4 { x: n, y: n, z: n, w: n },
            r1: Vec4 { x: n, y: n, z: n, w: n },
            r2: Vec4 { x: n, y: n, z: n, w: n },
            r3: Vec4 { x: n, y: n, z: n, w: n },
        }
    }

    /// The all-zero matrix, as a spec value.
    pub open spec fn spec_zeros() -> Mat4 {
        let n = Fx { raw: 0 };
        Mat4 {
            r0: Vec4 { x: n, y: n, z: n, w: n },
            r1: Vec4 { x: n, y: n, z: n, w: n },
            r2: Vec4 { x: n, y: n, z: n, w: n },
            r3: Vec4 { x: n, y: n, z: n, w: n },
        }
    }

    /// The transpose.
    pub fn transpose(self) -> (r: Mat4)
        ensures
            r == stranspose(self),
    {
        Mat4 {
            r0: Vec4 { x: self.r0.x, y: self.r1.x, z: self.r2.x, w: self.r3.x },
            r1: Vec4 { x: self.r0.y, y: self.r1.y, z: self.r2.y, w: self.r3.y },
            r2: Vec4 { x: self.r0.z, y: self.r1.z, z: self.r2.z, w: self.r3.z },
            r3: Vec4 { x: self.r0.w, y: self.r1.w, z: self.r2.w, w: self.r3.w },
        }
    }

    /// Matrix-vector product.
    pub fn mul_vec(self, v: Vec4) -> (r: Vec4)
        ensures
            r == smatvec(self, v),
    {
        Vec4 { x: self.r0.dot4(v), y: self.r1.dot4(v), z: self.r2.dot4(v), w: self.r3.dot4(v) }
    }

    /// Matrix product.
    pub fn mul_mat(self, o: Mat4) -> (r: Mat4)
        ensures
            r == smatmul(self, o),
    {
        let t = o.transpose();
        Mat4 {
            r0: Vec4 {
                x: self.r0.dot4(t.r0),
                y: self.r0.dot4(t.r1),
                z: self.r0.dot4(t.r2),
                w: self.r0.dot4(t.r3),
            },
            r1: Vec4 {
                x: self.r1.dot4(t.r0),
                y: self.r1.dot4(t.r1),
                z: self.r1.dot4(t.r2),
                w: self.r1.dot4(t.r3),
            },
            r2: Vec4 {
                x: self.r2.dot4(t.r0),
                y: self.r2.dot4(t.r1),
                z: self.r2.dot4(t.r2),
                w: self.r2.dot4(t.r3),
            },
            r3: Vec4 {
                x: self.r3.dot4(t.r0),
                y: self.r3.dot4(t.r1),
                z: self.r3.dot4(t.r2),
                w: self.r3.dot4(t.r3),
            },
        }
    }

    /// The determinant.
    pub fn det(self) -> (r: Fx)
        ensures
            r == sdet4(self),
    {
        proof {
            reveal(sdet4);
        }
        let c00 = det3(
            self.r1.y, self.r1.z, self.r1.w, self.r2.y, self.r2.z, self.r2.w, self.r3.y,
            self.r3.z, self.r3.w,
        );
        let c01 = det3(
            self.r1.x, self.r1.z, self.r1.w, self.r2.x, self.r2.z, self.r2.w, self.r3.x,
            self.r3.z, self.r3.w,
        ).neg();
        let c02 = det3(
            self.r1.x, self.r1.y, self.r1.w, self.r2.x, self.r2.y, self.r2.w, self.r3.x,
            self.r3.y, self.r3.w,
        );
        let c03 = det3(
            self.r1.x, self.r1.y, self.r1.z, self.r2.x, self.r2.y, self.r2.z, self.r3.x,
            self.r3.y, self.r3.z,
        ).neg();
        self.r0.x.times(c00).plus(self.r0.y.times(c01)).plus(
            self.r0.z.times(c02).plus(self.r0.w.times(c03)),
        )
    }

    /// The inverse, when the (fixed-point) determinant is nonzero.
    pub fn try_inverse(self) -> (r: Option<Mat4>)
        ensures
            r == if sdet4(self).raw != 0 {
                Some(sinverse(self))
            } else {
                Option::<Mat4>::None
            },
    {
        proof {
            reveal(sdet4);
            reveal(sinverse);
        }
        let d = self.det();
        if d.raw == 0 {
            None
        } else {
            let c00 = det3(
                self.r1.y, self.r1.z, self.r1.w, self.r2.y, self.r2.z, self.r2.w, self.r3.y,
                self.r3.z, self.r3.w,
            );
            let c01 = det3(
                self.r1.x, self.r1.z, self.r1.w, self.r2.x, self.r2.z, self.r2.w, self.r3.x,
                self.r3.z, self.r3.w,
            ).neg();
            let c02 = det3(
                self.r1.x, self.r1.y, self.r1.w, self.r2.x, self.r2.y, self.r2.w, self.r3.x,
                self.r3.y, self.r3.w,
            );
            let c03 = det3(
                self.r1.x, self.r1.y, self.r1.z, self.r2.x, self.r2.y, self.r2.z, self.r3.x,
                self.r3.y, self.r3.z,
            ).neg();
            let c10 = det3(
                self.r0.y, self.r0.z, self.r0.w, self.r2.y, self.r2.z, self.r2.w, self.r3.y,
                self.r3.z, self.r3.w,
            ).neg();
            let c11 = det3(
                self.r0.x, self.r0.z, self.r0.w, self.r2.x, self.r2.z, self.r2.w, self.r3.x,
                self.r3.z, self.r3.w,
            );
            let c12 = det3(
                self.r0.x, self.r0.y, self.r0.w, self.r2.x, self.r2.y, self.r2.w, self.r3.x,
                self.r3.y, self.r3.w,
            ).neg();
            let c13 = det3(
                self.r0.x, self.r0.y, self.r0.z, self.r2.x, self.r2.y, self.r2.z, self.r3.x,
                self.r3.y, self.r3.z,
            );
            let c20 = det3(
                self.r0.y, self.r0.z, self.r0.w, self.r1.y, self.r1.z, self.r1.w, self.r3.y,
                self.r3.z, self.r3.w,
            );
            let c21 = det3(
                self.r0.x, self.r0.z, self.r0.w, self.r1.x, self.r1.z, self.r1.w, self.r3.x,
                self.r3.z, self.r3.w,
            ).neg();
            let c22 = det3(
                self.r0.x, self.r0.y, self.r0.w, self.r1.x, self.r1.y, self.r1.w, self.r3.x,
                self.r3.y, self.r3.w,
            );
            let c23 = det3(
                self.r0.x, self.r0.y, self.r0.z, self.r1.x, self.r1.y, self.r1.z, self.r3.x,
                self.r3.y, self.r3.z,
            ).neg();
            let c30 = det3(
                self.r0.y, self.r0.z, self.r0.w, self.r1.y, self.r1.z, self.r1.w, self.r2.y,
                self.r2.z, self.r2.w,
            ).neg();
            let c31 = det3(
                self.r0.x, self.r0.z, self.r0.w, self.r1.x, self.r1.z, self.r1.w, self.r2.x,
                self.r2.z, self.r2.w,
            );
            let c32 = det3(
                self.r0.x, self.r0.y, self.r0.w, self.r1.x, self.r1.y, self.r1.w, self.r2.x,
                self.r2.y, self.r2.w,
            ).neg();
            let c33 = det3(
                self.r0.x, self.r0.y, self.r0.z, self.r1.x, self.r1.y, self.r1.z, self.r2.x,
                self.r2.y, self.r2.z,
            );
            Some(
                Mat4 {
                    r0: Vec4 {
                        x: c00.divide(d),
                        y: c10.divide(d),
                        z: c20.divide(d),
                        w: c30.divide(d),
                    },
                    r1: Vec4 {
                        x: c01.divide(d),
                        y: c11.divide(d),
                        z: c21.divide(d),
                        w: c31.divide(d),
                    },
                    r2: Vec4 {
                        x: c02.divide(d),
                        y: c12.divide(d),
                        z: c22.divide(d),
                        w: c32.divide(d),
                    },
                    r3: Vec4 {
                        x: c03.divide(d),
                        y: c13.divide(d),
                        z: c23.divide(d),
                        w: c33.divide(d),
                    },
                },
            )
        }
    }
}

/// 3x3 determinant of the given entries, row by row.
fn det3(a: Fx, b: Fx, c: Fx, d: Fx, e: Fx, f: Fx, g: Fx, h: Fx, i: Fx) -> (r: Fx)
    ensures
        r == sdet3(a, b, c, d, e, f, g, h, i),
{
    a.times(e.times(i).minus(f.times(h))).minus(b.times(d.times(i).minus(f.times(g)))).plus(
        c.times(d.times(h).minus(e.times(g))),
    )
}

} // verus!
