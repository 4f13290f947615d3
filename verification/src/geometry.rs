//! Constructors for the three camera transforms: viewport, look-at, and
//! perspective projection.  All are pure functions of scalar parameters.

use vstd::prelude::*;

use crate::fixed::{sadd, sdivi, smul, sneg, ssub, Fx};
use crate::linalg::{scross, smatmul, snormalize3, Mat4, Vec3, Vec4};

verus! {

/// Depth resolution: the z range of clip space is scaled by `DEPTH / 2` so
/// the depth test has sub-pixel precision.
pub const DEPTH: i64 = 100;

/// The viewport matrix, as a spec value: it maps the clip-space cube
/// `[-1, 1]^3` to a screen box at `(x, y)` of size `(w, h)`, with z scaled
/// by `DEPTH / 2` around `1/2`.
pub open spec fn sviewport(x: Fx, y: Fx, w: Fx, h: Fx) -> Mat4 {
    let two = Fx { raw: 131072 };
    let n = Fx { raw: 0 };
    Mat4 {
        r0: Vec4 { x: sdivi(w, two), y: n, z: n, w: sadd(x, sdivi(w, two)) },
        r1: Vec4 { x: n, y: sdivi(h, two), z: n, w: sadd(y, sdivi(h, two)) },
        r2: Vec4 { x: n, y: n, z: Fx { raw: 3276800i64 }, w: Fx { raw: 32768 } },
        r3: Vec4 { x: n, y: n, z: n, w: Fx { raw: 65536 } },
    }
}

/// Builds the viewport matrix.
pub fn get_viewport(x: Fx, y: Fx, w: Fx, h: Fx) -> (m: Mat4)
    ensures
        m == sviewport(x, y, w, h),
{
    let two = Fx { raw: 131072 };
    let mut m = Mat4::identity();
    m.r0.w = x.plus(w.divide(two));
    m.r1.w = y.plus(h.divide(two));
    m.r2.w = Fx { raw: 32768 };
    m.r0.x = w.divide(two);
    m.r1.y = h.divide(two);
    m.r2.z = Fx { raw: 3276800i64 };
    m
}

/// The look-at matrix, as a spec value: the orthonormal camera basis
/// (forward `z`, right `x`, true up `y`) times the translation taking the
/// eye to the origin.  Degenerate when `up` is parallel to `eye - center`.
pub open spec fn slookat(eye: Vec3, center: Vec3, up: Vec3) -> Mat4 {
    let z = snormalize3(
        Vec3 { x: ssub(eye.x, center.x), y: ssub(eye.y, center.y), z: ssub(eye.z, center.z) },
    );
    let x = snormalize3(scross(up, z));
    let y = snormalize3(scross(z, x));
    let n = Fx { raw: 0 };
    let o = Fx { raw: 65536 };
    let minv = Mat4 {
        r0: Vec4 { x: x.x, y: x.y, z: x.z, w: n },
        r1: Vec4 { x: y.x, y: y.y, z: y.z, w: n },
        r2: Vec4 { x: z.x, y: z.y, z: z.z, w: n },
        r3: Vec4 { x: n, y: n, z: n, w: o },
    };
    let tr = Mat4 {
        r0: Vec4 { x: o, y: n, z: n, w: sneg(eye.x) },
        r1: Vec4 { x: n, y: o, z: n, w: sneg(eye.y) },
        r2: Vec4 { x: n, y: n, z: o, w: sneg(eye.z) },
        r3: Vec4 { x: n, y: n, z: n, w: o },
    };
    smatmul(minv, tr)
}

/// Builds the look-at (view) matrix.
pub fn get_lookat(eye: Vec3, center: Vec3, up: Vec3) -> (m: Mat4)
    ensures
        m == slookat(eye, center, up),
{
    let z = eye.minus_v(center).normalize();
    let x = up.cross(z).normalize();
    let y = z.cross(x).normalize();

    let mut minv = Mat4::identity();
    let mut tr = Mat4::identity();

    minv.r0.x = x.x;
    minv.r0.y = x.y;
    minv.r0.z = x.z;
    minv.r1.x = y.x;
    minv.r1.y = y.y;
    minv.r1.z = y.z;
    minv.r2.x = z.x;
    minv.r2.y = z.y;
    minv.r2.z = z.z;
    tr.r0.w = eye.x.neg();
    tr.r1.w = eye.y.neg();
    tr.r2.w = eye.z.neg();

    minv.mul_mat(tr)
}

/// The perspective matrix, as a spec value.  `f` is the focal scale (the
/// cotangent of half the vertical field of view, precomputed by the
/// caller), `aspect` the width/height ratio, `n` the near-plane parameter;
/// homogeneous `w` carries depth for the perspective divide.
pub open spec fn sprojection(f: Fx, aspect: Fx, n: Fx) -> Mat4 {
    let nil = Fx { raw: 0 };
    let two = Fx { raw: 131072 };
    Mat4 {
        r0: Vec4 { x: sdivi(f, aspect), y: nil, z: nil, w: nil },
        r1: Vec4 { x: nil, y: f, z: nil, w: nil },
        r2: Vec4 {
            x: nil,
            y: nil,
            z: sdivi(sadd(f, n), ssub(f, n)),
            w: sdivi(smul(smul(two, f), n), ssub(n, f)),
        },
        r3: Vec4 { x: nil, y: nil, z: Fx { raw: -65536i64 }, w: nil },
    }
}

/// Builds the perspective projection matrix.
pub fn get_projection(f: Fx, aspect: Fx, n: Fx) -> (m: Mat4)
    ensures
        m == sprojection(f, aspect, n),
{
    let two = Fx { raw: 131072 };
    let mut m = Mat4::zeros();
    m.r0.x = f.divide(aspect);
    m.r1.y = f;
    m.r2.z = f.plus(n).divide(f.minus(n));
    m.r2.w = two.times(f).times(n).divide(n.minus(f));
    m.r3.z = Fx { raw: -65536i64 };
    m
}

} // verus!
