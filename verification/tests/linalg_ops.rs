//! Vectors, matrices, and the geometry constructors.

use tinyraster::fixed::Fx;
use tinyraster::geometry::{get_lookat, get_projection, get_viewport};
use tinyraster::linalg::{Mat4, Vec3, Vec4};

fn fx(raw: i64) -> Fx {
    Fx { raw }
}

fn v3(x: i64, y: i64, z: i64) -> Vec3 {
    Vec3 { x: fx(x), y: fx(y), z: fx(z) }
}

const ONE: i64 = 65536;

#[test]
fn dot_exact() {
    // (1, 2, 3) . (4, 5, 6) == 32
    let a = v3(ONE, 2 * ONE, 3 * ONE);
    let b = v3(4 * ONE, 5 * ONE, 6 * ONE);
    assert_eq!(a.dot(b).raw, 32 * ONE);
}

#[test]
fn cross_exact() {
    // (1, 0, 0) x (0, 1, 0) == (0, 0, 1)
    let a = v3(ONE, 0, 0);
    let b = v3(0, ONE, 0);
    let c = a.cross(b);
    assert_eq!((c.x.raw, c.y.raw, c.z.raw), (0, 0, ONE));
    // anti-commutativity on this pair
    let d = b.cross(a);
    assert_eq!((d.x.raw, d.y.raw, d.z.raw), (0, 0, -ONE));
}

#[test]
fn normalize_axis_exact() {
    let n = v3(3 * ONE, 0, 0).normalize();
    assert_eq!((n.x.raw, n.y.raw, n.z.raw), (ONE, 0, 0));
    let m = v3(0, 0, -5 * ONE).normalize();
    assert_eq!((m.x.raw, m.y.raw, m.z.raw), (0, 0, -ONE));
}

#[test]
fn normalize_diagonal() {
    // (1, 1, 0) normalizes to (0.7071.., 0.7071.., 0) in fixed point
    let n = v3(ONE, ONE, 0).normalize();
    assert_eq!((n.x.raw, n.y.raw, n.z.raw), (46341, 46341, 0));
    // (1, 2, 3) / |(1, 2, 3)|
    let m = v3(ONE, 2 * ONE, 3 * ONE).normalize();
    assert_eq!((m.x.raw, m.y.raw, m.z.raw), (17515, 35030, 52545));
}

#[test]
fn normalize_zero_stays_zero() {
    let n = v3(0, 0, 0).normalize();
    assert_eq!((n.x.raw, n.y.raw, n.z.raw), (0, 0, 0));
}

#[test]
fn identity_times_vector() {
    let m = Mat4::identity();
    let v = Vec4 { x: fx(123), y: fx(-456), z: fx(789), w: fx(ONE) };
    let r = m.mul_vec(v);
    assert_eq!((r.x.raw, r.y.raw, r.z.raw, r.w.raw), (123, -456, 789, ONE));
}

#[test]
fn matrix_product_identity() {
    let m = get_viewport(fx(8 * ONE), fx(8 * ONE), fx(48 * ONE), fx(48 * ONE));
    let i = Mat4::identity();
    assert_eq!(m.mul_mat(i), m);
    assert_eq!(i.mul_mat(m), m);
}

#[test]
fn transpose_involution() {
    let m = get_viewport(fx(ONE), fx(2 * ONE), fx(3 * ONE), fx(4 * ONE));
    assert_eq!(m.transpose().transpose(), m);
}

#[test]
fn inverse_of_scaled_identity() {
    // diag(2, 2, 2, 1) inverts to diag(0.5, 0.5, 0.5, 1)
    let mut m = Mat4::identity();
    m.r0.x = fx(2 * ONE);
    m.r1.y = fx(2 * ONE);
    m.r2.z = fx(2 * ONE);
    let inv = m.try_inverse().expect("invertible");
    assert_eq!(inv.r0.x.raw, ONE / 2);
    assert_eq!(inv.r1.y.raw, ONE / 2);
    assert_eq!(inv.r2.z.raw, ONE / 2);
    assert_eq!(inv.r3.w.raw, ONE);
    assert_eq!(inv.r0.y.raw, 0);
}

#[test]
fn singular_matrix_has_no_inverse() {
    assert!(Mat4::zeros().try_inverse().is_none());
    // a matrix whose fixed-point determinant truncates to zero
    let mut tiny = Mat4::zeros();
    tiny.r0.x = fx(1);
    tiny.r1.y = fx(1);
    tiny.r2.z = fx(1);
    tiny.r3.w = fx(1);
    assert!(tiny.try_inverse().is_none());
}

#[test]
fn viewport_entries() {
    // viewport(8, 8, 48, 48): scale w/2, h/2, offsets x + w/2, y + h/2
    let m = get_viewport(fx(8 * ONE), fx(8 * ONE), fx(48 * ONE), fx(48 * ONE));
    assert_eq!(m.r0.x.raw, 24 * ONE);
    assert_eq!(m.r0.w.raw, 32 * ONE);
    assert_eq!(m.r1.y.raw, 24 * ONE);
    assert_eq!(m.r1.w.raw, 32 * ONE);
    assert_eq!(m.r2.z.raw, 50 * ONE);
    assert_eq!(m.r2.w.raw, ONE / 2);
    assert_eq!(m.r3.w.raw, ONE);
}

#[test]
fn lookat_from_z_axis_is_translation() {
    // eye on +z looking at the origin: rotation part is the identity
    let m = get_lookat(v3(0, 0, 3 * ONE), v3(0, 0, 0), v3(0, ONE, 0));
    assert_eq!(m.r0.x.raw, ONE);
    assert_eq!(m.r1.y.raw, ONE);
    assert_eq!(m.r2.z.raw, ONE);
    assert_eq!(m.r0.y.raw, 0);
    assert_eq!(m.r2.w.raw, -3 * ONE);
    assert_eq!(m.r3.w.raw, ONE);
}

#[test]
fn projection_entries() {
    // f = 2, aspect = 1, n = -1
    let m = get_projection(fx(2 * ONE), fx(ONE), fx(-ONE));
    assert_eq!(m.r0.x.raw, 2 * ONE);
    assert_eq!(m.r1.y.raw, 2 * ONE);
    // (f + n) / (f - n) = 1/3
    assert_eq!(m.r2.z.raw, 21845);
    // 2 f n / (n - f) = -4 / -3 = 4/3
    assert_eq!(m.r2.w.raw, 87381);
    assert_eq!(m.r3.z.raw, -65536);
}
