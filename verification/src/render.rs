//! The triangle rasterizer and the two-pass pipeline orchestrator.
//!
//! `triangle` scan-converts one triangle: it clamps the triangle's bounding
//! box to the image, tests every pixel in the box with barycentric
//! coordinates, resolves depth against the z-buffer, and lets the shader's
//! fragment stage rewrite the sampled base color.  Its contract gives the
//! exact final value of every pixel of both buffers, so order-dependence
//! and degenerate triangles are ruled out by proof.

use vstd::prelude::*;

use vstd::arithmetic::div_mod::{lemma_fundamental_div_mod, lemma_fundamental_div_mod_converse, lemma_mod_bound};

use crate::buffer::{lemma_pix_index_bound, Image, Rgb};
use crate::fixed::{fx_add_raw, fx_mul_raw, fx_sub_raw, iabs, sadd, sat64, sdivi, smul, ssub, tdiv, Fx};
use crate::linalg::{scross, smatmul, Mat4, Vec2, Vec3};
use crate::model::{stex_index, WModel};
use crate::shader::{DepthShader, GouphShader, Shader};

verus! {

/// Minimum of two integers.
pub open spec fn simin(a: int, b: int) -> int {
    if a < b {
        a
    } else {
        b
    }
}

/// Maximum of two integers.
pub open spec fn simax(a: int, b: int) -> int {
    if a > b {
        a
    } else {
        b
    }
}

/// The fixed-point value denoting integer `x` (saturating).
pub open spec fn sfx_int(x: int) -> Fx {
    Fx { raw: sat64(x * 65536) as i64 }
}

/// Floor of a fixed-point raw value, as an integer coordinate.
pub open spec fn sfloor_raw(r: int) -> int {
    r / 65536
}

/// Ceiling of a fixed-point raw value, as an integer coordinate.
pub open spec fn sceil_raw(r: int) -> int {
    -((-r) / 65536)
}

/// Minimum of three integers.
pub open spec fn smin3(a: int, b: int, c: int) -> int {
    simin(simin(a, b), c)
}

/// Maximum of three integers.
pub open spec fn smax3(a: int, b: int, c: int) -> int {
    simax(simax(a, b), c)
}

/// Left edge of the scan box: the first integer column at or right of the
/// leftmost screen point, clamped to the image.
pub open spec fn sxmin(p0: Vec3, p1: Vec3, p2: Vec3) -> int {
    simax(0, sceil_raw(smin3(p0.x.raw as int, p1.x.raw as int, p2.x.raw as int)))
}

/// Right edge (inclusive) of the scan box: the last integer column at or
/// left of the rightmost screen point, clamped to the image.
pub open spec fn sxmax(p0: Vec3, p1: Vec3, p2: Vec3, w: int) -> int {
    simin(w - 1, sfloor_raw(smax3(p0.x.raw as int, p1.x.raw as int, p2.x.raw as int)))
}

/// Bottom edge of the scan box, clamped to the image.
pub open spec fn symin(p0: Vec3, p1: Vec3, p2: Vec3) -> int {
    simax(0, sceil_raw(smin3(p0.y.raw as int, p1.y.raw as int, p2.y.raw as int)))
}

/// Top edge (inclusive) of the scan box, clamped to the image.
pub open spec fn symax(p0: Vec3, p1: Vec3, p2: Vec3, h: int) -> int {
    simin(h - 1, sfloor_raw(smax3(p0.y.raw as int, p1.y.raw as int, p2.y.raw as int)))
}

/// Whether integer pixel `(x, y)` lies in the bounding box of the three
/// screen points clamped to the image: every such pixel is scanned.
pub open spec fn in_scan(p0: Vec3, p1: Vec3, p2: Vec3, w: int, h: int, x: int, y: int) -> bool {
    &&& sxmin(p0, p1, p2) <= x <= sxmax(p0, p1, p2, w)
    &&& symin(p0, p1, p2) <= y <= symax(p0, p1, p2, h)
}

/// Barycentric coordinates of point `p` with respect to the triangle
/// `(p0, p1, p2)`, by the 2D cross-product formulation.  A triangle whose
/// doubled signed area is below one screen unit is degenerate and yields
/// `(-1, 1, 1)`, which fails the coverage test everywhere.
pub open spec fn sbary(p0: Vec3, p1: Vec3, p2: Vec3, px: Fx, py: Fx) -> Vec3 {
    let u = Vec3 { x: ssub(p2.x, p0.x), y: ssub(p1.x, p0.x), z: ssub(p0.x, px) };
    let v = Vec3 { x: ssub(p2.y, p0.y), y: ssub(p1.y, p0.y), z: ssub(p0.y, py) };
    let cr = scross(u, v);
    if iabs(cr.z.raw as int) < 65536 {
        Vec3 { x: Fx { raw: -65536i64 }, y: Fx { raw: 65536 }, z: Fx { raw: 65536 } }
    } else {
        Vec3 {
            x: ssub(Fx { raw: 65536 }, sdivi(sadd(cr.x, cr.y), cr.z)),
            y: sdivi(cr.y, cr.z),
            z: sdivi(cr.x, cr.z),
        }
    }
}

/// Barycentric coordinates at the center of integer pixel `(x, y)`.
pub open spec fn sbar_at(p0: Vec3, p1: Vec3, p2: Vec3, x: int, y: int) -> Vec3 {
    sbary(p0, p1, p2, sfx_int(x), sfx_int(y))
}

/// Whether pixel `(x, y)` is covered: no barycentric coordinate negative.
pub open spec fn scovered(p0: Vec3, p1: Vec3, p2: Vec3, x: int, y: int) -> bool {
    let b = sbar_at(p0, p1, p2, x, y);
    b.x.raw >= 0 && b.y.raw >= 0 && b.z.raw >= 0
}

/// The interpolated depth at pixel `(x, y)`.
pub open spec fn sdepth(p0: Vec3, p1: Vec3, p2: Vec3, x: int, y: int) -> Fx {
    let b = sbar_at(p0, p1, p2, x, y);
    sadd(sadd(smul(p0.z, b.x), smul(p1.z, b.y)), smul(p2.z, b.z))
}

/// Whether the rasterizer reaches pixel `(x, y)` at all: inside the scan
/// box and covered by the triangle.
pub open spec fn spix_hit(p0: Vec3, p1: Vec3, p2: Vec3, w: int, h: int, x: int, y: int) -> bool {
    in_scan(p0, p1, p2, w, h, x, y) && scovered(p0, p1, p2, x, y)
}

/// The interpolated texture coordinate of face `face` at barycentric
/// weights `b`.
pub open spec fn sface_uv_at(model: &WModel, face: int, b: Vec3) -> Vec2 {
    let t0 = model.tex_uv@[face]@[0];
    let t1 = model.tex_uv@[face]@[1];
    let t2 = model.tex_uv@[face]@[2];
    Vec2 {
        x: sadd(sadd(smul(t0.x, b.x), smul(t1.x, b.y)), smul(t2.x, b.z)),
        y: sadd(sadd(smul(t0.y, b.x), smul(t1.y, b.y)), smul(t2.y, b.z)),
    }
}

/// The diffuse-texture sample handed to the fragment stage.
pub open spec fn sbase_color(model: &WModel, face: int, b: Vec3) -> Rgb {
    let uv = sface_uv_at(model, face, b);
    model.texture.pixel_at(
        stex_index(uv.x, model.texture.width as int),
        stex_index(uv.y, model.texture.height as int),
    )
}

/// The depth buffer after rasterizing one triangle: every hit pixel whose
/// interpolated depth beats the stored depth takes the new depth; all
/// other cells are unchanged.
pub open spec fn stri_zb(p0: Vec3, p1: Vec3, p2: Vec3, zb: Seq<Fx>, w: int, h: int) -> Seq<Fx> {
    Seq::new(
        zb.len(),
        |i: int|
            {
                let x = i % w;
                let y = i / w;
                if spix_hit(p0, p1, p2, w, h, x, y) && sdepth(p0, p1, p2, x, y).raw > zb[i].raw {
                    sdepth(p0, p1, p2, x, y)
                } else {
                    zb[i]
                }
            },
    )
}

/// The image after rasterizing one triangle: every hit pixel that passes
/// the depth test takes the shader's fragment output on the sampled base
/// color (unless discarded); all other pixels are unchanged.
pub open spec fn stri_img<S: Shader>(
    shader: S,
    model: &WModel,
    face: int,
    p0: Vec3,
    p1: Vec3,
    p2: Vec3,
    img: Seq<Rgb>,
    zb: Seq<Fx>,
    w: int,
    h: int,
) -> Seq<Rgb> {
    Seq::new(
        img.len(),
        |i: int|
            {
                let x = i % w;
                let y = i / w;
                if spix_hit(p0, p1, p2, w, h, x, y) && sdepth(p0, p1, p2, x, y).raw > zb[i].raw {
                    let b = sbar_at(p0, p1, p2, x, y);
                    let base = sbase_color(model, face, b);
                    if shader.frag_discard(base, b) {
                        img[i]
                    } else {
                        shader.frag_color(base, b)
                    }
                } else {
                    img[i]
                }
            },
    )
}

/// Computes barycentric coordinates of `p` with respect to `pts`.
pub fn barycentric(pts: &[Vec3; 3], p: Vec2) -> (r: Vec3)
    ensures
        r == sbary(pts@[0], pts@[1], pts@[2], p.x, p.y),
{
    let u = Vec3 {
        x: pts[2].x.minus(pts[0].x),
        y: pts[1].x.minus(pts[0].x),
        z: pts[0].x.minus(p.x),
    };
    let v = Vec3 {
        x: pts[2].y.minus(pts[0].y),
        y: pts[1].y.minus(pts[0].y),
        z: pts[0].y.minus(p.y),
    };
    let cr = u.cross(v);
    if cr.z.raw > -65536 && cr.z.raw < 65536 {
        Vec3 { x: Fx { raw: -65536i64 }, y: Fx { raw: 65536 }, z: Fx { raw: 65536 } }
    } else {
        Vec3 {
            x: Fx { raw: 65536 }.minus(cr.x.plus(cr.y).divide(cr.z)),
            y: cr.y.divide(cr.z),
            z: cr.x.divide(cr.z),
        }
    }
}

/// Minimum of two machine integers.
fn imin64(a: i64, b: i64) -> (r: i64)
    ensures
        r as int == simin(a as int, b as int),
{
    if a < b {
        a
    } else {
        b
    }
}

/// Maximum of two machine integers.
fn imax64(a: i64, b: i64) -> (r: i64)
    ensures
        r as int == simax(a as int, b as int),
{
    if a > b {
        a
    } else {
        b
    }
}

/// Division identity behind the ceiling computation: for positive `a`,
/// the euclidean quotient of `-a` is the negated rounded-up quotient.
proof fn lemma_neg_div_65536(a: int)
    requires
        a > 0,
    ensures
        (-a) / 65536 == -((a + 65535) / 65536),
{
    let q = a / 65536;
    let r = a % 65536;
    lemma_fundamental_div_mod(a, 65536);
    lemma_mod_bound(a, 65536);
    if r == 0 {
        lemma_fundamental_div_mod_converse(-a, 65536, -q, 0);
        lemma_fundamental_div_mod_converse(a + 65535, 65536, q, 65535);
    } else {
        lemma_fundamental_div_mod_converse(-a, 65536, -q - 1, 65536 - r);
        lemma_fundamental_div_mod_converse(a + 65535, 65536, q + 1, r - 1);
    }
}

/// The integer ceiling of a fixed-point raw coordinate.
fn ceil_px(raw: i64) -> (r: i64)
    ensures
        r as int == sceil_raw(raw as int),
{
    if raw <= 0 {
        let m: u64 = (-(raw as i128)) as u64;
        -((m / 65536) as i64)
    } else {
        proof {
            lemma_neg_div_65536(raw as int);
        }
        (((raw as u64) + 65535) / 65536) as i64
    }
}

/// The integer floor of a fixed-point raw coordinate.
fn floor_px(raw: i64) -> (r: i64)
    ensures
        r as int == sfloor_raw(raw as int),
{
    if raw >= 0 {
        ((raw as u64) / 65536) as i64
    } else {
        proof {
            lemma_neg_div_65536(-(raw as int));
        }
        let m: u64 = (-(raw as i128)) as u64;
        -(((m + 65535) / 65536) as i64)
    }
}

/// Row-major decomposition facts for one pixel.
proof fn lemma_rowmajor(w: int, h: int, x: int, y: int)
    requires
        0 <= x < w,
        0 <= y < h,
    ensures
        0 <= x + y * w < w * h,
        (x + y * w) % w == x,
        (x + y * w) / w == y,
{
    lemma_pix_index_bound(w, h, x, y);
    lemma_fundamental_div_mod_converse(x + y * w, w, y, x);
}

/// Scan-converts one triangle with screen points `pts` into `image` and
/// `z_buffer`, invoking `shader`'s fragment stage on covered pixels that
/// pass the (strictly greater) depth test.  The contract gives the final
/// value of every cell of both buffers.
#[verifier::rlimit(100)]
pub fn triangle<S: Shader>(
    model: &WModel,
    face_index: usize,
    pts: &[Vec3; 3],
    image: &mut Image,
    z_buffer: &mut Vec<Fx>,
    shader: &mut S,
)
    requires
        model.wf(),
        face_index < model.face_num,
        old(image).wf(),
        old(z_buffer)@.len() == (old(image).width as int) * (old(image).height as int),
        old(shader).wf(),
    ensures
        final(image).wf(),
        final(image).width == old(image).width,
        final(image).height == old(image).height,
        *final(shader) == *old(shader),
        final(z_buffer)@ == stri_zb(
            pts@[0],
            pts@[1],
            pts@[2],
            old(z_buffer)@,
            old(image).width as int,
            old(image).height as int,
        ),
        final(image).pixels@ == stri_img(
            *old(shader),
            model,
            face_index as int,
            pts@[0],
            pts@[1],
            pts@[2],
            old(image).pixels@,
            old(z_buffer)@,
            old(image).width as int,
            old(image).height as int,
        ),
{
    let ghost p0 = pts@[0];
    let ghost p1 = pts@[1];
    let ghost p2 = pts@[2];
    let ghost w = old(image).width as int;
    let ghost h = old(image).height as int;
    let ghost tzb = stri_zb(p0, p1, p2, old(z_buffer)@, w, h);
    let ghost timg = stri_img(
        *old(shader),
        model,
        face_index as int,
        p0,
        p1,
        p2,
        old(image).pixels@,
        old(z_buffer)@,
        w,
        h,
    );

    let tex = model.get_face_uv(face_index);

    let width_i = image.width as i64;
    let height_i = image.height as i64;

    let mnx = imin64(imin64(pts[0].x.raw, pts[1].x.raw), pts[2].x.raw);
    let mxx = imax64(imax64(pts[0].x.raw, pts[1].x.raw), pts[2].x.raw);
    let mny = imin64(imin64(pts[0].y.raw, pts[1].y.raw), pts[2].y.raw);
    let mxy = imax64(imax64(pts[0].y.raw, pts[1].y.raw), pts[2].y.raw);

    let bxmin = imax64(0, ceil_px(mnx));
    let bxmax = imin64(width_i - 1, floor_px(mxx));
    let bymin = imax64(0, ceil_px(mny));
    let bymax = imin64(height_i - 1, floor_px(mxy));

    proof {
        assert(bxmin as int == sxmin(p0, p1, p2));
        assert(bxmax as int == sxmax(p0, p1, p2, w));
        assert(bymin as int == symin(p0, p1, p2));
        assert(bymax as int == symax(p0, p1, p2, h));
    }

    let mut x: i64 = bxmin;
    while x <= bxmax
        invariant
            model.wf(),
            face_index < model.face_num,
            image.wf(),
            image.width == old(image).width,
            image.height == old(image).height,
            w == old(image).width as int,
            h == old(image).height as int,
            z_buffer@.len() == old(z_buffer)@.len(),
            old(z_buffer)@.len() == w * h,
            old(image).pixels@.len() == w * h,
            *shader == *old(shader),
            shader.wf(),
            p0 == pts@[0] && p1 == pts@[1] && p2 == pts@[2],
            tex == model.tex_uv@[face_index as int],
            tzb == stri_zb(p0, p1, p2, old(z_buffer)@, w, h),
            timg == stri_img(
                *old(shader),
                model,
                face_index as int,
                p0,
                p1,
                p2,
                old(image).pixels@,
                old(z_buffer)@,
                w,
                h,
            ),
            bxmin as int == sxmin(p0, p1, p2),
            bxmax as int == sxmax(p0, p1, p2, w),
            bymin as int == symin(p0, p1, p2),
            bymax as int == symax(p0, p1, p2, h),
            0 <= bxmin as int,
            bxmax as int <= w - 1,
            0 <= bymin as int,
            bymax as int <= h - 1,
            bxmin as int <= x as int,
            x as int <= simax(bxmin as int, bxmax as int + 1),
            forall|i: int|
                0 <= i < w * h ==> #[trigger] z_buffer@[i] == (if (bxmin as int <= i % w < x as int
                    && bymin as int <= i / w <= bymax as int) {
                    tzb[i]
                } else {
                    old(z_buffer)@[i]
                }),
            forall|i: int|
                0 <= i < w * h ==> #[trigger] image.pixels@[i] == (if (bxmin as int <= i % w
                    < x as int && bymin as int <= i / w <= bymax as int) {
                    timg[i]
                } else {
                    old(image).pixels@[i]
                }),
        decreases 1 + bxmax - x,
    {
        let mut y: i64 = bymin;
        while y <= bymax
            invariant
                model.wf(),
                face_index < model.face_num,
                image.wf(),
                image.width == old(image).width,
                image.height == old(image).height,
                w == old(image).width as int,
                h == old(image).height as int,
                z_buffer@.len() == old(z_buffer)@.len(),
                old(z_buffer)@.len() == w * h,
                old(image).pixels@.len() == w * h,
                *shader == *old(shader),
                shader.wf(),
                p0 == pts@[0] && p1 == pts@[1] && p2 == pts@[2],
                tex == model.tex_uv@[face_index as int],
                tzb == stri_zb(p0, p1, p2, old(z_buffer)@, w, h),
                timg == stri_img(
                    *old(shader),
                    model,
                    face_index as int,
                    p0,
                    p1,
                    p2,
                    old(image).pixels@,
                    old(z_buffer)@,
                    w,
                    h,
                ),
                bxmin as int == sxmin(p0, p1, p2),
                bxmax as int == sxmax(p0, p1, p2, w),
                bymin as int == symin(p0, p1, p2),
                bymax as int == symax(p0, p1, p2, h),
                0 <= bxmin as int,
                bxmax as int <= w - 1,
                0 <= bymin as int,
                bymax as int <= h - 1,
                bxmin as int <= x as int,
                (x as int) <= bxmax as int,
                bymin as int <= y as int,
                y as int <= simax(bymin as int, bymax as int + 1),
                forall|i: int|
                    0 <= i < w * h ==> #[trigger] z_buffer@[i] == (if (bxmin as int <= i % w
                        < x as int && bymin as int <= i / w <= bymax as int) || (i % w == x as int
                        && bymin as int <= i / w < y as int) {
                        tzb[i]
                    } else {
                        old(z_buffer)@[i]
                    }),
                forall|i: int|
                    0 <= i < w * h ==> #[trigger] image.pixels@[i] == (if (bxmin as int <= i % w
                        < x as int && bymin as int <= i / w <= bymax as int) || (i % w == x as int
                        && bymin as int <= i / w < y as int) {
                        timg[i]
                    } else {
                        old(image).pixels@[i]
                    }),
            decreases 1 + bymax - y,
        {
            proof {
                lemma_rowmajor(w, h, x as int, y as int);
            }
            let ghost i0: int = x as int + (y as int) * w;
            let ghost zb_head = z_buffer@;
            let ghost img_head = image.pixels@;
            let pxf = Fx::from_int(x);
            let pyf = Fx::from_int(y);
            proof {
                assert(pxf == sfx_int(x as int));
                assert(pyf == sfx_int(y as int));
            }
            let bc = barycentric(pts, Vec2 { x: pxf, y: pyf });
            proof {
                assert(bc == sbar_at(p0, p1, p2, x as int, y as int));
                assert(in_scan(p0, p1, p2, w, h, x as int, y as int));
            }
            if bc.x.raw < 0 || bc.y.raw < 0 || bc.z.raw < 0 {
                proof {
                    assert(!scovered(p0, p1, p2, x as int, y as int));
                    assert(tzb[i0] == old(z_buffer)@[i0]);
                    assert(timg[i0] == old(image).pixels@[i0]);
                    assert forall|i: int| 0 <= i < w * h implies #[trigger] z_buffer@[i] == (if (
                    bxmin as int <= i % w < x as int && bymin as int <= i / w <= bymax as int) || (i
                        % w == x as int && bymin as int <= i / w < y as int + 1) {
                        tzb[i]
                    } else {
                        old(z_buffer)@[i]
                    }) by {
                        if i == i0 {
                            assert(z_buffer@[i] == old(z_buffer)@[i]);
                        } else {
                            lemma_fundamental_div_mod(i, w);
                            assert(w * (i / w) == (i / w) * w) by (nonlinear_arith);
                            assert(!(i % w == x as int && i / w == y as int));
                        }
                    }
                    assert forall|i: int| 0 <= i < w * h implies #[trigger] image.pixels@[i] == (
                    if (bxmin as int <= i % w < x as int && bymin as int <= i / w <= bymax as int)
                        || (i % w == x as int && bymin as int <= i / w < y as int + 1) {
                        timg[i]
                    } else {
                        old(image).pixels@[i]
                    }) by {
                        if i == i0 {
                            assert(image.pixels@[i] == old(image).pixels@[i]);
                        } else {
                            lemma_fundamental_div_mod(i, w);
                            assert(w * (i / w) == (i / w) * w) by (nonlinear_arith);
                            assert(!(i % w == x as int && i / w == y as int));
                        }
                    }
                }
            } else {
                let z = pts[0].z.times(bc.x).plus(pts[1].z.times(bc.y)).plus(
                    pts[2].z.times(bc.z),
                );
                proof {
                    assert(z == sdepth(p0, p1, p2, x as int, y as int));
                    assert(scovered(p0, p1, p2, x as int, y as int));
                }
                let idx: usize = (x as usize) + (y as usize) * (image.width as usize);
                proof {
                    assert(idx as int == i0);
                    assert(z_buffer@[i0] == old(z_buffer)@[i0]);
                }
                if z_buffer[idx].raw < z.raw {
                    z_buffer[idx] = z;
                    proof {
                        assert(z_buffer@ == zb_head.update(i0, z));
                        assert(tzb[i0] == z);
                    }
                    let uv = Vec2 {
                        x: tex[0].x.times(bc.x).plus(tex[1].x.times(bc.y)).plus(
                            tex[2].x.times(bc.z),
                        ),
                        y: tex[0].y.times(bc.x).plus(tex[1].y.times(bc.y)).plus(
                            tex[2].y.times(bc.z),
                        ),
                    };
                    proof {
                        assert(uv == sface_uv_at(model, face_index as int, bc));
                    }
                    let mut color = model.sample_diffuse(uv);
                    let ghost base = color;
                    proof {
                        assert(base == sbase_color(model, face_index as int, bc));
                    }
                    let discard = shader.fragment(&mut color, bc);
                    proof {
                        assert(discard == old(shader).frag_discard(base, bc));
                        assert(color == old(shader).frag_color(base, bc));
                    }
                    if !discard {
                        image.put_pixel(x as u32, y as u32, color);
                        proof {
                            assert(image.pixels@ == img_head.update(i0, color));
                            assert(timg[i0] == color);
                        }
                    } else {
                        proof {
                            assert(image.pixels@ == img_head);
                            assert(timg[i0] == old(image).pixels@[i0]);
                        }
                    }
                    proof {
                        assert forall|i: int| 0 <= i < w * h implies #[trigger] z_buffer@[i] == (
                        if (bxmin as int <= i % w < x as int && bymin as int <= i / w
                            <= bymax as int) || (i % w == x as int && bymin as int <= i / w
                            < y as int + 1) {
                            tzb[i]
                        } else {
                            old(z_buffer)@[i]
                        }) by {
                            if i == i0 {
                                assert(z_buffer@[i] == z);
                            } else {
                                lemma_fundamental_div_mod(i, w);
                                assert(w * (i / w) == (i / w) * w) by (nonlinear_arith);
                                assert(!(i % w == x as int && i / w == y as int));
                                assert(z_buffer@[i] == zb_head[i]);
                            }
                        }
                        assert forall|i: int| 0 <= i < w * h implies #[trigger] image.pixels@[i]
                            == (if (bxmin as int <= i % w < x as int && bymin as int <= i / w
                            <= bymax as int) || (i % w == x as int && bymin as int <= i / w
                            < y as int + 1) {
                            timg[i]
                        } else {
                            old(image).pixels@[i]
                        }) by {
                            if i == i0 {
                                assert(image.pixels@[i] == timg[i]);
                            } else {
                                lemma_fundamental_div_mod(i, w);
                                assert(w * (i / w) == (i / w) * w) by (nonlinear_arith);
                                assert(!(i % w == x as int && i / w == y as int));
                                assert(image.pixels@[i] == img_head[i]);
                            }
                        }
                    }
                } else {
                    proof {
                        assert(tzb[i0] == old(z_buffer)@[i0]);
                        assert(timg[i0] == old(image).pixels@[i0]);
                        assert forall|i: int| 0 <= i < w * h implies #[trigger] z_buffer@[i] == (
                        if (bxmin as int <= i % w < x as int && bymin as int <= i / w
                            <= bymax as int) || (i % w == x as int && bymin as int <= i / w
                            < y as int + 1) {
                            tzb[i]
                        } else {
                            old(z_buffer)@[i]
                        }) by {
                            if i == i0 {
                                assert(z_buffer@[i] == old(z_buffer)@[i]);
                            } else {
                                lemma_fundamental_div_mod(i, w);
                                assert(w * (i / w) == (i / w) * w) by (nonlinear_arith);
                                assert(!(i % w == x as int && i / w == y as int));
                            }
                        }
                        assert forall|i: int| 0 <= i < w * h implies #[trigger] image.pixels@[i]
                            == (if (bxmin as int <= i % w < x as int && bymin as int <= i / w
                            <= bymax as int) || (i % w == x as int && bymin as int <= i / w
                            < y as int + 1) {
                            timg[i]
                        } else {
                            old(image).pixels@[i]
                        }) by {
                            if i == i0 {
                                assert(image.pixels@[i] == old(image).pixels@[i]);
                            } else {
                                lemma_fundamental_div_mod(i, w);
                                assert(w * (i / w) == (i / w) * w) by (nonlinear_arith);
                                assert(!(i % w == x as int && i / w == y as int));
                            }
                        }
                    }
                }
            }
            y = y + 1;
        }
        proof {
            assert forall|i: int| 0 <= i < w * h implies #[trigger] z_buffer@[i] == (if (
            bxmin as int <= i % w < x as int + 1 && bymin as int <= i / w <= bymax as int) {
                tzb[i]
            } else {
                old(z_buffer)@[i]
            }) by {
                lemma_fundamental_div_mod(i, w);
            }
            assert forall|i: int| 0 <= i < w * h implies #[trigger] image.pixels@[i] == (if (
            bxmin as int <= i % w < x as int + 1 && bymin as int <= i / w <= bymax as int) {
                timg[i]
            } else {
                old(image).pixels@[i]
            }) by {
                lemma_fundamental_div_mod(i, w);
            }
        }
        x = x + 1;
    }
    proof {
        assert forall|i: int| 0 <= i < w * h implies #[trigger] z_buffer@[i] == tzb[i] by {
            lemma_fundamental_div_mod(i, w);
            if !(bxmin as int <= i % w < x as int && bymin as int <= i / w <= bymax as int) {
                assert(!spix_hit(p0, p1, p2, w, h, i % w, i / w) || !(bxmin as int <= i % w
                    <= bxmax as int && bymin as int <= i / w <= bymax as int));
            }
        }
        assert forall|i: int| 0 <= i < w * h implies #[trigger] image.pixels@[i] == timg[i] by {
            lemma_fundamental_div_mod(i, w);
        }
        assert(z_buffer@ =~= tzb);
        assert(image.pixels@ =~= timg);
    }
}

/// Immutable render configuration: camera position, focal scale (the
/// cotangent of half the vertical field of view), and aspect ratio.
#[derive(Clone, Copy, PartialEq, Eq, Structural, Debug)]
pub struct RenderConfig {
    /// Camera position for the main pass.
    pub camera: Vec3,
    /// Focal scale handed to the projection matrix.
    pub focal: Fx,
    /// Width/height ratio handed to the projection matrix.
    pub aspect: Fx,
}

/// What a render returns besides the color image: the shadow-pass image
/// and the main-pass depth buffer.
pub struct RenderResult {
    /// The color output of the shadow pass (kept only for inspection).
    pub shadow_image: Image,
    /// The main-pass depth buffer.
    pub z_buffer: Vec<Fx>,
}

/// The world origin.
pub open spec fn sorigin() -> Vec3 {
    Vec3 { x: Fx { raw: 0 }, y: Fx { raw: 0 }, z: Fx { raw: 0 } }
}

/// The world up direction.
pub open spec fn sup() -> Vec3 {
    Vec3 { x: Fx { raw: 0 }, y: Fx { raw: 65536 }, z: Fx { raw: 0 } }
}

/// The viewport used by both passes: a box at `(w/8, h/8)` of size
/// `(3w/4, 3h/4)`.
pub open spec fn sviewport_std(w: int, h: int) -> Mat4 {
    crate::geometry::sviewport(
        sdivi(sfx_int(w), sfx_int(8)),
        sdivi(sfx_int(h), sfx_int(8)),
        sdivi(smul(sfx_int(w), sfx_int(3)), sfx_int(4)),
        sdivi(smul(sfx_int(h), sfx_int(3)), sfx_int(4)),
    )
}

/// The shadow-pass transform: viewport times identity projection times a
/// look-at from the light direction toward the origin.
pub open spec fn slight_conv(model: &WModel, w: int, h: int) -> Mat4 {
    smatmul(
        smatmul(sviewport_std(w, h), Mat4::spec_identity()),
        crate::geometry::slookat(model.light, sorigin(), sup()),
    )
}

/// The main-pass transform: viewport times perspective projection times a
/// look-at from the camera toward the origin.
pub open spec fn scam_conv(c: RenderConfig, w: int, h: int) -> Mat4 {
    smatmul(
        smatmul(sviewport_std(w, h), crate::geometry::sprojection(c.focal, c.aspect, sfx_int(-1))),
        crate::geometry::slookat(c.camera, sorigin(), sup()),
    )
}

/// An all-black image, as a pixel sequence.
pub open spec fn sinit_img(w: int, h: int) -> Seq<Rgb> {
    Seq::new((w * h) as nat, |i: int| Rgb { r: 0, g: 0, b: 0 })
}

/// A fresh depth buffer: every cell at the minimum raw value.
pub open spec fn sinit_zb(w: int, h: int) -> Seq<Fx> {
    Seq::new((w * h) as nat, |i: int| Fx { raw: i64::MIN })
}

/// One render pass folded over faces `0 .. n`: for each face, three
/// vertex-stage calls (slots 0, 1, 2, threading the shader state) followed
/// by rasterization of the triangle they return.
pub open spec fn srender_pass<S: Shader>(
    model: &WModel,
    s: S,
    n: int,
    img: Seq<Rgb>,
    zb: Seq<Fx>,
    w: int,
    h: int,
) -> (S, Seq<Rgb>, Seq<Fx>)
    decreases n,
{
    if n <= 0 {
        (s, img, zb)
    } else {
        let prev = srender_pass(model, s, n - 1, img, zb, w, h);
        let s0 = prev.0;
        let p0 = s0.vertex_out(n - 1, 0);
        let s1 = s0.vertex_post(n - 1, 0);
        let p1 = s1.vertex_out(n - 1, 1);
        let s2 = s1.vertex_post(n - 1, 1);
        let p2 = s2.vertex_out(n - 1, 2);
        let s3 = s2.vertex_post(n - 1, 2);
        (
            s3,
            stri_img(s3, model, n - 1, p0, p1, p2, prev.1, prev.2, w, h),
            stri_zb(p0, p1, p2, prev.2, w, h),
        )
    }
}

/// The whole shadow pass: a depth shader over the light transform, run on
/// every face against black color and minimum depth.
pub open spec fn sshadow_pass<'a>(model: &'a WModel, w: int, h: int) -> (
    DepthShader<'a>,
    Seq<Rgb>,
    Seq<Fx>,
) {
    let s0 = DepthShader {
        coord_conv: slight_conv(model, w, h),
        model: model,
        varying_tri: crate::shader::pos_identity(),
    };
    srender_pass(model, s0, model.face_num as int, sinit_img(w, h), sinit_zb(w, h), w, h)
}


/// The exact initial state of the main-pass shader: zeroed varyings, the
/// camera transform, the inverse-transpose normal transform, the
/// main-screen-to-light-screen shadow transform, and the shadow pass's
/// depth buffer.
pub open spec fn is_main_shader_init(
    g0: GouphShader,
    model: &WModel,
    config: RenderConfig,
    w: int,
    h: int,
) -> bool {
    &&& g0.model == model
    &&& g0.varyng_uv == crate::shader::uv_zero()
    &&& g0.varyng_tri == crate::shader::pos_zero()
    &&& g0.coord_conv == scam_conv(config, w, h)
    &&& g0.trans_nm == crate::linalg::sinverse(
        crate::linalg::stranspose(crate::geometry::slookat(config.camera, sorigin(), sup())),
    )
    &&& g0.trans_shadow == smatmul(
        slight_conv(model, w, h),
        crate::linalg::sinverse(scam_conv(config, w, h)),
    )
    &&& g0.trans_light == crate::geometry::slookat(config.camera, sorigin(), sup())
    &&& g0.shadow_buf@ == sshadow_pass(model, w, h).2
    &&& g0.shadow_w as int == w
    &&& g0.shadow_h as int == h
}

/// Renders the model into `image` with the two-pass algorithm: first a
/// depth pre-pass from the light direction into a shadow buffer, then the
/// lit main pass from the camera, whose shader samples that buffer for
/// shadow tests.  Returns the shadow-pass image and the main-pass depth
/// buffer; both passes are pinned down exactly by `srender_pass`.
#[verifier::rlimit(100)]
pub fn render_obj(model: &WModel, image: &mut Image, config: &RenderConfig) -> (out: RenderResult)
    requires
        model.wf(),
        old(image).wf(),
        old(image).width >= 1,
        old(image).height >= 1,
        crate::linalg::sdet4(
            crate::linalg::stranspose(
                crate::geometry::slookat(config.camera, sorigin(), sup()),
            ),
        ).raw != 0,
        crate::linalg::sdet4(
            scam_conv(*config, old(image).width as int, old(image).height as int),
        ).raw != 0,
    ensures
        final(image).wf(),
        final(image).width == old(image).width,
        final(image).height == old(image).height,
        out.shadow_image.wf(),
        out.shadow_image.width == old(image).width,
        out.shadow_image.height == old(image).height,
        out.shadow_image.pixels@ == sshadow_pass(
            model,
            old(image).width as int,
            old(image).height as int,
        ).1,
        out.z_buffer@.len() == (old(image).width as int) * (old(image).height as int),
        exists|g0: GouphShader|
            #[trigger] is_main_shader_init(
                g0,
                model,
                *config,
                old(image).width as int,
                old(image).height as int,
            ) && final(image).pixels@ == srender_pass(
                model,
                g0,
                model.face_num as int,
                old(image).pixels@,
                sinit_zb(old(image).width as int, old(image).height as int),
                old(image).width as int,
                old(image).height as int,
            ).1 && out.z_buffer@ == srender_pass(
                model,
                g0,
                model.face_num as int,
                old(image).pixels@,
                sinit_zb(old(image).width as int, old(image).height as int),
                old(image).width as int,
                old(image).height as int,
            ).2,
{
    let w = image.width;
    let h = image.height;
    let ghost wi = w as int;
    let ghost hi = h as int;

    let projection = Mat4::identity();
    let viewport = crate::geometry::get_viewport(
        Fx::from_int(w as i64).divide(Fx::from_int(8)),
        Fx::from_int(h as i64).divide(Fx::from_int(8)),
        Fx::from_int(w as i64).times(Fx::from_int(3)).divide(Fx::from_int(4)),
        Fx::from_int(h as i64).times(Fx::from_int(3)).divide(Fx::from_int(4)),
    );
    let origin = Vec3 { x: Fx { raw: 0 }, y: Fx { raw: 0 }, z: Fx { raw: 0 } };
    let up = Vec3 { x: Fx { raw: 0 }, y: Fx { raw: 65536 }, z: Fx { raw: 0 } };
    let lookat_light = crate::geometry::get_lookat(model.light, origin, up);
    let cor_conv = viewport.mul_mat(projection).mul_mat(lookat_light);
    proof {
        assert(viewport == sviewport_std(wi, hi));
        assert(cor_conv == slight_conv(model, wi, hi));
    }

    let total: usize = (w as usize) * (h as usize);
    let mut shadow_buf = crate::buffer::fx_buffer(total, Fx { raw: i64::MIN });
    let mut shadow_img = crate::buffer::init_image(w, h);
    proof {
        assert(shadow_buf@ =~= sinit_zb(wi, hi));
        assert(shadow_img.pixels@ =~= sinit_img(wi, hi));
    }
    let mut dshader = crate::shader::DepthShader::new(cor_conv, model);
    let ghost d0 = dshader;
    proof {
        assert(d0 == (DepthShader {
            coord_conv: slight_conv(model, wi, hi),
            model: model,
            varying_tri: crate::shader::pos_identity(),
        }));
        assert(srender_pass(model, d0, 0, sinit_img(wi, hi), sinit_zb(wi, hi), wi, hi) == (
        d0,
        sinit_img(wi, hi),
        sinit_zb(wi, hi),
        ));
    }
    let mut i: usize = 0;
    while i < model.face_num
        invariant
            model.wf(),
            i <= model.face_num,
            wi == w as int,
            hi == h as int,
            w >= 1,
            h >= 1,
            shadow_img.wf(),
            shadow_img.width == w,
            shadow_img.height == h,
            shadow_buf@.len() == wi * hi,
            dshader.wf(),
            dshader.face_count() == model.face_num as int,
            d0.coord_conv == slight_conv(model, wi, hi),
            d0.model == model,
            d0.varying_tri == crate::shader::pos_identity(),
            dshader == srender_pass(
                model,
                d0,
                i as int,
                sinit_img(wi, hi),
                sinit_zb(wi, hi),
                wi,
                hi,
            ).0,
            shadow_img.pixels@ == srender_pass(
                model,
                d0,
                i as int,
                sinit_img(wi, hi),
                sinit_zb(wi, hi),
                wi,
                hi,
            ).1,
            shadow_buf@ == srender_pass(
                model,
                d0,
                i as int,
                sinit_img(wi, hi),
                sinit_zb(wi, hi),
                wi,
                hi,
            ).2,
        decreases model.face_num - i,
    {
        let p0 = dshader.vertex(i, 0);
        let p1 = dshader.vertex(i, 1);
        let p2 = dshader.vertex(i, 2);
        let pts: [Vec3; 3] = [p0, p1, p2];
        triangle(model, i, &pts, &mut shadow_img, &mut shadow_buf, &mut dshader);
        proof {
            let post = srender_pass(
                model,
                d0,
                i as int + 1,
                sinit_img(wi, hi),
                sinit_zb(wi, hi),
                wi,
                hi,
            );
            assert(post.0 == dshader);
            assert(post.1 == shadow_img.pixels@);
            assert(post.2 == shadow_buf@);
        }
        i = i + 1;
    }

    let m = cor_conv;
    let projection2 = crate::geometry::get_projection(
        config.focal,
        config.aspect,
        Fx::from_int(-1),
    );
    let lookat_cam = crate::geometry::get_lookat(config.camera, origin, up);
    let cor_conv2 = viewport.mul_mat(projection2).mul_mat(lookat_cam);
    proof {
        assert(lookat_cam == crate::geometry::slookat(config.camera, sorigin(), sup()));
        assert(cor_conv2 == scam_conv(*config, wi, hi));
    }

    let mut z_buffer = crate::buffer::fx_buffer(total, Fx { raw: i64::MIN });
    proof {
        assert(z_buffer@ =~= sinit_zb(wi, hi));
    }
    let trans_nm = lookat_cam.transpose().try_inverse().unwrap();
    let trans_shadow = m.mul_mat(cor_conv2.try_inverse().unwrap());
    let mut gshader = crate::shader::GouphShader::new(
        cor_conv2,
        model,
        trans_nm,
        trans_shadow,
        lookat_cam,
        shadow_buf,
        w,
        h,
    );
    let ghost g0 = gshader;
    proof {
        assert(srender_pass(model, g0, 0, old(image).pixels@, sinit_zb(wi, hi), wi, hi) == (
        g0,
        old(image).pixels@,
        sinit_zb(wi, hi),
        ));
    }
    let mut i: usize = 0;
    while i < model.face_num
        invariant
            model.wf(),
            i <= model.face_num,
            wi == w as int,
            hi == h as int,
            w >= 1,
            h >= 1,
            image.wf(),
            image.width == w,
            image.height == h,
            w == old(image).width,
            h == old(image).height,
            old(image).pixels@.len() == wi * hi,
            z_buffer@.len() == wi * hi,
            gshader.wf(),
            gshader.face_count() == model.face_num as int,
            gshader == srender_pass(
                model,
                g0,
                i as int,
                old(image).pixels@,
                sinit_zb(wi, hi),
                wi,
                hi,
            ).0,
            image.pixels@ == srender_pass(
                model,
                g0,
                i as int,
                old(image).pixels@,
                sinit_zb(wi, hi),
                wi,
                hi,
            ).1,
            z_buffer@ == srender_pass(
                model,
                g0,
                i as int,
                old(image).pixels@,
                sinit_zb(wi, hi),
                wi,
                hi,
            ).2,
        decreases model.face_num - i,
    {
        let p0 = gshader.vertex(i, 0);
        let p1 = gshader.vertex(i, 1);
        let p2 = gshader.vertex(i, 2);
        let pts: [Vec3; 3] = [p0, p1, p2];
        triangle(model, i, &pts, image, &mut z_buffer, &mut gshader);
        proof {
            let post = srender_pass(
                model,
                g0,
                i as int + 1,
                old(image).pixels@,
                sinit_zb(wi, hi),
                wi,
                hi,
            );
            assert(post.0 == gshader);
            assert(post.1 == image.pixels@);
            assert(post.2 == z_buffer@);
        }
        i = i + 1;
    }

    let out = RenderResult { shadow_image: shadow_img, z_buffer };
    proof {
        assert(d0 == (DepthShader {
            coord_conv: slight_conv(model, wi, hi),
            model: model,
            varying_tri: crate::shader::pos_identity(),
        }));
        assert(out.shadow_image.pixels@ == sshadow_pass(model, wi, hi).1);
        assert(is_main_shader_init(g0, model, *config, wi, hi));
        assert(image.pixels@ == srender_pass(
            model,
            g0,
            model.face_num as int,
            old(image).pixels@,
            sinit_zb(wi, hi),
            wi,
            hi,
        ).1);
        assert(out.z_buffer@ == srender_pass(
            model,
            g0,
            model.face_num as int,
            old(image).pixels@,
            sinit_zb(wi, hi),
            wi,
            hi,
        ).2);
    }
    out
}

/// Twice the triangle's signed screen area (the z component of the edge
/// cross product); it does not depend on the probed pixel.
pub open spec fn sdoubled_area(p0: Vec3, p1: Vec3, p2: Vec3) -> Fx {
    ssub(
        smul(ssub(p2.x, p0.x), ssub(p1.y, p0.y)),
        smul(ssub(p1.x, p0.x), ssub(p2.y, p0.y)),
    )
}

/// A triangle that lies fully outside the image writes no pixel: if all
/// three screen points lie left of column 0, at or beyond column `w`,
/// below row 0, or at or beyond row `h`, the clamped scan box is empty,
/// so rasterizing it leaves both the depth buffer and the image exactly
/// unchanged.
pub proof fn lemma_offscreen_triangle_draws_nothing<S: Shader>(
    shader: S,
    model: &WModel,
    face: int,
    p0: Vec3,
    p1: Vec3,
    p2: Vec3,
    img: Seq<Rgb>,
    zb: Seq<Fx>,
    w: int,
    h: int,
)
    requires
        (p0.x.raw < 0 && p1.x.raw < 0 && p2.x.raw < 0) || (p0.x.raw >= w * 65536 && p1.x.raw >= w
            * 65536 && p2.x.raw >= w * 65536) || (p0.y.raw < 0 && p1.y.raw < 0 && p2.y.raw < 0) || (
        p0.y.raw >= h * 65536 && p1.y.raw >= h * 65536 && p2.y.raw >= h * 65536),
    ensures
        stri_zb(p0, p1, p2, zb, w, h) == zb,
        stri_img(shader, model, face, p0, p1, p2, img, zb, w, h) == img,
{
    if p0.x.raw < 0 && p1.x.raw < 0 && p2.x.raw < 0 {
        assert(sxmax(p0, p1, p2, w) < sxmin(p0, p1, p2));
    } else if p0.x.raw >= w * 65536 && p1.x.raw >= w * 65536 && p2.x.raw >= w * 65536 {
        let mn = smin3(p0.x.raw as int, p1.x.raw as int, p2.x.raw as int);
        assert((-mn) / 65536 <= -w);
        assert(sxmax(p0, p1, p2, w) < sxmin(p0, p1, p2));
    } else if p0.y.raw < 0 && p1.y.raw < 0 && p2.y.raw < 0 {
        assert(symax(p0, p1, p2, h) < symin(p0, p1, p2));
    } else {
        let mn = smin3(p0.y.raw as int, p1.y.raw as int, p2.y.raw as int);
        assert((-mn) / 65536 <= -h);
        assert(symax(p0, p1, p2, h) < symin(p0, p1, p2));
    }
    assert forall|x: int, y: int| !in_scan(p0, p1, p2, w, h, x, y) by {}
    assert forall|i: int| 0 <= i < zb.len() implies #[trigger] stri_zb(p0, p1, p2, zb, w, h)[i]
        == zb[i] by {
        assert(!in_scan(p0, p1, p2, w, h, i % w, i / w));
    }
    assert(stri_zb(p0, p1, p2, zb, w, h) =~= zb);
    assert forall|i: int| 0 <= i < img.len() implies #[trigger] stri_img(
        shader,
        model,
        face,
        p0,
        p1,
        p2,
        img,
        zb,
        w,
        h,
    )[i] == img[i] by {
        assert(!in_scan(p0, p1, p2, w, h, i % w, i / w));
    }
    assert(stri_img(shader, model, face, p0, p1, p2, img, zb, w, h) =~= img);
}

/// A degenerate triangle writes no pixel: if its doubled signed area is
/// below one screen unit (collinear or near-collinear vertices), the
/// barycentric test yields `(-1, 1, 1)` at every pixel, so rasterizing it
/// leaves both the depth buffer and the image exactly unchanged.
pub proof fn lemma_degenerate_triangle_draws_nothing<S: Shader>(
    shader: S,
    model: &WModel,
    face: int,
    p0: Vec3,
    p1: Vec3,
    p2: Vec3,
    img: Seq<Rgb>,
    zb: Seq<Fx>,
    w: int,
    h: int,
)
    requires
        iabs(sdoubled_area(p0, p1, p2).raw as int) < 65536,
    ensures
        stri_zb(p0, p1, p2, zb, w, h) == zb,
        stri_img(shader, model, face, p0, p1, p2, img, zb, w, h) == img,
{
    assert forall|x: int, y: int| !scovered(p0, p1, p2, x, y) by {
        let b = sbar_at(p0, p1, p2, x, y);
        assert(b.x.raw == -65536i64);
    }
    assert forall|i: int| 0 <= i < zb.len() implies #[trigger] stri_zb(p0, p1, p2, zb, w, h)[i]
        == zb[i] by {
        assert(!scovered(p0, p1, p2, i % w, i / w));
    }
    assert(stri_zb(p0, p1, p2, zb, w, h) =~= zb);
    assert forall|i: int| 0 <= i < img.len() implies #[trigger] stri_img(
        shader,
        model,
        face,
        p0,
        p1,
        p2,
        img,
        zb,
        w,
        h,
    )[i] == img[i] by {
        assert(!scovered(p0, p1, p2, i % w, i / w));
    }
    assert(stri_img(shader, model, face, p0, p1, p2, img, zb, w, h) =~= img);
}

/// The z-buffer makes draw order irrelevant: for a pixel reached by two
/// triangles whose interpolated depths differ, and whose fragments are
/// not discarded there (neither shader in this crate ever discards),
/// drawing them in either order leaves that pixel with the same final
/// depth and the same final color (those of the greater depth, if it
/// beats the stored one).  A discarded fragment would still claim the
/// depth buffer, so its color outcome genuinely depends on draw order.
pub proof fn lemma_depth_test_commutes<S: Shader>(
    sa: S,
    sb: S,
    model: &WModel,
    face_a: int,
    face_b: int,
    a0: Vec3,
    a1: Vec3,
    a2: Vec3,
    b0: Vec3,
    b1: Vec3,
    b2: Vec3,
    img: Seq<Rgb>,
    zb: Seq<Fx>,
    w: int,
    h: int,
    x: int,
    y: int,
)
    requires
        0 <= x < w,
        0 <= y < h,
        zb.len() == w * h,
        img.len() == w * h,
        sdepth(a0, a1, a2, x, y).raw != sdepth(b0, b1, b2, x, y).raw,
        !sa.frag_discard(
            sbase_color(model, face_a, sbar_at(a0, a1, a2, x, y)),
            sbar_at(a0, a1, a2, x, y),
        ),
        !sb.frag_discard(
            sbase_color(model, face_b, sbar_at(b0, b1, b2, x, y)),
            sbar_at(b0, b1, b2, x, y),
        ),
    ensures
        ({
            let i = x + y * w;
            let zb_ab = stri_zb(b0, b1, b2, stri_zb(a0, a1, a2, zb, w, h), w, h);
            let zb_ba = stri_zb(a0, a1, a2, stri_zb(b0, b1, b2, zb, w, h), w, h);
            let img_ab = stri_img(
                sb,
                model,
                face_b,
                b0,
                b1,
                b2,
                stri_img(sa, model, face_a, a0, a1, a2, img, zb, w, h),
                stri_zb(a0, a1, a2, zb, w, h),
                w,
                h,
            );
            let img_ba = stri_img(
                sa,
                model,
                face_a,
                a0,
                a1,
                a2,
                stri_img(sb, model, face_b, b0, b1, b2, img, zb, w, h),
                stri_zb(b0, b1, b2, zb, w, h),
                w,
                h,
            );
            zb_ab[i] == zb_ba[i] && img_ab[i] == img_ba[i]
        }),
{
    lemma_rowmajor(w, h, x, y);
    let i = x + y * w;
    assert(i % w == x && i / w == y);
    let zb_a = stri_zb(a0, a1, a2, zb, w, h);
    let zb_b = stri_zb(b0, b1, b2, zb, w, h);
    let img_a = stri_img(sa, model, face_a, a0, a1, a2, img, zb, w, h);
    let img_b = stri_img(sb, model, face_b, b0, b1, b2, img, zb, w, h);
    let hit_a = spix_hit(a0, a1, a2, w, h, x, y);
    let hit_b = spix_hit(b0, b1, b2, w, h, x, y);
    let da = sdepth(a0, a1, a2, x, y);
    let db = sdepth(b0, b1, b2, x, y);
    assert(zb_a[i] == (if hit_a && da.raw > zb[i].raw {
        da
    } else {
        zb[i]
    }));
    assert(zb_b[i] == (if hit_b && db.raw > zb[i].raw {
        db
    } else {
        zb[i]
    }));
    let ca = (if sa.frag_discard(sbase_color(model, face_a, sbar_at(a0, a1, a2, x, y)), sbar_at(a0, a1, a2, x, y)) {
        img[i]
    } else {
        sa.frag_color(sbase_color(model, face_a, sbar_at(a0, a1, a2, x, y)), sbar_at(a0, a1, a2, x, y))
    });
    let cb = (if sb.frag_discard(sbase_color(model, face_b, sbar_at(b0, b1, b2, x, y)), sbar_at(b0, b1, b2, x, y)) {
        img[i]
    } else {
        sb.frag_color(sbase_color(model, face_b, sbar_at(b0, b1, b2, x, y)), sbar_at(b0, b1, b2, x, y))
    });
    assert(img_a[i] == (if hit_a && da.raw > zb[i].raw {
        ca
    } else {
        img[i]
    }));
    assert(img_b[i] == (if hit_b && db.raw > zb[i].raw {
        cb
    } else {
        img[i]
    }));
    let zb_ab = stri_zb(b0, b1, b2, zb_a, w, h);
    let zb_ba = stri_zb(a0, a1, a2, zb_b, w, h);
    assert(zb_ab[i] == (if hit_b && db.raw > zb_a[i].raw {
        db
    } else {
        zb_a[i]
    }));
    assert(zb_ba[i] == (if hit_a && da.raw > zb_b[i].raw {
        da
    } else {
        zb_b[i]
    }));
    let img_ab = stri_img(sb, model, face_b, b0, b1, b2, img_a, zb_a, w, h);
    let img_ba = stri_img(sa, model, face_a, a0, a1, a2, img_b, zb_b, w, h);
    assert(img_ab[i] == (if hit_b && db.raw > zb_a[i].raw {
        (if sb.frag_discard(sbase_color(model, face_b, sbar_at(b0, b1, b2, x, y)), sbar_at(b0, b1, b2, x, y)) {
            img_a[i]
        } else {
            sb.frag_color(sbase_color(model, face_b, sbar_at(b0, b1, b2, x, y)), sbar_at(b0, b1, b2, x, y))
        })
    } else {
        img_a[i]
    }));
    assert(img_ba[i] == (if hit_a && da.raw > zb_b[i].raw {
        (if sa.frag_discard(sbase_color(model, face_a, sbar_at(a0, a1, a2, x, y)), sbar_at(a0, a1, a2, x, y)) {
            img_b[i]
        } else {
            sa.frag_color(sbase_color(model, face_a, sbar_at(a0, a1, a2, x, y)), sbar_at(a0, a1, a2, x, y))
        })
    } else {
        img_b[i]
    }));
    assert(zb_ab[i] == zb_ba[i]);
    assert(img_ab[i] == img_ba[i]);
}

/// Bound on screen-coordinate raws under which the barycentric
/// computation is exact (no intermediate saturates): about two million
/// pixels of magnitude.
pub const BARY_COORD_BOUND: i64 = 0x20_0000_0000;

/// For small operands, fixed-point multiplication is plain truncated
/// rescaling, stays small, and is odd in each argument.
proof fn lemma_mul_small(u: int, v: int)
    requires
        iabs(u) <= 0x40_0000_0000,
        iabs(v) <= 0x40_0000_0000,
    ensures
        fx_mul_raw(u, v) == tdiv(u * v, 65536),
        iabs(tdiv(u * v, 65536)) <= 0x1000_0000_0000_0000,
        fx_mul_raw(-u, v) == -fx_mul_raw(u, v),
        fx_mul_raw(u, -v) == -fx_mul_raw(u, v),
{
    assert(iabs(u * v) == iabs(u) * iabs(v)) by (nonlinear_arith);
    assert(iabs(u) * iabs(v) <= 0x40_0000_0000 * 0x40_0000_0000) by (nonlinear_arith)
        requires
            0 <= iabs(u) <= 0x40_0000_0000,
            0 <= iabs(v) <= 0x40_0000_0000,
    ;
    assert(iabs(tdiv(u * v, 65536)) <= iabs(u * v) / 65536);
    assert((-u) * v == -(u * v)) by (nonlinear_arith);
    assert(u * (-v) == -(u * v)) by (nonlinear_arith);
    assert(tdiv(-(u * v), 65536) == -tdiv(u * v, 65536));
}

/// Dividing a nonzero value's 65536-fold by the value itself yields
/// exactly 65536.
proof fn lemma_tdiv_self_scaled(c: int)
    requires
        c != 0,
    ensures
        tdiv(c * 65536, c) == 65536,
{
    assert(iabs(c * 65536) == iabs(c) * 65536) by (nonlinear_arith);
    assert((iabs(c) * 65536) / iabs(c) == 65536) by (nonlinear_arith)
        requires
            iabs(c) >= 1,
    ;
    assert((c * 65536 >= 0) == (c >= 0)) by (nonlinear_arith)
        requires
            c != 0,
    ;
}

/// Barycentric coordinates are exact at the triangle's own vertices: for
/// a non-degenerate triangle with bounded screen coordinates, probing the
/// barycentric formula at vertex 0, 1, or 2 yields exactly `(1, 0, 0)`,
/// `(0, 1, 0)`, or `(0, 0, 1)`.
pub proof fn lemma_bary_at_vertices(p0: Vec3, p1: Vec3, p2: Vec3)
    requires
        iabs(sdoubled_area(p0, p1, p2).raw as int) >= 65536,
        iabs(p0.x.raw as int) <= BARY_COORD_BOUND,
        iabs(p0.y.raw as int) <= BARY_COORD_BOUND,
        iabs(p1.x.raw as int) <= BARY_COORD_BOUND,
        iabs(p1.y.raw as int) <= BARY_COORD_BOUND,
        iabs(p2.x.raw as int) <= BARY_COORD_BOUND,
        iabs(p2.y.raw as int) <= BARY_COORD_BOUND,
    ensures
        sbary(p0, p1, p2, p0.x, p0.y) == (Vec3 {
            x: Fx { raw: 65536 },
            y: Fx { raw: 0 },
            z: Fx { raw: 0 },
        }),
        sbary(p0, p1, p2, p1.x, p1.y) == (Vec3 {
            x: Fx { raw: 0 },
            y: Fx { raw: 65536 },
            z: Fx { raw: 0 },
        }),
        sbary(p0, p1, p2, p2.x, p2.y) == (Vec3 {
            x: Fx { raw: 0 },
            y: Fx { raw: 0 },
            z: Fx { raw: 65536 },
        }),
{
    let ax = p0.x.raw as int;
    let ay = p0.y.raw as int;
    let bx = p1.x.raw as int;
    let by = p1.y.raw as int;
    let cx = p2.x.raw as int;
    let cy = p2.y.raw as int;
    // Edge differences are exact at these magnitudes.
    let ex = cx - ax;  // p2.x - p0.x
    let dx = bx - ax;  // p1.x - p0.x
    let ey = cy - ay;  // p2.y - p0.y
    let dy = by - ay;  // p1.y - p0.y
    lemma_mul_small(ex, dy);
    lemma_mul_small(dx, ey);
    let cz = sdoubled_area(p0, p1, p2).raw as int;
    assert(cz == tdiv(ex * dy, 65536) - tdiv(dx * ey, 65536));

    // Vertex 0: both z components of the edge vectors vanish.
    let b0 = sbary(p0, p1, p2, p0.x, p0.y);
    assert(b0.x.raw == 65536 && b0.y.raw == 0 && b0.z.raw == 0);

    // Vertex 1: the first cross component cancels and the second equals
    // the doubled area, so the quotients are exactly 0 and 1.
    lemma_mul_small(dx, dy);
    lemma_mul_small(ex, ey);
    lemma_mul_small(dx, ex);
    let b1 = sbary(p0, p1, p2, p1.x, p1.y);
    assert(b1.x.raw == 0 && b1.y.raw == 65536 && b1.z.raw == 0) by {
        let crx = fx_sub_raw(fx_mul_raw(dx, -dy), fx_mul_raw(-dx, dy));
        assert(crx == 0);
        let cry = fx_sub_raw(fx_mul_raw(-dx, ey), fx_mul_raw(ex, -dy));
        assert(cry == tdiv(ex * dy, 65536) - tdiv(dx * ey, 65536));
        assert(cry == cz);
        lemma_tdiv_self_scaled(cz);
    }

    // Vertex 2: symmetric to vertex 1.
    let b2 = sbary(p0, p1, p2, p2.x, p2.y);
    assert(b2.x.raw == 0 && b2.y.raw == 0 && b2.z.raw == 65536) by {
        let crx = fx_sub_raw(fx_mul_raw(ex, -ey), fx_mul_raw(-ex, ey));
        assert(crx == 0);
        let cry = fx_sub_raw(fx_mul_raw(-ex, dy), fx_mul_raw(dx, -ey));
        assert(cry == tdiv(dx * ey, 65536) - tdiv(ex * dy, 65536));
        assert(cry == -cz);
        lemma_tdiv_self_scaled(cz);
    }
}

/// Truncating division leaves a remainder smaller than the divisor.
proof fn lemma_tdiv_remainder(x: int, c: int)
    requires
        c != 0,
    ensures
        iabs(x - c * tdiv(x, c)) < iabs(c),
{
    let q = iabs(x) / iabs(c);
    let r = iabs(x) % iabs(c);
    lemma_fundamental_div_mod(iabs(x), iabs(c));
    lemma_mod_bound(iabs(x), iabs(c));
    assert(iabs(x) == iabs(c) * q + r);
    if x >= 0 {
        if c > 0 {
            assert(x - c * q == r);
        } else {
            assert(c * (-q) == iabs(c) * q) by (nonlinear_arith)
                requires
                    c < 0,
                    iabs(c) == -c,
            ;
            assert(x - c * (-q) == x - iabs(c) * q);
        }
    } else {
        if c > 0 {
            assert(c * (-q) == -(iabs(c) * q)) by (nonlinear_arith)
                requires
                    c > 0,
                    iabs(c) == c,
            ;
            assert(x - c * (-q) == x + iabs(c) * q);
            assert(x + iabs(c) * q == -r);
        } else {
            assert(c * q == -(iabs(c) * q)) by (nonlinear_arith)
                requires
                    c < 0,
                    iabs(c) == -c,
            ;
            assert(x - c * q == x + iabs(c) * q);
            assert(x + iabs(c) * q == -r);
        }
    }
}

/// A fixed-point quotient by a divisor of magnitude at least one is no
/// larger in magnitude than its dividend.
proof fn lemma_tdiv_div_bound(a: int, c: int)
    requires
        iabs(c) >= 65536,
    ensures
        iabs(tdiv(a * 65536, c)) <= iabs(a),
{
    assert(iabs(a * 65536) == iabs(a) * 65536) by (nonlinear_arith);
    assert((iabs(a) * 65536) / iabs(c) <= iabs(a)) by (nonlinear_arith)
        requires
            iabs(c) >= 65536,
            0 <= iabs(a),
    ;
}

/// Barycentric coordinates sum to one, up to two raw units (about
/// `3 * 10^-5`), at every probed point of a non-degenerate triangle with
/// bounded screen coordinates --- in particular everywhere inside it.
pub proof fn lemma_bary_sum(p0: Vec3, p1: Vec3, p2: Vec3, px: Fx, py: Fx)
    requires
        iabs(sdoubled_area(p0, p1, p2).raw as int) >= 65536,
        iabs(p0.x.raw as int) <= BARY_COORD_BOUND,
        iabs(p0.y.raw as int) <= BARY_COORD_BOUND,
        iabs(p1.x.raw as int) <= BARY_COORD_BOUND,
        iabs(p1.y.raw as int) <= BARY_COORD_BOUND,
        iabs(p2.x.raw as int) <= BARY_COORD_BOUND,
        iabs(p2.y.raw as int) <= BARY_COORD_BOUND,
        iabs(px.raw as int) <= BARY_COORD_BOUND,
        iabs(py.raw as int) <= BARY_COORD_BOUND,
    ensures
        ({
            let b = sbary(p0, p1, p2, px, py);
            iabs(b.x.raw + b.y.raw + b.z.raw - 65536) <= 2
        }),
{
    let ax = p0.x.raw as int;
    let ay = p0.y.raw as int;
    let ex = (p2.x.raw as int) - ax;
    let dx = (p1.x.raw as int) - ax;
    let zx = ax - (px.raw as int);
    let ey = (p2.y.raw as int) - ay;
    let dy = (p1.y.raw as int) - ay;
    let zy = ay - (py.raw as int);
    lemma_mul_small(dx, zy);
    lemma_mul_small(zx, dy);
    lemma_mul_small(zx, ey);
    lemma_mul_small(ex, zy);
    lemma_mul_small(ex, dy);
    lemma_mul_small(dx, ey);
    let b = sbary(p0, p1, p2, px, py);
    let crx = tdiv(dx * zy, 65536) - tdiv(zx * dy, 65536);
    let cry = tdiv(zx * ey, 65536) - tdiv(ex * zy, 65536);
    let cz = tdiv(ex * dy, 65536) - tdiv(dx * ey, 65536);
    assert(cz == sdoubled_area(p0, p1, p2).raw as int);
    assert(iabs(crx) <= 0x2000_0000_0000_0000);
    assert(iabs(cry) <= 0x2000_0000_0000_0000);
    lemma_tdiv_div_bound(crx + cry, cz);
    lemma_tdiv_div_bound(cry, cz);
    lemma_tdiv_div_bound(crx, cz);
    let t1 = tdiv((crx + cry) * 65536, cz);
    let t2 = tdiv(cry * 65536, cz);
    let t3 = tdiv(crx * 65536, cz);
    assert(b.x.raw == 65536 - t1);
    assert(b.y.raw == t2);
    assert(b.z.raw == t3);
    lemma_tdiv_remainder((crx + cry) * 65536, cz);
    lemma_tdiv_remainder(cry * 65536, cz);
    lemma_tdiv_remainder(crx * 65536, cz);
    let r1 = (crx + cry) * 65536 - cz * t1;
    let r2 = cry * 65536 - cz * t2;
    let r3 = crx * 65536 - cz * t3;
    assert((crx + cry) * 65536 == crx * 65536 + cry * 65536) by (nonlinear_arith);
    assert(cz * (t2 + t3 - t1) == cz * t2 + cz * t3 - cz * t1) by (nonlinear_arith);
    assert(cz * (t2 + t3 - t1) == r1 - r2 - r3);
    assert(iabs(r1 - r2 - r3) < 3 * iabs(cz));
    assert(iabs(t2 + t3 - t1) <= 2) by (nonlinear_arith)
        requires
            cz * (t2 + t3 - t1) == r1 - r2 - r3,
            iabs(r1 - r2 - r3) < 3 * iabs(cz),
            iabs(cz) >= 1,
    ;
    assert(b.x.raw + b.y.raw + b.z.raw - 65536 == t2 + t3 - t1);
}

} // verus!
