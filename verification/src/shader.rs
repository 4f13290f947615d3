//! The programmable per-triangle shader stage.
//!
//! A shader is invoked by the rasterizer only: `vertex` is called exactly
//! three times per triangle (slots 0, 1, 2, in order) and may cache
//! per-vertex varyings; `fragment` is called once per covered pixel after
//! the depth test and rewrites the sampled base color.  Two concrete
//! shaders exist: a depth-only shader for the shadow pre-pass, and a lit
//! Phong-Blinn shader with normal mapping and a shadow-buffer lookup.

use vstd::prelude::*;

use crate::buffer::{lemma_pix_index_bound, Rgb};
use crate::fixed::{fx_add_raw, sadd, sdivi, smul, ssub, tdiv, Fx};
use crate::linalg::{sdot3, smatvec, snormalize3, Mat4, Vec2, Vec3, Vec4};
use crate::model::{sblend3, stex_index, strans_dir, WModel};

verus! {

/// Diffuse weight of the Phong-Blinn term (1.0).
pub const K_D_RAW: i64 = 65536;

/// Specular weight of the Phong-Blinn term (3.5).
pub const K_S_RAW: i64 = 229376;

/// Shadow-test bias (0.01), guarding against self-shadowing.
pub const SHADOW_BIAS_RAW: i64 = 655;

/// Light contribution of a shadowed fragment (0.3).
pub const SHADOW_DIM_RAW: i64 = 19661;

/// Ambient floor added to every channel (10.0).
pub const AMBIENT_RAW: i64 = 655360;

/// Three per-vertex texture-coordinate varyings, one per slot.
#[derive(Clone, Copy, PartialEq, Eq, Structural, Debug)]
pub struct TriUV {
    pub a: Vec2,
    pub b: Vec2,
    pub c: Vec2,
}

/// Three per-vertex position varyings, one per slot.
#[derive(Clone, Copy, PartialEq, Eq, Structural, Debug)]
pub struct TriPos {
    pub a: Vec3,
    pub b: Vec3,
    pub c: Vec3,
}

/// `t` with slot `j` replaced by `v`.
pub open spec fn uv_slot_set(t: TriUV, j: int, v: Vec2) -> TriUV {
    TriUV {
        a: if j == 0 {
            v
        } else {
            t.a
        },
        b: if j == 1 {
            v
        } else {
            t.b
        },
        c: if j == 2 {
            v
        } else {
            t.c
        },
    }
}

/// `t` with slot `j` replaced by `v`.
pub open spec fn pos_slot_set(t: TriPos, j: int, v: Vec3) -> TriPos {
    TriPos {
        a: if j == 0 {
            v
        } else {
            t.a
        },
        b: if j == 1 {
            v
        } else {
            t.b
        },
        c: if j == 2 {
            v
        } else {
            t.c
        },
    }
}

/// Perspective division of a homogeneous point.
pub open spec fn sproject(h: Vec4) -> Vec3 {
    Vec3 { x: sdivi(h.x, h.w), y: sdivi(h.y, h.w), z: sdivi(h.z, h.w) }
}

/// The screen-space position a shader produces for slot `v` of face `f`:
/// the vertex position carried through `conv` and divided by `w`.
pub open spec fn svertex_screen(model: &WModel, conv: Mat4, f: int, v: int) -> Vec3 {
    let pos = model.positions@[model.faces@[f]@[v] as int];
    sproject(smatvec(conv, Vec4 { x: pos.x, y: pos.y, z: pos.z, w: Fx { raw: 65536 } }))
}

/// Barycentric blend of three texture coordinates.
pub open spec fn sblend2(t: TriUV, bc: Vec3) -> Vec2 {
    Vec2 {
        x: sadd(sadd(smul(t.a.x, bc.x), smul(t.b.x, bc.y)), smul(t.c.x, bc.z)),
        y: sadd(sadd(smul(t.a.y, bc.x), smul(t.b.y, bc.y)), smul(t.c.y, bc.z)),
    }
}

/// A truncated coordinate clamped into `[0, size)`.
///
/// The clamp is the same deliberate total-sampling convention as texture
/// lookups: a reprojected shadow coordinate that falls outside the buffer
/// reads the nearest cell instead of aborting.
pub open spec fn sclamp_coord(t: int, size: int) -> int {
    if t < 0 {
        0
    } else if t >= size {
        size - 1
    } else {
        t
    }
}

/// Left-associated fixed-point power: `b` multiplied onto 1, `e` times.
pub open spec fn sfx_pow(b: Fx, e: nat) -> Fx
    decreases e,
{
    if e == 0 {
        Fx { raw: 65536 }
    } else {
        smul(sfx_pow(b, (e - 1) as nat), b)
    }
}

/// The nonnegative part of a fixed-point value.
pub open spec fn smax0(f: Fx) -> Fx {
    if f.raw >= 0 {
        f
    } else {
        Fx { raw: 0 }
    }
}

/// One shaded color channel: ambient floor plus the base channel scaled by
/// the shadow factor and the Phong-Blinn term (both of whose factors are
/// nonnegative), clamped into `[0, 255]`.
pub open spec fn sshade_channel(c: u8, shadow: Fx, intensity: Fx, spec_i: Fx) -> u8 {
    let term = sadd(smul(Fx { raw: K_D_RAW }, intensity), smul(Fx { raw: K_S_RAW }, spec_i));
    let t = sadd(
        Fx { raw: AMBIENT_RAW },
        smul(smul(Fx { raw: ((c as int) * 65536) as i64 }, shadow), term),
    );
    if t.raw >= 255 * 65536 {
        255
    } else if t.raw < 0 {
        0
    } else {
        tdiv(t.raw as int, 65536) as u8
    }
}

/// The per-triangle shader interface the rasterizer depends on.
///
/// `vertex` caches slot varyings and returns the screen-space position;
/// `fragment` turns the sampled base color into the final color and says
/// whether to discard the pixel.  Its contract fixes the result as a
/// function of the shader state, so a pixel's final value cannot depend on
/// the order in which pixels are visited.
pub trait Shader: Sized {
    /// Well-formedness of the shader state.
    spec fn wf(&self) -> bool;

    /// How many faces the shader can process.
    spec fn face_count(&self) -> int;

    /// The state after caching the varyings of slot `v` of face `f`.
    spec fn vertex_post(&self, f: int, v: int) -> Self;

    /// The screen-space position returned for slot `v` of face `f`.
    spec fn vertex_out(&self, f: int, v: int) -> Vec3;

    /// The color the fragment stage produces.
    spec fn frag_color(&self, color: Rgb, bar: Vec3) -> Rgb;

    /// Whether the fragment stage discards the pixel.
    spec fn frag_discard(&self, color: Rgb, bar: Vec3) -> bool;

    /// Runs the vertex stage for slot `v_idx` of face `f_idx`.
    fn vertex(&mut self, f_idx: usize, v_idx: usize) -> (p: Vec3)
        requires
            old(self).wf(),
            (f_idx as int) < old(self).face_count(),
            v_idx < 3,
        ensures
            final(self).wf(),
            *final(self) == old(self).vertex_post(f_idx as int, v_idx as int),
            final(self).face_count() == old(self).face_count(),
            p == old(self).vertex_out(f_idx as int, v_idx as int),
    ;

    /// Runs the fragment stage; rewrites `color` in place.
    fn fragment(&mut self, color: &mut Rgb, bar: Vec3) -> (discard: bool)
        requires
            old(self).wf(),
        ensures
            *final(self) == *old(self),
            *final(color) == old(self).frag_color(*old(color), bar),
            discard == old(self).frag_discard(*old(color), bar),
    ;
}

/// The lit main-pass shader: texture and normal-map sampling, Phong-Blinn
/// shading, and a shadow-buffer lookup.
pub struct GouphShader<'a> {
    /// Per-vertex texture coordinates, cached by `vertex`.
    pub varyng_uv: TriUV,
    /// Per-vertex screen positions, cached by `vertex`.
    pub varyng_tri: TriPos,
    /// Object space to screen space.
    pub coord_conv: Mat4,
    /// The scene model.
    pub model: &'a WModel,
    /// Normal conversion (inverse-transpose of the view transform).
    pub trans_nm: Mat4,
    /// Main-pass screen space to light-pass screen space.
    pub trans_shadow: Mat4,
    /// Light-direction conversion into the active space.
    pub trans_light: Mat4,
    /// The light-pass depth buffer, sampled for the shadow test.
    pub shadow_buf: Vec<Fx>,
    /// Width of the shadow buffer.
    pub shadow_w: u32,
    /// Height of the shadow buffer.
    pub shadow_h: u32,
}

impl<'a> GouphShader<'a> {
    /// Well-formedness: a valid model and a dense shadow buffer.
    pub open spec fn inv(self) -> bool {
        &&& self.model.wf()
        &&& self.shadow_buf@.len() == (self.shadow_w as int) * (self.shadow_h as int)
        &&& (self.shadow_w as int) * (self.shadow_h as int) <= u32::MAX
        &&& self.shadow_w >= 1
        &&& self.shadow_h >= 1
    }

    /// The interpolated texture coordinate at barycentric weights `bar`.
    pub open spec fn spec_uv_at(self, bar: Vec3) -> Vec2 {
        sblend2(self.varyng_uv, bar)
    }

    /// The interpolated screen position at barycentric weights `bar`.
    pub open spec fn spec_p_at(self, bar: Vec3) -> Vec3 {
        sblend3(self.varyng_tri.a, self.varyng_tri.b, self.varyng_tri.c, bar)
    }

    /// A sampled normal carried into the active space as a direction
    /// (`w = 0`): normals transform by the stored inverse-transpose with
    /// no translation.
    pub open spec fn spec_convert_normal(self, nm: Vec3) -> Vec3 {
        strans_dir(self.trans_nm, nm)
    }

    /// The shadow factor at interpolated position `p`: the position is
    /// reprojected into light-pass screen space and compared (with bias)
    /// against the stored light-pass depth; full light if not occluded,
    /// dimmed if occluded.
    pub open spec fn spec_shadow_intensity(self, p: Vec3) -> Fx {
        let sp = sproject(
            smatvec(self.trans_shadow, Vec4 { x: p.x, y: p.y, z: p.z, w: Fx { raw: 65536 } }),
        );
        let sx = sclamp_coord(tdiv(sp.x.raw as int, 65536), self.shadow_w as int);
        let sy = sclamp_coord(tdiv(sp.y.raw as int, 65536), self.shadow_h as int);
        let idx = sx + sy * (self.shadow_w as int);
        if self.shadow_buf@[idx].raw < fx_add_raw(sp.z.raw as int, SHADOW_BIAS_RAW as int) {
            Fx { raw: 65536 }
        } else {
            Fx { raw: SHADOW_DIM_RAW }
        }
    }

    /// The light direction carried into the active space and renormalized.
    pub open spec fn spec_light(self) -> Vec3 {
        let h = smatvec(
            self.trans_light,
            Vec4 {
                x: self.model.light.x,
                y: self.model.light.y,
                z: self.model.light.z,
                w: Fx { raw: 0 },
            },
        );
        snormalize3(Vec3 { x: h.x, y: h.y, z: h.z })
    }

    /// The normalized reflection of `l` about `n`.
    pub open spec fn spec_reflect(n: Vec3, l: Vec3) -> Vec3 {
        let s = smul(Fx { raw: 131072 }, sdot3(n, l));
        snormalize3(
            Vec3 {
                x: ssub(smul(n.x, s), l.x),
                y: ssub(smul(n.y, s), l.y),
                z: ssub(smul(n.z, s), l.z),
            },
        )
    }

    /// The full fragment computation, as a function of the shader state,
    /// the sampled base color and the barycentric weights.
    pub open spec fn spec_frag(self, color: Rgb, bar: Vec3) -> Rgb {
        let uv = self.spec_uv_at(bar);
        let p = self.spec_p_at(bar);
        let nm = snormalize3(
            self.model.normals_tex@[stex_index(uv.x, self.model.nm_width as int)]@[stex_index(
                uv.y,
                self.model.nm_height as int,
            )],
        );
        let n = self.spec_convert_normal(nm);
        let shadow = self.spec_shadow_intensity(p);
        let l = self.spec_light();
        let refl = Self::spec_reflect(n, l);
        let intensity = smax0(sdot3(n, l));
        let sc = self.model.specular_tex.pixel_at(
            stex_index(uv.x, self.model.specular_tex.width as int),
            stex_index(uv.y, self.model.specular_tex.height as int),
        );
        let spec_i = sfx_pow(smax0(refl.z), (5 + sc.r) as nat);
        Rgb {
            r: sshade_channel(color.r, shadow, intensity, spec_i),
            g: sshade_channel(color.g, shadow, intensity, spec_i),
            b: sshade_channel(color.b, shadow, intensity, spec_i),
        }
    }

    /// Builds the lit shader with zeroed varyings.
    pub fn new(
        coord_conv: Mat4,
        model: &'a WModel,
        trans_nm: Mat4,
        trans_shadow: Mat4,
        trans_light: Mat4,
        shadow_buf: Vec<Fx>,
        shadow_w: u32,
        shadow_h: u32,
    ) -> (s: GouphShader<'a>)
        requires
            model.wf(),
            shadow_buf@.len() == (shadow_w as int) * (shadow_h as int),
            (shadow_w as int) * (shadow_h as int) <= u32::MAX,
            shadow_w >= 1,
            shadow_h >= 1,
        ensures
            s.inv(),
            s.coord_conv == coord_conv,
            s.model == model,
            s.trans_nm == trans_nm,
            s.trans_shadow == trans_shadow,
            s.trans_light == trans_light,
            s.shadow_buf == shadow_buf,
            s.shadow_w == shadow_w,
            s.shadow_h == shadow_h,
            s.varyng_uv == uv_zero(),
            s.varyng_tri == pos_zero(),
    {
        let z2 = Vec2 { x: Fx { raw: 0 }, y: Fx { raw: 0 } };
        let z3 = Vec3 { x: Fx { raw: 0 }, y: Fx { raw: 0 }, z: Fx { raw: 0 } };
        GouphShader {
            varyng_uv: TriUV { a: z2, b: z2, c: z2 },
            varyng_tri: TriPos { a: z3, b: z3, c: z3 },
            coord_conv,
            model,
            trans_nm,
            trans_shadow,
            trans_light,
            shadow_buf,
            shadow_w,
            shadow_h,
        }
    }

    /// Carries a sampled normal into the active space as a direction.
    fn convert_normal(&self, nm: Vec3) -> (r: Vec3)
        ensures
            r == self.spec_convert_normal(nm),
            r == strans_dir(self.trans_nm, nm),
    {
        let h = self.trans_nm.mul_vec(nm.to_h(Fx { raw: 0 }));
        h.xyz()
    }
}

/// The all-zero texture-coordinate varyings.
pub open spec fn uv_zero() -> TriUV {
    let z2 = Vec2 { x: Fx { raw: 0 }, y: Fx { raw: 0 } };
    TriUV { a: z2, b: z2, c: z2 }
}

/// The all-zero position varyings.
pub open spec fn pos_zero() -> TriPos {
    let z3 = Vec3 { x: Fx { raw: 0 }, y: Fx { raw: 0 }, z: Fx { raw: 0 } };
    TriPos { a: z3, b: z3, c: z3 }
}

/// The identity-matrix position varyings: the depth shader's initial
/// cache before any vertex runs.
pub open spec fn pos_identity() -> TriPos {
    TriPos {
        a: Vec3 { x: Fx { raw: 65536 }, y: Fx { raw: 0 }, z: Fx { raw: 0 } },
        b: Vec3 { x: Fx { raw: 0 }, y: Fx { raw: 65536 }, z: Fx { raw: 0 } },
        c: Vec3 { x: Fx { raw: 0 }, y: Fx { raw: 0 }, z: Fx { raw: 65536 } },
    }
}

impl<'a> Shader for GouphShader<'a> {
    open spec fn wf(&self) -> bool {
        self.inv()
    }

    open spec fn face_count(&self) -> int {
        self.model.face_num as int
    }

    open spec fn vertex_post(&self, f: int, v: int) -> Self {
        GouphShader {
            varyng_uv: uv_slot_set(self.varyng_uv, v, self.model.tex_uv@[f]@[v]),
            varyng_tri: pos_slot_set(self.varyng_tri, v, self.vertex_out(f, v)),
            ..*self
        }
    }

    open spec fn vertex_out(&self, f: int, v: int) -> Vec3 {
        svertex_screen(self.model, self.coord_conv, f, v)
    }

    open spec fn frag_color(&self, color: Rgb, bar: Vec3) -> Rgb {
        self.spec_frag(color, bar)
    }

    open spec fn frag_discard(&self, color: Rgb, bar: Vec3) -> bool {
        false
    }

    fn vertex(&mut self, f_idx: usize, v_idx: usize) -> (p: Vec3) {
        let uv = self.model.get_uv(f_idx, v_idx);
        if v_idx == 0 {
            self.varyng_uv.a = uv;
        } else if v_idx == 1 {
            self.varyng_uv.b = uv;
        } else {
            self.varyng_uv.c = uv;
        }
        let face = self.model.get_face(f_idx);
        let vtx = self.model.get_vertex(face[v_idx]);
        let h = self.coord_conv.mul_vec(vtx.to_h(Fx { raw: 65536 }));
        let p = h.project();
        if v_idx == 0 {
            self.varyng_tri.a = p;
        } else if v_idx == 1 {
            self.varyng_tri.b = p;
        } else {
            self.varyng_tri.c = p;
        }
        p
    }

    fn fragment(&mut self, color: &mut Rgb, bar: Vec3) -> (discard: bool) {
        let u = self.varyng_uv;
        let uv = Vec2 {
            x: u.a.x.times(bar.x).plus(u.b.x.times(bar.y)).plus(u.c.x.times(bar.z)),
            y: u.a.y.times(bar.x).plus(u.b.y.times(bar.y)).plus(u.c.y.times(bar.z)),
        };
        let t = self.varyng_tri;
        let p = Vec3 {
            x: t.a.x.times(bar.x).plus(t.b.x.times(bar.y)).plus(t.c.x.times(bar.z)),
            y: t.a.y.times(bar.x).plus(t.b.y.times(bar.y)).plus(t.c.y.times(bar.z)),
            z: t.a.z.times(bar.x).plus(t.b.z.times(bar.y)).plus(t.c.z.times(bar.z)),
        };

        let nm = self.model.get_normal_tex(uv);
        let n = self.convert_normal(nm);

        let shadow_h = self.trans_shadow.mul_vec(p.to_h(Fx { raw: 65536 }));
        let sp = shadow_h.project();
        let sx = clamp_coord(sp.x.trunc(), self.shadow_w);
        let sy = clamp_coord(sp.y.trunc(), self.shadow_h);
        proof {
            lemma_pix_index_bound(
                self.shadow_w as int,
                self.shadow_h as int,
                sx as int,
                sy as int,
            );
        }
        let idx: usize = (sx as usize) + (sy as usize) * (self.shadow_w as usize);
        let shadow = if self.shadow_buf[idx].raw < sp.z.plus(Fx { raw: SHADOW_BIAS_RAW }).raw {
            Fx { raw: 65536 }
        } else {
            Fx { raw: SHADOW_DIM_RAW }
        };

        let l = self.trans_light.mul_vec(self.model.light.to_h(Fx { raw: 0 })).xyz().normalize();
        let d2 = Fx { raw: 131072 }.times(n.dot(l));
        let refl = n.scale(d2).minus_v(l).normalize();

        let d = n.dot(l);
        let intensity = if d.raw >= 0 {
            d
        } else {
            Fx { raw: 0 }
        };

        let sc = self.model.sample_specular(uv);
        let base = if refl.z.raw >= 0 {
            refl.z
        } else {
            Fx { raw: 0 }
        };
        let spec_i = fx_pow(base, 5 + sc.r as u32);

        let out = Rgb {
            r: shade_channel(color.r, shadow, intensity, spec_i),
            g: shade_channel(color.g, shadow, intensity, spec_i),
            b: shade_channel(color.b, shadow, intensity, spec_i),
        };
        *color = out;
        false
    }
}

/// The depth-only shadow-pass shader.
pub struct DepthShader<'a> {
    /// Object space to light-pass screen space.
    pub coord_conv: Mat4,
    /// The scene model.
    pub model: &'a WModel,
    /// Per-vertex screen positions, cached by `vertex`.
    pub varying_tri: TriPos,
}

impl<'a> DepthShader<'a> {
    /// Builds the depth shader.
    pub fn new(coord_conv: Mat4, model: &'a WModel) -> (s: DepthShader<'a>)
        requires
            model.wf(),
        ensures
            s.coord_conv == coord_conv,
            s.model == model,
            s.varying_tri == pos_identity(),
    {
        DepthShader {
            coord_conv,
            model,
            varying_tri: TriPos {
                a: Vec3 { x: Fx { raw: 65536 }, y: Fx { raw: 0 }, z: Fx { raw: 0 } },
                b: Vec3 { x: Fx { raw: 0 }, y: Fx { raw: 65536 }, z: Fx { raw: 0 } },
                c: Vec3 { x: Fx { raw: 0 }, y: Fx { raw: 0 }, z: Fx { raw: 65536 } },
            },
        }
    }
}

impl<'a> Shader for DepthShader<'a> {
    open spec fn wf(&self) -> bool {
        self.model.wf()
    }

    open spec fn face_count(&self) -> int {
        self.model.face_num as int
    }

    open spec fn vertex_post(&self, f: int, v: int) -> Self {
        DepthShader {
            varying_tri: pos_slot_set(self.varying_tri, v, self.vertex_out(f, v)),
            ..*self
        }
    }

    open spec fn vertex_out(&self, f: int, v: int) -> Vec3 {
        svertex_screen(self.model, self.coord_conv, f, v)
    }

    open spec fn frag_color(&self, color: Rgb, bar: Vec3) -> Rgb {
        color
    }

    open spec fn frag_discard(&self, color: Rgb, bar: Vec3) -> bool {
        false
    }

    fn vertex(&mut self, f_idx: usize, v_idx: usize) -> (p: Vec3) {
        let face = self.model.get_face(f_idx);
        let vtx = self.model.get_vertex(face[v_idx]);
        let h = self.coord_conv.mul_vec(vtx.to_h(Fx { raw: 65536 }));
        let p = h.project();
        if v_idx == 0 {
            self.varying_tri.a = p;
        } else if v_idx == 1 {
            self.varying_tri.b = p;
        } else {
            self.varying_tri.c = p;
        }
        p
    }

    fn fragment(&mut self, color: &mut Rgb, bar: Vec3) -> (discard: bool) {
        false
    }
}

/// Clamps a truncated coordinate into `[0, size)`.
fn clamp_coord(t: i64, size: u32) -> (r: u32)
    requires
        size >= 1,
    ensures
        r as int == sclamp_coord(t as int, size as int),
        r < size,
{
    if t < 0 {
        0
    } else if t >= size as i64 {
        size - 1
    } else {
        t as u32
    }
}

/// Left-associated fixed-point power.
fn fx_pow(b: Fx, e: u32) -> (r: Fx)
    ensures
        r == sfx_pow(b, e as nat),
{
    let mut r = Fx { raw: 65536 };
    let mut k: u32 = 0;
    while k < e
        invariant
            k <= e,
            r == sfx_pow(b, k as nat),
        decreases e - k,
    {
        r = r.times(b);
        k = k + 1;
    }
    r
}

/// One shaded color channel, executable form.
fn shade_channel(c: u8, shadow: Fx, intensity: Fx, spec_i: Fx) -> (r: u8)
    ensures
        r == sshade_channel(c, shadow, intensity, spec_i),
{
    let term = Fx { raw: K_D_RAW }.times(intensity).plus(Fx { raw: K_S_RAW }.times(spec_i));
    let base = Fx { raw: (c as i64) * 65536 };
    let t = Fx { raw: AMBIENT_RAW }.plus(base.times(shadow).times(term));
    if t.raw >= 255 * 65536 {
        255
    } else {
        let v = t.trunc();
        if t.raw < 0 {
            0
        } else {
            v as u8
        }
    }
}

/// Fixed-point powers of a nonnegative base are nonnegative.
pub proof fn lemma_sfx_pow_nonneg(b: Fx, e: nat)
    requires
        b.raw >= 0,
    ensures
        sfx_pow(b, e).raw >= 0,
    decreases e,
{
    if e == 0 {
    } else {
        lemma_sfx_pow_nonneg(b, (e - 1) as nat);
        let p = sfx_pow(b, (e - 1) as nat);
        assert((p.raw as int) * (b.raw as int) >= 0) by (nonlinear_arith)
            requires
                p.raw >= 0,
                b.raw >= 0,
        ;
    }
}

/// With nonnegative shadow, diffuse and specular factors, a shaded
/// channel lies between the ambient floor of 10 and the cap of 255.
pub proof fn lemma_shade_channel_range(c: u8, shadow: Fx, intensity: Fx, spec_i: Fx)
    requires
        shadow.raw >= 0,
        intensity.raw >= 0,
        spec_i.raw >= 0,
    ensures
        10 <= sshade_channel(c, shadow, intensity, spec_i) <= 255,
{
    assert((K_D_RAW as int) * (intensity.raw as int) >= 0) by (nonlinear_arith)
        requires
            intensity.raw >= 0,
    ;
    assert((K_S_RAW as int) * (spec_i.raw as int) >= 0) by (nonlinear_arith)
        requires
            spec_i.raw >= 0,
    ;
    let term = sadd(smul(Fx { raw: K_D_RAW }, intensity), smul(Fx { raw: K_S_RAW }, spec_i));
    assert(term.raw >= 0);
    let base = Fx { raw: ((c as int) * 65536) as i64 };
    assert((base.raw as int) * (shadow.raw as int) >= 0) by (nonlinear_arith)
        requires
            base.raw >= 0,
            shadow.raw >= 0,
    ;
    let bs = smul(base, shadow);
    assert((bs.raw as int) * (term.raw as int) >= 0) by (nonlinear_arith)
        requires
            bs.raw >= 0,
            term.raw >= 0,
    ;
    let t = sadd(Fx { raw: AMBIENT_RAW }, smul(bs, term));
    assert(t.raw >= AMBIENT_RAW);
}

/// The lit fragment stage never darkens below the ambient floor: every
/// channel of its output lies in `[10, 255]`, for every shader state,
/// base color and barycentric weight.
pub proof fn lemma_frag_channel_floor(s: GouphShader, color: Rgb, bar: Vec3)
    ensures
        ({
            let out = s.spec_frag(color, bar);
            &&& 10 <= out.r <= 255
            &&& 10 <= out.g <= 255
            &&& 10 <= out.b <= 255
        }),
{
    let uv = s.spec_uv_at(bar);
    let p = s.spec_p_at(bar);
    let nm = snormalize3(
        s.model.normals_tex@[stex_index(uv.x, s.model.nm_width as int)]@[stex_index(
            uv.y,
            s.model.nm_height as int,
        )],
    );
    let n = s.spec_convert_normal(nm);
    let shadow = s.spec_shadow_intensity(p);
    let l = s.spec_light();
    let refl = GouphShader::spec_reflect(n, l);
    let intensity = smax0(sdot3(n, l));
    let sc = s.model.specular_tex.pixel_at(
        stex_index(uv.x, s.model.specular_tex.width as int),
        stex_index(uv.y, s.model.specular_tex.height as int),
    );
    assert(shadow.raw >= 0);
    assert(intensity.raw >= 0);
    lemma_sfx_pow_nonneg(smax0(refl.z), (5 + sc.r) as nat);
    let spec_i = sfx_pow(smax0(refl.z), (5 + sc.r) as nat);
    lemma_shade_channel_range(color.r, shadow, intensity, spec_i);
    lemma_shade_channel_range(color.g, shadow, intensity, spec_i);
    lemma_shade_channel_range(color.b, shadow, intensity, spec_i);
}

} // verus!
