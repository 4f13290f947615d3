//! The scene model: mesh topology, per-face attributes, textures, and the
//! decoded normal-map grid.
//!
//! A mesh is a flat array of vertex positions plus `face_num` triangular
//! faces; each face carries 3 position indices, 3 texture coordinates and 3
//! normals of its own (attributes are not shared across faces).  The normal
//! map is decoded once, at construction, into a grid of unit vectors.

use vstd::prelude::*;

use vstd::arithmetic::div_mod::{lemma_fundamental_div_mod, lemma_mod_bound};

use crate::buffer::{Image, Rgb};
use crate::fixed::{fx_mul_raw, sadd, sat64, sdivi, smul, tdiv, Fx};
use crate::linalg::{smatvec, snormalize3, Mat4, Vec2, Vec3, Vec4};

verus! {

/// Raw fixed-point value of one decoded normal-map channel: a byte in
/// `[0, 255]` is mapped affinely onto `[-1, 1]`.
pub open spec fn decode_channel_raw(c: int) -> int {
    (c * 131072) / 255 - 65536
}

/// Raw byte encoding a fixed-point channel in `[-1, 1]` into `[0, 255]`:
/// the inverse convention of `decode_channel_raw`, truncating.
pub open spec fn encode_channel_raw(t: int) -> int {
    ((t + 65536) * 255) / 131072
}

/// The decoded (not yet normalized) normal-map vector of one texel.
pub open spec fn sdecode_normal(c: Rgb) -> Vec3 {
    Vec3 {
        x: Fx { raw: decode_channel_raw(c.r as int) as i64 },
        y: Fx { raw: decode_channel_raw(c.g as int) as i64 },
        z: Fx { raw: decode_channel_raw(c.b as int) as i64 },
    }
}

/// Barycentric blend of three vectors with weights `bc`.
pub open spec fn sblend3(n0: Vec3, n1: Vec3, n2: Vec3, bc: Vec3) -> Vec3 {
    Vec3 {
        x: sadd(sadd(smul(n0.x, bc.x), smul(n1.x, bc.y)), smul(n2.x, bc.z)),
        y: sadd(sadd(smul(n0.y, bc.x), smul(n1.y, bc.y)), smul(n2.y, bc.z)),
        z: sadd(sadd(smul(n0.z, bc.x), smul(n1.z, bc.y)), smul(n2.z, bc.z)),
    }
}

/// Texture sample index: a coordinate in `[0, 1]` is scaled by the texture
/// size and truncated, then clamped into the valid index range.
///
/// The clamp is a deliberate convention: interpolation can push a
/// coordinate a few fixed-point units past `1`, so sampling is total and
/// reads the nearest texel instead of treating the overshoot as a fatal
/// index error.  Structural indices (faces, vertices, buffers) remain
/// hard preconditions.
pub open spec fn stex_index(u: Fx, size: int) -> int {
    let t = tdiv(fx_mul_raw(u.raw as int, sat64(size * 65536)), 65536);
    if t < 0 {
        0
    } else if t >= size {
        size - 1
    } else {
        t
    }
}

/// A direction carried through a transform: the vector is extended with
/// `w = 0` (so translations do not apply) and the result truncated back.
pub open spec fn strans_dir(u: Mat4, n: Vec3) -> Vec3 {
    let h = smatvec(u, Vec4 { x: n.x, y: n.y, z: n.z, w: Fx { raw: 0 } });
    Vec3 { x: h.x, y: h.y, z: h.z }
}

/// Decodes one normal-map channel byte into fixed point.
pub fn decode_channel(c: u8) -> (f: Fx)
    ensures
        f.raw as int == decode_channel_raw(c as int),
{
    let q: u64 = ((c as u64) * 131072) / 255;
    Fx { raw: (q as i64) - 65536 }
}

/// Decodes one normal-map texel into its (unnormalized) vector.
pub fn decode_normal(c: Rgb) -> (v: Vec3)
    ensures
        v == sdecode_normal(c),
{
    Vec3 { x: decode_channel(c.r), y: decode_channel(c.g), z: decode_channel(c.b) }
}

/// Encodes a fixed-point channel in `[-1, 1]` into a normal-map byte.
pub fn encode_channel(f: Fx) -> (c: u8)
    requires
        -65536 <= f.raw <= 65536,
    ensures
        c as int == encode_channel_raw(f.raw as int),
{
    let n: u64 = ((f.raw + 65536) as u64) * 255;
    (n / 131072) as u8
}

/// The scene model: mesh, textures, decoded normal map, light direction.
pub struct WModel {
    /// Number of triangular faces.
    pub face_num: usize,
    /// Flat vertex position array.
    pub positions: Vec<Vec3>,
    /// Per-face vertex-position indices.
    pub faces: Vec<[usize; 3]>,
    /// Per-face, per-vertex texture coordinates.
    pub tex_uv: Vec<[Vec2; 3]>,
    /// Per-face, per-vertex normals.
    pub normals: Vec<[Vec3; 3]>,
    /// Decoded normal-map grid, indexed `[x][y]`, unit vectors.
    pub normals_tex: Vec<Vec<Vec3>>,
    /// Diffuse (albedo) texture.
    pub texture: Image,
    /// Specular-intensity texture.
    pub specular_tex: Image,
    /// Width of the normal-map grid.
    pub nm_width: u32,
    /// Height of the normal-map grid.
    pub nm_height: u32,
    /// The directional light, kept unit length.
    pub light: Vec3,
}

impl WModel {
    /// Well-formedness: per-face tables match `face_num`, every vertex index
    /// is in range, textures are nonempty, and the decoded grid is dense.
    pub open spec fn wf(self) -> bool {
        &&& self.faces@.len() == self.face_num
        &&& self.tex_uv@.len() == self.face_num
        &&& self.normals@.len() == self.face_num
        &&& forall|i: int, j: int|
            0 <= i < self.face_num && 0 <= j < 3 ==> #[trigger] self.faces@[i]@[j]
                < self.positions@.len()
        &&& self.texture.wf()
        &&& self.texture.width >= 1
        &&& self.texture.height >= 1
        &&& self.specular_tex.wf()
        &&& self.specular_tex.width >= 1
        &&& self.specular_tex.height >= 1
        &&& self.nm_width >= 1
        &&& self.nm_height >= 1
        &&& self.normals_tex@.len() == self.nm_width as int
        &&& forall|x: int|
            0 <= x < self.nm_width as int ==> (#[trigger] self.normals_tex@[x])@.len()
                == self.nm_height as int
    }

    /// Builds the model from plain mesh arrays, the three textures and the
    /// light direction.  Per-face attribute `j` of face `i` is looked up
    /// through index `3 * i + j` of the respective index array; the normal
    /// map is decoded and normalized texel by texel; the light direction is
    /// normalized.
    pub fn new(
        positions: Vec<Vec3>,
        indices: Vec<usize>,
        texcoords: Vec<Vec2>,
        texcoord_indices: Vec<usize>,
        normals: Vec<Vec3>,
        normal_indices: Vec<usize>,
        texture: Image,
        specular_tex: Image,
        texture_nm: Image,
        light_dir: Vec3,
    ) -> (m: WModel)
        requires
            indices@.len() % 3 == 0,
            texcoord_indices@.len() == indices@.len(),
            normal_indices@.len() == indices@.len(),
            forall|i: int| 0 <= i < indices@.len() ==> #[trigger] indices@[i] < positions@.len(),
            forall|i: int|
                0 <= i < indices@.len() ==> #[trigger] texcoord_indices@[i] < texcoords@.len(),
            forall|i: int|
                0 <= i < indices@.len() ==> #[trigger] normal_indices@[i] < normals@.len(),
            texture.wf(),
            texture.width >= 1,
            texture.height >= 1,
            specular_tex.wf(),
            specular_tex.width >= 1,
            specular_tex.height >= 1,
            texture_nm.wf(),
            texture_nm.width >= 1,
            texture_nm.height >= 1,
        ensures
            m.wf(),
            m.face_num == indices@.len() / 3,
            m.positions == positions,
            m.texture == texture,
            m.specular_tex == specular_tex,
            m.nm_width == texture_nm.width,
            m.nm_height == texture_nm.height,
            m.light == snormalize3(light_dir),
            forall|i: int, j: int|
                0 <= i < m.face_num && 0 <= j < 3 ==> #[trigger] m.faces@[i]@[j] == indices@[3 * i
                    + j],
            forall|i: int, j: int|
                0 <= i < m.face_num && 0 <= j < 3 ==> #[trigger] m.tex_uv@[i]@[j]
                    == texcoords@[texcoord_indices@[3 * i + j] as int],
            forall|i: int, j: int|
                0 <= i < m.face_num && 0 <= j < 3 ==> #[trigger] m.normals@[i]@[j]
                    == normals@[normal_indices@[3 * i + j] as int],
            forall|x: int, y: int|
                0 <= x < texture_nm.width as int && 0 <= y < texture_nm.height as int
                    ==> #[trigger] m.normals_tex@[x]@[y] == snormalize3(
                    sdecode_normal(texture_nm.pixel_at(x, y)),
                ),
    {
        let face_num: usize = indices.len() / 3;
        let mut faces: Vec<[usize; 3]> = Vec::new();
        let mut tex_uv: Vec<[Vec2; 3]> = Vec::new();
        let mut face_normals: Vec<[Vec3; 3]> = Vec::new();
        let mut i: usize = 0;
        while i < face_num
            invariant
                face_num == indices@.len() / 3,
                indices@.len() % 3 == 0,
                indices@.len() <= usize::MAX,
                texcoord_indices@.len() == indices@.len(),
                normal_indices@.len() == indices@.len(),
                forall|k: int| 0 <= k < indices@.len() ==> #[trigger] indices@[k] < positions@.len(),
                forall|k: int|
                    0 <= k < indices@.len() ==> #[trigger] texcoord_indices@[k] < texcoords@.len(),
                forall|k: int|
                    0 <= k < indices@.len() ==> #[trigger] normal_indices@[k] < normals@.len(),
                i <= face_num,
                faces@.len() == i,
                tex_uv@.len() == i,
                face_normals@.len() == i,
                forall|k: int, j: int|
                    0 <= k < i && 0 <= j < 3 ==> #[trigger] faces@[k]@[j] == indices@[3 * k + j],
                forall|k: int, j: int|
                    0 <= k < i && 0 <= j < 3 ==> #[trigger] faces@[k]@[j] < positions@.len(),
                forall|k: int, j: int|
                    0 <= k < i && 0 <= j < 3 ==> #[trigger] tex_uv@[k]@[j]
                        == texcoords@[texcoord_indices@[3 * k + j] as int],
                forall|k: int, j: int|
                    0 <= k < i && 0 <= j < 3 ==> #[trigger] face_normals@[k]@[j]
                        == normals@[normal_indices@[3 * k + j] as int],
            decreases face_num - i,
        {
            assert(3 * i + 2 < indices@.len());
            let f: [usize; 3] = [indices[3 * i], indices[3 * i + 1], indices[3 * i + 2]];
            let uv: [Vec2; 3] = [
                texcoords[texcoord_indices[3 * i]],
                texcoords[texcoord_indices[3 * i + 1]],
                texcoords[texcoord_indices[3 * i + 2]],
            ];
            let ns: [Vec3; 3] = [
                normals[normal_indices[3 * i]],
                normals[normal_indices[3 * i + 1]],
                normals[normal_indices[3 * i + 2]],
            ];
            faces.push(f);
            tex_uv.push(uv);
            face_normals.push(ns);
            i = i + 1;
        }
        let mut grid: Vec<Vec<Vec3>> = Vec::new();
        let mut x: u32 = 0;
        while x < texture_nm.width
            invariant
                texture_nm.wf(),
                x <= texture_nm.width,
                grid@.len() == x as int,
                forall|a: int|
                    0 <= a < x as int ==> (#[trigger] grid@[a])@.len() == texture_nm.height as int,
                forall|a: int, b: int|
                    0 <= a < x as int && 0 <= b < texture_nm.height as int
                        ==> #[trigger] grid@[a]@[b] == snormalize3(
                        sdecode_normal(texture_nm.pixel_at(a, b)),
                    ),
            decreases texture_nm.width - x,
        {
            let mut col: Vec<Vec3> = Vec::new();
            let mut y: u32 = 0;
            while y < texture_nm.height
                invariant
                    texture_nm.wf(),
                    x < texture_nm.width,
                    y <= texture_nm.height,
                    col@.len() == y as int,
                    forall|b: int|
                        0 <= b < y as int ==> #[trigger] col@[b] == snormalize3(
                            sdecode_normal(texture_nm.pixel_at(x as int, b)),
                        ),
                decreases texture_nm.height - y,
            {
                let c = texture_nm.get_pixel(x, y);
                col.push(decode_normal(c).normalize());
                y = y + 1;
            }
            grid.push(col);
            x = x + 1;
        }
        WModel {
            face_num,
            positions,
            faces,
            tex_uv,
            normals: face_normals,
            normals_tex: grid,
            texture,
            specular_tex,
            nm_width: texture_nm.width,
            nm_height: texture_nm.height,
            light: light_dir.normalize(),
        }
    }

    /// The three vertex-position indices of a face.
    pub fn get_face(&self, face_index: usize) -> (f: [usize; 3])
        requires
            self.wf(),
            face_index < self.face_num,
        ensures
            f == self.faces@[face_index as int],
            forall|j: int| 0 <= j < 3 ==> #[trigger] f@[j] < self.positions@.len(),
    {
        self.faces[face_index]
    }

    /// One vertex position.
    pub fn get_vertex(&self, vertex_index: usize) -> (v: Vec3)
        requires
            vertex_index < self.positions@.len(),
        ensures
            v == self.positions@[vertex_index as int],
    {
        self.positions[vertex_index]
    }

    /// The three texture coordinates of a face.
    pub fn get_face_uv(&self, face_index: usize) -> (uv: [Vec2; 3])
        requires
            self.wf(),
            face_index < self.face_num,
        ensures
            uv == self.tex_uv@[face_index as int],
    {
        self.tex_uv[face_index]
    }

    /// The texture coordinate of one vertex slot of a face.
    pub fn get_uv(&self, face_index: usize, vertex_slot: usize) -> (uv: Vec2)
        requires
            self.wf(),
            face_index < self.face_num,
            vertex_slot < 3,
        ensures
            uv == self.tex_uv@[face_index as int]@[vertex_slot as int],
    {
        let a = self.tex_uv[face_index];
        a[vertex_slot]
    }

    /// The three per-vertex normals of a face.
    pub fn get_face_normal(&self, face_index: usize) -> (n: [Vec3; 3])
        requires
            self.wf(),
            face_index < self.face_num,
        ensures
            n == self.normals@[face_index as int],
    {
        self.normals[face_index]
    }

    /// The barycentric blend of a face's three normals, renormalized.
    pub fn get_normal(&self, face_index: usize, bc_screen: Vec3) -> (n: Vec3)
        requires
            self.wf(),
            face_index < self.face_num,
        ensures
            n == snormalize3(
                sblend3(
                    self.normals@[face_index as int]@[0],
                    self.normals@[face_index as int]@[1],
                    self.normals@[face_index as int]@[2],
                    bc_screen,
                ),
            ),
    {
        let ns = self.get_face_normal(face_index);
        let nx = ns[0].x.times(bc_screen.x).plus(ns[1].x.times(bc_screen.y)).plus(
            ns[2].x.times(bc_screen.z),
        );
        let ny = ns[0].y.times(bc_screen.x).plus(ns[1].y.times(bc_screen.y)).plus(
            ns[2].y.times(bc_screen.z),
        );
        let nz = ns[0].z.times(bc_screen.x).plus(ns[1].z.times(bc_screen.y)).plus(
            ns[2].z.times(bc_screen.z),
        );
        Vec3 { x: nx, y: ny, z: nz }.normalize()
    }

    /// The decoded normal-map vector at the given texture coordinate,
    /// renormalized.
    pub fn get_normal_tex(&self, uv: Vec2) -> (n: Vec3)
        requires
            self.wf(),
        ensures
            n == snormalize3(
                self.normals_tex@[stex_index(uv.x, self.nm_width as int)]@[stex_index(
                    uv.y,
                    self.nm_height as int,
                )],
            ),
    {
        let ix = tex_index(uv.x, self.nm_width);
        let iy = tex_index(uv.y, self.nm_height);
        let col = &self.normals_tex[ix as usize];
        let v = col[iy as usize];
        v.normalize()
    }

    /// A diffuse-texture sample at the given texture coordinate.
    pub fn sample_diffuse(&self, uv: Vec2) -> (c: Rgb)
        requires
            self.wf(),
        ensures
            c == self.texture.pixel_at(
                stex_index(uv.x, self.texture.width as int),
                stex_index(uv.y, self.texture.height as int),
            ),
    {
        let ix = tex_index(uv.x, self.texture.width);
        let iy = tex_index(uv.y, self.texture.height);
        self.texture.get_pixel(ix, iy)
    }

    /// A specular-texture sample at the given texture coordinate.
    pub fn sample_specular(&self, uv: Vec2) -> (c: Rgb)
        requires
            self.wf(),
        ensures
            c == self.specular_tex.pixel_at(
                stex_index(uv.x, self.specular_tex.width as int),
                stex_index(uv.y, self.specular_tex.height as int),
            ),
    {
        let ix = tex_index(uv.x, self.specular_tex.width);
        let iy = tex_index(uv.y, self.specular_tex.height);
        self.specular_tex.get_pixel(ix, iy)
    }

    /// Re-expresses every stored normal (per-face and normal-map grid) in a
    /// new coordinate space: each is multiplied by the inverse-transpose of
    /// `m` and renormalized.
    pub fn trans_normals(&mut self, m: &Mat4)
        requires
            old(self).wf(),
            crate::linalg::sdet4(crate::linalg::stranspose(*m)).raw != 0,
        ensures
            final(self).wf(),
            final(self).face_num == old(self).face_num,
            final(self).positions == old(self).positions,
            final(self).faces == old(self).faces,
            final(self).tex_uv == old(self).tex_uv,
            final(self).texture == old(self).texture,
            final(self).specular_tex == old(self).specular_tex,
            final(self).nm_width == old(self).nm_width,
            final(self).nm_height == old(self).nm_height,
            final(self).light == old(self).light,
            final(self).normals@.len() == old(self).normals@.len(),
            forall|i: int, j: int|
                0 <= i < old(self).face_num && 0 <= j < 3 ==> #[trigger] final(self).normals@[i]@[j]
                    == snormalize3(
                    strans_dir(
                        crate::linalg::sinverse(crate::linalg::stranspose(*m)),
                        old(self).normals@[i]@[j],
                    ),
                ),
            forall|x: int, y: int|
                0 <= x < old(self).nm_width as int && 0 <= y < old(self).nm_height as int
                    ==> #[trigger] final(self).normals_tex@[x]@[y] == snormalize3(
                    strans_dir(
                        crate::linalg::sinverse(crate::linalg::stranspose(*m)),
                        old(self).normals_tex@[x]@[y],
                    ),
                ),
    {
        let u: Mat4 = m.transpose().try_inverse().unwrap();
        let zero = Fx { raw: 0 };
        let mut out: Vec<[Vec3; 3]> = Vec::new();
        let mut i: usize = 0;
        while i < self.face_num
            invariant
                self.wf(),
                u == crate::linalg::sinverse(crate::linalg::stranspose(*m)),
                i <= self.face_num,
                out@.len() == i,
                zero.raw == 0,
                forall|k: int, j: int|
                    0 <= k < i && 0 <= j < 3 ==> #[trigger] out@[k]@[j] == snormalize3(
                        strans_dir(u, self.normals@[k]@[j]),
                    ),
            decreases self.face_num - i,
        {
            let ns = self.normals[i];
            let t: [Vec3; 3] = [
                u.mul_vec(ns[0].to_h(zero)).xyz().normalize(),
                u.mul_vec(ns[1].to_h(zero)).xyz().normalize(),
                u.mul_vec(ns[2].to_h(zero)).xyz().normalize(),
            ];
            out.push(t);
            i = i + 1;
        }
        let mut grid: Vec<Vec<Vec3>> = Vec::new();
        let mut x: u32 = 0;
        while x < self.nm_width
            invariant
                self.wf(),
                u == crate::linalg::sinverse(crate::linalg::stranspose(*m)),
                x <= self.nm_width,
                grid@.len() == x as int,
                zero.raw == 0,
                forall|a: int|
                    0 <= a < x as int ==> (#[trigger] grid@[a])@.len() == self.nm_height as int,
                forall|a: int, b: int|
                    0 <= a < x as int && 0 <= b < self.nm_height as int ==> #[trigger] grid@[a]@[b]
                        == snormalize3(strans_dir(u, self.normals_tex@[a]@[b])),
            decreases self.nm_width - x,
        {
            let mut col: Vec<Vec3> = Vec::new();
            let mut y: u32 = 0;
            while y < self.nm_height
                invariant
                    self.wf(),
                    u == crate::linalg::sinverse(crate::linalg::stranspose(*m)),
                    x < self.nm_width,
                    y <= self.nm_height,
                    col@.len() == y as int,
                    zero.raw == 0,
                    forall|b: int|
                        0 <= b < y as int ==> #[trigger] col@[b] == snormalize3(
                            strans_dir(u, self.normals_tex@[x as int]@[b]),
                        ),
                decreases self.nm_height - y,
            {
                let n = self.normals_tex[x as usize][y as usize];
                col.push(u.mul_vec(n.to_h(zero)).xyz().normalize());
                y = y + 1;
            }
            grid.push(col);
            x = x + 1;
        }
        self.normals = out;
        self.normals_tex = grid;
    }

    /// Re-expresses the light direction: it is carried through `m` as a
    /// direction (with `w = 0`, so translation does not apply) and
    /// renormalized.
    pub fn trans_light(&mut self, m: &Mat4)
        requires
            old(self).wf(),
        ensures
            final(self).wf(),
            *final(self) == (WModel {
                light: snormalize3(strans_dir(*m, old(self).light)),
                ..*old(self)
            }),
    {
        let h = m.mul_vec(self.light.to_h(Fx { raw: 0 }));
        self.light = h.xyz().normalize();
    }
}

/// Computes the clamped texture sample index for one coordinate.
pub fn tex_index(u: Fx, size: u32) -> (i: u32)
    requires
        size >= 1,
    ensures
        i as int == stex_index(u, size as int),
        i < size,
{
    let s = Fx::from_int(size as i64);
    let t: i64 = u.times(s).trunc();
    if t < 0 {
        0
    } else if t >= size as i64 {
        size - 1
    } else {
        t as u32
    }
}

/// Round trip of the normal-map channel convention: a fixed-point channel
/// in `[-1, 1]` encoded into a byte and decoded again loses at most
/// `515 / 65536` (about 2/255), always downward.  The encoded byte is a
/// valid channel value.
pub proof fn lemma_normal_channel_round_trip(t: Fx)
    requires
        -65536 <= t.raw <= 65536,
    ensures
        0 <= encode_channel_raw(t.raw as int) <= 255,
        t.raw - 515 <= decode_channel_raw(encode_channel_raw(t.raw as int)) <= t.raw,
{
    let ti = t.raw as int;
    let k = ti + 65536;
    let n = k * 255;
    let e = encode_channel_raw(ti);
    assert(e == n / 131072);
    lemma_fundamental_div_mod(n, 131072);
    lemma_mod_bound(n, 131072);
    let r1 = n % 131072;
    assert(n == 131072 * e + r1);
    assert(0 <= e <= 255) by (nonlinear_arith)
        requires
            0 <= n <= 131072 * 255,
            n == 131072 * e + r1,
            0 <= r1 < 131072,
    ;
    let m = e * 131072;
    let d = decode_channel_raw(e);
    assert(d == m / 255 - 65536);
    lemma_fundamental_div_mod(m, 255);
    lemma_mod_bound(m, 255);
    let q2 = m / 255;
    let r2 = m % 255;
    assert(m == 255 * q2 + r2);
    assert(m == 131072 * e) by (nonlinear_arith)
        requires
            m == e * 131072,
    ;
    assert(255 * k == 131072 * e + r1);
    assert(255 * k - r1 == 255 * q2 + r2);
    assert(255 * (k - q2) == r1 + r2) by (nonlinear_arith)
        requires
            255 * k - r1 == 255 * q2 + r2,
    ;
    assert(0 <= k - q2 <= 515) by (nonlinear_arith)
        requires
            255 * (k - q2) == r1 + r2,
            0 <= r1 < 131072,
            0 <= r2 < 255,
    ;
    assert(d == ti - (k - q2));
}

} // verus!
