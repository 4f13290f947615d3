//! The scene model, the normal-map codec, and the two-pass pipeline on a
//! single axis-aligned unit quad.

use tinyraster::buffer::{fx_buffer, init_image, Image, Rgb};
use tinyraster::fixed::Fx;
use tinyraster::geometry::{get_lookat, get_projection, get_viewport};
use tinyraster::linalg::{Mat4, Vec2, Vec3};
use tinyraster::model::{decode_channel, decode_normal, encode_channel, WModel};
use tinyraster::render::{render_obj, triangle, RenderConfig};
use tinyraster::shader::{DepthShader, GouphShader, Shader};

const ONE: i64 = 65536;

/// Focal scale for a 45-degree vertical field of view: cot(pi/8).
const FOCAL: i64 = 158218;

fn fx(raw: i64) -> Fx {
    Fx { raw }
}

fn v3(x: i64, y: i64, z: i64) -> Vec3 {
    Vec3 { x: fx(x), y: fx(y), z: fx(z) }
}

fn solid_image(w: u32, h: u32, c: Rgb) -> Image {
    let mut img = init_image(w, h);
    for x in 0..w {
        for y in 0..h {
            img.put_pixel(x, y, c);
        }
    }
    img
}

/// A unit quad in the plane z = 0, facing +z, with a white diffuse
/// texture, no specular highlight, a flat normal map, and the light on
/// the +z axis.
fn quad_model() -> WModel {
    let half = ONE / 2;
    let positions = vec![
        v3(-half, -half, 0),
        v3(half, -half, 0),
        v3(half, half, 0),
        v3(-half, half, 0),
    ];
    let indices = vec![0, 1, 2, 0, 2, 3];
    let texcoords = vec![Vec2 { x: fx(ONE / 2), y: fx(ONE / 2) }];
    let texcoord_indices = vec![0, 0, 0, 0, 0, 0];
    let normals = vec![v3(0, 0, ONE)];
    let normal_indices = vec![0, 0, 0, 0, 0, 0];
    let texture = solid_image(1, 1, Rgb { r: 255, g: 255, b: 255 });
    let specular = init_image(1, 1);
    let normal_map = solid_image(1, 1, Rgb { r: 128, g: 128, b: 255 });
    WModel::new(
        positions,
        indices,
        texcoords,
        texcoord_indices,
        normals,
        normal_indices,
        texture,
        specular,
        normal_map,
        v3(0, 0, ONE),
    )
}

#[test]
fn model_accessors() {
    let model = quad_model();
    assert_eq!(model.face_num, 2);
    assert_eq!(model.get_face(0), [0, 1, 2]);
    assert_eq!(model.get_face(1), [0, 2, 3]);
    let v = model.get_vertex(2);
    assert_eq!((v.x.raw, v.y.raw, v.z.raw), (ONE / 2, ONE / 2, 0));
    let uv = model.get_uv(1, 2);
    assert_eq!((uv.x.raw, uv.y.raw), (ONE / 2, ONE / 2));
    let ns = model.get_face_normal(0);
    assert_eq!((ns[1].x.raw, ns[1].y.raw, ns[1].z.raw), (0, 0, ONE));
    // light is stored normalized
    assert_eq!((model.light.x.raw, model.light.y.raw, model.light.z.raw), (0, 0, ONE));
}

#[test]
fn normal_map_is_decoded_at_load() {
    let model = quad_model();
    // texel (128, 128, 255) decodes and normalizes to (256, 256, 65535)
    let n = model.get_normal_tex(Vec2 { x: fx(ONE / 2), y: fx(ONE / 2) });
    assert_eq!((n.x.raw, n.y.raw, n.z.raw), (256, 256, 65535));
}

#[test]
fn interpolated_normal_is_unit() {
    let model = quad_model();
    let n = model.get_normal(0, v3(ONE / 4, ONE / 4, ONE / 2));
    assert_eq!((n.x.raw, n.y.raw, n.z.raw), (0, 0, ONE));
}

#[test]
fn trans_light_identity_keeps_unit_light() {
    let mut model = quad_model();
    model.trans_light(&Mat4::identity());
    assert_eq!((model.light.x.raw, model.light.y.raw, model.light.z.raw), (0, 0, ONE));
}

#[test]
fn trans_light_ignores_translation() {
    // the light is a direction: a pure translation must not move it
    let mut model = quad_model();
    let mut m = Mat4::identity();
    m.r0.w = fx(7 * ONE);
    m.r1.w = fx(-3 * ONE);
    m.r2.w = fx(11 * ONE);
    model.trans_light(&m);
    assert_eq!((model.light.x.raw, model.light.y.raw, model.light.z.raw), (0, 0, ONE));
}

#[test]
fn trans_normals_identity_renormalizes() {
    let mut model = quad_model();
    model.trans_normals(&Mat4::identity());
    let ns = model.get_face_normal(1);
    assert_eq!((ns[0].x.raw, ns[0].y.raw, ns[0].z.raw), (0, 0, ONE));
    let n = model.get_normal_tex(Vec2 { x: fx(0), y: fx(0) });
    assert_eq!((n.x.raw, n.y.raw, n.z.raw), (256, 256, 65535));
}

#[test]
fn channel_codec_exact_values() {
    assert_eq!(decode_channel(0).raw, -ONE);
    assert_eq!(decode_channel(128).raw, 257);
    assert_eq!(decode_channel(255).raw, ONE);
    assert_eq!(encode_channel(fx(-ONE)), 0);
    assert_eq!(encode_channel(fx(0)), 127);
    assert_eq!(encode_channel(fx(ONE)), 255);
}

#[test]
fn channel_round_trip_within_tolerance() {
    for t in [-ONE, -30000, -1, 0, 1, 257, 30000, ONE] {
        let e = encode_channel(fx(t));
        let d = decode_channel(e).raw;
        assert!(d <= t, "decode overshot: {} -> {} -> {}", t, e, d);
        assert!(t - d <= 515, "decode lost too much: {} -> {} -> {}", t, e, d);
    }
}

#[test]
fn normal_round_trip_on_unit_vector() {
    // encode (0, 0, 1) into RGB, decode, renormalize
    let c = Rgb {
        r: encode_channel(fx(0)),
        g: encode_channel(fx(0)),
        b: encode_channel(fx(ONE)),
    };
    assert_eq!((c.r, c.g, c.b), (127, 127, 255));
    let n = decode_normal(c).normalize();
    assert_eq!((n.x.raw, n.y.raw, n.z.raw), (-257, -257, 65535));
    // within 2/255 of the starting vector on every channel
    assert!(n.x.raw.abs() <= 515 && n.y.raw.abs() <= 515 && (ONE - n.z.raw).abs() <= 515);
}

/// The transforms of the quad scene, shared by the shadow tests.
struct SceneMats {
    light_conv: Mat4,
    cam_conv: Mat4,
    trans_nm: Mat4,
    trans_shadow: Mat4,
    lookat_cam: Mat4,
}

fn scene_mats(model: &WModel) -> SceneMats {
    let viewport = get_viewport(
        fx(8 * ONE),
        fx(8 * ONE),
        fx(48 * ONE),
        fx(48 * ONE),
    );
    let origin = v3(0, 0, 0);
    let up = v3(0, ONE, 0);
    let lookat_light = get_lookat(model.light, origin, up);
    let light_conv = viewport.mul_mat(Mat4::identity()).mul_mat(lookat_light);
    let projection = get_projection(fx(FOCAL), fx(ONE), Fx::from_int(-1));
    let lookat_cam = get_lookat(v3(0, 0, 3 * ONE), origin, up);
    let cam_conv = viewport.mul_mat(projection).mul_mat(lookat_cam);
    let trans_nm = lookat_cam.transpose().try_inverse().expect("view invertible");
    let trans_shadow = light_conv.mul_mat(cam_conv.try_inverse().expect("invertible"));
    SceneMats { light_conv, cam_conv, trans_nm, trans_shadow, lookat_cam }
}

fn run_pass<S: Shader>(
    model: &WModel,
    img: &mut Image,
    zb: &mut Vec<Fx>,
    shader: &mut S,
) {
    for i in 0..model.face_num {
        let p0 = shader.vertex(i, 0);
        let p1 = shader.vertex(i, 1);
        let p2 = shader.vertex(i, 2);
        let pts = [p0, p1, p2];
        triangle(model, i, &pts, img, zb, shader);
    }
}

/// A flat, unoccluded plane lit from directly above must not shadow
/// itself: rendering with the real shadow buffer gives the same image as
/// rendering with an empty (all-minimum) one.
#[test]
fn flat_plane_has_no_self_shadowing() {
    let model = quad_model();
    let mats = scene_mats(&model);
    let n: usize = 64 * 64;

    let mut shadow_img = init_image(64, 64);
    let mut shadow_buf = fx_buffer(n, fx(i64::MIN));
    let mut dshader = DepthShader::new(mats.light_conv, &model);
    run_pass(&model, &mut shadow_img, &mut shadow_buf, &mut dshader);
    // the shadow pass must have recorded the quad
    assert!(shadow_buf.iter().any(|z| z.raw != i64::MIN));

    let mut img_real = init_image(64, 64);
    let mut zb_real = fx_buffer(n, fx(i64::MIN));
    let mut gshader = GouphShader::new(
        mats.cam_conv,
        &model,
        mats.trans_nm,
        mats.trans_shadow,
        mats.lookat_cam,
        shadow_buf.clone(),
        64,
        64,
    );
    run_pass(&model, &mut img_real, &mut zb_real, &mut gshader);

    let mut img_empty = init_image(64, 64);
    let mut zb_empty = fx_buffer(n, fx(i64::MIN));
    let mut gshader2 = GouphShader::new(
        mats.cam_conv,
        &model,
        mats.trans_nm,
        mats.trans_shadow,
        mats.lookat_cam,
        fx_buffer(n, fx(i64::MIN)),
        64,
        64,
    );
    run_pass(&model, &mut img_empty, &mut zb_empty, &mut gshader2);

    for i in 0..n {
        assert_eq!(img_real.pixels[i], img_empty.pixels[i]);
    }
}

/// End to end: the quad renders as one uniform lit color over a black
/// background, and the depth buffer is written exactly where the quad is.
#[test]
fn unit_quad_end_to_end() {
    let model = quad_model();
    let mut image = init_image(64, 64);
    let config = RenderConfig { camera: v3(0, 0, 3 * ONE), focal: fx(FOCAL), aspect: fx(ONE) };
    let out = render_obj(&model, &mut image, &config);

    let black = Rgb { r: 0, g: 0, b: 0 };
    let mut covered = 0usize;
    let mut quad_color: Option<Rgb> = None;
    for i in 0..(64 * 64) as usize {
        let c = image.pixels[i];
        let wrote = out.z_buffer[i].raw != i64::MIN;
        if c == black {
            // background: untouched depth
            assert!(!wrote, "depth written without color at {}", i);
        } else {
            assert!(wrote, "color written without depth at {}", i);
            covered += 1;
            match quad_color {
                None => quad_color = Some(c),
                Some(q) => assert_eq!(c, q, "quad not uniformly lit at {}", i),
            }
        }
    }
    assert!(covered > 50, "quad should cover a real region, got {}", covered);
    assert!(covered < 64 * 64, "background must remain");

    // the shadow image recorded the quad as well (white texture sample)
    let lit = out
        .shadow_image
        .pixels
        .iter()
        .filter(|c| **c == Rgb { r: 255, g: 255, b: 255 })
        .count();
    assert!(lit > 50);
}
