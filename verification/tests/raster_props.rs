//! Rasterizer behaviour: off-screen and degenerate triangles write
//! nothing, the depth test makes draw order irrelevant, and barycentric
//! coordinates are exact at the vertices and sum to one inside.

use tinyraster::buffer::{fx_buffer, init_image, Image, Rgb};
use tinyraster::fixed::Fx;
use tinyraster::linalg::{Mat4, Vec2, Vec3};
use tinyraster::model::WModel;
use tinyraster::render::{barycentric, triangle};
use tinyraster::shader::DepthShader;

const ONE: i64 = 65536;

fn fx(raw: i64) -> Fx {
    Fx { raw }
}

fn v3(x: i64, y: i64, z: i64) -> Vec3 {
    Vec3 { x: fx(x), y: fx(y), z: fx(z) }
}

fn solid_image(w: u32, h: u32, c: Rgb) -> Image {
    let mut img = init_image(w, h);
    for x in 0..w {
        for y in 0..h {
            img.put_pixel(x, y, c);
        }
    }
    img
}

/// Two faces; face 0 samples the white texel, face 1 the red texel.
fn two_face_model() -> WModel {
    let positions = vec![v3(0, 0, 0), v3(ONE, 0, 0), v3(0, ONE, 0)];
    let indices = vec![0, 1, 2, 0, 1, 2];
    let texcoords = vec![
        Vec2 { x: fx(ONE / 4), y: fx(ONE / 2) },
        Vec2 { x: fx(3 * ONE / 4), y: fx(ONE / 2) },
    ];
    let texcoord_indices = vec![0, 0, 0, 1, 1, 1];
    let normals = vec![v3(0, 0, ONE)];
    let normal_indices = vec![0, 0, 0, 0, 0, 0];
    let mut texture = init_image(2, 1);
    texture.put_pixel(0, 0, Rgb { r: 255, g: 255, b: 255 });
    texture.put_pixel(1, 0, Rgb { r: 255, g: 0, b: 0 });
    let specular = init_image(1, 1);
    let normal_map = solid_image(1, 1, Rgb { r: 128, g: 128, b: 255 });
    let light = v3(0, 0, ONE);
    WModel::new(
        positions,
        indices,
        texcoords,
        texcoord_indices,
        normals,
        normal_indices,
        texture,
        specular,
        normal_map,
        light,
    )
}

fn fresh_buffers(w: u32, h: u32) -> (Image, Vec<Fx>) {
    (init_image(w, h), fx_buffer((w * h) as usize, fx(i64::MIN)))
}

fn assert_untouched(img: &Image, zb: &Vec<Fx>) {
    for p in img.pixels.iter() {
        assert_eq!(*p, Rgb { r: 0, g: 0, b: 0 });
    }
    for z in zb.iter() {
        assert_eq!(z.raw, i64::MIN);
    }
}

#[test]
fn offscreen_triangle_writes_no_pixel() {
    let model = two_face_model();
    // fully left of the image
    let (mut img, mut zb) = fresh_buffers(8, 8);
    let mut shader = DepthShader::new(Mat4::identity(), &model);
    let pts = [v3(-5 * ONE, ONE, 0), v3(-3 * ONE, 2 * ONE, 0), v3(-4 * ONE, 5 * ONE, 0)];
    triangle(&model, 0, &pts, &mut img, &mut zb, &mut shader);
    assert_untouched(&img, &zb);
    // fully above the image
    let pts = [v3(ONE, 20 * ONE, 0), v3(3 * ONE, 22 * ONE, 0), v3(5 * ONE, 21 * ONE, 0)];
    triangle(&model, 0, &pts, &mut img, &mut zb, &mut shader);
    assert_untouched(&img, &zb);
}

#[test]
fn degenerate_triangle_writes_no_pixel() {
    let model = two_face_model();
    let (mut img, mut zb) = fresh_buffers(8, 8);
    let mut shader = DepthShader::new(Mat4::identity(), &model);
    // collinear vertices inside the image
    let pts = [v3(ONE, ONE, 0), v3(2 * ONE, 2 * ONE, 0), v3(3 * ONE, 3 * ONE, 0)];
    triangle(&model, 0, &pts, &mut img, &mut zb, &mut shader);
    assert_untouched(&img, &zb);
    // a zero-area (repeated-vertex) triangle
    let pts = [v3(2 * ONE, 2 * ONE, 0), v3(2 * ONE, 2 * ONE, 0), v3(5 * ONE, 5 * ONE, 0)];
    triangle(&model, 0, &pts, &mut img, &mut zb, &mut shader);
    assert_untouched(&img, &zb);
}

#[test]
fn covered_pixel_gets_color_and_depth() {
    let model = two_face_model();
    let (mut img, mut zb) = fresh_buffers(8, 8);
    let mut shader = DepthShader::new(Mat4::identity(), &model);
    let pts = [v3(ONE, ONE, 10 * ONE), v3(6 * ONE, ONE, 10 * ONE), v3(ONE, 6 * ONE, 10 * ONE)];
    triangle(&model, 0, &pts, &mut img, &mut zb, &mut shader);
    // interior pixel (2, 2): white texel, interpolated depth exactly 10
    assert_eq!(img.get_pixel(2, 2), Rgb { r: 255, g: 255, b: 255 });
    assert_eq!(zb[(2 + 2 * 8) as usize].raw, 10 * ONE);
    // the vertex pixel (1, 1) itself is covered and written
    assert_eq!(img.get_pixel(1, 1), Rgb { r: 255, g: 255, b: 255 });
    assert_eq!(zb[(1 + 1 * 8) as usize].raw, 10 * ONE);
    // a bottom-edge pixel between two vertices is written too
    assert_eq!(img.get_pixel(4, 1), Rgb { r: 255, g: 255, b: 255 });
    // a pixel outside the triangle stays untouched
    assert_eq!(img.get_pixel(7, 7), Rgb { r: 0, g: 0, b: 0 });
    assert_eq!(zb[(7 + 7 * 8) as usize].raw, i64::MIN);
}

#[test]
fn draw_order_does_not_change_result() {
    let model = two_face_model();
    // same screen footprint, different constant depths, different texels
    let pts_a = [v3(ONE, ONE, 10 * ONE), v3(6 * ONE, ONE, 10 * ONE), v3(ONE, 6 * ONE, 10 * ONE)];
    let pts_b = [v3(ONE, ONE, 20 * ONE), v3(6 * ONE, ONE, 20 * ONE), v3(ONE, 6 * ONE, 20 * ONE)];

    let (mut img_ab, mut zb_ab) = fresh_buffers(8, 8);
    let mut shader = DepthShader::new(Mat4::identity(), &model);
    triangle(&model, 0, &pts_a, &mut img_ab, &mut zb_ab, &mut shader);
    triangle(&model, 1, &pts_b, &mut img_ab, &mut zb_ab, &mut shader);

    let (mut img_ba, mut zb_ba) = fresh_buffers(8, 8);
    triangle(&model, 1, &pts_b, &mut img_ba, &mut zb_ba, &mut shader);
    triangle(&model, 0, &pts_a, &mut img_ba, &mut zb_ba, &mut shader);

    for i in 0..64usize {
        assert_eq!(img_ab.pixels[i], img_ba.pixels[i]);
        assert_eq!(zb_ab[i].raw, zb_ba[i].raw);
    }
    // the nearer (greater-depth) red triangle wins at an interior pixel
    assert_eq!(img_ab.get_pixel(2, 2), Rgb { r: 255, g: 0, b: 0 });
    assert_eq!(zb_ab[2 + 2 * 8].raw, 20 * ONE);
}

#[test]
fn barycentric_exact_at_vertices() {
    let pts = [v3(ONE, ONE, 0), v3(6 * ONE, ONE, 0), v3(ONE, 6 * ONE, 0)];
    let b0 = barycentric(&pts, Vec2 { x: fx(ONE), y: fx(ONE) });
    assert_eq!((b0.x.raw, b0.y.raw, b0.z.raw), (ONE, 0, 0));
    let b1 = barycentric(&pts, Vec2 { x: fx(6 * ONE), y: fx(ONE) });
    assert_eq!((b1.x.raw, b1.y.raw, b1.z.raw), (0, ONE, 0));
    let b2 = barycentric(&pts, Vec2 { x: fx(ONE), y: fx(6 * ONE) });
    assert_eq!((b2.x.raw, b2.y.raw, b2.z.raw), (0, 0, ONE));
}

#[test]
fn barycentric_sums_to_one_inside() {
    let pts = [v3(ONE, ONE, 0), v3(6 * ONE, ONE, 0), v3(ONE, 6 * ONE, 0)];
    let b = barycentric(&pts, Vec2 { x: fx(2 * ONE), y: fx(2 * ONE) });
    assert_eq!((b.x.raw, b.y.raw, b.z.raw), (39322, 13107, 13107));
    assert!(b.x.raw >= 0 && b.y.raw >= 0 && b.z.raw >= 0);
    let sum = b.x.raw + b.y.raw + b.z.raw;
    assert!((sum - ONE).abs() <= 2);
    // several interior probes
    for (px, py) in [(3, 2), (2, 3), (3, 3), (2, 4)] {
        let b = barycentric(&pts, Vec2 { x: fx(px * ONE), y: fx(py * ONE) });
        let sum = b.x.raw + b.y.raw + b.z.raw;
        assert!((sum - ONE).abs() <= 2);
    }
}

#[test]
fn barycentric_degenerate_marker() {
    let pts = [v3(ONE, ONE, 0), v3(2 * ONE, 2 * ONE, 0), v3(3 * ONE, 3 * ONE, 0)];
    let b = barycentric(&pts, Vec2 { x: fx(2 * ONE), y: fx(2 * ONE) });
    assert_eq!((b.x.raw, b.y.raw, b.z.raw), (-ONE, ONE, ONE));
}

#[test]
fn full_cover_triangle_reaches_last_row_and_column() {
    let model = two_face_model();
    let (mut img, mut zb) = fresh_buffers(8, 8);
    let mut shader = DepthShader::new(Mat4::identity(), &model);
    // a triangle enclosing the whole 8x8 image
    let pts = [
        v3(-20 * ONE, -20 * ONE, 0),
        v3(40 * ONE, -20 * ONE, 0),
        v3(-20 * ONE, 40 * ONE, 0),
    ];
    triangle(&model, 0, &pts, &mut img, &mut zb, &mut shader);
    let white = Rgb { r: 255, g: 255, b: 255 };
    assert_eq!(img.get_pixel(0, 0), white);
    assert_eq!(img.get_pixel(7, 0), white);
    assert_eq!(img.get_pixel(0, 7), white);
    assert_eq!(img.get_pixel(7, 7), white);
    for z in zb.iter() {
        assert!(z.raw != i64::MIN);
    }
}
