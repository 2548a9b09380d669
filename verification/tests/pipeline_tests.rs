use softrender::color::Color;
use softrender::fixed::FX_ONE;
use softrender::framebuffer::Framebuffer;
use softrender::geometry::{Mat4, Vec2, Vec3};
use softrender::noise::Noise;
use softrender::obj::Obj;
use softrender::pipeline::{render, shade_fragment, PlanetShader};
use softrender::shader::vertex_shader;
use softrender::texture::Texture;
use softrender::triangle::triangle;
use softrender::uniforms::{
    create_model_matrix, create_projection_matrix, create_viewport_matrix, look_at_matrix,
    time_fx, Uniforms,
};
use softrender::vertex::Vertex;
use softrender::fragment::Fragment;

fn small_texture() -> Texture {
    let data = vec![
        Color::new(10, 10, 10),
        Color::new(20, 20, 20),
        Color::new(30, 30, 30),
        Color::new(40, 40, 40),
    ];
    Texture::new(2, 2, data).expect("2x2 texture")
}

#[test]
fn look_at_target_lands_at_the_viewport_center() {
    let eye = Vec3 { x: 0, y: 0, z: 30 * FX_ONE };
    let center = Vec3 { x: 0, y: 0, z: 0 };
    let up = Vec3 { x: 0, y: FX_ONE, z: 0 };
    let view = look_at_matrix(eye, center, up);
    let projection = create_projection_matrix(1000 * FX_ONE, 1000 * FX_ONE);
    let viewport = create_viewport_matrix(1000 * FX_ONE, 1000 * FX_ONE);
    let mut uniforms = Uniforms::new(Mat4::identity(), view, projection);
    uniforms.viewport_matrix = viewport;
    let vertex = Vertex::new(
        center,
        Vec3 { x: 0, y: 0, z: FX_ONE },
        Vec2 { x: 0, y: 0 },
        Color::new(255, 255, 255),
    );
    let out = vertex_shader(&vertex, &uniforms);
    let px = out.transformed_position.x;
    let py = out.transformed_position.y;
    assert!(
        (px - 500 * FX_ONE).abs() <= FX_ONE,
        "x {} not within one pixel of the center",
        px
    );
    assert!(
        (py - 500 * FX_ONE).abs() <= FX_ONE,
        "y {} not within one pixel of the center",
        py
    );
}

#[test]
fn single_pixel_triangle_end_to_end() {
    // a tiny triangle around pixel (1, 1) with color (200, 100, 50)
    // and depth one half, into a cleared black 4x4 framebuffer
    let c = Color::new(200, 100, 50);
    let corners = [
        (39322i64, 39322i64),
        (91750, 39322),
        (39322, 91750),
    ];
    let mut vs = Vec::new();
    for &(x, y) in &corners {
        let mut v = Vertex::new(
            Vec3 { x, y, z: 32768 },
            Vec3 { x: 0, y: 0, z: FX_ONE },
            Vec2 { x: 0, y: 0 },
            c,
        );
        v.transformed_position = Vec3 { x, y, z: 32768 };
        vs.push(v);
    }
    let frags = triangle(&vs[0], &vs[1], &vs[2], 4, 4);
    assert_eq!(frags.len(), 1);
    let mut fb = Framebuffer::new(4, 4);
    for f in &frags {
        let x = (f.position.x / FX_ONE) as usize;
        let y = (f.position.y / FX_ONE) as usize;
        fb.set_current_color(f.color.to_hex());
        fb.point(x, y, f.depth);
    }
    for y in 0..4 {
        for x in 0..4 {
            let expected = if (x, y) == (1, 1) { 0xC86432 } else { 0 };
            assert_eq!(fb.buffer[y * 4 + x], expected, "pixel ({}, {})", x, y);
        }
    }
}

#[test]
fn noise_is_deterministic_and_bounded() {
    let n = Noise::new(42, 6554);
    for x in (-300000i64..300000).step_by(65536) {
        for y in (-300000i64..300000).step_by(65536) {
            let a = n.get_noise_2d(x, y);
            let b = n.get_noise_2d(x, y);
            assert_eq!(a, b);
            assert!((-FX_ONE..=FX_ONE).contains(&a));
        }
    }
    // different seeds give different fields somewhere
    let m = Noise::new(43, 6554);
    let mut differs = false;
    for x in 0..20i64 {
        if n.get_noise_2d(x * FX_ONE, 0) != m.get_noise_2d(x * FX_ONE, 0) {
            differs = true;
        }
    }
    assert!(differs);
}

#[test]
fn texture_sampling_wraps_fractionally() {
    let t = small_texture();
    assert_eq!(t.width(), 2);
    assert_eq!(t.height(), 2);
    assert_eq!(t.sample(0, 0), Color::new(10, 10, 10));
    // u = 0.5 addresses the right column
    assert_eq!(t.sample(32768, 0), Color::new(20, 20, 20));
    // v = 0.5 addresses the bottom row
    assert_eq!(t.sample(0, 32768), Color::new(30, 30, 30));
    // whole parts wrap away: u = 1.5 samples like u = 0.5
    assert_eq!(t.sample(FX_ONE + 32768, 0), Color::new(20, 20, 20));
    // negative coordinates address by magnitude of the fraction
    assert_eq!(t.sample(-32768, 0), Color::new(20, 20, 20));
}

#[test]
fn texture_rejects_bad_dimensions() {
    assert!(Texture::new(0, 2, vec![]).is_none());
    assert!(Texture::new(2, 2, vec![Color::black(); 3]).is_none());
    assert!(Texture::new(2, 2, vec![Color::black(); 4]).is_some());
}

#[test]
fn obj_expands_indices_into_vertices() {
    let verts = vec![
        Vec3 { x: 0, y: 0, z: 0 },
        Vec3 { x: FX_ONE, y: 0, z: 0 },
        Vec3 { x: 0, y: FX_ONE, z: 0 },
    ];
    let normals = vec![Vec3 { x: 0, y: 0, z: FX_ONE }];
    let tex = vec![Vec2 { x: 0, y: 0 }];
    let o = Obj::new(verts, normals, tex, vec![0, 1, 2]).expect("valid mesh");
    let va = o.get_vertex_array();
    assert_eq!(va.len(), 3);
    assert_eq!(va[0].position, Vec3 { x: 0, y: 0, z: 0 });
    assert_eq!(va[0].normal, Vec3 { x: 0, y: 0, z: FX_ONE });
    // indices beyond the normal array fall back to the zero vector
    assert_eq!(va[1].normal, Vec3 { x: 0, y: 0, z: 0 });
    assert_eq!(va[2].tex_coords, Vec2 { x: 0, y: 0 });
    assert_eq!(va[1].color, Color::black());
}

#[test]
fn obj_rejects_out_of_range_indices() {
    let verts = vec![Vec3 { x: 0, y: 0, z: 0 }];
    assert!(Obj::new(verts, vec![], vec![], vec![0, 1]).is_none());
}

#[test]
fn time_scalar_is_bounded() {
    assert_eq!(time_fx(5), 5 * FX_ONE);
    assert_eq!(time_fx(16384), 0);
    assert_eq!(time_fx(16385), FX_ONE);
}

#[test]
fn shade_dispatch_covers_every_kind() {
    let tex = small_texture();
    let uniforms = Uniforms::new(Mat4::identity(), Mat4::identity(), Mat4::identity());
    let frag = Fragment::new(
        Vec2 { x: 3 * FX_ONE, y: 4 * FX_ONE },
        Color::new(120, 130, 140),
        32768,
        Vec3 { x: 0, y: 0, z: FX_ONE },
        FX_ONE,
        Vec3 { x: 16384, y: 16384, z: 0 },
        Vec2 { x: 16384, y: 49152 },
    );
    let kinds = [
        PlanetShader::Rocky,
        PlanetShader::Gaseous,
        PlanetShader::Frozen,
        PlanetShader::Earth,
        PlanetShader::Oceanic,
        PlanetShader::Ufo,
        PlanetShader::Gargantua,
        PlanetShader::Wormhole,
    ];
    for kind in kinds {
        let (base, emission) = shade_fragment(&kind, &frag, &uniforms, &tex);
        let _ = base.to_hex();
        match kind {
            PlanetShader::Gargantua | PlanetShader::Wormhole => assert!(emission.is_some()),
            _ => assert!(emission.is_none()),
        }
    }
    // the textured ocean is exactly the sampled texel
    let (ocean, _) = shade_fragment(&PlanetShader::Oceanic, &frag, &uniforms, &tex);
    assert_eq!(ocean, tex.sample(frag.tex_coords.x, frag.tex_coords.y));
}

#[test]
fn render_preserves_the_resolution_and_draws_something() {
    let tex = small_texture();
    let uniforms = Uniforms::new(Mat4::identity(), Mat4::identity(), Mat4::identity());
    let mut fb = Framebuffer::new(8, 8);
    // a screen-space triangle; identity matrices keep it in place
    let c = Color::new(50, 60, 70);
    let mut vs = Vec::new();
    for &(x, y) in &[(FX_ONE, FX_ONE), (6 * FX_ONE, FX_ONE), (FX_ONE, 6 * FX_ONE)] {
        let v = Vertex::new(
            Vec3 { x, y, z: 32768 },
            Vec3 { x: 0, y: 0, z: FX_ONE },
            Vec2 { x: 0, y: 0 },
            c,
        );
        vs.push(v);
    }
    render(&mut fb, &uniforms, &vs, &PlanetShader::Rocky, &tex);
    assert_eq!(fb.width(), 8);
    assert_eq!(fb.height(), 8);
    let drawn = fb.buffer.iter().filter(|&&p| p != 0).count();
    assert!(drawn > 0, "render left the buffer entirely black");
}

#[test]
fn model_matrix_places_and_scales() {
    let m = create_model_matrix(Vec3 { x: 2 * FX_ONE, y: 0, z: -FX_ONE }, 3 * FX_ONE);
    assert_eq!(m.r0.x, 3 * FX_ONE);
    assert_eq!(m.r0.w, 2 * FX_ONE);
    assert_eq!(m.r2.w, -FX_ONE);
    assert_eq!(m.r3.w, FX_ONE);
}

fn one_pixel_triangle(depth: i64, color: Color) -> Vec<Vertex> {
    // covers exactly pixel (1, 1) once transformed by identity matrices
    let corners = [(39322i64, 39322i64), (91750, 39322), (39322, 91750)];
    let mut vs = Vec::new();
    for &(x, y) in &corners {
        let v = Vertex::new(
            Vec3 { x, y, z: depth },
            Vec3 { x: 0, y: 0, z: FX_ONE },
            Vec2 { x: 0, y: 0 },
            color,
        );
        vs.push(v);
    }
    vs
}

#[test]
fn render_touches_only_the_covered_pixel() {
    let tex = small_texture();
    let uniforms = Uniforms::new(Mat4::identity(), Mat4::identity(), Mat4::identity());
    let mut fb = Framebuffer::new(4, 4);
    let vs = one_pixel_triangle(32768, Color::new(200, 100, 50));
    render(&mut fb, &uniforms, &vs, &PlanetShader::Rocky, &tex);
    for y in 0..4 {
        for x in 0..4 {
            if (x, y) == (1, 1) {
                assert_ne!(fb.buffer[y * 4 + x], 0, "covered pixel left black");
                assert_eq!(fb.zbuffer[y * 4 + x], 32768);
            } else {
                assert_eq!(fb.buffer[y * 4 + x], 0, "pixel ({}, {}) touched", x, y);
                assert_eq!(fb.zbuffer[y * 4 + x], softrender::framebuffer::DEPTH_FAR);
            }
        }
    }
    assert_eq!(fb.emission_buffer, vec![0u32; 16]);
}

#[test]
fn render_discards_a_trailing_partial_group() {
    let tex = small_texture();
    let uniforms = Uniforms::new(Mat4::identity(), Mat4::identity(), Mat4::identity());
    let mut fb = Framebuffer::new(4, 4);
    // two vertices make no triangle: the framebuffer must not change
    let mut vs = one_pixel_triangle(32768, Color::new(9, 9, 9));
    vs.truncate(2);
    let colors = fb.buffer.clone();
    let depths = fb.zbuffer.clone();
    let emission = fb.emission_buffer.clone();
    render(&mut fb, &uniforms, &vs, &PlanetShader::Rocky, &tex);
    assert_eq!(fb.buffer, colors);
    assert_eq!(fb.zbuffer, depths);
    assert_eq!(fb.emission_buffer, emission);
    // five vertices draw one triangle and discard the trailing pair
    let mut vs5 = one_pixel_triangle(32768, Color::new(9, 9, 9));
    vs5.extend(one_pixel_triangle(32768, Color::new(9, 9, 9)).into_iter().take(2));
    render(&mut fb, &uniforms, &vs5, &PlanetShader::Rocky, &tex);
    assert_ne!(fb.buffer[1 * 4 + 1], 0);
}

#[test]
fn emissive_write_shares_the_depth_test() {
    let tex = small_texture();
    let uniforms = Uniforms::new(Mat4::identity(), Mat4::identity(), Mat4::identity());
    // an unoccluded emissive surface lights the emission plane
    let mut fb = Framebuffer::new(4, 4);
    let garg = one_pixel_triangle(49152, Color::new(0, 0, 0));
    render(&mut fb, &uniforms, &garg, &PlanetShader::Gargantua, &tex);
    // the base color and the emission are the sampled texel (10,10,10)
    assert_eq!(fb.buffer[1 * 4 + 1], 0x0A0A0A);
    assert_eq!(fb.emission_buffer[1 * 4 + 1], 0x0A0A0A);
    // the same surface behind an already-drawn nearer one stays dark
    let mut fb2 = Framebuffer::new(4, 4);
    let near = one_pixel_triangle(16384, Color::new(5, 5, 5));
    render(&mut fb2, &uniforms, &near, &PlanetShader::Rocky, &tex);
    render(&mut fb2, &uniforms, &garg, &PlanetShader::Gargantua, &tex);
    assert_eq!(
        fb2.emission_buffer,
        vec![0u32; 16],
        "an occluded fragment must not light the emission plane"
    );
}

#[test]
fn viewport_scales_ndc_to_pixels() {
    let m = create_viewport_matrix(1000 * FX_ONE, 1000 * FX_ONE);
    // NDC (1, -1) maps to the far corner (width, height)
    let far = m.mul_vec4(&softrender::geometry::Vec4 { x: FX_ONE, y: -FX_ONE, z: 0, w: FX_ONE });
    assert_eq!(far.x, 1000 * FX_ONE);
    assert_eq!(far.y, 1000 * FX_ONE);
    // NDC (-1, 1) maps to the origin, with y flipped
    let origin = m.mul_vec4(
        &softrender::geometry::Vec4 { x: -FX_ONE, y: FX_ONE, z: 0, w: FX_ONE },
    );
    assert_eq!(origin.x, 0);
    assert_eq!(origin.y, 0);
    // NDC x = 0.5 lands three quarters of the way across
    let mid = m.mul_vec4(&softrender::geometry::Vec4 { x: 32768, y: 0, z: 0, w: FX_ONE });
    assert_eq!(mid.x, 750 * FX_ONE);
    assert_eq!(mid.y, 500 * FX_ONE);
}

#[test]
fn vertex_stage_applies_the_viewport_scale() {
    // identity transformation: the position is already NDC, and the
    // vertex stage must spread it across the whole viewport
    let mut uniforms = Uniforms::new(Mat4::identity(), Mat4::identity(), Mat4::identity());
    uniforms.viewport_matrix = create_viewport_matrix(100 * FX_ONE, 100 * FX_ONE);
    let vertex = Vertex::new(
        Vec3 { x: 32768, y: 32768, z: 0 },
        Vec3 { x: 0, y: 0, z: FX_ONE },
        Vec2 { x: 0, y: 0 },
        Color::new(1, 2, 3),
    );
    let out = vertex_shader(&vertex, &uniforms);
    assert_eq!(out.transformed_position.x, 75 * FX_ONE);
    assert_eq!(out.transformed_position.y, 25 * FX_ONE);
}
