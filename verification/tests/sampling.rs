use obscura_webgl::gl_glsl::{fetch_texel1d, fetch_texel2d, fetch_texel3d, get_texture, texture_size, wrap};
use obscura_webgl::gl_types::{
    GlTexture, GL_CLAMP_TO_BORDER, GL_CLAMP_TO_EDGE, GL_MIRRORED_REPEAT, GL_NUM_TEXTURE_TYPES, GL_REPEAT, GL_TEXTURE_2D,
    GL_TEXTURE_UNBOUND,
};
use obscura_webgl::gl_context::GlContext;
use obscura_webgl::math::IVec3;

#[test]
fn test_wrap_repeat() {
    assert_eq!(wrap(5, 4, GL_REPEAT), 1);
    assert_eq!(wrap(-1, 4, GL_REPEAT), 3);
    assert_eq!(wrap(0, 4, GL_REPEAT), 0);
    assert_eq!(wrap(3, 4, GL_REPEAT), 3);
}

#[test]
fn test_wrap_clamp_to_edge() {
    assert_eq!(wrap(-1, 4, GL_CLAMP_TO_EDGE), 0);
    assert_eq!(wrap(5, 4, GL_CLAMP_TO_EDGE), 3);
    assert_eq!(wrap(2, 4, GL_CLAMP_TO_EDGE), 2);
}

#[test]
fn test_wrap_mirrored_repeat() {
    assert_eq!(wrap(0, 4, GL_MIRRORED_REPEAT), 0);
    assert_eq!(wrap(3, 4, GL_MIRRORED_REPEAT), 3);
    assert_eq!(wrap(4, 4, GL_MIRRORED_REPEAT), 3);
    assert_eq!(wrap(7, 4, GL_MIRRORED_REPEAT), 0);
}

#[test]
fn wrap_clamp_to_border_marks_outside() {
    assert_eq!(wrap(-1, 4, GL_CLAMP_TO_BORDER), -1);
    assert_eq!(wrap(4, 4, GL_CLAMP_TO_BORDER), -1);
    assert_eq!(wrap(2, 4, GL_CLAMP_TO_BORDER), 2);
}

#[test]
fn wrap_is_periodic() {
    for i in -20..20 {
        assert_eq!(wrap(i, 4, GL_REPEAT), wrap(i + 4, 4, GL_REPEAT));
        assert_eq!(wrap(i, 4, GL_MIRRORED_REPEAT), wrap(i + 8, 4, GL_MIRRORED_REPEAT));
        let r = wrap(i, 5, GL_MIRRORED_REPEAT);
        assert!((0..5).contains(&r));
    }
    assert_eq!(wrap(-9, 4, GL_MIRRORED_REPEAT), 0);
    assert_eq!(wrap(-5, 4, GL_MIRRORED_REPEAT), 3);
}

fn texture(w: i32, h: i32, d: i32, texels: &[u32]) -> GlTexture {
    let mut t = GlTexture::empty();
    t.w = w;
    t.h = h;
    t.d = d;
    t.type_ = GL_TEXTURE_2D;
    for p in texels {
        t.data.extend_from_slice(&p.to_le_bytes());
    }
    t
}

#[test]
fn texel_fetch_clamps_coordinates() {
    let t = texture(2, 2, 1, &[0x11, 0x22, 0x33, 0x44]);
    assert_eq!(fetch_texel2d(&t, 0, 0), Some(0x11));
    assert_eq!(fetch_texel2d(&t, 1, 0), Some(0x22));
    assert_eq!(fetch_texel2d(&t, 0, 1), Some(0x33));
    assert_eq!(fetch_texel2d(&t, 1, 1), Some(0x44));
    assert_eq!(fetch_texel2d(&t, -5, 7), Some(0x33));
    assert_eq!(fetch_texel2d(&t, 9, -1), Some(0x22));
    assert_eq!(fetch_texel1d(&t, 5), Some(0x22));
    assert_eq!(fetch_texel1d(&t, -3), Some(0x11));
    assert_eq!(fetch_texel3d(&t, 1, 1, 3), Some(0x44));
}

#[test]
fn texel_fetch_of_empty_texture_is_none() {
    let t = GlTexture::empty();
    assert_eq!(fetch_texel1d(&t, 0), None);
    assert_eq!(fetch_texel2d(&t, 0, 0), None);
    assert_eq!(fetch_texel3d(&t, 0, 0, 0), None);
}

#[test]
fn texture_lookup_falls_back_to_defaults() {
    let textures = vec![GlTexture::empty(), texture(3, 2, 1, &[0; 6])];
    let defaults = vec![texture(1, 1, 1, &[7]); 8];
    assert_eq!(texture_size(&textures, &defaults, 1, 0), IVec3 { x: 3, y: 2, z: 1 });
    assert_eq!(texture_size(&textures, &defaults, 0, 0), IVec3 { x: 1, y: 1, z: 1 });
    assert_eq!(texture_size(&textures, &defaults, 9, 0), IVec3 { x: 1, y: 1, z: 1 });
    assert_eq!(texture_size(&textures, &Vec::new(), 9, 0), IVec3 { x: 0, y: 0, z: 0 });
    assert_eq!(get_texture(&textures, &defaults, 1, GL_TEXTURE_2D).w, 3);
    assert_eq!(get_texture(&textures, &defaults, 0, GL_TEXTURE_2D).w, 1);
}

/// A 2x2 ABGR texture: red, green on the first row; blue, white below.
fn make_2x2_texture() -> GlTexture {
    let red: u32 = 0xFF0000FF;
    let green: u32 = 0xFF00FF00;
    let blue: u32 = 0xFFFF0000;
    let white: u32 = 0xFFFFFFFF;
    let mut data = Vec::with_capacity(16);
    for pixel in &[red, green, blue, white] {
        data.extend_from_slice(&pixel.to_ne_bytes());
    }
    let mut t = GlTexture::default();
    t.w = 2;
    t.h = 2;
    t.d = 1;
    t.type_ = GL_TEXTURE_2D;
    t.data = data;
    t
}

#[test]
fn test_texture_size() {
    let mut ctx = GlContext::default();
    ctx.objects.textures.push(GlTexture::default());
    ctx.objects.textures.push(make_2x2_texture());
    let num_targets = (GL_NUM_TEXTURE_TYPES - GL_TEXTURE_UNBOUND) as usize;
    ctx.objects.default_textures = vec![GlTexture::default(); num_targets];
    let sz = ctx.texture_size(1, 0);
    assert_eq!(sz.x, 2);
    assert_eq!(sz.y, 2);
    assert_eq!(sz.z, 1);
    let textures = vec![GlTexture::default(), make_2x2_texture()];
    assert_eq!(texture_size(&textures, &ctx.objects.default_textures, 1, 0), sz);
}

#[test]
fn texel_fetch_reads_the_packed_texels() {
    let tex = make_2x2_texture();
    assert_eq!(fetch_texel2d(&tex, 1, 0), Some(0xFF00FF00));
    assert_eq!(fetch_texel2d(&tex, 0, 1), Some(0xFFFF0000));
}

#[test]
fn wrap_handles_large_textures() {
    let half = i32::MAX / 2;
    assert_eq!(wrap(1, half, GL_MIRRORED_REPEAT), 1);
    assert_eq!(wrap(-1, half, GL_MIRRORED_REPEAT), 0);
    assert_eq!(wrap(-half, half, GL_MIRRORED_REPEAT), half - 1);
    assert_eq!(wrap(-1, i32::MAX, GL_REPEAT), i32::MAX - 1);
    assert_eq!(wrap(0, i32::MAX, GL_REPEAT), 0);
}

#[test]
fn wrap_with_negative_size_follows_rust_remainders() {
    assert_eq!(wrap(5, -4, GL_REPEAT), -3);
    assert_eq!(wrap(-5, -4, GL_REPEAT), -1);
    assert_eq!(wrap(3, -2, GL_MIRRORED_REPEAT), -4);
    assert_eq!(wrap(2, -3, GL_CLAMP_TO_BORDER), -1);
}
