use obscura_webgl::gl_context::GlContext;
use obscura_webgl::gl_types::{
    GL_ARRAY_BUFFER, GL_INVALID_ENUM, GL_INVALID_OPERATION, GL_LINEAR, GL_NO_ERROR, GL_RGBA, GL_STATIC_DRAW,
    GL_TEXTURE_2D, GL_UNSIGNED_BYTE,
};
use obscura_webgl::math::Color;
use obscura_webgl::net::boring_tls::{compress, decompress};

fn context(w: i32, h: i32) -> GlContext {
    let mut ctx = GlContext::new();
    ctx.init(w, h);
    ctx
}

fn lit(ctx: &GlContext) -> Vec<(i32, i32)> {
    let w = ctx.back_buffer.w;
    let mut v = Vec::new();
    for (i, px) in ctx.back_buffer.buf.chunks(4).enumerate() {
        if px != [0, 0, 0, 0] {
            v.push((i as i32 % w, i as i32 / w));
        }
    }
    v
}

#[test]
fn put_pixel_counts_rows_from_the_top_and_skips_outside() {
    let mut ctx = context(3, 2);
    let c = Color::new(1, 2, 3, 4);
    ctx.put_pixel(c, 2, 1);
    assert_eq!(&ctx.back_buffer.buf[20..24], &[1, 2, 3, 4]);
    ctx.put_pixel(c, 3, 0);
    ctx.put_pixel(c, -1, 0);
    ctx.put_pixel(c, 0, 2);
    assert_eq!(lit(&ctx), vec![(2, 1)]);
}

#[test]
fn put_line_draws_bresenham_lines() {
    let c = Color::new(9, 9, 9, 9);
    let mut ctx = context(8, 8);
    ctx.put_line(c, 0, 0, 3, 0);
    assert_eq!(lit(&ctx), vec![(0, 0), (1, 0), (2, 0), (3, 0)]);
    let mut ctx = context(8, 8);
    ctx.put_line(c, 0, 0, 3, 3);
    assert_eq!(lit(&ctx), vec![(0, 0), (1, 1), (2, 2), (3, 3)]);
    let mut ctx = context(8, 8);
    ctx.put_line(c, 0, 0, 4, 2);
    assert_eq!(lit(&ctx), vec![(0, 0), (1, 1), (2, 1), (3, 2), (4, 2)]);
    let mut ctx = context(8, 8);
    ctx.put_line(c, 5, 6, 5, 4);
    assert_eq!(lit(&ctx), vec![(5, 4), (5, 5), (5, 6)]);
    let mut ctx = context(8, 8);
    ctx.put_line(c, 2, 2, 2, 2);
    assert_eq!(lit(&ctx), vec![(2, 2)]);
}

#[test]
fn clear_screen_and_back_buffer_handover() {
    let mut ctx = context(2, 2);
    ctx.put_pixel(Color::new(1, 1, 1, 1), 0, 0);
    ctx.pgl_clear_screen();
    assert!(ctx.back_buffer.buf.iter().all(|&b| b == 0));
    ctx.pgl_set_back_buffer(Some(&[7u8; 20]), 2, 2, true);
    assert_eq!(ctx.back_buffer.buf, vec![7u8; 16]);
    assert!(!ctx.user_alloced_backbuf);
    ctx.pgl_set_back_buffer(None, 1, 3, false);
    assert_eq!(ctx.back_buffer.buf, vec![0u8; 12]);
    assert_eq!((ctx.back_buffer.w, ctx.back_buffer.h), (1, 3));
    assert!(ctx.user_alloced_backbuf);
    ctx.pgl_set_back_buffer_vec(1, 1, vec![5, 6, 7, 8]);
    assert_eq!(ctx.pgl_get_back_buffer().buf, vec![5, 6, 7, 8]);
    ctx.pgl_get_back_buffer_mut().buf[0] = 1;
    assert_eq!(ctx.back_buffer.buf[0], 1);
}

#[test]
fn user_buffers() {
    let mut ctx = context(2, 2);
    ctx.pgl_buffer_data_slice(GL_ARRAY_BUFFER, &[1, 2], GL_STATIC_DRAW);
    assert_eq!(ctx.error, GL_INVALID_OPERATION);
    ctx.pgl_buffer_data_slice(0, &[1, 2], GL_STATIC_DRAW);
    assert_eq!(ctx.error, GL_INVALID_ENUM);
    ctx.error = GL_NO_ERROR;
    let b = ctx.gl_gen_buffers(1)[0];
    ctx.gl_bind_buffer(GL_ARRAY_BUFFER, b).unwrap();
    ctx.pgl_buffer_data_slice(GL_ARRAY_BUFFER, &[1, 2, 3], GL_STATIC_DRAW);
    let buf = &ctx.objects.buffers[b as usize];
    assert_eq!((buf.data.clone(), buf.size, buf.type_, buf.user_owned), (vec![1, 2, 3], 3, GL_STATIC_DRAW, true));
    assert_eq!(ctx.pgl_get_buffer_data_ref(b), Some(&[1u8, 2, 3][..]));
    assert_eq!(ctx.pgl_get_buffer_data_ref(0), None);
    ctx.pgl_buffer_data(GL_ARRAY_BUFFER, 2, Some(&[4, 5, 6]), true);
    let buf = &ctx.objects.buffers[b as usize];
    assert_eq!((buf.data.clone(), buf.size, buf.user_owned), (vec![4, 5], 2, false));
    ctx.pgl_buffer_data(GL_ARRAY_BUFFER, 3, Some(&[4, 5, 6]), false);
    let buf = &ctx.objects.buffers[b as usize];
    assert_eq!((buf.data.len(), buf.size, buf.user_owned), (0, 3, true));
    assert_eq!(ctx.error, GL_NO_ERROR);
}

#[test]
fn user_textures_and_interpolation() {
    let mut ctx = context(2, 2);
    ctx.pgl_tex_image_2d(GL_TEXTURE_2D, 0, 0, 1, 1, 0, GL_RGBA, GL_UNSIGNED_BYTE, Some(&[1, 2, 3, 4]));
    assert_eq!(ctx.error, GL_INVALID_OPERATION);
    ctx.error = GL_NO_ERROR;
    let t = ctx.gl_gen_textures(1)[0];
    ctx.gl_bind_texture(GL_TEXTURE_2D, t).unwrap();
    ctx.pgl_tex_image_2d(GL_TEXTURE_2D, 0, 0, 1, 2, 0, GL_RGBA, GL_UNSIGNED_BYTE, Some(&[1, 2, 3, 4, 5, 6, 7, 8, 9]));
    let tex = &ctx.objects.textures[t as usize];
    assert_eq!((tex.w, tex.h, tex.d, tex.format, tex.user_owned), (1, 2, 1, GL_RGBA, true));
    assert_eq!(ctx.pgl_get_texture_data_ref(t), Some(&[1u8, 2, 3, 4, 5, 6, 7, 8][..]));
    ctx.pgl_tex_image_3d(GL_TEXTURE_2D, 0, 0, 1, 1, 2, 0, GL_RGBA, GL_UNSIGNED_BYTE, None);
    assert_eq!(ctx.objects.textures[t as usize].data, vec![0u8; 8]);
    ctx.pgl_tex_image_1d(GL_TEXTURE_2D, 0, 0, 1, 0, GL_RGBA, GL_UNSIGNED_BYTE, Some(&[9, 9, 9, 9]));
    assert_eq!(ctx.objects.textures[t as usize].h, 1);
    ctx.gl_tex_border_color(GL_TEXTURE_2D, &[1.0f32.to_bits(), 0, 0, 0x3f00_0000]);
    assert_eq!(ctx.objects.textures[t as usize].border_color, [0x3f80_0000, 0, 0, 0x3f00_0000]);
    ctx.gl_tex_border_color(1, &[0, 0, 0, 0]);
    assert_eq!(ctx.gl_get_error(), GL_INVALID_ENUM);

    let p = ctx.pgl_create_program(2, &[], false);
    ctx.gl_use_program(p);
    ctx.pgl_set_interp(3, &[GL_LINEAR, GL_LINEAR]);
    assert_eq!(ctx.vs_output_size, 3);
    let prog = &ctx.objects.programs[p as usize];
    assert_eq!(prog.vs_output_size, 3);
    assert_eq!(&prog.interpolation[0..3], &[GL_LINEAR, GL_LINEAR, 0]);
}

#[test]
fn certificate_compression_round_trips() {
    let cert: Vec<u8> = (0..2000u32).map(|i| (i % 251) as u8).collect();
    let packed = compress(&cert);
    assert!(!packed.is_empty());
    assert_ne!(packed, cert);
    assert_eq!(decompress(&packed), Some(cert));
    assert_eq!(decompress(&[0xFF, 0xFF, 0xFF, 0xFF, 0xFF]), None);
}

#[test]
fn empty_certificate_round_trips() {
    let packed = compress(&[]);
    assert!(!packed.is_empty());
    assert_eq!(decompress(&packed), Some(Vec::new()));
}
