use obscura_webgl::gl_context::{GlContext, GlProgram};
use obscura_webgl::gl_types::{GL_LUMINANCE, GL_TRUE, GlBuffer, GlTexture, GlVertexArray, GlVertexAttrib, GL_FLOAT, GL_NEAREST, GL_REPEAT, GL_TEXTURE_UNBOUND, PGL_SMOOTH};
use obscura_webgl::gl_types::{
    GL_ARRAY_BUFFER, GL_BLEND, GL_CLAMP_TO_EDGE, GL_COLOR_BUFFER_BIT, GL_CULL_FACE, GL_CW, GL_DEPTH_BUFFER_BIT,
    GL_DEPTH_TEST, GL_ELEMENT_ARRAY_BUFFER, GL_FRONT_AND_BACK, GL_INVALID_ENUM, GL_INVALID_OPERATION,
    GL_INVALID_VALUE, GL_LINE, GL_LINEAR, GL_NO_ERROR, GL_READ_ONLY, GL_RGB, GL_RGBA, GL_SCISSOR_BOX,
    GL_SCISSOR_TEST, GL_STATIC_DRAW, GL_STENCIL_BUFFER_BIT, GL_TEXTURE_2D, GL_TEXTURE_MIN_FILTER,
    GL_TEXTURE_WRAP_S, GL_TRIANGLES, GL_UNPACK_ALIGNMENT, GL_UNSIGNED_BYTE, GL_VENDOR, GL_VERSION, GL_VIEWPORT,
};

fn context(w: i32, h: i32) -> GlContext {
    let mut ctx = GlContext::new();
    let pixels = ctx.init(w, h);
    assert_eq!(pixels.len(), (w * h) as usize);
    assert!(pixels.iter().all(|&p| p == 0));
    ctx
}

#[test]
fn init_sets_the_defaults() {
    let ctx = context(4, 3);
    assert_eq!((ctx.width, ctx.height), (4, 3));
    assert!(ctx.depth_mask);
    assert!(!ctx.gl_is_enabled(GL_DEPTH_TEST));
    assert_eq!(ctx.unpack_alignment, 4);
    assert_eq!(ctx.back_buffer.buf.len(), 4 * 3 * 4);
    assert_eq!(ctx.gl_get_integerv(GL_VIEWPORT), Some(vec![0, 0, 4, 3]));
    assert_eq!(ctx.gl_get_integerv(GL_SCISSOR_BOX), Some(vec![0, 0, 4, 3]));
    assert_eq!(ctx.gl_get_string(GL_VENDOR), "PortableGL-rs");
    assert_eq!(ctx.gl_get_string(GL_VERSION), "3.3");
    assert_eq!(ctx.gl_get_string(0xFFFF), "");
}

#[test]
fn first_error_is_kept_until_queried() {
    let mut ctx = context(2, 2);
    ctx.gl_depth_func(0xDEAD);
    ctx.gl_viewport(0, 0, -1, 5);
    assert_eq!(ctx.gl_get_error(), GL_INVALID_ENUM);
    assert_eq!(ctx.gl_get_error(), GL_NO_ERROR);
    ctx.gl_viewport(0, 0, -1, 5);
    assert_eq!(ctx.gl_get_error(), GL_INVALID_VALUE);
}

#[test]
fn capabilities_toggle() {
    let mut ctx = context(2, 2);
    ctx.gl_enable(GL_DEPTH_TEST);
    ctx.gl_enable(GL_BLEND);
    assert!(ctx.gl_is_enabled(GL_DEPTH_TEST) && ctx.gl_is_enabled(GL_BLEND));
    ctx.gl_disable(GL_DEPTH_TEST);
    assert!(!ctx.gl_is_enabled(GL_DEPTH_TEST));
    assert_eq!(ctx.gl_get_booleanv(GL_BLEND), Some(true));
    ctx.gl_enable(0xBEEF);
    assert_eq!(ctx.gl_get_error(), GL_INVALID_ENUM);
    ctx.gl_enable(GL_CULL_FACE);
    ctx.gl_front_face(GL_CW);
    assert_eq!(ctx.front_face, GL_CW);
}

#[test]
fn viewport_and_scissor() {
    let mut ctx = context(8, 8);
    ctx.gl_viewport(1, 2, 3, 4);
    assert_eq!(ctx.gl_get_integerv(GL_VIEWPORT), Some(vec![1, 2, 3, 4]));
    ctx.gl_scissor(2, 2, 3, 3);
    assert_eq!(ctx.gl_get_integerv(GL_SCISSOR_BOX), Some(vec![2, 2, 3, 3]));
    ctx.gl_scissor(0, 0, -1, 3);
    assert_eq!(ctx.gl_get_error(), GL_INVALID_VALUE);
    assert_eq!(ctx.gl_get_integerv(GL_SCISSOR_BOX), Some(vec![2, 2, 3, 3]));
}

#[test]
fn polygon_mode_and_pixel_store() {
    let mut ctx = context(2, 2);
    ctx.gl_polygon_mode(GL_FRONT_AND_BACK, GL_LINE);
    assert_eq!((ctx.poly_mode_front, ctx.poly_mode_back), (GL_LINE, GL_LINE));
    ctx.gl_pixel_storei(GL_UNPACK_ALIGNMENT, 1);
    assert_eq!(ctx.unpack_alignment, 1);
    ctx.gl_pixel_storei(GL_UNPACK_ALIGNMENT, 3);
    assert_eq!(ctx.gl_get_error(), GL_INVALID_VALUE);
    assert_eq!(ctx.unpack_alignment, 1);
    assert!(ctx.validate_draw_mode(GL_TRIANGLES));
    assert!(!ctx.validate_draw_mode(0x7777));
    assert_eq!(ctx.gl_get_error(), GL_INVALID_ENUM);
}

#[test]
fn buffers_generate_bind_fill_and_delete() {
    let mut ctx = context(2, 2);
    let ids = ctx.gl_gen_buffers(2);
    assert_eq!(ids, vec![1, 2]);
    assert_eq!(ctx.gl_buffer_data(GL_ARRAY_BUFFER, &[1, 2, 3], GL_STATIC_DRAW), Err(GL_INVALID_OPERATION));
    assert_eq!(ctx.gl_get_error(), GL_INVALID_OPERATION);
    assert_eq!(ctx.gl_bind_buffer(GL_ARRAY_BUFFER, ids[0]), Ok(()));
    assert_eq!(ctx.gl_buffer_data(GL_ARRAY_BUFFER, &[1, 2, 3, 4], GL_STATIC_DRAW), Ok(()));
    assert_eq!(ctx.objects.buffers[1].data, vec![1, 2, 3, 4]);
    assert_eq!(ctx.objects.buffers[1].size, 4);
    assert_eq!(ctx.gl_buffer_sub_data(GL_ARRAY_BUFFER, 1, &[9, 9]), Ok(()));
    assert_eq!(ctx.objects.buffers[1].data, vec![1, 9, 9, 4]);
    assert_eq!(ctx.gl_buffer_sub_data(GL_ARRAY_BUFFER, 3, &[9, 9]), Err(GL_INVALID_VALUE));
    assert_eq!(ctx.objects.buffers[1].data, vec![1, 9, 9, 4]);
    assert_eq!(ctx.gl_named_buffer_data(ids[1], &[5], GL_STATIC_DRAW), Ok(()));
    assert_eq!(ctx.objects.buffers[2].data, vec![5]);
    assert_eq!(ctx.gl_named_buffer_data(0, &[5], GL_STATIC_DRAW), Err(GL_INVALID_OPERATION));
    assert_eq!(ctx.gl_map_buffer(GL_ARRAY_BUFFER, GL_READ_ONLY), Some(1));
    assert_eq!(ctx.gl_bind_buffer(0x1234, ids[0]), Err(GL_INVALID_ENUM));
    assert_eq!(ctx.gl_bind_buffer(GL_ARRAY_BUFFER, 77), Err(GL_INVALID_OPERATION));
    ctx.gl_delete_buffers(&[ids[0]]);
    assert!(ctx.objects.buffers[1].deleted);
    assert_eq!(ctx.gl_bind_buffer(GL_ARRAY_BUFFER, ids[0]), Err(GL_INVALID_OPERATION));
    let again = ctx.gl_gen_buffers(1);
    assert_eq!(again, vec![1]);
    assert!(!ctx.objects.buffers[1].deleted);
    assert!(ctx.objects.buffers[1].data.is_empty());
}

#[test]
fn element_buffer_follows_the_vertex_array() {
    let mut ctx = context(2, 2);
    let vaos = ctx.gl_gen_vertex_arrays(1);
    assert_eq!(ctx.gl_bind_vertex_array(vaos[0]), Ok(()));
    let bufs = ctx.gl_gen_buffers(1);
    assert_eq!(ctx.gl_bind_buffer(GL_ELEMENT_ARRAY_BUFFER, bufs[0]), Ok(()));
    assert_eq!(ctx.objects.vertex_arrays[vaos[0] as usize].element_buffer, bufs[0]);
    assert_eq!(ctx.gl_bind_vertex_array(42), Err(GL_INVALID_OPERATION));
    ctx.gl_enable_vertex_attrib_array(0);
    assert!(ctx.objects.vertex_arrays[vaos[0] as usize].vertex_attribs[0].enabled);
    ctx.gl_vertex_attrib_divisor(0, 3);
    assert_eq!(ctx.objects.vertex_arrays[vaos[0] as usize].vertex_attribs[0].divisor, 3);
    ctx.gl_disable_vertex_attrib_array(0);
    assert!(!ctx.objects.vertex_arrays[vaos[0] as usize].vertex_attribs[0].enabled);
}

#[test]
fn textures_store_images_without_row_padding() {
    let mut ctx = context(2, 2);
    let tex = ctx.gl_gen_textures(1);
    assert_eq!(ctx.gl_bind_texture(GL_TEXTURE_2D, tex[0]), Ok(()));
    let rgba: Vec<u8> = (0..16).collect();
    ctx.gl_tex_image_2d(GL_TEXTURE_2D, 0, GL_RGBA as i32, 2, 2, 0, GL_RGBA, GL_UNSIGNED_BYTE, Some(&rgba));
    let t = &ctx.objects.textures[tex[0] as usize];
    assert_eq!((t.w, t.h, t.format), (2, 2, GL_RGBA));
    assert_eq!(t.data, rgba);
    // RGB rows of one pixel are padded to four bytes in client memory.
    let rgb = [1u8, 2, 3, 0, 4, 5, 6, 0];
    ctx.gl_tex_image_2d(GL_TEXTURE_2D, 0, GL_RGB as i32, 1, 2, 0, GL_RGB, GL_UNSIGNED_BYTE, Some(&rgb));
    assert_eq!(ctx.objects.textures[tex[0] as usize].data, vec![1, 2, 3, 4, 5, 6]);
    ctx.gl_tex_image_2d(GL_TEXTURE_2D, 0, GL_RGBA as i32, 2, 2, 0, GL_RGBA, GL_UNSIGNED_BYTE, Some(&rgba));
    ctx.gl_tex_sub_image_2d(GL_TEXTURE_2D, 0, 1, 1, 1, 1, GL_RGBA, GL_UNSIGNED_BYTE, &[9, 9, 9, 9]);
    assert_eq!(&ctx.objects.textures[tex[0] as usize].data[12..16], &[9, 9, 9, 9]);
    assert_eq!(&ctx.objects.textures[tex[0] as usize].data[0..12], &rgba[0..12]);
    ctx.gl_tex_image_2d(0x4242, 0, 0, 1, 1, 0, GL_RGBA, GL_UNSIGNED_BYTE, None);
    assert_eq!(ctx.gl_get_error(), GL_INVALID_ENUM);
    ctx.gl_tex_parameteri(GL_TEXTURE_2D, GL_TEXTURE_MIN_FILTER, GL_LINEAR as i32);
    ctx.gl_tex_parameteri(GL_TEXTURE_2D, GL_TEXTURE_WRAP_S, GL_CLAMP_TO_EDGE as i32);
    let t = &ctx.objects.textures[tex[0] as usize];
    assert_eq!((t.min_filter, t.wrap_s), (GL_LINEAR, GL_CLAMP_TO_EDGE));
}

#[test]
fn programs_are_created_used_and_deleted() {
    let mut ctx = context(2, 2);
    let p = ctx.pgl_create_program(3, &[GL_LINEAR, GL_LINEAR, GL_LINEAR], true);
    assert_eq!(p, 1);
    assert!(ctx.gl_is_program(p));
    ctx.gl_use_program(p);
    assert_eq!(ctx.objects.cur_program, p);
    assert_eq!(ctx.vs_output_size, 3);
    assert!(ctx.fragdepth_or_discard);
    ctx.gl_delete_program(p);
    assert!(!ctx.gl_is_program(p));
    assert_eq!(ctx.objects.cur_program, 0);
    ctx.gl_use_program(p);
    assert_eq!(ctx.gl_get_error(), GL_INVALID_OPERATION);
}

#[test]
fn clear_honours_mask_and_scissor() {
    let mut ctx = context(4, 4);
    ctx.clear_color = 0x1122_3344;
    ctx.gl_clear(GL_COLOR_BUFFER_BIT, 0);
    assert!(ctx.back_buffer.buf.chunks(4).all(|p| p == [0x44, 0x33, 0x22, 0x11]));
    ctx.clear_color = 0;
    ctx.gl_scissor(0, 0, 2, 2);
    ctx.gl_enable(GL_SCISSOR_TEST);
    ctx.gl_clear(GL_COLOR_BUFFER_BIT | GL_DEPTH_BUFFER_BIT | GL_STENCIL_BUFFER_BIT, 0xFFFF_FF00);
    let cleared = ctx.back_buffer.buf.chunks(4).filter(|p| *p == [0, 0, 0, 0]).count();
    assert_eq!(cleared, 4);
    let deep = ctx.zbuf.buf.chunks(4).filter(|p| *p == [0x00, 0xFF, 0xFF, 0xFF]).count();
    assert_eq!(deep, 4);
}

#[test]
fn read_pixels_copies_rows() {
    let mut ctx = context(2, 2);
    ctx.clear_color = 0x0403_0201;
    ctx.gl_clear(GL_COLOR_BUFFER_BIT, 0);
    let mut out = [0u8; 8];
    ctx.gl_read_pixels(0, 0, 2, 1, GL_RGBA, GL_UNSIGNED_BYTE, &mut out);
    assert_eq!(out, [1, 2, 3, 4, 1, 2, 3, 4]);
    let mut small = [7u8; 6];
    ctx.gl_read_pixels(0, 0, 2, 1, GL_RGB, GL_UNSIGNED_BYTE, &mut small);
    assert_eq!(small, [1, 2, 3, 1, 2, 3]);
    let mut none = [7u8; 4];
    ctx.gl_read_pixels(0, 0, 0, 1, GL_RGBA, GL_UNSIGNED_BYTE, &mut none);
    assert_eq!(none, [7; 4]);
    assert_eq!(ctx.error, GL_NO_ERROR);
}

#[test]
fn read_pixels_in_unknown_format_records_invalid_enum() {
    let mut ctx = GlContext::default();
    ctx.init(2, 2);
    let mut data = [7u8; 4];
    ctx.gl_read_pixels(0, 0, 1, 1, GL_LUMINANCE, GL_UNSIGNED_BYTE, &mut data);
    assert_eq!(data, [7, 7, 7, 7]);
    assert_eq!(ctx.error, GL_INVALID_ENUM);
}

#[test]
fn unmap_buffer_always_returns_true() {
    let mut ctx = GlContext::default();
    ctx.init(2, 2);
    assert_eq!(ctx.gl_unmap_buffer(GL_ARRAY_BUFFER), GL_TRUE);
    assert_eq!(ctx.gl_get_error(), GL_INVALID_OPERATION);
    let ids = ctx.gl_gen_buffers(1);
    assert_eq!(ctx.gl_bind_buffer(GL_ARRAY_BUFFER, ids[0]), Ok(()));
    assert_eq!(ctx.gl_unmap_buffer(GL_ARRAY_BUFFER), GL_TRUE);
    assert_eq!(ctx.gl_get_error(), GL_NO_ERROR);
}

#[test]
fn resize_keeps_state_and_reallocates() {
    let mut ctx = context(2, 2);
    ctx.gl_enable(GL_BLEND);
    assert!(ctx.resize_framebuffer(3, 5));
    assert_eq!((ctx.width, ctx.height), (3, 5));
    assert_eq!(ctx.back_buffer.buf.len(), 60);
    assert!(ctx.gl_is_enabled(GL_BLEND));
    assert!(!ctx.resize_framebuffer(0, 5));
    assert_eq!(ctx.width, 3);
}

#[test]
fn defaults_are_empty_objects() {
    let t = GlTexture::default();
    assert_eq!((t.w, t.h, t.d), (0, 0, 0));
    assert_eq!((t.mag_filter, t.min_filter), (GL_NEAREST, GL_NEAREST));
    assert_eq!((t.wrap_s, t.wrap_t, t.wrap_r), (GL_REPEAT, GL_REPEAT, GL_REPEAT));
    assert_eq!(t.format, GL_RGBA);
    assert_eq!(t.type_, GL_TEXTURE_UNBOUND);
    assert!(!t.deleted && !t.user_owned && t.data.is_empty());
    let b = GlBuffer::default();
    assert_eq!((b.size, b.type_), (0, 0));
    assert!(b.data.is_empty() && !b.deleted && !b.user_owned);
    let a = GlVertexAttrib::default();
    assert_eq!((a.size, a.type_, a.stride, a.offset, a.buf, a.divisor), (4, GL_FLOAT, 0, 0, 0, 0));
    assert!(!a.enabled && !a.normalized);
    let v = GlVertexArray::default();
    assert_eq!(v.element_buffer, 0);
    assert!(!v.deleted && v.vertex_attribs.iter().all(|x| x.size == 4 && !x.enabled));
    let p = GlProgram::default();
    assert_eq!(p.vs_output_size, 0);
    assert!(p.interpolation.iter().all(|&m| m == PGL_SMOOTH) && !p.deleted);
    let c = GlContext::default();
    assert_eq!((c.width, c.height, c.error), (0, 0, GL_NO_ERROR));
    assert!(c.back_buffer.buf.is_empty());
}

#[test]
fn empty_sub_image_writes_nothing_whatever_its_offsets() {
    let mut ctx = context(2, 2);
    let tex = ctx.gl_gen_textures(1);
    assert_eq!(ctx.gl_bind_texture(GL_TEXTURE_2D, tex[0]), Ok(()));
    let rgba: Vec<u8> = (0..16).collect();
    ctx.gl_tex_image_2d(GL_TEXTURE_2D, 0, GL_RGBA as i32, 2, 2, 0, GL_RGBA, GL_UNSIGNED_BYTE, Some(&rgba));
    ctx.gl_tex_sub_image_2d(GL_TEXTURE_2D, 0, i32::MAX, i32::MAX, i32::MAX, 0, GL_RGBA, GL_UNSIGNED_BYTE, &[]);
    assert_eq!(ctx.objects.textures[tex[0] as usize].data, rgba);
    assert_eq!(ctx.gl_get_error(), GL_NO_ERROR);
}

#[test]
fn init_accepts_sizes_whose_product_is_non_negative() {
    let mut ctx = GlContext::default();
    let pixels = ctx.init(-2, -2);
    assert_eq!(pixels.len(), 4);
    assert_eq!((ctx.width, ctx.height), (-2, -2));
    assert_eq!(ctx.back_buffer.buf.len(), 16);
    assert_eq!(ctx.zbuf.buf.len(), 16);
}
