use obscura_webgl::gl_internal::{
    abgr32, argb32, bgr565, bgra32, d16, d24s8, depthtest, format_bpp, get_stencil_in, get_z_in,
    logic_ops_pixel, no_depth, pack_le, pixel_index, read_backbuf_pixel, read_entry16, read_entry32,
    rgb565, rgba32, set_stencil_in, set_z_in, stencil_op_func, stencil_test_func, write_backbuf_pixel,
    write_entry16, write_entry32, DepthFormat,
};
use obscura_webgl::gl_types::{
    GL_ALWAYS, GL_AND, GL_COPY_INVERTED, GL_DECR, GL_DECR_WRAP, GL_EQUAL, GL_GEQUAL, GL_GREATER,
    GL_INCR, GL_INCR_WRAP, GL_INVERT, GL_KEEP, GL_LEQUAL, GL_LESS, GL_LUMINANCE_ALPHA, GL_NAND,
    GL_NEVER, GL_NOTEQUAL, GL_OR, GL_RED, GL_REPLACE, GL_RGB, GL_RGBA, GL_XOR, GL_ZERO,
};
use obscura_webgl::math::Color;

#[test]
fn thirty_two_bit_layouts() {
    assert_eq!(abgr32::rgba_to_pixel(0x11, 0x22, 0x33, 0x44), 0x4433_2211);
    assert_eq!(rgba32::rgba_to_pixel(0x11, 0x22, 0x33, 0x44), 0x1122_3344);
    assert_eq!(argb32::rgba_to_pixel(0x11, 0x22, 0x33, 0x44), 0x4411_2233);
    assert_eq!(bgra32::rgba_to_pixel(0x11, 0x22, 0x33, 0x44), 0x3322_1144);
    let c = Color::new(0x11, 0x22, 0x33, 0x44);
    assert_eq!(abgr32::pixel_to_color(0x4433_2211), c);
    assert_eq!(rgba32::pixel_to_color(0x1122_3344), c);
    assert_eq!(argb32::pixel_to_color(0x4411_2233), c);
    assert_eq!(bgra32::pixel_to_color(0x3322_1144), c);
}

#[test]
fn thirty_two_bit_layouts_round_trip() {
    for &(r, g, b, a) in &[(0u8, 0u8, 0u8, 0u8), (255, 1, 128, 7), (9, 200, 33, 255)] {
        let c = Color::new(r, g, b, a);
        assert_eq!(abgr32::pixel_to_color(abgr32::rgba_to_pixel(r, g, b, a)), c);
        assert_eq!(rgba32::pixel_to_color(rgba32::rgba_to_pixel(r, g, b, a)), c);
        assert_eq!(argb32::pixel_to_color(argb32::rgba_to_pixel(r, g, b, a)), c);
        assert_eq!(bgra32::pixel_to_color(bgra32::rgba_to_pixel(r, g, b, a)), c);
    }
}

#[test]
fn sixteen_bit_layouts() {
    assert_eq!(rgb565::rgba_to_pixel(0xFF, 0, 0, 0x12), 0xF800);
    assert_eq!(rgb565::rgba_to_pixel(0, 0xFF, 0, 0), 0x07E0);
    assert_eq!(rgb565::rgba_to_pixel(0, 0, 0xFF, 0), 0x001F);
    assert_eq!(bgr565::rgba_to_pixel(0xFF, 0, 0, 0), 0x001F);
    assert_eq!(bgr565::rgba_to_pixel(0, 0, 0xFF, 0), 0xF800);
    assert_eq!(rgb565::pixel_to_color(0xF800), Color::new(0xFF, 0, 0, 0xFF));
    assert_eq!(rgb565::pixel_to_color(0x07E0), Color::new(0, 0xFF, 0, 0xFF));
    assert_eq!(bgr565::pixel_to_color(0x001F), Color::new(0xFF, 0, 0, 0xFF));
    // 5-bit 0b10000 expands to 0b10000100
    assert_eq!(rgb565::pixel_to_color(0x8000).r, 0x84);
}

#[test]
fn buffer_entries_are_little_endian() {
    assert_eq!(pack_le(1, 2, 3, 4), 0x0403_0201);
    let mut buf = vec![0u8; 8];
    write_entry32(&mut buf, 1, 0xA1B2_C3D4);
    assert_eq!(buf, vec![0, 0, 0, 0, 0xD4, 0xC3, 0xB2, 0xA1]);
    assert_eq!(read_entry32(&buf, 1), 0xA1B2_C3D4);
    assert_eq!(read_entry32(&buf, 2), 0);
    write_entry32(&mut buf, 2, 5);
    assert_eq!(buf.len(), 8);
    write_entry16(&mut buf, 0, 0x1234);
    assert_eq!(&buf[0..2], &[0x34, 0x12]);
    assert_eq!(read_entry16(&buf, 0), 0x1234);
    assert_eq!(read_entry16(&buf, 4), 0);
    write_backbuf_pixel(&mut buf, 0, 0xBEEF, 2);
    assert_eq!(read_backbuf_pixel(&buf, 0, 2), 0xBEEF);
    write_backbuf_pixel(&mut buf, 0, 0xCAFE_BABE, 4);
    assert_eq!(read_backbuf_pixel(&buf, 0, 4), 0xCAFE_BABE);
}

#[test]
fn depth_tests() {
    assert!(depthtest(1, 2, GL_LESS));
    assert!(!depthtest(2, 2, GL_LESS));
    assert!(depthtest(2, 2, GL_LEQUAL));
    assert!(depthtest(3, 2, GL_GREATER));
    assert!(depthtest(2, 2, GL_GEQUAL));
    assert!(depthtest(2, 2, GL_EQUAL));
    assert!(depthtest(1, 2, GL_NOTEQUAL));
    assert!(depthtest(9, 2, GL_ALWAYS));
    assert!(!depthtest(1, 2, GL_NEVER));
}

#[test]
fn stencil_operations() {
    assert_eq!(stencil_op_func(GL_KEEP, 5, 9), 5);
    assert_eq!(stencil_op_func(GL_ZERO, 5, 9), 0);
    assert_eq!(stencil_op_func(GL_REPLACE, 5, 9), 9);
    assert_eq!(stencil_op_func(GL_INCR, 255, 9), 255);
    assert_eq!(stencil_op_func(GL_INCR_WRAP, 255, 9), 0);
    assert_eq!(stencil_op_func(GL_DECR, 0, 9), 0);
    assert_eq!(stencil_op_func(GL_DECR_WRAP, 0, 9), 255);
    assert_eq!(stencil_op_func(GL_INVERT, 0x0F, 9), 0xF0);
    assert!(stencil_test_func(GL_EQUAL, 0x13, 0x0F, 0x23));
    assert!(!stencil_test_func(GL_EQUAL, 0x13, 0xFF, 0x23));
    assert!(stencil_test_func(GL_LESS, 1, 0xFF, 2));
    assert!(stencil_test_func(GL_ALWAYS, 1, 0xFF, 0));
    assert!(!stencil_test_func(GL_NEVER, 1, 0xFF, 0));
}

#[test]
fn logic_operations() {
    assert_eq!(logic_ops_pixel(GL_AND, 0b1100, 0b1010), 0b1000);
    assert_eq!(logic_ops_pixel(GL_OR, 0b1100, 0b1010), 0b1110);
    assert_eq!(logic_ops_pixel(GL_XOR, 0b1100, 0b1010), 0b0110);
    assert_eq!(logic_ops_pixel(GL_NAND, 0xFFFF_FFFF, 0xFFFF_FFFF), 0);
    assert_eq!(logic_ops_pixel(GL_COPY_INVERTED, 0, 7), 0xFFFF_FFFF);
}

#[test]
fn depth_stencil_layouts() {
    assert_eq!(d24s8::get_z(0x1234_5678), 0x12_3456);
    assert_eq!(d24s8::get_stencil(0x1234_5678), 0x78);
    assert_eq!(d24s8::set_z(0x1234_5678, 0xAB_CDEF), 0xABCD_EF78);
    assert_eq!(d24s8::set_stencil(0x1234_5678, 0x9A), 0x1234_569A);
    assert_eq!(d16::get_z(0x1234_5678), 0x5678);
    assert_eq!(d16::set_z(0x1234_5678, 0x1_ABCD), 0xABCD);
    assert_eq!(d16::get_stencil(0x1234_5678), 0);
    assert_eq!(d16::set_stencil(0x1234_5678, 3), 0x1234_5678);
    assert_eq!(no_depth::get_z(77), 0);
    assert_eq!(no_depth::set_z(77, 5), 77);
    assert_eq!(get_z_in(DepthFormat::D24S8, 0x1234_5678), 0x12_3456);
    assert_eq!(set_z_in(DepthFormat::D16, 0, 0x2_0001), 1);
    assert_eq!(get_stencil_in(DepthFormat::D24S8, 0x1234_5678), 0x78);
    assert_eq!(set_stencil_in(DepthFormat::NoDepth, 4, 9), 4);
}

#[test]
fn pixel_index_flips_rows() {
    assert_eq!(pixel_index(4, 3, 0, 0), 8);
    assert_eq!(pixel_index(4, 3, 3, 2), 3);
    assert_eq!(pixel_index(4, 3, 1, 1), 5);
}

#[test]
fn bytes_per_pixel() {
    assert_eq!(format_bpp(GL_RED), 1);
    assert_eq!(format_bpp(GL_LUMINANCE_ALPHA), 2);
    assert_eq!(format_bpp(GL_RGB), 3);
    assert_eq!(format_bpp(GL_RGBA), 4);
}
