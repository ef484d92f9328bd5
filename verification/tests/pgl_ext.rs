use obscura_webgl::gl_types::{GL_BGR, GL_LUMINANCE_ALPHA, GL_RED, GL_RGB, GL_RGBA, GL_FLOAT, PGL_ONE_ALPHA};
use obscura_webgl::pgl_ext::{convert_format_to_packed_rgba, convert_grayscale_to_rgba, convert_grayscale_to_rgba_blend};

#[test]
fn packed_rgba_from_rgb_and_bgr() {
    let rgb = [1u8, 2, 3, 4, 5, 6];
    assert_eq!(convert_format_to_packed_rgba(&rgb, GL_RGB, 2, 1), vec![1, 2, 3, 255, 4, 5, 6, 255]);
    assert_eq!(convert_format_to_packed_rgba(&rgb, GL_BGR, 2, 1), vec![3, 2, 1, 255, 6, 5, 4, 255]);
}

#[test]
fn packed_rgba_from_one_and_two_channel_formats() {
    assert_eq!(convert_format_to_packed_rgba(&[9, 8], GL_RED, 2, 1), vec![9, 0, 0, 255, 8, 0, 0, 255]);
    assert_eq!(convert_format_to_packed_rgba(&[9, 8], GL_LUMINANCE_ALPHA, 1, 1), vec![9, 9, 9, 8]);
    assert_eq!(convert_format_to_packed_rgba(&[7], PGL_ONE_ALPHA, 1, 1), vec![255, 255, 255, 7]);
}

#[test]
fn packed_rgba_pads_short_input_and_rejects_unknown_formats() {
    assert_eq!(convert_format_to_packed_rgba(&[1, 2, 3, 4, 5], GL_RGBA, 2, 1), vec![1, 2, 3, 4, 5, 0, 0, 0]);
    assert_eq!(convert_format_to_packed_rgba(&[1, 2, 3, 4], GL_RGB, 2, 1), vec![1, 2, 3, 255, 0, 0, 0, 0]);
    assert!(convert_format_to_packed_rgba(&[1, 2, 3, 4], GL_FLOAT, 1, 1).is_empty());
}

#[test]
fn grayscale_expands_to_opaque_grey() {
    assert_eq!(convert_grayscale_to_rgba(&[0, 128, 255], 3, 1), vec![0, 0, 0, 255, 128, 128, 128, 255, 255, 255, 255, 255]);
    assert_eq!(convert_grayscale_to_rgba(&[5, 6, 7], 2, 1), vec![5, 5, 5, 255, 6, 6, 6, 255]);
    assert_eq!(convert_grayscale_to_rgba(&[5], 2, 2), vec![5, 5, 5, 255]);
}

#[test]
fn grayscale_blend_endpoints() {
    let out = convert_grayscale_to_rgba_blend(&[0, 255, 128], 0x1020_3040, 0xF0E0_D0C0);
    assert_eq!(&out[0..4], &[0x10, 0x20, 0x30, 0x40]);
    assert_eq!(&out[4..8], &[0xF0, 0xE0, 0xD0, 0xC0]);
    // 0x10 + (0xF0 - 0x10) * 128 / 255 + 0.5 = 128.94..
    assert_eq!(out[8], 128);
    assert_eq!(out.len(), 12);
}

fn blend_f32(bg: u32, text: u32, t: u8) -> u8 {
    let t = t as f32 / 255.0;
    let bg = bg as f32;
    let text = text as f32;
    (bg + (text - bg) * t + 0.5) as u8
}

#[test]
fn grayscale_blend_matches_rounded_interpolation() {
    let input: Vec<u8> = (0..=255u8).collect();
    let mut mismatches = 0usize;
    for bg in 0..=255u32 {
        for text in (0..=255u32).step_by(3) {
            let out = convert_grayscale_to_rgba_blend(&input, bg << 24, text << 24);
            for t in 0..=255u8 {
                if out[t as usize * 4] != blend_f32(bg, text, t) {
                    mismatches += 1;
                }
            }
        }
    }
    assert_eq!(mismatches, 0);
}

#[test]
fn negative_width_with_zero_height_gives_an_empty_image() {
    assert!(convert_format_to_packed_rgba(&[1, 2, 3, 4], GL_RGBA, -3, 0).is_empty());
    assert!(convert_grayscale_to_rgba(&[1, 2, 3], 0, -5).is_empty());
}
