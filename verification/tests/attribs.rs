use obscura_webgl::gl_internal::{attrib_elem_size, attrib_stride, attrib_words, get_v_attrib_words};
use obscura_webgl::gl_types::{
    GlVertexAttrib, GL_BYTE, GL_DOUBLE, GL_FLOAT, GL_INT, GL_SHORT, GL_UNSIGNED_BYTE, GL_UNSIGNED_INT, GL_UNSIGNED_SHORT,
};

fn attrib(size: i32, type_: u32, stride: i32, offset: isize) -> GlVertexAttrib {
    let mut a = GlVertexAttrib::default();
    a.size = size;
    a.type_ = type_;
    a.stride = stride;
    a.offset = offset;
    a.buf = 1;
    a.enabled = true;
    a
}

#[test]
fn element_sizes_per_type() {
    assert_eq!(attrib_elem_size(GL_UNSIGNED_BYTE), 1);
    assert_eq!(attrib_elem_size(GL_BYTE), 1);
    assert_eq!(attrib_elem_size(GL_UNSIGNED_SHORT), 2);
    assert_eq!(attrib_elem_size(GL_SHORT), 2);
    assert_eq!(attrib_elem_size(GL_FLOAT), 4);
    assert_eq!(attrib_elem_size(GL_INT), 4);
    assert_eq!(attrib_elem_size(GL_UNSIGNED_INT), 4);
    assert_eq!(attrib_elem_size(GL_DOUBLE), 8);
    assert_eq!(attrib_elem_size(0x1234), 4);
}

#[test]
fn zero_stride_means_tightly_packed() {
    assert_eq!(attrib_stride(&attrib(3, GL_UNSIGNED_SHORT, 0, 0)), 6);
    assert_eq!(attrib_stride(&attrib(4, GL_FLOAT, 0, 0)), 16);
    assert_eq!(attrib_stride(&attrib(2, GL_FLOAT, 20, 0)), 20);
}

#[test]
fn components_are_little_endian_words() {
    let data = [1u8, 2, 3, 4, 5, 6, 7, 8, 9, 10, 11, 12, 13, 14, 15, 16];
    assert_eq!(attrib_words(GL_UNSIGNED_BYTE, 3, &data, 1), vec![2, 3, 4]);
    assert_eq!(attrib_words(GL_SHORT, 2, &data, 0), vec![0x0201, 0x0403]);
    assert_eq!(attrib_words(GL_FLOAT, 2, &data, 4), vec![0x0807_0605, 0x0C0B_0A09]);
    assert_eq!(attrib_words(GL_DOUBLE, 1, &data, 8), vec![0x100F_0E0D_0C0B_0A09]);
    assert_eq!(attrib_words(GL_DOUBLE, 0, &data, 16), Vec::<u64>::new());
}

#[test]
fn vertex_attribute_read_from_its_buffer() {
    // Two vertices of three unsigned shorts, after a two-byte header.
    let data = [0xAAu8, 0xBB, 1, 0, 2, 0, 3, 0, 4, 1, 5, 1, 6, 1];
    let a = attrib(3, GL_UNSIGNED_SHORT, 0, 2);
    assert_eq!(get_v_attrib_words(&a, 0, &data), vec![1, 2, 3]);
    assert_eq!(get_v_attrib_words(&a, 1, &data), vec![0x104, 0x105, 0x106]);
    let f = 1.5f32.to_le_bytes();
    let mut fdata = vec![0u8; 8];
    fdata.extend_from_slice(&f);
    let b = attrib(1, GL_FLOAT, 8, 0);
    assert_eq!(get_v_attrib_words(&b, 1, &fdata), vec![1.5f32.to_bits() as u64]);
}
