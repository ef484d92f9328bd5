//! Texture images: specifying the texels of the texture that a target
//! refers to, whole or in part.

use vstd::prelude::*;
use crate::gl_context::{GlContext, GlObjects};
use crate::gl_impl::{format_components, spec_format_components, spec_texture_target_index, texture_target_index, NUM_TEX_TARGETS};
use crate::gl_types::{
    GL_INVALID_ENUM, GL_NO_ERROR, GL_TEXTURE_CUBE_MAP, GL_TEXTURE_CUBE_MAP_NEGATIVE_Z,
    GL_TEXTURE_CUBE_MAP_POSITIVE_X, GL_TEXTURE_UNBOUND, GLenum, GLint, GLsizei, GlTexture,
};

verus! {

/// `n` bytes: those of `d` as far as it reaches, then zeros.
pub open spec fn spec_padded_copy(d: Seq<u8>, n: int) -> Seq<u8> {
    Seq::new(n as nat, |i: int| if i < d.len() { d[i] } else { 0u8 })
}

/// The texels of an image of rows of `row_bytes` bytes each, read from
/// client memory `d` in which each row starts `padded` bytes after the one
/// before it; bytes past the end of `d` read as zero.
pub open spec fn spec_unpacked(d: Seq<u8>, row_bytes: int, padded: int, n: int) -> Seq<u8> {
    Seq::new(
        n as nat,
        |i: int|
            {
                let src = (i / row_bytes) * padded + i % row_bytes;
                if src < d.len() { d[src] } else { 0u8 }
            },
    )
}

/// The length of a client row of `row_bytes` bytes, padded to a multiple of
/// `align`.
pub open spec fn spec_padded_row(row_bytes: int, align: int) -> int {
    if row_bytes % align == 0 { row_bytes } else { row_bytes + align - row_bytes % align }
}

/// The target whose slot a 2D image for `target` goes to: cube map faces go
/// to the cube map.
pub open spec fn spec_image_target(target: GLenum) -> GLenum {
    if GL_TEXTURE_CUBE_MAP_POSITIVE_X <= target <= GL_TEXTURE_CUBE_MAP_NEGATIVE_Z {
        GL_TEXTURE_CUBE_MAP
    } else {
        target
    }
}

/// The error that specifying an image for `target` in `format` reports:
/// `GL_INVALID_ENUM` for an unknown target or format.
pub open spec fn spec_image_error(target: GLenum, format: GLenum) -> GLenum {
    if spec_texture_target_index(target) is None || spec_format_components(format) is None {
        GL_INVALID_ENUM
    } else {
        GL_NO_ERROR
    }
}

/// `t` is `before` holding a `w` by `h` by `d` image in `format` with
/// texels `texels`; a texture that no target had claimed becomes one of
/// `target`.
pub open spec fn spec_image_stored(
    t: GlTexture,
    before: GlTexture,
    w: GLsizei,
    h: GLsizei,
    d: GLsizei,
    format: GLenum,
    texels: Seq<u8>,
    target: GLenum,
) -> bool {
    &&& t.w == w && t.h == h && t.d == d
    &&& t.format == format
    &&& t.data@ == texels
    &&& t.type_ == (if before.type_ == GL_TEXTURE_UNBOUND { target } else { before.type_ })
    &&& t.mag_filter == before.mag_filter && t.min_filter == before.min_filter
    &&& t.wrap_s == before.wrap_s && t.wrap_t == before.wrap_t && t.wrap_r == before.wrap_r
    &&& t.deleted == before.deleted && t.user_owned == before.user_owned
    &&& t.border_color == before.border_color
}

/// `t` is `before` with texels `texels`.
pub open spec fn spec_texels_replaced(t: GlTexture, before: GlTexture, texels: Seq<u8>) -> bool {
    t == (GlTexture { data: t.data, ..before }) && t.data@ == texels
}

/// `n` bytes of `d`, padded with zeros past its end.
fn padded_copy(d: &[u8], n: usize) -> (out: Vec<u8>)
    ensures
        out@ == spec_padded_copy(d@, n as int),
{
    let mut out: Vec<u8> = Vec::new();
    let mut i: usize = 0;
    while i < n
        invariant
            0 <= i <= n,
            out@.len() == i,
            forall|j: int| 0 <= j < i ==> #[trigger] out@[j] == (if j < d@.len() { d@[j] } else { 0u8 }),
        decreases n - i,
    {
        if i < d.len() {
            out.push(d[i]);
        } else {
            out.push(0);
        }
        i = i + 1;
    }
    assert(out@ =~= spec_padded_copy(d@, n as int));
    out
}

proof fn lemma_row_index(row: int, col: int, row_bytes: int)
    requires
        0 <= row,
        0 <= col < row_bytes,
    ensures
        (row * row_bytes + col) / row_bytes == row,
        (row * row_bytes + col) % row_bytes == col,
{
    vstd::arithmetic::div_mod::lemma_fundamental_div_mod_converse(row * row_bytes + col, row_bytes, row, col);
}

/// Unpack `height` rows of `row_bytes` bytes from client memory whose rows
/// are `padded` bytes apart.
fn unpack_rows(d: &[u8], row_bytes: usize, padded: usize, height: usize) -> (out: Vec<u8>)
    requires
        row_bytes <= padded,
        padded * height + row_bytes <= usize::MAX,
    ensures
        out@ == spec_unpacked(d@, row_bytes as int, padded as int, (row_bytes * height) as int),
{
    let mut out: Vec<u8> = Vec::new();
    let mut row: usize = 0;
    while row < height
        invariant
            0 <= row <= height,
            row_bytes <= padded,
            padded * height + row_bytes <= usize::MAX,
            out@.len() == row * row_bytes,
            forall|j: int|
                0 <= j < row * row_bytes ==> #[trigger] out@[j] == ({
                    let src = (j / row_bytes as int) * padded + j % (row_bytes as int);
                    if src < d@.len() { d@[src] } else { 0u8 }
                }),
        decreases height - row,
    {
        assert(row * padded <= padded * height) by (nonlinear_arith)
            requires
                row < height,
        ;
        let src_off = row * padded;
        let mut col: usize = 0;
        while col < row_bytes
            invariant
                0 <= col <= row_bytes,
                row < height,
                row_bytes <= padded,
                padded * height + row_bytes <= usize::MAX,
                src_off == row * padded,
                src_off + row_bytes <= usize::MAX,
                out@.len() == row * row_bytes + col,
                forall|j: int|
                    0 <= j < row * row_bytes + col ==> #[trigger] out@[j] == ({
                        let src = (j / row_bytes as int) * padded + j % (row_bytes as int);
                        if src < d@.len() { d@[src] } else { 0u8 }
                    }),
            decreases row_bytes - col,
        {
            proof {
                lemma_row_index(row as int, col as int, row_bytes as int);
            }
            let src = src_off + col;
            if src < d.len() {
                out.push(d[src]);
            } else {
                out.push(0);
            }
            col = col + 1;
        }
        assert((row + 1) * row_bytes == row * row_bytes + row_bytes) by (nonlinear_arith);
        row = row + 1;
    }
    assert(row * row_bytes == row_bytes * height) by (nonlinear_arith)
        requires
            row == height,
    ;
    assert(out@ =~= spec_unpacked(d@, row_bytes as int, padded as int, (row_bytes * height) as int));
    out
}

/// The texels of a `width` by `height` image of `c` bytes per texel, read
/// from client rows padded to `align` bytes.
fn unpack_image(bytes: &[u8], width: GLsizei, height: GLsizei, c: usize, align: GLint) -> (texels: Vec<u8>)
    requires
        1 <= c <= 4,
        align == 1 || align == 2 || align == 4 || align == 8,
        0 <= width,
        0 <= height,
        (width * 4 + 8) * (height + 1) <= usize::MAX,
    ensures
        texels@ == spec_unpacked(
            bytes@,
            width * c,
            spec_padded_row(width * c, align as int),
            width * c * height,
        ),
{
    assert((width as usize) * c <= width * 4) by (nonlinear_arith)
        requires
            0 <= width,
            c <= 4,
    ;
    assert(width * 4 + 8 <= (width * 4 + 8) * (height + 1)) by (nonlinear_arith)
        requires
            0 <= width,
            0 <= height,
    ;
    let row_bytes = (width as usize) * c;
    let a = align as usize;
    let padding = row_bytes % a;
    let padded = if padding == 0 { row_bytes } else { row_bytes + a - padding };
    assert(padded * (height as usize) + row_bytes <= usize::MAX) by (nonlinear_arith)
        requires
            padded <= row_bytes + 8,
            row_bytes <= width * 4,
            0 <= height,
            (width * 4 + 8) * (height + 1) <= usize::MAX,
    ;
    unpack_rows(bytes, row_bytes, padded, height as usize)
}

/// The texture `before` holding the given image.
fn with_image(
    before: GlTexture,
    w: GLsizei,
    h: GLsizei,
    d: GLsizei,
    format: GLenum,
    texels: Vec<u8>,
    target: GLenum,
) -> (t: GlTexture)
    ensures
        spec_image_stored(t, before, w, h, d, format, texels@, target),
{
    let mut t = before;
    t.w = w;
    t.h = h;
    t.d = d;
    t.format = format;
    t.data = texels;
    if t.type_ == GL_TEXTURE_UNBOUND {
        t.type_ = target;
    }
    t
}

impl GlObjects {
    /// Put an image into the texture that slot `ti` refers to.
    fn store_image(
        &mut self,
        ti: usize,
        w: GLsizei,
        h: GLsizei,
        d: GLsizei,
        format: GLenum,
        texels: Vec<u8>,
        target: GLenum,
    )
        requires
            ti < NUM_TEX_TARGETS,
            old(self).texture_bindings_ok(),
        ensures
            old(self).spec_texture_replaced(*final(self), ti as int, final(self).spec_bound_texture(ti as int)),
            spec_image_stored(
                final(self).spec_bound_texture(ti as int),
                old(self).spec_bound_texture(ti as int),
                w,
                h,
                d,
                format,
                texels@,
                target,
            ),
            final(self).texture_bindings_ok(),
    {
        let ghost s0 = *self;
        let e = GlTexture::empty();
        let prev = self.take_texture(ti, e);
        let ghost s1 = *self;
        let t = with_image(prev, w, h, d, format, texels, target);
        let ghost tt = t;
        self.put_texture(ti, t, Ghost(s0), Ghost(e));
        proof {
            assert(self.spec_bound_texture(ti as int) == tt);
        }
    }

    /// The width, height and texels of the texture that slot `ti` refers to.
    fn bound_texture_size(&self, ti: usize) -> (r: (GLsizei, GLsizei, usize))
        requires
            ti < NUM_TEX_TARGETS,
            self.texture_bindings_ok(),
        ensures
            r.0 == self.spec_bound_texture(ti as int).w,
            r.1 == self.spec_bound_texture(ti as int).h,
            r.2 == self.spec_bound_texture(ti as int).data@.len(),
    {
        proof {
            reveal(GlObjects::texture_bindings_ok);
        }
        let b = self.bound_textures[ti];
        if b == 0 {
            let t = &self.default_textures[ti];
            (t.w, t.h, t.data.len())
        } else {
            let t = &self.textures[b as usize];
            (t.w, t.h, t.data.len())
        }
    }
}

/// `dst` with the `n` bytes of `src` from `s` on written at `t`, when both
/// ranges lie inside their buffers; otherwise `dst` unchanged.
pub open spec fn spec_copy_block(dst: Seq<u8>, src: Seq<u8>, s: int, t: int, n: int) -> Seq<u8> {
    if 0 <= n && 0 <= s && 0 <= t && s + n <= src.len() && t + n <= dst.len() {
        Seq::new(dst.len(), |i: int| if t <= i < t + n { src[s + i - t] } else { dst[i] })
    } else {
        dst
    }
}

/// The placement of a sub-image: `w` by `h` by `d` texels of `c` bytes,
/// written at texel (`xoff`, `yoff`, `zoff`) of a texture whose rows are
/// `tex_w` texels long and whose slices are `plane` texels large.
pub struct SubImage {
    pub w: int,
    pub h: int,
    pub c: int,
    pub tex_w: int,
    pub plane: int,
    pub xoff: int,
    pub yoff: int,
    pub zoff: int,
}

/// Where row `row` of slice `slice` of the sub-image starts in the client
/// data.
pub open spec fn spec_src_start(g: SubImage, slice: int, row: int) -> int {
    (slice * g.h * g.w + row * g.w) * g.c
}

/// Where row `row` of slice `slice` of the sub-image goes in the texels.
pub open spec fn spec_dst_start(g: SubImage, slice: int, row: int) -> int {
    ((g.zoff + slice) * g.plane + (g.yoff + row) * g.tex_w + g.xoff) * g.c
}

/// The texels after the first `rows` rows of slice `slice` have been
/// written, in order, on top of `dst`.
pub open spec fn spec_rows_written(dst: Seq<u8>, src: Seq<u8>, g: SubImage, slice: int, rows: nat) -> Seq<u8>
    decreases rows,
{
    if rows == 0 {
        dst
    } else {
        let before = spec_rows_written(dst, src, g, slice, (rows - 1) as nat);
        spec_copy_block(
            before,
            src,
            spec_src_start(g, slice, rows - 1),
            spec_dst_start(g, slice, rows - 1),
            g.w * g.c,
        )
    }
}

/// The texels after the first `slices` slices of the sub-image have been
/// written, row by row and in order, on top of `dst`; a row that would
/// read or write outside its buffer is skipped.
pub open spec fn spec_sub_image(dst: Seq<u8>, src: Seq<u8>, g: SubImage, slices: nat) -> Seq<u8>
    decreases slices,
{
    if slices == 0 {
        dst
    } else {
        spec_rows_written(spec_sub_image(dst, src, g, (slices - 1) as nat), src, g, slices - 1, g.h as nat)
    }
}

/// Write `n` bytes of `src` from `s` on at `t` of `dst`, if both ranges fit.
fn copy_block(dst: &mut Vec<u8>, src: &[u8], s: usize, t: usize, n: usize)
    requires
        s + n <= usize::MAX,
        t + n <= usize::MAX,
    ensures
        final(dst)@ == spec_copy_block(old(dst)@, src@, s as int, t as int, n as int),
{
    if s + n <= src.len() && t + n <= dst.len() {
        let ghost before = dst@;
        let mut j: usize = 0;
        while j < n
            invariant
                0 <= j <= n,
                s + n <= usize::MAX,
                t + n <= usize::MAX,
                s + n <= src@.len(),
                t + n <= before.len(),
                dst@.len() == before.len(),
                forall|i: int| 0 <= i < t ==> #[trigger] dst@[i] == before[i],
                forall|i: int| t <= i < t + j ==> #[trigger] dst@[i] == src@[s + i - t],
                forall|i: int| t + j <= i < before.len() ==> #[trigger] dst@[i] == before[i],
            decreases n - j,
        {
            dst.set(t + j, src[s + j]);
            j = j + 1;
        }
        assert(dst@ =~= spec_copy_block(before, src@, s as int, t as int, n as int));
    }
}

/// The exec sizes of a sub-image fit in `usize` all the way to its last
/// row.
pub open spec fn spec_sub_image_fits(g: SubImage, d: int) -> bool {
    &&& 0 <= g.w && 0 <= g.h && 1 <= g.c && 0 <= g.tex_w && 0 <= g.plane
    &&& 0 <= g.xoff && 0 <= g.yoff && 0 <= g.zoff && 0 <= d
    &&& d * g.h <= usize::MAX
    &&& g.zoff + d <= usize::MAX
    &&& g.yoff + g.h <= usize::MAX
    &&& (d * g.h * g.w + g.w) * g.c <= usize::MAX
    &&& ((g.zoff + d) * g.plane + (g.yoff + g.h) * g.tex_w + g.xoff + g.w) * g.c <= usize::MAX
}

proof fn lemma_sub_image_row_fits(g: SubImage, d: int, slice: int, row: int)
    requires
        spec_sub_image_fits(g, d),
        0 <= slice < d,
        0 <= row < g.h,
    ensures
        0 <= spec_src_start(g, slice, row),
        spec_src_start(g, slice, row) + g.w * g.c <= usize::MAX,
        0 <= spec_dst_start(g, slice, row),
        spec_dst_start(g, slice, row) + g.w * g.c <= usize::MAX,
        0 <= slice * g.h * g.w,
        0 <= (slice * g.h * g.w + row * g.w),
        (slice * g.h * g.w + row * g.w) * g.c <= usize::MAX,
        0 <= (g.zoff + slice) * g.plane,
        0 <= (g.yoff + row) * g.tex_w,
        (g.zoff + slice) * g.plane + (g.yoff + row) * g.tex_w + g.xoff <= usize::MAX,
        ((g.zoff + slice) * g.plane + (g.yoff + row) * g.tex_w + g.xoff) * g.c <= usize::MAX,
        g.w * g.c <= usize::MAX,
        0 <= slice * g.h <= usize::MAX,
        slice * g.h * g.w <= usize::MAX,
        0 <= row * g.w <= usize::MAX,
        slice * g.h * g.w + row * g.w <= usize::MAX,
        g.zoff + slice <= usize::MAX,
        (g.zoff + slice) * g.plane <= usize::MAX,
        g.yoff + row <= usize::MAX,
        (g.yoff + row) * g.tex_w <= usize::MAX,
        (g.zoff + slice) * g.plane + (g.yoff + row) * g.tex_w <= usize::MAX,
{
    assert(0 <= slice * g.h <= d * g.h) by (nonlinear_arith)
        requires
            0 <= slice < d,
            0 <= g.h,
    ;
    assert(0 <= slice * g.h * g.w) by (nonlinear_arith)
        requires
            0 <= slice,
            0 <= g.h,
            0 <= g.w,
    ;
    assert(slice * g.h * g.w + row * g.w + g.w <= d * g.h * g.w + g.w) by (nonlinear_arith)
        requires
            0 <= slice < d,
            0 <= row < g.h,
            0 <= g.w,
    ;
    assert(0 <= row * g.w) by (nonlinear_arith)
        requires
            0 <= row,
            0 <= g.w,
    ;
    assert((slice * g.h * g.w + row * g.w + g.w) * g.c <= (d * g.h * g.w + g.w) * g.c) by (nonlinear_arith)
        requires
            slice * g.h * g.w + row * g.w + g.w <= d * g.h * g.w + g.w,
            0 <= g.c,
    ;
    assert((slice * g.h * g.w + row * g.w) * g.c <= (slice * g.h * g.w + row * g.w + g.w) * g.c) by (nonlinear_arith)
        requires
            0 <= g.w,
            0 <= g.c,
    ;
    assert((slice * g.h * g.w + row * g.w + g.w) * g.c == (slice * g.h * g.w + row * g.w) * g.c + g.w * g.c) by (nonlinear_arith);
    assert(0 <= (g.zoff + slice) * g.plane) by (nonlinear_arith)
        requires
            0 <= g.zoff + slice,
            0 <= g.plane,
    ;
    assert(0 <= (g.yoff + row) * g.tex_w) by (nonlinear_arith)
        requires
            0 <= g.yoff + row,
            0 <= g.tex_w,
    ;
    assert((g.zoff + slice) * g.plane <= (g.zoff + d) * g.plane) by (nonlinear_arith)
        requires
            slice < d,
            0 <= g.plane,
    ;
    assert((g.yoff + row) * g.tex_w <= (g.yoff + g.h) * g.tex_w) by (nonlinear_arith)
        requires
            row < g.h,
            0 <= g.tex_w,
    ;
    let a = (g.zoff + slice) * g.plane + (g.yoff + row) * g.tex_w + g.xoff;
    let b = (g.zoff + d) * g.plane + (g.yoff + g.h) * g.tex_w + g.xoff + g.w;
    assert(a + g.w <= b);
    assert((a + g.w) * g.c <= b * g.c) by (nonlinear_arith)
        requires
            a + g.w <= b,
            0 <= g.c,
    ;
    assert((a + g.w) * g.c == a * g.c + g.w * g.c) by (nonlinear_arith);
    assert(0 <= a * g.c) by (nonlinear_arith)
        requires
            0 <= a,
            0 <= g.c,
    ;
    assert(0 <= g.w * g.c) by (nonlinear_arith)
        requires
            0 <= g.w,
            0 <= g.c,
    ;
    assert(0 <= (slice * g.h * g.w + row * g.w) * g.c) by (nonlinear_arith)
        requires
            0 <= slice * g.h * g.w + row * g.w,
            0 <= g.c,
    ;
    assert(b <= b * g.c) by (nonlinear_arith)
        requires
            0 <= b,
            1 <= g.c,
    ;
    assert(slice * g.h * g.w + row * g.w <= (slice * g.h * g.w + row * g.w) * g.c) by (nonlinear_arith)
        requires
            0 <= slice * g.h * g.w + row * g.w,
            1 <= g.c,
    ;
    assert(g.w <= g.w * g.c) by (nonlinear_arith)
        requires
            0 <= g.w,
            1 <= g.c,
    ;
}

/// A sub-image with no slices or no rows leaves the texels as they are.
proof fn lemma_no_rows(dst: Seq<u8>, src: Seq<u8>, g: SubImage, slices: nat)
    requires
        slices == 0 || g.h == 0,
    ensures
        spec_sub_image(dst, src, g, slices) == dst,
    decreases slices,
{
    if slices > 0 {
        lemma_no_rows(dst, src, g, (slices - 1) as nat);
    }
}

/// Write a sub-image into `dst`, row by row, skipping rows that would read
/// or write outside their buffers.
fn write_sub_image(
    dst: &mut Vec<u8>,
    src: &[u8],
    w: usize,
    h: usize,
    d: usize,
    c: usize,
    tex_w: usize,
    plane: usize,
    xoff: usize,
    yoff: usize,
    zoff: usize,
    Ghost(g): Ghost<SubImage>,
)
    requires
        g == (SubImage {
            w: w as int,
            h: h as int,
            c: c as int,
            tex_w: tex_w as int,
            plane: plane as int,
            xoff: xoff as int,
            yoff: yoff as int,
            zoff: zoff as int,
        }),
        d > 0 && h > 0 ==> spec_sub_image_fits(g, d as int),
    ensures
        final(dst)@ == spec_sub_image(old(dst)@, src@, g, d as nat),
{
    if d == 0 || h == 0 {
        proof {
            lemma_no_rows(old(dst)@, src@, g, d as nat);
        }
        return;
    }
    let mut slice: usize = 0;
    while slice < d
        invariant
            0 <= slice <= d,
            spec_sub_image_fits(g, d as int),
            g == (SubImage {
                w: w as int,
                h: h as int,
                c: c as int,
                tex_w: tex_w as int,
                plane: plane as int,
                xoff: xoff as int,
                yoff: yoff as int,
                zoff: zoff as int,
            }),
            dst@ == spec_sub_image(old(dst)@, src@, g, slice as nat),
        decreases d - slice,
    {
        let ghost before_slice = dst@;
        let mut row: usize = 0;
        while row < h
            invariant
                0 <= row <= h,
                slice < d,
                spec_sub_image_fits(g, d as int),
                g == (SubImage {
                    w: w as int,
                    h: h as int,
                    c: c as int,
                    tex_w: tex_w as int,
                    plane: plane as int,
                    xoff: xoff as int,
                    yoff: yoff as int,
                    zoff: zoff as int,
                }),
                before_slice == spec_sub_image(old(dst)@, src@, g, slice as nat),
                dst@ == spec_rows_written(before_slice, src@, g, slice as int, row as nat),
            decreases h - row,
        {
            proof {
                lemma_sub_image_row_fits(g, d as int, slice as int, row as int);
            }
            let src_start = (slice * h * w + row * w) * c;
            let dst_start = ((zoff + slice) * plane + (yoff + row) * tex_w + xoff) * c;
            let count = w * c;
            copy_block(dst, src, src_start, dst_start, count);
            row = row + 1;
        }
        slice = slice + 1;
    }
}

impl GlObjects {
    /// Write a sub-image into the texture that slot `ti` refers to.
    fn sub_image_bound(
        &mut self,
        ti: usize,
        src: &[u8],
        w: usize,
        h: usize,
        d: usize,
        c: usize,
        tex_w: usize,
        plane: usize,
        xoff: usize,
        yoff: usize,
        zoff: usize,
        Ghost(g): Ghost<SubImage>,
    )
        requires
            ti < NUM_TEX_TARGETS,
            old(self).texture_bindings_ok(),
            g == (SubImage {
                w: w as int,
                h: h as int,
                c: c as int,
                tex_w: tex_w as int,
                plane: plane as int,
                xoff: xoff as int,
                yoff: yoff as int,
                zoff: zoff as int,
            }),
            d > 0 && h > 0 ==> spec_sub_image_fits(g, d as int),
        ensures
            old(self).spec_texture_replaced(*final(self), ti as int, final(self).spec_bound_texture(ti as int)),
            spec_texels_replaced(
                final(self).spec_bound_texture(ti as int),
                old(self).spec_bound_texture(ti as int),
                spec_sub_image(old(self).spec_bound_texture(ti as int).data@, src@, g, d as nat),
            ),
    {
        let ghost s0 = *self;
        let e = GlTexture::empty();
        let prev = self.take_texture(ti, e);
        let ghost p0 = prev;
        let GlTexture {
            w: tw,
            h: th,
            d: td,
            mag_filter,
            min_filter,
            wrap_s,
            wrap_t,
            wrap_r,
            format,
            type_,
            deleted,
            user_owned,
            border_color,
            data: mut bytes,
        } = prev;
        write_sub_image(&mut bytes, src, w, h, d, c, tex_w, plane, xoff, yoff, zoff, Ghost(g));
        let t = GlTexture {
            w: tw,
            h: th,
            d: td,
            mag_filter,
            min_filter,
            wrap_s,
            wrap_t,
            wrap_r,
            format,
            type_,
            deleted,
            user_owned,
            border_color,
            data: bytes,
        };
        let ghost tt = t;
        self.put_texture(ti, t, Ghost(s0), Ghost(e));
        proof {
            assert(tt == (GlTexture { data: tt.data, ..p0 }));
        }
    }
}

/// The client bytes of an optional image: none when there is no data.
pub open spec fn spec_client_bytes(data: Option<&[u8]>) -> Seq<u8> {
    match data {
        Some(d) => d@,
        None => Seq::empty(),
    }
}

fn client_bytes<'a>(data: Option<&'a [u8]>, empty: &'a [u8]) -> (r: &'a [u8])
    requires
        empty@.len() == 0,
    ensures
        r@ == spec_client_bytes(data),
{
    match data {
        Some(d) => d,
        None => empty,
    }
}

impl GlContext {
    /// The texture slot and component count of an image for `target` in
    /// `format`, or `GL_INVALID_ENUM`.
    fn check_image(&self, target: GLenum, format: GLenum) -> (r: Result<(usize, usize), GLenum>)
        ensures
            spec_image_error(target, format) != GL_NO_ERROR ==> r == Err::<(usize, usize), GLenum>(GL_INVALID_ENUM),
            spec_image_error(target, format) == GL_NO_ERROR ==> r == Ok::<(usize, usize), GLenum>(
                (
                    spec_texture_target_index(target).unwrap(),
                    spec_format_components(format).unwrap() as usize,
                ),
            ),
            r matches Ok((ti, c)) ==> ti < NUM_TEX_TARGETS && 1 <= c <= 4,
    {
        let ti = match texture_target_index(target) {
            Some(i) => i,
            None => {
                return Err(GL_INVALID_ENUM);
            },
        };
        match format_components(format) {
            Some(c) => Ok((ti, c as usize)),
            None => Err(GL_INVALID_ENUM),
        }
    }

    /// Specify a one-dimensional image of `width` texels in `format` for the
    /// texture that `target` refers to: the first bytes of `data`, padded
    /// with zeros (all zeros without data). An unknown target or format
    /// records `GL_INVALID_ENUM`.
    pub fn gl_tex_image_1d(
        &mut self,
        target: GLenum,
        level: GLint,
        internalformat: GLint,
        width: GLsizei,
        border: GLint,
        format: GLenum,
        type_: GLenum,
        data: Option<&[u8]>,
    )
        requires
            old(self).objects.texture_bindings_ok(),
            0 <= width,
            width * 4 <= usize::MAX,
        ensures
            spec_image_error(target, format) != GL_NO_ERROR ==> *final(self) == old(self).with_error(GL_INVALID_ENUM),
            spec_image_error(target, format) == GL_NO_ERROR ==> {
                let ti = spec_texture_target_index(target).unwrap() as int;
                let c = spec_format_components(format).unwrap() as int;
                &&& old(self).objects.spec_texture_replaced(final(self).objects, ti, final(self).objects.spec_bound_texture(ti))
                &&& spec_image_stored(
                    final(self).objects.spec_bound_texture(ti),
                    old(self).objects.spec_bound_texture(ti),
                    width,
                    0,
                    0,
                    format,
                    spec_padded_copy(spec_client_bytes(data), width * c),
                    target,
                )
                &&& *final(self) == (GlContext { objects: final(self).objects, ..*old(self) })
            },
    {
        match self.check_image(target, format) {
            Err(e) => self.set_error(e),
            Ok((ti, c)) => {
                assert((width as usize) * c <= width * 4) by (nonlinear_arith)
                    requires
                        0 <= width,
                        c <= 4,
                ;
                let empty: [u8; 0] = [];
                let bytes = client_bytes(data, &empty);
                let texels = padded_copy(bytes, (width as usize) * c);
                self.objects.store_image(ti, width, 0, 0, format, texels, target);
            },
        }
    }

    /// Specify a two-dimensional image of `width` by `height` texels in
    /// `format` for the texture that `target` refers to (a cube map face
    /// goes to the cube map). Client rows are padded to the unpack
    /// alignment; bytes past the end of `data` read as zero, and without
    /// data the image is all zeros. An unknown target or format records
    /// `GL_INVALID_ENUM`.
    pub fn gl_tex_image_2d(
        &mut self,
        target: GLenum,
        level: GLint,
        internalformat: GLint,
        width: GLsizei,
        height: GLsizei,
        border: GLint,
        format: GLenum,
        type_: GLenum,
        data: Option<&[u8]>,
    )
        requires
            old(self).objects.texture_bindings_ok(),
            old(self).unpack_alignment == 1 || old(self).unpack_alignment == 2 || old(self).unpack_alignment == 4
                || old(self).unpack_alignment == 8,
            0 <= width,
            0 <= height,
            (width * 4 + 8) * (height + 1) <= usize::MAX,
        ensures
            spec_image_error(spec_image_target(target), format) != GL_NO_ERROR ==> *final(self) == old(self).with_error(
                GL_INVALID_ENUM,
            ),
            spec_image_error(spec_image_target(target), format) == GL_NO_ERROR ==> {
                let actual = spec_image_target(target);
                let ti = spec_texture_target_index(actual).unwrap() as int;
                let row_bytes = width * spec_format_components(format).unwrap();
                &&& old(self).objects.spec_texture_replaced(final(self).objects, ti, final(self).objects.spec_bound_texture(ti))
                &&& spec_image_stored(
                    final(self).objects.spec_bound_texture(ti),
                    old(self).objects.spec_bound_texture(ti),
                    width,
                    height,
                    0,
                    format,
                    spec_unpacked(
                        spec_client_bytes(data),
                        row_bytes,
                        spec_padded_row(row_bytes, old(self).unpack_alignment as int),
                        row_bytes * height,
                    ),
                    actual,
                )
                &&& *final(self) == (GlContext { objects: final(self).objects, ..*old(self) })
            },
    {
        let actual = if target >= GL_TEXTURE_CUBE_MAP_POSITIVE_X && target <= GL_TEXTURE_CUBE_MAP_NEGATIVE_Z {
            GL_TEXTURE_CUBE_MAP
        } else {
            target
        };
        match self.check_image(actual, format) {
            Err(e) => self.set_error(e),
            Ok((ti, c)) => {
                let empty: [u8; 0] = [];
                let bytes = client_bytes(data, &empty);
                let texels = unpack_image(bytes, width, height, c, self.unpack_alignment);
                self.objects.store_image(ti, width, height, 0, format, texels, actual);
            },
        }
    }

    /// Specify a three-dimensional image of `width` by `height` by `depth`
    /// texels in `format` for the texture that `target` refers to: the first
    /// bytes of `data`, padded with zeros (all zeros without data). An
    /// unknown target or format records `GL_INVALID_ENUM`.
    pub fn gl_tex_image_3d(
        &mut self,
        target: GLenum,
        level: GLint,
        internalformat: GLint,
        width: GLsizei,
        height: GLsizei,
        depth: GLsizei,
        border: GLint,
        format: GLenum,
        type_: GLenum,
        data: Option<&[u8]>,
    )
        requires
            old(self).objects.texture_bindings_ok(),
            0 <= width,
            0 <= height,
            0 <= depth,
            width * height <= usize::MAX,
            width * height * depth * 4 <= usize::MAX,
        ensures
            spec_image_error(target, format) != GL_NO_ERROR ==> *final(self) == old(self).with_error(GL_INVALID_ENUM),
            spec_image_error(target, format) == GL_NO_ERROR ==> {
                let ti = spec_texture_target_index(target).unwrap() as int;
                let c = spec_format_components(format).unwrap() as int;
                &&& old(self).objects.spec_texture_replaced(final(self).objects, ti, final(self).objects.spec_bound_texture(ti))
                &&& spec_image_stored(
                    final(self).objects.spec_bound_texture(ti),
                    old(self).objects.spec_bound_texture(ti),
                    width,
                    height,
                    depth,
                    format,
                    spec_padded_copy(spec_client_bytes(data), width * height * depth * c),
                    target,
                )
                &&& *final(self) == (GlContext { objects: final(self).objects, ..*old(self) })
            },
    {
        match self.check_image(target, format) {
            Err(e) => self.set_error(e),
            Ok((ti, c)) => {
                assert(width * height * depth * c <= width * height * depth * 4) by (nonlinear_arith)
                    requires
                        0 <= width,
                        0 <= height,
                        0 <= depth,
                        c <= 4,
                ;
                assert(0 <= width * height) by (nonlinear_arith)
                    requires
                        0 <= width,
                        0 <= height,
                ;
                assert(0 <= width * height * depth <= width * height * depth * 4) by (nonlinear_arith)
                    requires
                        0 <= width * height,
                        0 <= depth,
                ;
                let empty: [u8; 0] = [];
                let bytes = client_bytes(data, &empty);
                let n = (width as usize) * (height as usize) * (depth as usize) * c;
                let texels = padded_copy(bytes, n);
                self.objects.store_image(ti, width, height, depth, format, texels, target);
            },
        }
    }
}

/// The placement of a sub-image written at (`xoff`, `yoff`, `zoff`) of a
/// texture with rows of `tex_w` texels and slices of `plane` texels; offsets
/// and sizes are taken as the unsigned values the arithmetic uses.
pub open spec fn spec_geometry(
    w: GLsizei,
    h: GLsizei,
    c: int,
    tex_w: GLsizei,
    plane: int,
    xoff: GLint,
    yoff: GLint,
    zoff: GLint,
) -> SubImage {
    SubImage {
        w: (w as usize) as int,
        h: (h as usize) as int,
        c,
        tex_w: (tex_w as usize) as int,
        plane,
        xoff: (xoff as usize) as int,
        yoff: (yoff as usize) as int,
        zoff: (zoff as usize) as int,
    }
}

impl GlContext {
    /// Replace part of the texels of the one-dimensional texture that
    /// `target` refers to by `width` texels of `data`, starting at texel
    /// `xoffset`; nothing is written when either range falls outside its
    /// buffer. An unknown target or format records `GL_INVALID_ENUM`.
    pub fn gl_tex_sub_image_1d(
        &mut self,
        target: GLenum,
        level: GLint,
        xoffset: GLint,
        width: GLsizei,
        format: GLenum,
        type_: GLenum,
        data: &[u8],
    )
        requires
            old(self).objects.texture_bindings_ok(),
            spec_format_components(format) matches Some(c) ==> spec_sub_image_fits(
                spec_geometry(width, 1, c as int, 0, 0, xoffset, 0, 0),
                1,
            ),
        ensures
            spec_image_error(target, format) != GL_NO_ERROR ==> *final(self) == old(self).with_error(GL_INVALID_ENUM),
            spec_image_error(target, format) == GL_NO_ERROR ==> {
                let ti = spec_texture_target_index(target).unwrap() as int;
                let c = spec_format_components(format).unwrap() as int;
                let before = old(self).objects.spec_bound_texture(ti);
                &&& old(self).objects.spec_texture_replaced(final(self).objects, ti, final(self).objects.spec_bound_texture(ti))
                &&& spec_texels_replaced(
                    final(self).objects.spec_bound_texture(ti),
                    before,
                    spec_sub_image(before.data@, data@, spec_geometry(width, 1, c, 0, 0, xoffset, 0, 0), 1),
                )
                &&& *final(self) == (GlContext { objects: final(self).objects, ..*old(self) })
            },
    {
        match self.check_image(target, format) {
            Err(e) => self.set_error(e),
            Ok((ti, c)) => {
                let ghost g = spec_geometry(width, 1, c as int, 0, 0, xoffset, 0, 0);
                self.objects.sub_image_bound(
                    ti,
                    data,
                    width as usize,
                    1,
                    1,
                    c,
                    0,
                    0,
                    xoffset as usize,
                    0,
                    0,
                    Ghost(g),
                );
            },
        }
    }

    /// Replace a `width` by `height` block of the texels of the texture that
    /// `target` refers to (a cube map face goes to the cube map) by `data`,
    /// row by row from texel (`xoffset`, `yoffset`); a row that would read or
    /// write outside its buffer is skipped. An unknown target or format
    /// records `GL_INVALID_ENUM`.
    pub fn gl_tex_sub_image_2d(
        &mut self,
        target: GLenum,
        level: GLint,
        xoffset: GLint,
        yoffset: GLint,
        width: GLsizei,
        height: GLsizei,
        format: GLenum,
        type_: GLenum,
        data: &[u8],
    )
        requires
            old(self).objects.texture_bindings_ok(),
            spec_image_error(spec_image_target(target), format) == GL_NO_ERROR && (height as usize) > 0
                ==> spec_sub_image_fits(
                spec_geometry(
                    width,
                    height,
                    spec_format_components(format).unwrap() as int,
                    old(self).objects.spec_bound_texture(
                        spec_texture_target_index(spec_image_target(target)).unwrap() as int,
                    ).w,
                    0,
                    xoffset,
                    yoffset,
                    0,
                ),
                1,
            ),
        ensures
            spec_image_error(spec_image_target(target), format) != GL_NO_ERROR ==> *final(self) == old(self).with_error(
                GL_INVALID_ENUM,
            ),
            spec_image_error(spec_image_target(target), format) == GL_NO_ERROR ==> {
                let ti = spec_texture_target_index(spec_image_target(target)).unwrap() as int;
                let c = spec_format_components(format).unwrap() as int;
                let before = old(self).objects.spec_bound_texture(ti);
                &&& old(self).objects.spec_texture_replaced(final(self).objects, ti, final(self).objects.spec_bound_texture(ti))
                &&& spec_texels_replaced(
                    final(self).objects.spec_bound_texture(ti),
                    before,
                    spec_sub_image(
                        before.data@,
                        data@,
                        spec_geometry(width, height, c, before.w, 0, xoffset, yoffset, 0),
                        1,
                    ),
                )
                &&& *final(self) == (GlContext { objects: final(self).objects, ..*old(self) })
            },
    {
        let actual = if target >= GL_TEXTURE_CUBE_MAP_POSITIVE_X && target <= GL_TEXTURE_CUBE_MAP_NEGATIVE_Z {
            GL_TEXTURE_CUBE_MAP
        } else {
            target
        };
        match self.check_image(actual, format) {
            Err(e) => self.set_error(e),
            Ok((ti, c)) => {
                let (tex_w, _tex_h, _len) = self.objects.bound_texture_size(ti);
                let ghost g = spec_geometry(width, height, c as int, tex_w, 0, xoffset, yoffset, 0);
                self.objects.sub_image_bound(
                    ti,
                    data,
                    width as usize,
                    height as usize,
                    1,
                    c,
                    tex_w as usize,
                    0,
                    xoffset as usize,
                    yoffset as usize,
                    0,
                    Ghost(g),
                );
            },
        }
    }

    /// Replace a `width` by `height` by `depth` block of the texels of the
    /// texture that `target` refers to by `data`, slice by slice and row by
    /// row from texel (`xoffset`, `yoffset`, `zoffset`); a row that would read
    /// or write outside its buffer is skipped. An unknown target or format
    /// records `GL_INVALID_ENUM`.
    pub fn gl_tex_sub_image_3d(
        &mut self,
        target: GLenum,
        level: GLint,
        xoffset: GLint,
        yoffset: GLint,
        zoffset: GLint,
        width: GLsizei,
        height: GLsizei,
        depth: GLsizei,
        format: GLenum,
        type_: GLenum,
        data: &[u8],
    )
        requires
            old(self).objects.texture_bindings_ok(),
            spec_image_error(target, format) == GL_NO_ERROR ==> {
                let before = old(self).objects.spec_bound_texture(spec_texture_target_index(target).unwrap() as int);
                &&& (before.w as usize) * (before.h as usize) <= usize::MAX
                &&& (depth as usize) > 0 && (height as usize) > 0 ==> spec_sub_image_fits(
                    spec_geometry(
                        width,
                        height,
                        spec_format_components(format).unwrap() as int,
                        before.w,
                        (before.w as usize) * (before.h as usize),
                        xoffset,
                        yoffset,
                        zoffset,
                    ),
                    (depth as usize) as int,
                )
            },
        ensures
            spec_image_error(target, format) != GL_NO_ERROR ==> *final(self) == old(self).with_error(GL_INVALID_ENUM),
            spec_image_error(target, format) == GL_NO_ERROR ==> {
                let ti = spec_texture_target_index(target).unwrap() as int;
                let c = spec_format_components(format).unwrap() as int;
                let before = old(self).objects.spec_bound_texture(ti);
                &&& old(self).objects.spec_texture_replaced(final(self).objects, ti, final(self).objects.spec_bound_texture(ti))
                &&& spec_texels_replaced(
                    final(self).objects.spec_bound_texture(ti),
                    before,
                    spec_sub_image(
                        before.data@,
                        data@,
                        spec_geometry(
                            width,
                            height,
                            c,
                            before.w,
                            (before.w as usize) * (before.h as usize),
                            xoffset,
                            yoffset,
                            zoffset,
                        ),
                        (depth as usize) as nat,
                    ),
                )
                &&& *final(self) == (GlContext { objects: final(self).objects, ..*old(self) })
            },
    {
        match self.check_image(target, format) {
            Err(e) => self.set_error(e),
            Ok((ti, c)) => {
                let (tex_w, tex_h, _len) = self.objects.bound_texture_size(ti);
                let plane = (tex_w as usize) * (tex_h as usize);
                let ghost g = spec_geometry(width, height, c as int, tex_w, plane as int, xoffset, yoffset, zoffset);
                self.objects.sub_image_bound(
                    ti,
                    data,
                    width as usize,
                    height as usize,
                    depth as usize,
                    c,
                    tex_w as usize,
                    plane,
                    xoffset as usize,
                    yoffset as usize,
                    zoffset as usize,
                    Ghost(g),
                );
            },
        }
    }
}

} // verus!
