//! Clearing the framebuffers and reading pixels back.

use vstd::prelude::*;
use crate::gl_context::GlContext;
use crate::gl_impl::read_pixel;
use vstd::arithmetic::div_mod::lemma_fundamental_div_mod_converse;
use crate::gl_impl::state::{spec_max, spec_min};
use crate::gl_internal::{byte_of, lemma_le_u32, lemma_le_u32_roundtrip, lemma_write_then_read, le_u32, spec_entry32, spec_store32, write_entry32};
use crate::gl_types::{
    GL_BGR, GL_BGRA, GL_COLOR_BUFFER_BIT, GL_DEPTH_BUFFER_BIT, GL_RED, GL_RG, GL_RGB, GL_RGBA,
    GL_INVALID_ENUM, GL_STENCIL_BUFFER_BIT, GLbitfield, GLenum, GLint, GLsizei, GlFramebuffer,
};

verus! {

/// A pixel of `old` with the bits of `val` that `mask` selects written in.
pub open spec fn spec_masked(val: u32, mask: u32, old: u32) -> u32 {
    (val & mask) | (old & !mask)
}

/// `new` is `old` with every whole 32-bit entry that `region` selects
/// replaced by `spec_masked(val, mask, ..)` of its old value.
pub open spec fn spec_fills(new: Seq<u8>, old: Seq<u8>, region: spec_fn(int) -> bool, val: u32, mask: u32) -> bool {
    &&& new.len() == old.len()
    &&& forall|i: int|
        0 <= i && i * 4 + 4 <= old.len() ==> #[trigger] spec_entry32(new, i) == (if region(i) {
            spec_masked(val, mask, spec_entry32(old, i))
        } else {
            spec_entry32(old, i)
        })
    &&& forall|k: int| (old.len() / 4) * 4 <= k < old.len() ==> #[trigger] new[k] == old[k]
}

/// The pixels that clearing a `w` by `h` framebuffer touches: all of them,
/// or with the scissor test on, those whose row (counted from the bottom)
/// and column lie in the scissor box cut to the framebuffer.
pub open spec fn spec_clear_region(
    w: int,
    h: int,
    scissor: bool,
    sx: int,
    sy: int,
    sw: int,
    sh: int,
    i: int,
) -> bool {
    &&& 0 <= i < w * h
    &&& scissor ==> {
        let row = h - 1 - i / w;
        let col = i % w;
        &&& spec_max(sy, 0) <= row < spec_min(spec_max(sy, 0) + sh, h)
        &&& spec_max(sx, 0) <= col < spec_min(spec_max(sx, 0) + sw, w)
    }
}

proof fn lemma_store_fill(before: Seq<u8>, old: Seq<u8>, region: spec_fn(int) -> bool, region2: spec_fn(int) -> bool, i: int, val: u32, mask: u32)
    requires
        spec_fills(before, old, region, val, mask),
        0 <= i,
        i * 4 + 4 <= old.len(),
        !region(i),
        region2(i),
        forall|j: int| j != i ==> #[trigger] region2(j) == region(j),
    ensures
        spec_fills(spec_store32(before, i, spec_masked(val, mask, spec_entry32(old, i))), old, region2, val, mask),
{
    let v = spec_masked(val, mask, spec_entry32(old, i));
    let after = spec_store32(before, i, v);
    assert forall|j: int| 0 <= j && j * 4 + 4 <= old.len() implies #[trigger] spec_entry32(after, j) == (if region2(j) {
        spec_masked(val, mask, spec_entry32(old, j))
    } else {
        spec_entry32(old, j)
    }) by {
        lemma_write_then_read(before, i, j, v);
        assert(spec_entry32(before, j) == (if region(j) {
            spec_masked(val, mask, spec_entry32(old, j))
        } else {
            spec_entry32(old, j)
        }));
    }
    assert(i + 1 <= old.len() / 4);
    assert forall|k: int| (old.len() / 4) * 4 <= k < old.len() implies #[trigger] after[k] == old[k] by {
        assert(before[k] == old[k]);
    }
}

/// Fill the first `total` entries of `buf`.
fn fill_all(buf: &mut Vec<u8>, total: usize, val: u32, mask: u32)
    requires
        total * 4 <= old(buf)@.len(),
    ensures
        spec_fills(final(buf)@, old(buf)@, |i: int| 0 <= i < total, val, mask),
{
    let ghost old_buf = buf@;
    let mut i: usize = 0;
    while i < total
        invariant
            0 <= i <= total,
            total * 4 <= old_buf.len(),
            spec_fills(buf@, old_buf, |j: int| 0 <= j < i, val, mask),
        decreases total - i,
    {
        let ghost before = buf@;
        let ghost r1 = |j: int| 0 <= j < i;
        let ghost r2 = |j: int| 0 <= j < i + 1;
        let existing = crate::gl_internal::read_entry32(buf, i);
        assert(existing == spec_entry32(old_buf, i as int));
        let v = (val & mask) | (existing & !mask);
        write_entry32(buf, i, v);
        proof {
            lemma_store_fill(before, old_buf, r1, r2, i as int, val, mask);
        }
        i = i + 1;
    }
}

proof fn lemma_pixel_position(w: int, h: int, row: int, col: int)
    requires
        0 <= row < h,
        0 <= col < w,
    ensures
        0 <= (h - 1 - row) * w + col < w * h,
        ((h - 1 - row) * w + col) / w == h - 1 - row,
        ((h - 1 - row) * w + col) % w == col,
{
    vstd::arithmetic::div_mod::lemma_fundamental_div_mod_converse((h - 1 - row) * w + col, w, h - 1 - row, col);
    assert(0 <= (h - 1 - row) * w) by (nonlinear_arith)
        requires
            0 <= h - 1 - row,
            0 <= w,
    ;
    assert((h - 1 - row) * w + col < w * h) by (nonlinear_arith)
        requires
            0 <= row < h,
            0 <= col < w,
    ;
}

/// Fill the entries of `buf` that lie in the scissor region of a `w` by
/// `h` framebuffer.
fn fill_scissor(buf: &mut Vec<u8>, w: i32, h: i32, sx: i32, sy: i32, sw: i32, sh: i32, val: u32, mask: u32)
    requires
        0 <= w,
        0 <= h,
        w * h * 4 <= old(buf)@.len(),
        w * h <= i32::MAX,
        spec_max(sx as int, 0) + sw <= i32::MAX,
        spec_max(sy as int, 0) + sh <= i32::MAX,
    ensures
        spec_fills(
            final(buf)@,
            old(buf)@,
            |i: int| spec_clear_region(w as int, h as int, true, sx as int, sy as int, sw as int, sh as int, i),
            val,
            mask,
        ),
{
    let ghost old_buf = buf@;
    let x0: i32 = if sx < 0 { 0 } else { sx };
    let y0: i32 = if sy < 0 { 0 } else { sy };
    let x1: i32 = if x0 + sw < w { x0 + sw } else { w };
    let y1: i32 = if y0 + sh < h { y0 + sh } else { h };
    let ghost full = |i: int| spec_clear_region(w as int, h as int, true, sx as int, sy as int, sw as int, sh as int, i);
    let mut row: i32 = y0;
    while row < y1
        invariant
            0 <= w,
            0 <= h,
            w * h * 4 <= old_buf.len(),
            w * h <= i32::MAX,
            x0 == spec_max(sx as int, 0),
            y0 == spec_max(sy as int, 0),
            x1 == spec_min(x0 + sw, w as int),
            y1 == spec_min(y0 + sh, h as int),
            y0 <= row,
            row <= y1 || y1 < y0,
            spec_fills(
                buf@,
                old_buf,
                |i: int| full(i) && h - 1 - i / (w as int) < row,
                val,
                mask,
            ),
            full == (|i: int| spec_clear_region(w as int, h as int, true, sx as int, sy as int, sw as int, sh as int, i)),
        decreases y1 - row,
    {
        let mut col: i32 = x0;
        while col < x1
            invariant
                0 <= w,
                0 <= h,
                w * h * 4 <= old_buf.len(),
                w * h <= i32::MAX,
                x0 == spec_max(sx as int, 0),
                y0 == spec_max(sy as int, 0),
                x1 == spec_min(x0 + sw, w as int),
                y1 == spec_min(y0 + sh, h as int),
                y0 <= row < y1,
                x0 <= col,
                col <= x1 || x1 < x0,
                spec_fills(
                    buf@,
                    old_buf,
                    |i: int| full(i) && (h - 1 - i / (w as int) < row || (h - 1 - i / (w as int) == row && i % (w as int) < col)),
                    val,
                    mask,
                ),
                full == (|i: int| spec_clear_region(w as int, h as int, true, sx as int, sy as int, sw as int, sh as int, i)),
            decreases x1 - col,
        {
            proof {
                lemma_pixel_position(w as int, h as int, row as int, col as int);
                assert(w * h <= w * h * 4);
            }
            let i = ((h - 1 - row) * w + col) as usize;
            let ghost before = buf@;
            let ghost r1 = |j: int| full(j) && (h - 1 - j / (w as int) < row || (h - 1 - j / (w as int) == row && j % (w as int) < col));
            let ghost r2 = |j: int| full(j) && (h - 1 - j / (w as int) < row || (h - 1 - j / (w as int) == row && j % (w as int) < col + 1));
            let existing = crate::gl_internal::read_entry32(buf, i);
            let v = (val & mask) | (existing & !mask);
            proof {
                assert(spec_entry32(before, i as int) == spec_entry32(old_buf, i as int));
                assert forall|j: int| j != i implies #[trigger] r2(j) == r1(j) by {
                    if r2(j) && !r1(j) {
                        assert(j % (w as int) == col);
                        assert(j / (w as int) == h - 1 - row);
                        vstd::arithmetic::div_mod::lemma_fundamental_div_mod(j, w as int);
                        assert(j == (h - 1 - row) * w + col);
                    }
                }
            }
            write_entry32(buf, i, v);
            proof {
                lemma_store_fill(before, old_buf, r1, r2, i as int, val, mask);
            }
            col = col + 1;
        }
        proof {
            let ghost r1 = |j: int| full(j) && (h - 1 - j / (w as int) < row || (h - 1 - j / (w as int) == row && j % (w as int) < col));
            let ghost r2 = |j: int| full(j) && h - 1 - j / (w as int) < row + 1;
            assert forall|j: int| #[trigger] r1(j) == r2(j) by {
                if full(j) {
                    if h - 1 - j / (w as int) == row {
                        assert(j % (w as int) < x1);
                    }
                }
            }
            assert(r1 =~= r2);
        }
        row = row + 1;
    }
    proof {
        let ghost r1 = |i: int| full(i) && h - 1 - i / (w as int) < row;
        assert forall|i: int| #[trigger] r1(i) == full(i) by {}
        assert(r1 =~= full);
    }
}

/// Fill the entries of `buf` that clearing a `w` by `h` framebuffer
/// touches.
fn clear_buffer(buf: &mut Vec<u8>, w: i32, h: i32, scissor: bool, sx: i32, sy: i32, sw: i32, sh: i32, val: u32, mask: u32)
    requires
        0 <= w,
        0 <= h,
        w * h <= i32::MAX,
        w * h * 4 <= old(buf)@.len(),
        scissor ==> spec_max(sx as int, 0) + sw <= i32::MAX && spec_max(sy as int, 0) + sh <= i32::MAX,
    ensures
        spec_fills(
            final(buf)@,
            old(buf)@,
            |i: int| spec_clear_region(w as int, h as int, scissor, sx as int, sy as int, sw as int, sh as int, i),
            val,
            mask,
        ),
{
    if !scissor {
        let total = (w * h) as usize;
        fill_all(buf, total, val, mask);
        proof {
            let r1 = |i: int| 0 <= i < total;
            let r2 = |i: int| spec_clear_region(w as int, h as int, scissor, sx as int, sy as int, sw as int, sh as int, i);
            assert(r1 =~= r2);
        }
    } else {
        fill_scissor(buf, w, h, sx, sy, sw, sh, val, mask);
    }
}

/// The pixels of the framebuffers that `gl_clear` touches.
pub open spec fn spec_region_of(c: GlContext) -> spec_fn(int) -> bool {
    |i: int|
        spec_clear_region(
            c.back_buffer.w as int,
            c.back_buffer.h as int,
            c.scissor_test,
            c.scissor_lx as int,
            c.scissor_ly as int,
            c.scissor_w as int,
            c.scissor_h as int,
            i,
        )
}

/// `gl_clear` can run on this context with `mask` without overflow and
/// without writing past a buffer: the colour buffer is no larger than
/// `i32` counts, and each buffer to be cleared holds a whole entry for
/// each of its pixels.
pub open spec fn spec_clear_ok(c: GlContext, mask: GLbitfield) -> bool {
    let w = c.back_buffer.w as int;
    let h = c.back_buffer.h as int;
    &&& 0 <= w && 0 <= h && w * h <= i32::MAX
    &&& mask & GL_COLOR_BUFFER_BIT != 0 ==> w * h * 4 <= c.back_buffer.buf@.len()
    &&& mask & GL_DEPTH_BUFFER_BIT != 0 ==> w * h * 4 <= c.zbuf.buf@.len()
    &&& mask & GL_STENCIL_BUFFER_BIT != 0 ==> w * h * 4 <= c.stencil_buf.buf@.len()
    &&& c.scissor_test ==> spec_max(c.scissor_lx as int, 0) + c.scissor_w <= i32::MAX && spec_max(
        c.scissor_ly as int,
        0,
    ) + c.scissor_h <= i32::MAX
}

/// Clear the buffers that `mask` selects over the whole colour buffer, or
/// the scissor box with the scissor test on: the colour buffer to the
/// clear colour through the colour write mask, the depth buffer to
/// `depth_val`, and the stencil buffer to the clear stencil value.
fn clear_framebuffers(
    color: &mut Vec<u8>,
    depth: &mut Vec<u8>,
    stencil: &mut Vec<u8>,
    mask: GLbitfield,
    w: i32,
    h: i32,
    scissor: bool,
    sx: i32,
    sy: i32,
    sw: i32,
    sh: i32,
    clear_color: u32,
    color_mask: u32,
    depth_val: u32,
    stencil_val: u32,
)
    requires
        0 <= w,
        0 <= h,
        w * h <= i32::MAX,
        mask & GL_COLOR_BUFFER_BIT != 0 ==> w * h * 4 <= old(color)@.len(),
        mask & GL_DEPTH_BUFFER_BIT != 0 ==> w * h * 4 <= old(depth)@.len(),
        mask & GL_STENCIL_BUFFER_BIT != 0 ==> w * h * 4 <= old(stencil)@.len(),
        scissor ==> spec_max(sx as int, 0) + sw <= i32::MAX && spec_max(sy as int, 0) + sh <= i32::MAX,
    ensures
        ({
            let region = |i: int| spec_clear_region(w as int, h as int, scissor, sx as int, sy as int, sw as int, sh as int, i);
            &&& if mask & GL_COLOR_BUFFER_BIT != 0 {
                spec_fills(final(color)@, old(color)@, region, clear_color, color_mask)
            } else {
                final(color)@ == old(color)@
            }
            &&& if mask & GL_DEPTH_BUFFER_BIT != 0 {
                spec_fills(final(depth)@, old(depth)@, region, depth_val, 0xFFFF_FFFF)
            } else {
                final(depth)@ == old(depth)@
            }
            &&& if mask & GL_STENCIL_BUFFER_BIT != 0 {
                spec_fills(final(stencil)@, old(stencil)@, region, stencil_val, 0xFFFF_FFFF)
            } else {
                final(stencil)@ == old(stencil)@
            }
        }),
{
    if mask & GL_COLOR_BUFFER_BIT != 0 {
        clear_buffer(color, w, h, scissor, sx, sy, sw, sh, clear_color, color_mask);
    }
    if mask & GL_DEPTH_BUFFER_BIT != 0 {
        clear_buffer(depth, w, h, scissor, sx, sy, sw, sh, depth_val, 0xFFFF_FFFF);
    }
    if mask & GL_STENCIL_BUFFER_BIT != 0 {
        clear_buffer(stencil, w, h, scissor, sx, sy, sw, sh, stencil_val, 0xFFFF_FFFF);
    }
}

impl GlContext {
    /// Clear the buffers that `mask` selects (colour, depth, stencil) over
    /// the whole colour buffer, or the scissor box with the scissor test on.
    /// The colour buffer gets the clear colour through the colour write
    /// mask, the depth buffer `depth_val` (the clear depth in the depth
    /// buffer's fixed-point form), and the stencil buffer the clear stencil
    /// value.
    pub fn gl_clear(&mut self, mask: GLbitfield, depth_val: u32)
        requires
            spec_clear_ok(*old(self), mask),
        ensures
            if mask & GL_COLOR_BUFFER_BIT != 0 {
                spec_fills(
                    final(self).back_buffer.buf@,
                    old(self).back_buffer.buf@,
                    spec_region_of(*old(self)),
                    old(self).clear_color,
                    old(self).color_mask,
                )
            } else {
                final(self).back_buffer.buf@ == old(self).back_buffer.buf@
            },
            if mask & GL_DEPTH_BUFFER_BIT != 0 {
                spec_fills(final(self).zbuf.buf@, old(self).zbuf.buf@, spec_region_of(*old(self)), depth_val, 0xFFFF_FFFF)
            } else {
                final(self).zbuf.buf@ == old(self).zbuf.buf@
            },
            if mask & GL_STENCIL_BUFFER_BIT != 0 {
                spec_fills(
                    final(self).stencil_buf.buf@,
                    old(self).stencil_buf.buf@,
                    spec_region_of(*old(self)),
                    old(self).clear_stencil as u32,
                    0xFFFF_FFFF,
                )
            } else {
                final(self).stencil_buf.buf@ == old(self).stencil_buf.buf@
            },
            *final(self) == (GlContext {
                back_buffer: GlFramebuffer { buf: final(self).back_buffer.buf, ..old(self).back_buffer },
                zbuf: GlFramebuffer { buf: final(self).zbuf.buf, ..old(self).zbuf },
                stencil_buf: GlFramebuffer { buf: final(self).stencil_buf.buf, ..old(self).stencil_buf },
                ..*old(self)
            }),
    {
        let w = self.back_buffer.w;
        let h = self.back_buffer.h;
        let scissor = self.scissor_test;
        let sx = self.scissor_lx;
        let sy = self.scissor_ly;
        let sw = self.scissor_w;
        let sh = self.scissor_h;
        let clear_color = self.clear_color;
        let color_mask = self.color_mask;
        let stencil_val = self.clear_stencil as u32;
        clear_framebuffers(
            &mut self.back_buffer.buf,
            &mut self.zbuf.buf,
            &mut self.stencil_buf.buf,
            mask,
            w,
            h,
            scissor,
            sx,
            sy,
            sw,
            sh,
            clear_color,
            color_mask,
            depth_val,
            stencil_val,
        );
        proof {
            let r1 = |i: int| spec_clear_region(w as int, h as int, scissor, sx as int, sy as int, sw as int, sh as int, i);
            assert(r1 =~= spec_region_of(*old(self)));
        }
    }
}

/// Bytes per pixel that `gl_read_pixels` writes in `format`; 0 for a format
/// it does not write.
pub open spec fn spec_read_components(format: GLenum) -> int {
    if format == GL_RGBA || format == GL_BGRA {
        4
    } else if format == GL_RGB || format == GL_BGR {
        3
    } else if format == GL_RED {
        1
    } else if format == GL_RG {
        2
    } else {
        0
    }
}

/// Which byte of a stored pixel (red, green, blue, alpha from the lowest)
/// output channel `j` of `format` takes.
pub open spec fn spec_channel(format: GLenum, j: int) -> int {
    if format == GL_BGRA || format == GL_BGR {
        if j == 0 {
            2
        } else if j == 2 {
            0
        } else {
            j
        }
    } else {
        j
    }
}

/// How many of `size` consecutive positions from `start` lie below `limit`.
pub open spec fn spec_span(start: int, size: int, limit: int) -> int {
    if start >= limit || size <= 0 {
        0
    } else {
        spec_min(size, limit - start)
    }
}

/// The number of pixels that `gl_read_pixels` writes: those of the block
/// inside the colour buffer, as far as `len` bytes hold whole pixels.
pub open spec fn spec_read_count(rows: int, cols: int, len: int, comp: int) -> int {
    spec_min(rows * cols, len / comp)
}

/// Byte `b` of the output of `gl_read_pixels`: pixels in row order, from
/// the colour buffer rows `y..` and columns `x..` (counted as the pixel
/// index does), each as its channels in `format`.
pub open spec fn spec_read_byte(buf: Seq<u8>, bw: int, xu: int, yu: int, cols: int, format: GLenum, comp: int, b: int) -> u8 {
    let k = b / comp;
    let j = b % comp;
    let row = k / cols;
    let col = k % cols;
    buf[((yu + row) * bw + xu + col) * 4 + spec_channel(format, j)]
}

/// Where output pixel `q` of a read-back comes from: the stored pixel at
/// row `yu + q / cols`, column `xu + q % cols`, whose bytes are red, green,
/// blue, alpha. RGBA, RGB, RG and RED keep that order; BGRA and BGR put the
/// stored blue byte in output channel 0 and the red byte in channel 2.
pub proof fn lemma_read_channel_order(buf: Seq<u8>, bw: int, xu: int, yu: int, cols: int, q: int)
    requires
        cols > 0,
        q >= 0,
    ensures
        ({
            let base = ((yu + q / cols) * bw + xu + q % cols) * 4;
            &&& spec_read_byte(buf, bw, xu, yu, cols, GL_BGRA, 4, 4 * q) == buf[base + 2]
            &&& spec_read_byte(buf, bw, xu, yu, cols, GL_BGRA, 4, 4 * q + 1) == buf[base + 1]
            &&& spec_read_byte(buf, bw, xu, yu, cols, GL_BGRA, 4, 4 * q + 2) == buf[base]
            &&& spec_read_byte(buf, bw, xu, yu, cols, GL_BGRA, 4, 4 * q + 3) == buf[base + 3]
            &&& spec_read_byte(buf, bw, xu, yu, cols, GL_BGR, 3, 3 * q) == buf[base + 2]
            &&& spec_read_byte(buf, bw, xu, yu, cols, GL_BGR, 3, 3 * q + 1) == buf[base + 1]
            &&& spec_read_byte(buf, bw, xu, yu, cols, GL_BGR, 3, 3 * q + 2) == buf[base]
            &&& spec_read_byte(buf, bw, xu, yu, cols, GL_RGBA, 4, 4 * q) == buf[base]
            &&& spec_read_byte(buf, bw, xu, yu, cols, GL_RGBA, 4, 4 * q + 1) == buf[base + 1]
            &&& spec_read_byte(buf, bw, xu, yu, cols, GL_RGBA, 4, 4 * q + 2) == buf[base + 2]
            &&& spec_read_byte(buf, bw, xu, yu, cols, GL_RGBA, 4, 4 * q + 3) == buf[base + 3]
            &&& spec_read_byte(buf, bw, xu, yu, cols, GL_RGB, 3, 3 * q) == buf[base]
            &&& spec_read_byte(buf, bw, xu, yu, cols, GL_RGB, 3, 3 * q + 1) == buf[base + 1]
            &&& spec_read_byte(buf, bw, xu, yu, cols, GL_RGB, 3, 3 * q + 2) == buf[base + 2]
            &&& spec_read_byte(buf, bw, xu, yu, cols, GL_RG, 2, 2 * q) == buf[base]
            &&& spec_read_byte(buf, bw, xu, yu, cols, GL_RG, 2, 2 * q + 1) == buf[base + 1]
            &&& spec_read_byte(buf, bw, xu, yu, cols, GL_RED, 1, q) == buf[base]
        }),
{
    assert forall|n: int, c: int| 1 <= n <= 4 && 0 <= c < n implies (n * q + c) / n == q && #[trigger] ((n * q + c)
        % n) == c by {
        lemma_fundamental_div_mod_converse(n * q + c, n, q, c);
    }
    assert((4 * q + 0) / 4 == q && (4 * q + 0) % 4 == 0);
    assert((3 * q + 0) / 3 == q && (3 * q + 0) % 3 == 0);
    assert((2 * q + 0) / 2 == q && (2 * q + 0) % 2 == 0);
    assert((1 * q + 0) / 1 == q && (1 * q + 0) % 1 == 0);
    assert((4 * q + 1) / 4 == q && (4 * q + 1) % 4 == 1);
    assert((4 * q + 2) / 4 == q && (4 * q + 2) % 4 == 2);
    assert((4 * q + 3) / 4 == q && (4 * q + 3) % 4 == 3);
    assert((3 * q + 1) / 3 == q && (3 * q + 1) % 3 == 1);
    assert((3 * q + 2) / 3 == q && (3 * q + 2) % 3 == 2);
    assert((2 * q + 1) / 2 == q && (2 * q + 1) % 2 == 1);
}

/// The byte of pixel `p` that output channel `j` of `format` takes.
fn channel_byte(p: u32, format: GLenum, j: usize) -> (v: u8)
    requires
        j < 4,
    ensures
        v == byte_of(p, spec_channel(format, j as int)),
{
    proof {
        lemma_le_u32(p);
    }
    let k: u32 = if format == GL_BGRA || format == GL_BGR {
        if j == 0 {
            2
        } else if j == 2 {
            0
        } else {
            j as u32
        }
    } else {
        j as u32
    };
    if k == 0 {
        ((p >> 0u32) & 0xFF) as u8
    } else if k == 1 {
        ((p >> 8u32) & 0xFF) as u8
    } else if k == 2 {
        ((p >> 16u32) & 0xFF) as u8
    } else {
        ((p >> 24u32) & 0xFF) as u8
    }
}

fn read_components(format: GLenum) -> (c: usize)
    ensures
        c == spec_read_components(format),
{
    match format {
        GL_RGBA | GL_BGRA => 4,
        GL_RGB | GL_BGR => 3,
        GL_RED => 1,
        GL_RG => 2,
        _ => 0,
    }
}

fn span(start: usize, size: i32, limit: usize) -> (n: usize)
    ensures
        n == spec_span(start as int, size as int, limit as int),
{
    if start >= limit || size <= 0 {
        0
    } else if (size as usize) < limit - start {
        size as usize
    } else {
        limit - start
    }
}

impl GlContext {
    /// Copy the block of `width` by `height` pixels at column `x` and row
    /// `y` of the colour buffer into `data`, in row order, each pixel as its
    /// channels in `format` (RGBA, BGRA, RGB, BGR, RG or RED). Pixels outside
    /// the colour buffer are left out, and copying stops at the first pixel
    /// that no longer fits in `data`; the rest of `data` is left alone. An
    /// empty block writes nothing; a non-empty block in another format
    /// writes nothing and records `GL_INVALID_ENUM`.
    pub fn gl_read_pixels(
        &mut self,
        x: GLint,
        y: GLint,
        width: GLsizei,
        height: GLsizei,
        format: GLenum,
        type_: GLenum,
        data: &mut [u8],
    )
        requires
            0 <= old(self).back_buffer.w,
            0 <= old(self).back_buffer.h,
            old(self).back_buffer.w * old(self).back_buffer.h * 4 <= old(self).back_buffer.buf@.len(),
        ensures
            *final(self) == if 0 < width && 0 < height && spec_read_components(format) == 0 {
                old(self).with_error(GL_INVALID_ENUM)
            } else {
                *old(self)
            },
            final(data)@.len() == old(data)@.len(),
            ({
                let comp = spec_read_components(format);
                let bw = old(self).back_buffer.w as int;
                let bh = old(self).back_buffer.h as int;
                let xu = (x as usize) as int;
                let yu = (y as usize) as int;
                let cols = spec_span(xu, width as int, bw);
                let rows = spec_span(yu, height as int, bh);
                let n = if width <= 0 || height <= 0 || comp == 0 {
                    0
                } else {
                    spec_read_count(rows, cols, old(data)@.len() as int, comp) * comp
                };
                &&& forall|b: int| 0 <= b < n ==> #[trigger] final(data)@[b] == spec_read_byte(
                    old(self).back_buffer.buf@,
                    bw,
                    xu,
                    yu,
                    cols,
                    format,
                    comp,
                    b,
                )
                &&& forall|b: int| n <= b < old(data)@.len() ==> #[trigger] final(data)@[b] == old(data)@[b]
            }),
    {
        if 0 < width && 0 < height && read_components(format) == 0 {
            self.set_error(GL_INVALID_ENUM);
            return;
        }
        self.read_block(x, y, width, height, format, type_, data);
    }

    /// Copy the block of `width` by `height` pixels at column `x` and row
    /// `y` of the colour buffer into `data`, as [`GlContext::gl_read_pixels`]
    /// describes for a supported format.
    fn read_block(
        &self,
        x: GLint,
        y: GLint,
        width: GLsizei,
        height: GLsizei,
        format: GLenum,
        type_: GLenum,
        data: &mut [u8],
    )
        requires
            0 <= self.back_buffer.w,
            0 <= self.back_buffer.h,
            self.back_buffer.w * self.back_buffer.h * 4 <= self.back_buffer.buf@.len(),
        ensures
            final(data)@.len() == old(data)@.len(),
            ({
                let comp = spec_read_components(format);
                let bw = self.back_buffer.w as int;
                let bh = self.back_buffer.h as int;
                let xu = (x as usize) as int;
                let yu = (y as usize) as int;
                let cols = spec_span(xu, width as int, bw);
                let rows = spec_span(yu, height as int, bh);
                let n = if width <= 0 || height <= 0 || comp == 0 {
                    0
                } else {
                    spec_read_count(rows, cols, old(data)@.len() as int, comp) * comp
                };
                &&& forall|b: int| 0 <= b < n ==> #[trigger] final(data)@[b] == spec_read_byte(
                    self.back_buffer.buf@,
                    bw,
                    xu,
                    yu,
                    cols,
                    format,
                    comp,
                    b,
                )
                &&& forall|b: int| n <= b < old(data)@.len() ==> #[trigger] final(data)@[b] == old(data)@[b]
            }),
    {
        let ghost old_data = data@;
        if width <= 0 || height <= 0 {
            return;
        }
        let comp = read_components(format);
        if comp == 0 {
            return;
        }
        let bw = self.back_buffer.w as usize;
        let bh = self.back_buffer.h as usize;
        let xu = x as usize;
        let yu = y as usize;
        let cols = span(xu, width, bw);
        let rows = span(yu, height, bh);
        let blen = self.back_buffer.buf.len();
        let dlen = data.len();
        assert(0 <= rows * cols) by (nonlinear_arith)
            requires
                0 <= rows,
                0 <= cols,
        ;
        let mut dst_off: usize = 0;
        let mut row: usize = 0;
        assert(0 * cols * comp == 0) by (nonlinear_arith);
        while row < rows
            invariant
                0 <= row <= rows,
                1 <= comp <= 4,
                comp == spec_read_components(format),
                cols == spec_span(xu as int, width as int, bw as int),
                rows == spec_span(yu as int, height as int, bh as int),
                bw == self.back_buffer.w,
                bh == self.back_buffer.h,
                bw * bh * 4 <= self.back_buffer.buf@.len(),
                blen == self.back_buffer.buf@.len(),
                dlen == old_data.len(),
                old_data == old(data)@,
                0 < width && 0 < height,
                xu == x as usize,
                yu == y as usize,
                data@.len() == old_data.len(),
                dst_off == row * cols * comp,
                row * cols * comp <= old_data.len(),
                row * cols <= rows * cols,
                forall|b: int| 0 <= b < dst_off ==> #[trigger] data@[b] == spec_read_byte(
                    self.back_buffer.buf@,
                    bw as int,
                    xu as int,
                    yu as int,
                    cols as int,
                    format,
                    comp as int,
                    b,
                ),
                forall|b: int| dst_off <= b < old_data.len() ==> #[trigger] data@[b] == old_data[b],
            decreases rows - row,
        {
            let src_y = yu + row;
            let mut col: usize = 0;
            while col < cols
                invariant
                    0 <= row < rows,
                    0 <= col <= cols,
                    1 <= comp <= 4,
                    comp == spec_read_components(format),
                    cols == spec_span(xu as int, width as int, bw as int),
                    rows == spec_span(yu as int, height as int, bh as int),
                    src_y == yu + row,
                    bw == self.back_buffer.w,
                    bh == self.back_buffer.h,
                    bw * bh * 4 <= self.back_buffer.buf@.len(),
                    blen == self.back_buffer.buf@.len(),
                    dlen == old_data.len(),
                    old_data == old(data)@,
                    0 < width && 0 < height,
                    xu == x as usize,
                    yu == y as usize,
                    data@.len() == old_data.len(),
                    dst_off == (row * cols + col) * comp,
                    (row * cols + col) * comp <= old_data.len(),
                    forall|b: int| 0 <= b < dst_off ==> #[trigger] data@[b] == spec_read_byte(
                        self.back_buffer.buf@,
                        bw as int,
                        xu as int,
                        yu as int,
                        cols as int,
                        format,
                        comp as int,
                        b,
                    ),
                    forall|b: int| dst_off <= b < old_data.len() ==> #[trigger] data@[b] == old_data[b],
                decreases cols - col,
            {
                let src_x = xu + col;
                proof {
                    assert(src_y < bh && src_x < bw);
                    assert(src_y * bw + src_x < bw * bh) by (nonlinear_arith)
                        requires
                            src_y < bh,
                            src_x < bw,
                    ;
                }
                let px_idx = src_y * bw + src_x;
                let pixel = read_pixel(&self.back_buffer.buf, px_idx);
                if comp > data.len() - dst_off {
                    proof {
                        // the block had more pixels than `data` holds
                        assert((row * cols + col) == old_data.len() as int / comp as int) by (nonlinear_arith)
                            requires
                                (row * cols + col) * comp <= old_data.len(),
                                (row * cols + col) * comp + comp > old_data.len(),
                                1 <= comp,
                        ;
                        assert(row * cols + col < rows * cols) by (nonlinear_arith)
                            requires
                                row < rows,
                                col < cols,
                        ;
                        assert(spec_read_count(rows as int, cols as int, old_data.len() as int, comp as int) == row * cols
                            + col);
                        assert(spec_read_count(rows as int, cols as int, old_data.len() as int, comp as int) * comp
                            == dst_off);
                    }
                    return;
                }
                let ghost before = data@;
                proof {
                    lemma_le_u32_roundtrip(
                        self.back_buffer.buf@[px_idx * 4],
                        self.back_buffer.buf@[px_idx * 4 + 1],
                        self.back_buffer.buf@[px_idx * 4 + 2],
                        self.back_buffer.buf@[px_idx * 4 + 3],
                        pixel,
                    );
                }
                let mut j: usize = 0;
                while j < comp
                    invariant
                        0 <= j <= comp,
                        1 <= comp <= 4,
                        dst_off + comp <= data@.len(),
                        data@.len() == before.len(),
                        dlen == before.len(),
                        forall|b: int| 0 <= b < dst_off ==> #[trigger] data@[b] == before[b],
                        forall|b: int| dst_off <= b < dst_off + j ==> #[trigger] data@[b] == byte_of(
                            pixel,
                            spec_channel(format, b - dst_off),
                        ),
                        forall|b: int| dst_off + j <= b < before.len() ==> #[trigger] data@[b] == before[b],
                    decreases comp - j,
                {
                    let v = channel_byte(pixel, format, j);
                    data[dst_off + j] = v;
                    j = j + 1;
                }
                proof {
                    let k = row * cols + col;
                    assert forall|b: int| dst_off <= b < dst_off + comp implies #[trigger] data@[b] == spec_read_byte(
                        self.back_buffer.buf@,
                        bw as int,
                        xu as int,
                        yu as int,
                        cols as int,
                        format,
                        comp as int,
                        b,
                    ) by {
                        vstd::arithmetic::div_mod::lemma_fundamental_div_mod_converse(b, comp as int, k as int, b - dst_off);
                        vstd::arithmetic::div_mod::lemma_fundamental_div_mod_converse(k as int, cols as int, row as int, col as int);
                        let ch = spec_channel(format, b - dst_off);
                        assert(0 <= ch < 4);
                        assert(px_idx * 4 + ch == ((yu + row) * bw + xu + col) * 4 + ch);
                    }
                }
                dst_off = dst_off + comp;
                assert(dst_off == (row * cols + col + 1) * comp) by (nonlinear_arith)
                    requires
                        dst_off == (row * cols + col) * comp + comp,
                ;
                col = col + 1;
            }
            assert(dst_off == (row + 1) * cols * comp) by (nonlinear_arith)
                requires
                    dst_off == (row * cols + cols) * comp,
            ;
            assert((row + 1) * cols <= rows * cols) by (nonlinear_arith)
                requires
                    row + 1 <= rows,
                    0 <= cols,
            ;
            row = row + 1;
        }
        proof {
            assert(rows * cols * comp <= old_data.len());
            assert(rows * cols <= old_data.len() as int / comp as int) by (nonlinear_arith)
                requires
                    rows * cols * comp <= old_data.len(),
                    1 <= comp,
                    0 <= rows * cols,
            ;
            assert(spec_read_count(rows as int, cols as int, old_data.len() as int, comp as int) == rows * cols);
        }
    }
}

} // verus!
