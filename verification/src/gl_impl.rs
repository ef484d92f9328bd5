//! Helpers of the GL entry points: format sizes, pixel access in byte
//! buffers and the mapping of binding targets to table slots.

use vstd::prelude::*;
use crate::gl_types::{GL_ALPHA, GL_ARRAY_BUFFER, GL_BGR, GL_BGRA, GL_LUMINANCE, GL_LUMINANCE_ALPHA, GL_NUM_BUFFER_TYPES, GL_NUM_TEXTURE_TYPES, GL_RED, GL_RG, GL_RGB, GL_RGBA, GL_TEXTURE_1D, GLenum, PGL_ONE_ALPHA};
use crate::gl_internal::{le_u32, byte_of, pack_le, lemma_le_u32};
use crate::gl_context::{GlContext, GlObjects, TRIANGLE_FILL, spec_zero_framebuffer, zero_framebuffer};
use crate::gl_types::{GL_ALWAYS, GL_BACK, GL_CCW, GL_COPY, GL_FILL, GL_FUNC_ADD, GL_KEEP, GL_LAST_VERTEX_CONVENTION, GL_LESS, GL_ONE, GL_UPPER_LEFT, GL_ZERO, GLsizei, GlBuffer, GlTexture, GlVertexArray};

pub mod state;
pub mod objects;
pub mod textures;
pub mod pixels;
pub mod ext;

verus! {

/// Components per pixel of a client pixel format, if it is one.
pub open spec fn spec_format_components(format: GLenum) -> Option<i32> {
    if format == GL_RED || format == GL_ALPHA || format == GL_LUMINANCE || format == PGL_ONE_ALPHA {
        Some(1)
    } else if format == GL_RG || format == GL_LUMINANCE_ALPHA {
        Some(2)
    } else if format == GL_RGB || format == GL_BGR {
        Some(3)
    } else if format == GL_RGBA || format == GL_BGRA {
        Some(4)
    } else {
        None
    }
}

/// Components per pixel of a client pixel format, or `None` for an
/// unknown format.
pub fn format_components(format: GLenum) -> (n: Option<i32>)
    ensures
        n == spec_format_components(format),
{
    match format {
        GL_RED | GL_ALPHA | GL_LUMINANCE | PGL_ONE_ALPHA => Some(1),
        GL_RG | GL_LUMINANCE_ALPHA => Some(2),
        GL_RGB | GL_BGR => Some(3),
        GL_RGBA | GL_BGRA => Some(4),
        _ => None,
    }
}

/// Read the little-endian 32-bit pixel `idx` of a byte buffer.
pub fn read_pixel(buf: &[u8], idx: usize) -> (v: u32)
    requires
        idx * 4 + 4 <= buf@.len(),
    ensures
        v as int == le_u32(buf@[idx * 4], buf@[idx * 4 + 1], buf@[idx * 4 + 2], buf@[idx * 4 + 3]),
{
    let n = buf.len();
    assert(idx * 4 + 4 <= n);
    let off = idx * 4;
    pack_le(buf[off], buf[off + 1], buf[off + 2], buf[off + 3])
}

/// Write `val` as little-endian 32-bit pixel `idx` of a byte buffer.
pub fn write_pixel(buf: &mut [u8], idx: usize, val: u32)
    requires
        idx * 4 + 4 <= old(buf)@.len(),
    ensures
        final(buf)@ == old(buf)@.update(idx * 4, byte_of(val, 0)).update(idx * 4 + 1, byte_of(val, 1)).update(
            idx * 4 + 2,
            byte_of(val, 2),
        ).update(idx * 4 + 3, byte_of(val, 3)),
{
    let off = idx * 4;
    proof {
        lemma_le_u32(val);
    }
    assert(val & 0xFF == (val >> 0u32) & 0xFF) by (bit_vector);
    buf[off] = (val & 0xFF) as u8;
    buf[off + 1] = ((val >> 8u32) & 0xFF) as u8;
    buf[off + 2] = ((val >> 16u32) & 0xFF) as u8;
    buf[off + 3] = ((val >> 24u32) & 0xFF) as u8;
}

/// The slot of a buffer binding target in the table of bound buffers.
pub open spec fn spec_buffer_target_index(target: GLenum) -> Option<usize> {
    if GL_ARRAY_BUFFER <= target < GL_NUM_BUFFER_TYPES {
        Some((target - GL_ARRAY_BUFFER) as usize)
    } else {
        None
    }
}

/// Map a buffer target to its slot in the table of bound buffers, or `None`
/// for a value that is no buffer target.
pub fn buffer_target_index(target: GLenum) -> (r: Option<usize>)
    ensures
        r == spec_buffer_target_index(target),
        r matches Some(i) ==> i < NUM_BUF_TARGETS,
{
    if target >= GL_ARRAY_BUFFER && target < GL_NUM_BUFFER_TYPES {
        Some((target - GL_ARRAY_BUFFER) as usize)
    } else {
        None
    }
}

/// The slot of a texture target in the tables of bound and default textures.
pub open spec fn spec_texture_target_index(target: GLenum) -> Option<usize> {
    if GL_TEXTURE_1D <= target < GL_NUM_TEXTURE_TYPES {
        Some((target - GL_TEXTURE_1D) as usize)
    } else {
        None
    }
}

/// Map a texture target to its slot in the tables of bound and default
/// textures, or `None` for a value that is no texture target.
pub fn texture_target_index(target: GLenum) -> (r: Option<usize>)
    ensures
        r == spec_texture_target_index(target),
        r matches Some(i) ==> i < NUM_TEX_TARGETS,
{
    if target >= GL_TEXTURE_1D && target < GL_NUM_TEXTURE_TYPES {
        Some((target - GL_TEXTURE_1D) as usize)
    } else {
        None
    }
}

/// Number of texture target types.
pub const NUM_TEX_TARGETS: usize = 7;

/// Number of buffer binding targets.
pub const NUM_BUF_TARGETS: usize = 9;

impl GlContext {
    /// Reset the context to the OpenGL defaults for a `w` by `h` framebuffer:
    /// one default vertex array, buffer, texture and program, nothing bound,
    /// and zeroed colour, depth and stencil buffers. Returns a zeroed pixel
    /// array of `w * h` pixels for the caller's own back buffer.
    pub fn init(&mut self, w: GLsizei, h: GLsizei) -> (pixels: Vec<u32>)
        requires
            0 <= w * h <= i32::MAX,
            w * h * 4 <= usize::MAX,
        ensures
            final(self).spec_initial(w, h),
            final(self).wf(),
            pixels@ == Seq::new((w * h) as nat, |i: int| 0u32),
    {
        *self = GlContext::new();
        let total: usize = (w * h) as usize;

        self.provoking_vert = GL_LAST_VERTEX_CONVENTION;
        self.cull_mode = GL_BACK;
        self.front_face = GL_CCW;
        self.depth_func = GL_LESS;
        self.blend_srgb = GL_ONE;
        self.blend_sa = GL_ONE;
        self.blend_drgb = GL_ZERO;
        self.blend_da = GL_ZERO;
        self.blend_eq_rgb = GL_FUNC_ADD;
        self.blend_eq_a = GL_FUNC_ADD;
        self.poly_mode_front = GL_FILL;
        self.poly_mode_back = GL_FILL;
        self.point_spr_origin = GL_UPPER_LEFT;
        self.logic_func = GL_COPY;
        self.unpack_alignment = 4;
        self.pack_alignment = 4;
        self.color_mask = 0xFFFF_FFFF;
        self.depth_mask = true;

        self.stencil_writemask = 0xFFFF_FFFF;
        self.stencil_writemask_back = 0xFFFF_FFFF;
        self.stencil_valuemask = 0xFFFF_FFFF;
        self.stencil_valuemask_back = 0xFFFF_FFFF;
        self.stencil_func = GL_ALWAYS;
        self.stencil_func_back = GL_ALWAYS;
        self.stencil_sfail = GL_KEEP;
        self.stencil_dpfail = GL_KEEP;
        self.stencil_dppass = GL_KEEP;
        self.stencil_sfail_back = GL_KEEP;
        self.stencil_dpfail_back = GL_KEEP;
        self.stencil_dppass_back = GL_KEEP;

        self.draw_triangle_front = TRIANGLE_FILL;
        self.draw_triangle_back = TRIANGLE_FILL;

        self.width = w;
        self.height = h;
        self.xmin = 0;
        self.ymin = 0;
        self.lx = 0;
        self.ly = 0;
        self.ux = w;
        self.uy = h;

        self.scissor_lx = 0;
        self.scissor_ly = 0;
        self.scissor_w = w;
        self.scissor_h = h;

        self.objects = GlObjects::initial();

        self.zbuf = zero_framebuffer(w, h);
        self.stencil_buf = zero_framebuffer(w, h);
        self.back_buffer = zero_framebuffer(w, h);

        let pixels: Vec<u32> = vec![0u32; total];
        proof {
            assert(pixels@ =~= Seq::new((w * h) as nat, |i: int| 0u32));
        }
        pixels
    }

    /// Replace the colour, depth and stencil buffers by zeroed ones of `w` by
    /// `h` pixels and reset the scissor box to the whole of them. Refuses,
    /// changing nothing, unless both sizes are positive.
    pub fn resize_framebuffer(&mut self, w: GLsizei, h: GLsizei) -> (ok: bool)
        requires
            0 < w && 0 < h ==> w * h <= i32::MAX && w * h * 4 <= usize::MAX,
        ensures
            ok == (0 < w && 0 < h),
            !ok ==> *final(self) == *old(self),
            ok ==> spec_zero_framebuffer(final(self).back_buffer, w, h),
            ok ==> spec_zero_framebuffer(final(self).zbuf, w, h),
            ok ==> spec_zero_framebuffer(final(self).stencil_buf, w, h),
            ok ==> *final(self) == (GlContext {
                back_buffer: final(self).back_buffer,
                zbuf: final(self).zbuf,
                stencil_buf: final(self).stencil_buf,
                width: w,
                height: h,
                ux: w,
                uy: h,
                scissor_lx: 0,
                scissor_ly: 0,
                scissor_w: w,
                scissor_h: h,
                ..*old(self)
            }),
    {
        if w <= 0 || h <= 0 {
            return false;
        }
        self.back_buffer = zero_framebuffer(w, h);
        self.zbuf = zero_framebuffer(w, h);
        self.stencil_buf = zero_framebuffer(w, h);
        self.width = w;
        self.height = h;
        self.ux = w;
        self.uy = h;
        self.scissor_lx = 0;
        self.scissor_ly = 0;
        self.scissor_w = w;
        self.scissor_h = h;
        true
    }
}

} // verus!
