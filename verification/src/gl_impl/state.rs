//! Entry points that query or set the fixed-function state of a context:
//! capabilities, depth, blend, stencil, culling, polygon modes, scissor,
//! viewport and pixel storage.

use vstd::prelude::*;
use crate::gl_context::{GlContext, TRIANGLE_FILL, TRIANGLE_LINE, TRIANGLE_POINT, TriangleFunc};
use crate::gl_impl::NUM_BUF_TARGETS;
use crate::gl_types::{
    GL_ARRAY_BUFFER_BINDING, GL_BACK, GL_BLEND, GL_BLEND_DST_ALPHA,
    GL_BLEND_DST_RGB, GL_BLEND_EQUATION_ALPHA, GL_BLEND_EQUATION_RGB, GL_BLEND_SRC_ALPHA,
    GL_BLEND_SRC_RGB, GL_CCW, GL_CLEAR, GL_COLOR_LOGIC_OP, GL_CULL_FACE, GL_CULL_FACE_MODE,
    GL_CURRENT_PROGRAM, GL_CW, GL_DEPTH_CLAMP, GL_DEPTH_FUNC, GL_DEPTH_TEST,
    GL_ELEMENT_ARRAY_BUFFER_BINDING, GL_FILL, GL_FIRST_VERTEX_CONVENTION, GL_FRONT,
    GL_FRONT_AND_BACK, GL_FRONT_FACE, GL_FUNC_ADD, GL_INVALID_ENUM, GL_INVALID_OPERATION,
    GL_INVALID_VALUE, GL_INVERT, GL_LAST_VERTEX_CONVENTION, GL_LESS, GL_LINE, GL_LINE_LOOP,
    GL_LINE_SMOOTH, GL_LINE_STRIP, GL_LINE_STRIP_ADJACENCY, GL_LINES, GL_LINES_ADJACENCY,
    GL_LOGIC_OP_MODE, GL_LOWER_LEFT, GL_MAJOR_VERSION, GL_MAX_3D_TEXTURE_SIZE,
    GL_MAX_ARRAY_TEXTURE_LAYERS, GL_MAX_TEXTURE_SIZE, GL_MINOR_VERSION, GL_NEVER,
    GL_PACK_ALIGNMENT, GL_POINT, GL_POINT_SPRITE_COORD_ORIGIN, GL_POINTS, GL_POLYGON_MODE,
    GL_POLYGON_OFFSET_FILL, GL_POLYGON_OFFSET_LINE, GL_POLYGON_OFFSET_POINT, GL_PROVOKING_VERTEX,
    GL_RENDERER, GL_SCISSOR_BOX, GL_SCISSOR_TEST, GL_SHADING_LANGUAGE_VERSION,
    GL_STENCIL_BACK_FAIL, GL_STENCIL_BACK_FUNC, GL_STENCIL_BACK_PASS_DEPTH_FAIL,
    GL_STENCIL_BACK_PASS_DEPTH_PASS, GL_STENCIL_BACK_REF, GL_STENCIL_BACK_VALUE_MASK,
    GL_STENCIL_BACK_WRITE_MASK, GL_STENCIL_FAIL, GL_STENCIL_FUNC, GL_STENCIL_PASS_DEPTH_FAIL,
    GL_STENCIL_PASS_DEPTH_PASS, GL_STENCIL_REF, GL_STENCIL_TEST, GL_STENCIL_VALUE_MASK,
    GL_STENCIL_WRITE_MASK, GL_TRIANGLE_FAN, GL_TRIANGLE_STRIP, GL_TRIANGLE_STRIP_ADJACENCY,
    GL_TRIANGLES, GL_TRIANGLES_ADJACENCY, GL_UNPACK_ALIGNMENT, GL_UPPER_LEFT, GL_VENDOR,
    GL_VERSION, GL_VERTEX_ARRAY_BINDING, GL_VIEWPORT, GLbitfield, GLenum, GLint, GLsizei, GLuint,
    NUM_BLEND_EQUATIONS, PGL_MAX_3D_TEXTURE_SIZE, PGL_MAX_ARRAY_TEXTURE_LAYERS,
    PGL_MAX_TEXTURE_SIZE,
};

verus! {

/// The larger of two integers.
pub open spec fn spec_max(a: int, b: int) -> int {
    if a < b { b } else { a }
}

/// The smaller of two integers.
pub open spec fn spec_min(a: int, b: int) -> int {
    if a < b { a } else { b }
}

fn triangle_func(mode: GLenum) -> (t: TriangleFunc)
    ensures
        t == spec_triangle_func(mode),
{
    if mode == GL_POINT {
        TRIANGLE_POINT
    } else if mode == GL_LINE {
        TRIANGLE_LINE
    } else {
        TRIANGLE_FILL
    }
}

fn max_i32(a: i32, b: i32) -> (r: i32)
    ensures
        r == spec_max(a as int, b as int),
{
    if a < b { b } else { a }
}

fn min_i32(a: i32, b: i32) -> (r: i32)
    ensures
        r == spec_min(a as int, b as int),
{
    if a < b { a } else { b }
}

/// A depth or stencil comparison function.
pub open spec fn spec_is_compare_func(func: GLenum) -> bool {
    GL_LESS <= func <= GL_NEVER
}

/// A blend equation.
pub open spec fn spec_is_blend_equation(mode: GLenum) -> bool {
    GL_FUNC_ADD <= mode < NUM_BLEND_EQUATIONS
}

/// A primitive mode that the draw calls accept.
pub open spec fn spec_is_draw_mode(mode: GLenum) -> bool {
    mode == GL_POINTS || mode == GL_LINES || mode == GL_LINE_STRIP || mode == GL_LINE_LOOP
        || mode == GL_TRIANGLES || mode == GL_TRIANGLE_STRIP || mode == GL_TRIANGLE_FAN
        || mode == GL_LINE_STRIP_ADJACENCY || mode == GL_LINES_ADJACENCY
        || mode == GL_TRIANGLES_ADJACENCY || mode == GL_TRIANGLE_STRIP_ADJACENCY
}

/// A valid row alignment for pixel transfers.
pub open spec fn spec_is_alignment(param: GLint) -> bool {
    param == 1 || param == 2 || param == 4 || param == 8
}

/// The rasteriser that draws triangles in polygon mode `mode`.
pub open spec fn spec_triangle_func(mode: GLenum) -> TriangleFunc {
    if mode == GL_POINT {
        TRIANGLE_POINT
    } else if mode == GL_LINE {
        TRIANGLE_LINE
    } else {
        TRIANGLE_FILL
    }
}

impl GlContext {
    /// The state of a capability, for the capabilities that can be queried.
    pub open spec fn spec_capability(&self, cap: GLenum) -> Option<bool> {
        if cap == GL_DEPTH_TEST {
            Some(self.depth_test)
        } else if cap == GL_LINE_SMOOTH {
            Some(self.line_smooth)
        } else if cap == GL_CULL_FACE {
            Some(self.cull_face)
        } else if cap == GL_DEPTH_CLAMP {
            Some(self.depth_clamp)
        } else if cap == GL_BLEND {
            Some(self.blend)
        } else if cap == GL_COLOR_LOGIC_OP {
            Some(self.logic_ops)
        } else if cap == GL_POLYGON_OFFSET_POINT {
            Some(self.poly_offset_pt)
        } else if cap == GL_POLYGON_OFFSET_LINE {
            Some(self.poly_offset_line)
        } else if cap == GL_POLYGON_OFFSET_FILL {
            Some(self.poly_offset_fill)
        } else if cap == GL_SCISSOR_TEST {
            Some(self.scissor_test)
        } else if cap == GL_STENCIL_TEST {
            Some(self.stencil_test)
        } else {
            None
        }
    }

    /// The value of an integer state variable, for the names that can be
    /// queried. Unsigned masks and enumerants are reinterpreted as `GLint`.
    pub open spec fn spec_integerv(&self, pname: GLenum) -> Option<Seq<GLint>> {
        if pname == GL_VIEWPORT {
            Some(seq![self.xmin, self.ymin, self.width, self.height])
        } else if pname == GL_SCISSOR_BOX {
            Some(seq![self.scissor_lx, self.scissor_ly, self.scissor_w, self.scissor_h])
        } else if pname == GL_STENCIL_WRITE_MASK {
            Some(seq![self.stencil_writemask as GLint])
        } else if pname == GL_STENCIL_REF {
            Some(seq![self.stencil_ref])
        } else if pname == GL_STENCIL_VALUE_MASK {
            Some(seq![self.stencil_valuemask as GLint])
        } else if pname == GL_STENCIL_FUNC {
            Some(seq![self.stencil_func as GLint])
        } else if pname == GL_STENCIL_FAIL {
            Some(seq![self.stencil_sfail as GLint])
        } else if pname == GL_STENCIL_PASS_DEPTH_FAIL {
            Some(seq![self.stencil_dpfail as GLint])
        } else if pname == GL_STENCIL_PASS_DEPTH_PASS {
            Some(seq![self.stencil_dppass as GLint])
        } else if pname == GL_STENCIL_BACK_WRITE_MASK {
            Some(seq![self.stencil_writemask_back as GLint])
        } else if pname == GL_STENCIL_BACK_REF {
            Some(seq![self.stencil_ref_back])
        } else if pname == GL_STENCIL_BACK_VALUE_MASK {
            Some(seq![self.stencil_valuemask_back as GLint])
        } else if pname == GL_STENCIL_BACK_FUNC {
            Some(seq![self.stencil_func_back as GLint])
        } else if pname == GL_STENCIL_BACK_FAIL {
            Some(seq![self.stencil_sfail_back as GLint])
        } else if pname == GL_STENCIL_BACK_PASS_DEPTH_FAIL {
            Some(seq![self.stencil_dpfail_back as GLint])
        } else if pname == GL_STENCIL_BACK_PASS_DEPTH_PASS {
            Some(seq![self.stencil_dppass_back as GLint])
        } else if pname == GL_LOGIC_OP_MODE {
            Some(seq![self.logic_func as GLint])
        } else if pname == GL_BLEND_SRC_RGB {
            Some(seq![self.blend_srgb as GLint])
        } else if pname == GL_BLEND_SRC_ALPHA {
            Some(seq![self.blend_sa as GLint])
        } else if pname == GL_BLEND_DST_RGB {
            Some(seq![self.blend_drgb as GLint])
        } else if pname == GL_BLEND_DST_ALPHA {
            Some(seq![self.blend_da as GLint])
        } else if pname == GL_BLEND_EQUATION_RGB {
            Some(seq![self.blend_eq_rgb as GLint])
        } else if pname == GL_BLEND_EQUATION_ALPHA {
            Some(seq![self.blend_eq_a as GLint])
        } else if pname == GL_CULL_FACE_MODE {
            Some(seq![self.cull_mode as GLint])
        } else if pname == GL_FRONT_FACE {
            Some(seq![self.front_face as GLint])
        } else if pname == GL_DEPTH_FUNC {
            Some(seq![self.depth_func as GLint])
        } else if pname == GL_PROVOKING_VERTEX {
            Some(seq![self.provoking_vert as GLint])
        } else if pname == GL_POLYGON_MODE {
            Some(seq![self.poly_mode_front as GLint, self.poly_mode_back as GLint])
        } else if pname == GL_MAJOR_VERSION || pname == GL_MINOR_VERSION {
            Some(seq![3i32])
        } else if pname == GL_ARRAY_BUFFER_BINDING {
            Some(seq![self.objects.bound_buffers@[0] as GLint])
        } else if pname == GL_ELEMENT_ARRAY_BUFFER_BINDING {
            Some(seq![self.objects.bound_buffers@[3] as GLint])
        } else if pname == GL_VERTEX_ARRAY_BINDING {
            Some(seq![self.objects.cur_vertex_array as GLint])
        } else if pname == GL_CURRENT_PROGRAM {
            Some(seq![self.objects.cur_program as GLint])
        } else if pname == GL_MAX_TEXTURE_SIZE {
            Some(seq![PGL_MAX_TEXTURE_SIZE])
        } else if pname == GL_MAX_3D_TEXTURE_SIZE {
            Some(seq![PGL_MAX_3D_TEXTURE_SIZE])
        } else if pname == GL_MAX_ARRAY_TEXTURE_LAYERS {
            Some(seq![PGL_MAX_ARRAY_TEXTURE_LAYERS])
        } else {
            None
        }
    }
}

impl GlContext {
    /// The context after `set_cap(cap, enabled)`. Switching the scissor test
    /// also moves the clipping bounds: to the scissor box, cut to the colour
    /// buffer, when it is switched on, and to the whole colour buffer when it
    /// is switched off. An unknown capability records `GL_INVALID_ENUM`.
    pub open spec fn spec_set_cap(self, cap: GLenum, enabled: bool) -> GlContext {
        if cap == GL_CULL_FACE {
            GlContext { cull_face: enabled, ..self }
        } else if cap == GL_DEPTH_TEST {
            GlContext { depth_test: enabled, ..self }
        } else if cap == GL_DEPTH_CLAMP {
            GlContext { depth_clamp: enabled, ..self }
        } else if cap == GL_LINE_SMOOTH {
            GlContext { line_smooth: enabled, ..self }
        } else if cap == GL_BLEND {
            GlContext { blend: enabled, ..self }
        } else if cap == GL_COLOR_LOGIC_OP {
            GlContext { logic_ops: enabled, ..self }
        } else if cap == GL_POLYGON_OFFSET_POINT {
            GlContext { poly_offset_pt: enabled, ..self }
        } else if cap == GL_POLYGON_OFFSET_LINE {
            GlContext { poly_offset_line: enabled, ..self }
        } else if cap == GL_POLYGON_OFFSET_FILL {
            GlContext { poly_offset_fill: enabled, ..self }
        } else if cap == GL_SCISSOR_TEST {
            if enabled {
                GlContext {
                    scissor_test: true,
                    lx: spec_max(self.scissor_lx as int, 0) as i32,
                    ly: spec_max(self.scissor_ly as int, 0) as i32,
                    ux: spec_min(self.scissor_lx + self.scissor_w, self.back_buffer.w as int) as i32,
                    uy: spec_min(self.scissor_ly + self.scissor_h, self.back_buffer.h as int) as i32,
                    ..self
                }
            } else {
                GlContext {
                    scissor_test: false,
                    lx: 0,
                    ly: 0,
                    ux: self.back_buffer.w,
                    uy: self.back_buffer.h,
                    ..self
                }
            }
        } else if cap == GL_STENCIL_TEST {
            GlContext { stencil_test: enabled, ..self }
        } else {
            self.with_error(GL_INVALID_ENUM)
        }
    }

    /// The scissor box can be turned into clipping bounds without overflow.
    pub open spec fn scissor_fits(&self) -> bool {
        &&& i32::MIN <= self.scissor_lx + self.scissor_w <= i32::MAX
        &&& i32::MIN <= self.scissor_ly + self.scissor_h <= i32::MAX
    }

    fn set_cap(&mut self, cap: GLenum, enabled: bool)
        requires
            cap == GL_SCISSOR_TEST && enabled ==> old(self).scissor_fits(),
        ensures
            *final(self) == old(self).spec_set_cap(cap, enabled),
    {
        if cap == GL_SCISSOR_TEST {
            self.set_scissor_test(enabled);
        } else if cap == GL_CULL_FACE {
            self.cull_face = enabled;
        } else if cap == GL_DEPTH_TEST {
            self.depth_test = enabled;
        } else if cap == GL_DEPTH_CLAMP {
            self.depth_clamp = enabled;
        } else if cap == GL_LINE_SMOOTH {
            self.line_smooth = enabled;
        } else if cap == GL_BLEND {
            self.blend = enabled;
        } else if cap == GL_COLOR_LOGIC_OP {
            self.logic_ops = enabled;
        } else if cap == GL_POLYGON_OFFSET_POINT {
            self.poly_offset_pt = enabled;
        } else if cap == GL_POLYGON_OFFSET_LINE {
            self.poly_offset_line = enabled;
        } else if cap == GL_POLYGON_OFFSET_FILL {
            self.poly_offset_fill = enabled;
        } else if cap == GL_STENCIL_TEST {
            self.stencil_test = enabled;
        } else {
            self.set_error(GL_INVALID_ENUM);
        }
    }

    fn set_scissor_test(&mut self, enabled: bool)
        requires
            enabled ==> old(self).scissor_fits(),
        ensures
            *final(self) == old(self).spec_set_cap(GL_SCISSOR_TEST, enabled),
    {
        self.scissor_test = enabled;
        if enabled {
            let ux = self.scissor_lx + self.scissor_w;
            let uy = self.scissor_ly + self.scissor_h;
            self.lx = max_i32(self.scissor_lx, 0);
            self.ly = max_i32(self.scissor_ly, 0);
            self.ux = min_i32(ux, self.back_buffer.w);
            self.uy = min_i32(uy, self.back_buffer.h);
        } else {
            self.lx = 0;
            self.ly = 0;
            self.ux = self.back_buffer.w;
            self.uy = self.back_buffer.h;
        }
    }

    /// Switch a capability on.
    pub fn gl_enable(&mut self, cap: GLenum)
        requires
            cap == GL_SCISSOR_TEST ==> old(self).scissor_fits(),
        ensures
            *final(self) == old(self).spec_set_cap(cap, true),
    {
        self.set_cap(cap, true);
    }

    /// Switch a capability off.
    pub fn gl_disable(&mut self, cap: GLenum)
        ensures
            *final(self) == old(self).spec_set_cap(cap, false),
    {
        self.set_cap(cap, false);
    }

    /// Whether a capability is on; `false` for an unknown one.
    pub fn gl_is_enabled(&self, cap: GLenum) -> (b: bool)
        ensures
            b == (self.spec_capability(cap) == Some(true)),
    {
        match cap {
            GL_DEPTH_TEST => self.depth_test,
            GL_LINE_SMOOTH => self.line_smooth,
            GL_CULL_FACE => self.cull_face,
            GL_DEPTH_CLAMP => self.depth_clamp,
            GL_BLEND => self.blend,
            GL_COLOR_LOGIC_OP => self.logic_ops,
            GL_POLYGON_OFFSET_POINT => self.poly_offset_pt,
            GL_POLYGON_OFFSET_LINE => self.poly_offset_line,
            GL_POLYGON_OFFSET_FILL => self.poly_offset_fill,
            GL_SCISSOR_TEST => self.scissor_test,
            GL_STENCIL_TEST => self.stencil_test,
            _ => false,
        }
    }

    /// The state of a capability, or `None` for an unknown one.
    pub fn gl_get_booleanv(&self, pname: GLenum) -> (r: Option<bool>)
        ensures
            r == self.spec_capability(pname),
    {
        match pname {
            GL_DEPTH_TEST => Some(self.depth_test),
            GL_LINE_SMOOTH => Some(self.line_smooth),
            GL_CULL_FACE => Some(self.cull_face),
            GL_DEPTH_CLAMP => Some(self.depth_clamp),
            GL_BLEND => Some(self.blend),
            GL_COLOR_LOGIC_OP => Some(self.logic_ops),
            GL_POLYGON_OFFSET_POINT => Some(self.poly_offset_pt),
            GL_POLYGON_OFFSET_LINE => Some(self.poly_offset_line),
            GL_POLYGON_OFFSET_FILL => Some(self.poly_offset_fill),
            GL_SCISSOR_TEST => Some(self.scissor_test),
            GL_STENCIL_TEST => Some(self.stencil_test),
            _ => None,
        }
    }

    /// The value of an integer state variable, or `None` for a name that
    /// cannot be queried.
    pub fn gl_get_integerv(&self, pname: GLenum) -> (r: Option<Vec<GLint>>)
        requires
            self.objects.bound_buffers@.len() == NUM_BUF_TARGETS,
        ensures
            r is Some <==> self.spec_integerv(pname) is Some,
            r matches Some(v) ==> self.spec_integerv(pname) == Some(v@),
    {
        let r: Option<Vec<GLint>> = match pname {
            GL_VIEWPORT => Some(vec![self.xmin, self.ymin, self.width, self.height]),
            GL_SCISSOR_BOX => Some(vec![self.scissor_lx, self.scissor_ly, self.scissor_w, self.scissor_h]),
            GL_STENCIL_WRITE_MASK => Some(vec![self.stencil_writemask as GLint]),
            GL_STENCIL_REF => Some(vec![self.stencil_ref]),
            GL_STENCIL_VALUE_MASK => Some(vec![self.stencil_valuemask as GLint]),
            GL_STENCIL_FUNC => Some(vec![self.stencil_func as GLint]),
            GL_STENCIL_FAIL => Some(vec![self.stencil_sfail as GLint]),
            GL_STENCIL_PASS_DEPTH_FAIL => Some(vec![self.stencil_dpfail as GLint]),
            GL_STENCIL_PASS_DEPTH_PASS => Some(vec![self.stencil_dppass as GLint]),
            GL_STENCIL_BACK_WRITE_MASK => Some(vec![self.stencil_writemask_back as GLint]),
            GL_STENCIL_BACK_REF => Some(vec![self.stencil_ref_back]),
            GL_STENCIL_BACK_VALUE_MASK => Some(vec![self.stencil_valuemask_back as GLint]),
            GL_STENCIL_BACK_FUNC => Some(vec![self.stencil_func_back as GLint]),
            GL_STENCIL_BACK_FAIL => Some(vec![self.stencil_sfail_back as GLint]),
            GL_STENCIL_BACK_PASS_DEPTH_FAIL => Some(vec![self.stencil_dpfail_back as GLint]),
            GL_STENCIL_BACK_PASS_DEPTH_PASS => Some(vec![self.stencil_dppass_back as GLint]),
            GL_LOGIC_OP_MODE => Some(vec![self.logic_func as GLint]),
            GL_BLEND_SRC_RGB => Some(vec![self.blend_srgb as GLint]),
            GL_BLEND_SRC_ALPHA => Some(vec![self.blend_sa as GLint]),
            GL_BLEND_DST_RGB => Some(vec![self.blend_drgb as GLint]),
            GL_BLEND_DST_ALPHA => Some(vec![self.blend_da as GLint]),
            GL_BLEND_EQUATION_RGB => Some(vec![self.blend_eq_rgb as GLint]),
            GL_BLEND_EQUATION_ALPHA => Some(vec![self.blend_eq_a as GLint]),
            GL_CULL_FACE_MODE => Some(vec![self.cull_mode as GLint]),
            GL_FRONT_FACE => Some(vec![self.front_face as GLint]),
            GL_DEPTH_FUNC => Some(vec![self.depth_func as GLint]),
            GL_PROVOKING_VERTEX => Some(vec![self.provoking_vert as GLint]),
            GL_POLYGON_MODE => Some(vec![self.poly_mode_front as GLint, self.poly_mode_back as GLint]),
            GL_MAJOR_VERSION => Some(vec![3i32]),
            GL_MINOR_VERSION => Some(vec![3i32]),
            GL_ARRAY_BUFFER_BINDING => Some(vec![self.objects.bound_buffers[0] as GLint]),
            GL_ELEMENT_ARRAY_BUFFER_BINDING => Some(vec![self.objects.bound_buffers[3] as GLint]),
            GL_VERTEX_ARRAY_BINDING => Some(vec![self.objects.cur_vertex_array as GLint]),
            GL_CURRENT_PROGRAM => Some(vec![self.objects.cur_program as GLint]),
            GL_MAX_TEXTURE_SIZE => Some(vec![PGL_MAX_TEXTURE_SIZE]),
            GL_MAX_3D_TEXTURE_SIZE => Some(vec![PGL_MAX_3D_TEXTURE_SIZE]),
            GL_MAX_ARRAY_TEXTURE_LAYERS => Some(vec![PGL_MAX_ARRAY_TEXTURE_LAYERS]),
            _ => None,
        };
        r
    }

    /// The name strings of the implementation; empty for an unknown name.
    pub fn gl_get_string(&self, name: GLenum) -> (s: &'static str)
        ensures
            name == GL_VENDOR ==> s@ == "PortableGL-rs"@,
            name == GL_RENDERER ==> s@ == "PortableGL-rs Software Renderer"@,
            name == GL_VERSION ==> s@ == "3.3"@,
            name == GL_SHADING_LANGUAGE_VERSION ==> s@ == "3.30"@,
            name != GL_VENDOR && name != GL_RENDERER && name != GL_VERSION
                && name != GL_SHADING_LANGUAGE_VERSION ==> s@ == ""@,
    {
        match name {
            GL_VENDOR => "PortableGL-rs",
            GL_RENDERER => "PortableGL-rs Software Renderer",
            GL_VERSION => "3.3",
            GL_SHADING_LANGUAGE_VERSION => "3.30",
            _ => "",
        }
    }

    /// Set the viewport rectangle; a negative size records `GL_INVALID_VALUE`
    /// and changes nothing else.
    pub fn gl_viewport(&mut self, x: GLint, y: GLint, width: GLsizei, height: GLsizei)
        ensures
            width < 0 || height < 0 ==> *final(self) == old(self).with_error(GL_INVALID_VALUE),
            0 <= width && 0 <= height ==> *final(self) == (GlContext {
                xmin: x,
                ymin: y,
                width: width,
                height: height,
                ..*old(self)
            }),
    {
        if width < 0 || height < 0 {
            self.set_error(GL_INVALID_VALUE);
            return;
        }
        self.xmin = x;
        self.ymin = y;
        self.width = width;
        self.height = height;
    }

    /// Set the depth comparison function; anything but a comparison
    /// function records `GL_INVALID_ENUM`.
    pub fn gl_depth_func(&mut self, func: GLenum)
        ensures
            !spec_is_compare_func(func) ==> *final(self) == old(self).with_error(GL_INVALID_ENUM),
            spec_is_compare_func(func) ==> *final(self) == (GlContext { depth_func: func, ..*old(self) }),
    {
        if func < GL_LESS || func > GL_NEVER {
            self.set_error(GL_INVALID_ENUM);
            return;
        }
        self.depth_func = func;
    }

    /// Switch depth writes on or off.
    pub fn gl_depth_mask(&mut self, flag: bool)
        ensures
            *final(self) == (GlContext { depth_mask: flag, ..*old(self) }),
    {
        self.depth_mask = flag;
    }

    /// Choose which colour channels are written: the byte of each enabled
    /// channel is set in the mask (red lowest, alpha highest).
    pub fn gl_color_mask(&mut self, r: bool, g: bool, b: bool, a: bool)
        ensures
            *final(self) == (GlContext {
                color_mask: (if r { 0xFFu32 } else { 0u32 }) | (if g { 0xFF00u32 } else { 0u32 })
                    | (if b { 0xFF_0000u32 } else { 0u32 }) | (if a { 0xFF00_0000u32 } else { 0u32 }),
                ..*old(self)
            }),
    {
        let m: u32 = (if r { 0xFFu32 } else { 0u32 }) | (if g { 0xFF00u32 } else { 0u32 }) | (if b {
            0xFF_0000u32
        } else {
            0u32
        }) | (if a { 0xFF00_0000u32 } else { 0u32 });
        self.color_mask = m;
    }

    /// Set one blend factor pair for colour and alpha alike.
    pub fn gl_blend_func(&mut self, sfactor: GLenum, dfactor: GLenum)
        ensures
            *final(self) == (GlContext {
                blend_srgb: sfactor,
                blend_sa: sfactor,
                blend_drgb: dfactor,
                blend_da: dfactor,
                ..*old(self)
            }),
    {
        self.blend_srgb = sfactor;
        self.blend_sa = sfactor;
        self.blend_drgb = dfactor;
        self.blend_da = dfactor;
    }

    /// Set the blend factors of colour and alpha separately.
    pub fn gl_blend_func_separate(&mut self, src_rgb: GLenum, dst_rgb: GLenum, src_a: GLenum, dst_a: GLenum)
        ensures
            *final(self) == (GlContext {
                blend_srgb: src_rgb,
                blend_drgb: dst_rgb,
                blend_sa: src_a,
                blend_da: dst_a,
                ..*old(self)
            }),
    {
        self.blend_srgb = src_rgb;
        self.blend_drgb = dst_rgb;
        self.blend_sa = src_a;
        self.blend_da = dst_a;
    }

    /// Set one blend equation for colour and alpha; anything but a blend
    /// equation records `GL_INVALID_ENUM`.
    pub fn gl_blend_equation(&mut self, mode: GLenum)
        ensures
            !spec_is_blend_equation(mode) ==> *final(self) == old(self).with_error(GL_INVALID_ENUM),
            spec_is_blend_equation(mode) ==> *final(self) == (GlContext {
                blend_eq_rgb: mode,
                blend_eq_a: mode,
                ..*old(self)
            }),
    {
        if mode < GL_FUNC_ADD || mode >= NUM_BLEND_EQUATIONS {
            self.set_error(GL_INVALID_ENUM);
            return;
        }
        self.blend_eq_rgb = mode;
        self.blend_eq_a = mode;
    }

    /// Set the blend equations of colour and alpha; if either is no blend
    /// equation, `GL_INVALID_ENUM` is recorded and neither is set.
    pub fn gl_blend_equation_separate(&mut self, mode_rgb: GLenum, mode_a: GLenum)
        ensures
            !(spec_is_blend_equation(mode_rgb) && spec_is_blend_equation(mode_a))
                ==> *final(self) == old(self).with_error(GL_INVALID_ENUM),
            spec_is_blend_equation(mode_rgb) && spec_is_blend_equation(mode_a) ==> *final(self) == (GlContext {
                blend_eq_rgb: mode_rgb,
                blend_eq_a: mode_a,
                ..*old(self)
            }),
    {
        if mode_rgb < GL_FUNC_ADD || mode_rgb >= NUM_BLEND_EQUATIONS {
            self.set_error(GL_INVALID_ENUM);
            return;
        }
        if mode_a < GL_FUNC_ADD || mode_a >= NUM_BLEND_EQUATIONS {
            self.set_error(GL_INVALID_ENUM);
            return;
        }
        self.blend_eq_rgb = mode_rgb;
        self.blend_eq_a = mode_a;
    }

    /// Choose which faces are culled.
    pub fn gl_cull_face(&mut self, mode: GLenum)
        ensures
            !(mode == GL_FRONT || mode == GL_BACK || mode == GL_FRONT_AND_BACK)
                ==> *final(self) == old(self).with_error(GL_INVALID_ENUM),
            mode == GL_FRONT || mode == GL_BACK || mode == GL_FRONT_AND_BACK
                ==> *final(self) == (GlContext { cull_mode: mode, ..*old(self) }),
    {
        if mode != GL_FRONT && mode != GL_BACK && mode != GL_FRONT_AND_BACK {
            self.set_error(GL_INVALID_ENUM);
            return;
        }
        self.cull_mode = mode;
    }

    /// Choose the winding of front faces.
    pub fn gl_front_face(&mut self, mode: GLenum)
        ensures
            !(mode == GL_CCW || mode == GL_CW) ==> *final(self) == old(self).with_error(GL_INVALID_ENUM),
            mode == GL_CCW || mode == GL_CW ==> *final(self) == (GlContext { front_face: mode, ..*old(self) }),
    {
        if mode != GL_CCW && mode != GL_CW {
            self.set_error(GL_INVALID_ENUM);
            return;
        }
        self.front_face = mode;
    }

    /// The context after `gl_polygon_mode(face, mode)`.
    pub open spec fn spec_polygon_mode(self, face: GLenum, mode: GLenum) -> GlContext {
        if !(mode == GL_POINT || mode == GL_LINE || mode == GL_FILL) {
            self.with_error(GL_INVALID_ENUM)
        } else if face == GL_FRONT {
            GlContext { poly_mode_front: mode, draw_triangle_front: spec_triangle_func(mode), ..self }
        } else if face == GL_BACK {
            GlContext { poly_mode_back: mode, draw_triangle_back: spec_triangle_func(mode), ..self }
        } else if face == GL_FRONT_AND_BACK {
            GlContext {
                poly_mode_front: mode,
                poly_mode_back: mode,
                draw_triangle_front: spec_triangle_func(mode),
                draw_triangle_back: spec_triangle_func(mode),
                ..self
            }
        } else {
            self.with_error(GL_INVALID_ENUM)
        }
    }

    /// Set how the triangles of one or both faces are drawn: filled,
    /// outlined or as corner points. An unknown mode or face records
    /// `GL_INVALID_ENUM`.
    pub fn gl_polygon_mode(&mut self, face: GLenum, mode: GLenum)
        ensures
            *final(self) == old(self).spec_polygon_mode(face, mode),
    {
        if mode != GL_POINT && mode != GL_LINE && mode != GL_FILL {
            self.set_error(GL_INVALID_ENUM);
            return;
        }
        self.set_polygon_mode_faces(face, mode);
    }

    fn set_polygon_mode_faces(&mut self, face: GLenum, mode: GLenum)
        ensures
            face == GL_FRONT ==> *final(self) == (GlContext {
                poly_mode_front: mode,
                draw_triangle_front: spec_triangle_func(mode),
                ..*old(self)
            }),
            face == GL_BACK ==> *final(self) == (GlContext {
                poly_mode_back: mode,
                draw_triangle_back: spec_triangle_func(mode),
                ..*old(self)
            }),
            face == GL_FRONT_AND_BACK ==> *final(self) == (GlContext {
                poly_mode_front: mode,
                poly_mode_back: mode,
                draw_triangle_front: spec_triangle_func(mode),
                draw_triangle_back: spec_triangle_func(mode),
                ..*old(self)
            }),
            !(face == GL_FRONT || face == GL_BACK || face == GL_FRONT_AND_BACK)
                ==> *final(self) == old(self).with_error(GL_INVALID_ENUM),
    {
        let tri_mode = triangle_func(mode);
        match face {
            GL_FRONT => {
                self.poly_mode_front = mode;
                self.draw_triangle_front = tri_mode;
            },
            GL_BACK => {
                self.poly_mode_back = mode;
                self.draw_triangle_back = tri_mode;
            },
            GL_FRONT_AND_BACK => {
                self.poly_mode_front = mode;
                self.poly_mode_back = mode;
                self.draw_triangle_front = tri_mode;
                self.draw_triangle_back = tri_mode;
            },
            _ => self.set_error(GL_INVALID_ENUM),
        }
    }

    /// Set the logical operation applied to colours.
    pub fn gl_logic_op(&mut self, opcode: GLenum)
        ensures
            !(GL_CLEAR <= opcode <= GL_INVERT) ==> *final(self) == old(self).with_error(GL_INVALID_ENUM),
            GL_CLEAR <= opcode <= GL_INVERT ==> *final(self) == (GlContext { logic_func: opcode, ..*old(self) }),
    {
        if opcode < GL_CLEAR || opcode > GL_INVERT {
            self.set_error(GL_INVALID_ENUM);
            return;
        }
        self.logic_func = opcode;
    }

    /// Set the scissor box; the clipping bounds become the box cut to the
    /// colour buffer. A negative size records `GL_INVALID_VALUE`.
    pub fn gl_scissor(&mut self, x: GLint, y: GLint, width: GLsizei, height: GLsizei)
        requires
            0 <= width && 0 <= height ==> x + width <= i32::MAX && y + height <= i32::MAX,
        ensures
            width < 0 || height < 0 ==> *final(self) == old(self).with_error(GL_INVALID_VALUE),
            0 <= width && 0 <= height ==> *final(self) == (GlContext {
                scissor_lx: x,
                scissor_ly: y,
                scissor_w: width,
                scissor_h: height,
                lx: spec_max(x as int, 0) as i32,
                ly: spec_max(y as int, 0) as i32,
                ux: spec_min(x + width, old(self).back_buffer.w as int) as i32,
                uy: spec_min(y + height, old(self).back_buffer.h as int) as i32,
                ..*old(self)
            }),
    {
        if width < 0 || height < 0 {
            self.set_error(GL_INVALID_VALUE);
            return;
        }
        self.scissor_lx = x;
        self.scissor_ly = y;
        self.scissor_w = width;
        self.scissor_h = height;
        let ux = x + width;
        let uy = y + height;
        self.lx = max_i32(x, 0);
        self.ly = max_i32(y, 0);
        self.ux = min_i32(ux, self.back_buffer.w);
        self.uy = min_i32(uy, self.back_buffer.h);
    }

    /// Choose which vertex of a primitive supplies flat-shaded values.
    pub fn gl_provoking_vertex(&mut self, mode: GLenum)
        ensures
            !(mode == GL_FIRST_VERTEX_CONVENTION || mode == GL_LAST_VERTEX_CONVENTION)
                ==> *final(self) == old(self).with_error(GL_INVALID_ENUM),
            mode == GL_FIRST_VERTEX_CONVENTION || mode == GL_LAST_VERTEX_CONVENTION
                ==> *final(self) == (GlContext { provoking_vert: mode, ..*old(self) }),
    {
        if mode != GL_FIRST_VERTEX_CONVENTION && mode != GL_LAST_VERTEX_CONVENTION {
            self.set_error(GL_INVALID_ENUM);
            return;
        }
        self.provoking_vert = mode;
    }

    /// Set the origin of point sprite coordinates, the one integer point
    /// parameter.
    pub fn gl_point_parameteri(&mut self, pname: GLenum, param: GLint)
        ensures
            pname != GL_POINT_SPRITE_COORD_ORIGIN ==> *final(self) == old(self).with_error(GL_INVALID_ENUM),
            pname == GL_POINT_SPRITE_COORD_ORIGIN && !(param as GLenum == GL_UPPER_LEFT || param as GLenum
                == GL_LOWER_LEFT) ==> *final(self) == old(self).with_error(GL_INVALID_ENUM),
            pname == GL_POINT_SPRITE_COORD_ORIGIN && (param as GLenum == GL_UPPER_LEFT || param as GLenum
                == GL_LOWER_LEFT) ==> *final(self) == (GlContext {
                point_spr_origin: param as GLenum,
                ..*old(self)
            }),
    {
        if pname != GL_POINT_SPRITE_COORD_ORIGIN {
            self.set_error(GL_INVALID_ENUM);
            return;
        }
        let p = param as GLenum;
        if p != GL_UPPER_LEFT && p != GL_LOWER_LEFT {
            self.set_error(GL_INVALID_ENUM);
            return;
        }
        self.point_spr_origin = p;
    }

    /// Set the stencil test of both faces.
    pub fn gl_stencil_func(&mut self, func: GLenum, ref_: GLint, mask: GLuint)
        ensures
            !spec_is_compare_func(func) ==> *final(self) == old(self).with_error(GL_INVALID_ENUM),
            spec_is_compare_func(func) ==> *final(self) == (GlContext {
                stencil_func: func,
                stencil_func_back: func,
                stencil_ref: ref_,
                stencil_ref_back: ref_,
                stencil_valuemask: mask,
                stencil_valuemask_back: mask,
                ..*old(self)
            }),
    {
        if func < GL_LESS || func > GL_NEVER {
            self.set_error(GL_INVALID_ENUM);
            return;
        }
        self.stencil_func = func;
        self.stencil_func_back = func;
        self.stencil_ref = ref_;
        self.stencil_ref_back = ref_;
        self.stencil_valuemask = mask;
        self.stencil_valuemask_back = mask;
    }

    /// The context after `gl_stencil_func_separate(face, func, ref_, mask)`.
    pub open spec fn spec_stencil_func_separate(self, face: GLenum, func: GLenum, ref_: GLint, mask: GLuint) -> GlContext {
        if !spec_is_compare_func(func) {
            self.with_error(GL_INVALID_ENUM)
        } else if face == GL_FRONT {
            GlContext { stencil_func: func, stencil_ref: ref_, stencil_valuemask: mask, ..self }
        } else if face == GL_BACK {
            GlContext { stencil_func_back: func, stencil_ref_back: ref_, stencil_valuemask_back: mask, ..self }
        } else if face == GL_FRONT_AND_BACK {
            GlContext {
                stencil_func: func,
                stencil_func_back: func,
                stencil_ref: ref_,
                stencil_ref_back: ref_,
                stencil_valuemask: mask,
                stencil_valuemask_back: mask,
                ..self
            }
        } else {
            self.with_error(GL_INVALID_ENUM)
        }
    }

    /// Set the stencil test of one or both faces. A value that is no
    /// comparison function, or an unknown face, records `GL_INVALID_ENUM`.
    pub fn gl_stencil_func_separate(&mut self, face: GLenum, func: GLenum, ref_: GLint, mask: GLuint)
        ensures
            *final(self) == old(self).spec_stencil_func_separate(face, func, ref_, mask),
    {
        if func < GL_LESS || func > GL_NEVER {
            self.set_error(GL_INVALID_ENUM);
            return;
        }
        self.set_stencil_func_faces(face, func, ref_, mask);
    }

    fn set_stencil_func_faces(&mut self, face: GLenum, func: GLenum, ref_: GLint, mask: GLuint)
        ensures
            face == GL_FRONT ==> *final(self) == (GlContext {
                stencil_func: func,
                stencil_ref: ref_,
                stencil_valuemask: mask,
                ..*old(self)
            }),
            face == GL_BACK ==> *final(self) == (GlContext {
                stencil_func_back: func,
                stencil_ref_back: ref_,
                stencil_valuemask_back: mask,
                ..*old(self)
            }),
            face == GL_FRONT_AND_BACK ==> *final(self) == (GlContext {
                stencil_func: func,
                stencil_func_back: func,
                stencil_ref: ref_,
                stencil_ref_back: ref_,
                stencil_valuemask: mask,
                stencil_valuemask_back: mask,
                ..*old(self)
            }),
            !(face == GL_FRONT || face == GL_BACK || face == GL_FRONT_AND_BACK)
                ==> *final(self) == old(self).with_error(GL_INVALID_ENUM),
    {
        match face {
            GL_FRONT => {
                self.stencil_func = func;
                self.stencil_ref = ref_;
                self.stencil_valuemask = mask;
            },
            GL_BACK => {
                self.stencil_func_back = func;
                self.stencil_ref_back = ref_;
                self.stencil_valuemask_back = mask;
            },
            GL_FRONT_AND_BACK => {
                self.stencil_func = func;
                self.stencil_func_back = func;
                self.stencil_ref = ref_;
                self.stencil_ref_back = ref_;
                self.stencil_valuemask = mask;
                self.stencil_valuemask_back = mask;
            },
            _ => self.set_error(GL_INVALID_ENUM),
        }
    }

    /// Set the stencil operations of both faces.
    pub fn gl_stencil_op(&mut self, sfail: GLenum, dpfail: GLenum, dppass: GLenum)
        ensures
            *final(self) == (GlContext {
                stencil_sfail: sfail,
                stencil_dpfail: dpfail,
                stencil_dppass: dppass,
                stencil_sfail_back: sfail,
                stencil_dpfail_back: dpfail,
                stencil_dppass_back: dppass,
                ..*old(self)
            }),
    {
        self.stencil_sfail = sfail;
        self.stencil_dpfail = dpfail;
        self.stencil_dppass = dppass;
        self.stencil_sfail_back = sfail;
        self.stencil_dpfail_back = dpfail;
        self.stencil_dppass_back = dppass;
    }

    /// Set the stencil operations of one or both faces.
    pub fn gl_stencil_op_separate(&mut self, face: GLenum, sfail: GLenum, dpfail: GLenum, dppass: GLenum)
        ensures
            face == GL_FRONT ==> *final(self) == (GlContext {
                stencil_sfail: sfail,
                stencil_dpfail: dpfail,
                stencil_dppass: dppass,
                ..*old(self)
            }),
            face == GL_BACK ==> *final(self) == (GlContext {
                stencil_sfail_back: sfail,
                stencil_dpfail_back: dpfail,
                stencil_dppass_back: dppass,
                ..*old(self)
            }),
            face == GL_FRONT_AND_BACK ==> *final(self) == (GlContext {
                stencil_sfail: sfail,
                stencil_dpfail: dpfail,
                stencil_dppass: dppass,
                stencil_sfail_back: sfail,
                stencil_dpfail_back: dpfail,
                stencil_dppass_back: dppass,
                ..*old(self)
            }),
            !(face == GL_FRONT || face == GL_BACK || face == GL_FRONT_AND_BACK)
                ==> *final(self) == old(self).with_error(GL_INVALID_ENUM),
    {
        match face {
            GL_FRONT => {
                self.stencil_sfail = sfail;
                self.stencil_dpfail = dpfail;
                self.stencil_dppass = dppass;
            },
            GL_BACK => {
                self.stencil_sfail_back = sfail;
                self.stencil_dpfail_back = dpfail;
                self.stencil_dppass_back = dppass;
            },
            GL_FRONT_AND_BACK => {
                self.stencil_sfail = sfail;
                self.stencil_dpfail = dpfail;
                self.stencil_dppass = dppass;
                self.stencil_sfail_back = sfail;
                self.stencil_dpfail_back = dpfail;
                self.stencil_dppass_back = dppass;
            },
            _ => self.set_error(GL_INVALID_ENUM),
        }
    }

    /// Set the value that clearing writes to the stencil buffer.
    pub fn gl_clear_stencil(&mut self, s: GLint)
        ensures
            *final(self) == (GlContext { clear_stencil: s, ..*old(self) }),
    {
        self.clear_stencil = s;
    }

    /// Set the stencil write mask of both faces.
    pub fn gl_stencil_mask(&mut self, mask: GLuint)
        ensures
            *final(self) == (GlContext { stencil_writemask: mask, stencil_writemask_back: mask, ..*old(self) }),
    {
        self.stencil_writemask = mask;
        self.stencil_writemask_back = mask;
    }

    /// Set the stencil write mask of one or both faces.
    pub fn gl_stencil_mask_separate(&mut self, face: GLenum, mask: GLuint)
        ensures
            face == GL_FRONT ==> *final(self) == (GlContext { stencil_writemask: mask, ..*old(self) }),
            face == GL_BACK ==> *final(self) == (GlContext { stencil_writemask_back: mask, ..*old(self) }),
            face == GL_FRONT_AND_BACK ==> *final(self) == (GlContext {
                stencil_writemask: mask,
                stencil_writemask_back: mask,
                ..*old(self)
            }),
            !(face == GL_FRONT || face == GL_BACK || face == GL_FRONT_AND_BACK)
                ==> *final(self) == old(self).with_error(GL_INVALID_ENUM),
    {
        match face {
            GL_FRONT => {
                self.stencil_writemask = mask;
            },
            GL_BACK => {
                self.stencil_writemask_back = mask;
            },
            GL_FRONT_AND_BACK => {
                self.stencil_writemask = mask;
                self.stencil_writemask_back = mask;
            },
            _ => self.set_error(GL_INVALID_ENUM),
        }
    }

    /// Set the row alignment of pixel unpacking or packing; only 1, 2, 4
    /// and 8 are accepted.
    pub fn gl_pixel_storei(&mut self, pname: GLenum, param: GLint)
        ensures
            pname == GL_UNPACK_ALIGNMENT && spec_is_alignment(param)
                ==> *final(self) == (GlContext { unpack_alignment: param, ..*old(self) }),
            pname == GL_PACK_ALIGNMENT && spec_is_alignment(param)
                ==> *final(self) == (GlContext { pack_alignment: param, ..*old(self) }),
            (pname == GL_UNPACK_ALIGNMENT || pname == GL_PACK_ALIGNMENT) && !spec_is_alignment(param)
                ==> *final(self) == old(self).with_error(GL_INVALID_VALUE),
            !(pname == GL_UNPACK_ALIGNMENT || pname == GL_PACK_ALIGNMENT)
                ==> *final(self) == old(self).with_error(GL_INVALID_ENUM),
    {
        match pname {
            GL_UNPACK_ALIGNMENT => {
                if param == 1 || param == 2 || param == 4 || param == 8 {
                    self.unpack_alignment = param;
                } else {
                    self.set_error(GL_INVALID_VALUE);
                }
            },
            GL_PACK_ALIGNMENT => {
                if param == 1 || param == 2 || param == 4 || param == 8 {
                    self.pack_alignment = param;
                } else {
                    self.set_error(GL_INVALID_VALUE);
                }
            },
            _ => self.set_error(GL_INVALID_ENUM),
        }
    }

    /// Whether `mode` is a primitive mode the draw calls accept; otherwise
    /// `GL_INVALID_ENUM` is recorded.
    pub fn validate_draw_mode(&mut self, mode: GLenum) -> (ok: bool)
        ensures
            ok == spec_is_draw_mode(mode),
            ok ==> *final(self) == *old(self),
            !ok ==> *final(self) == old(self).with_error(GL_INVALID_ENUM),
    {
        match mode {
            GL_POINTS | GL_LINES | GL_LINE_STRIP | GL_LINE_LOOP | GL_TRIANGLES | GL_TRIANGLE_STRIP
            | GL_TRIANGLE_FAN | GL_LINE_STRIP_ADJACENCY | GL_LINES_ADJACENCY | GL_TRIANGLES_ADJACENCY
            | GL_TRIANGLE_STRIP_ADJACENCY => true,
            _ => {
                self.set_error(GL_INVALID_ENUM);
                false
            },
        }
    }
}

} // verus!
