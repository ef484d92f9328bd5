//! The rendering context: every piece of GL state that the entry points
//! read and write, kept as plain integers, flags, byte buffers and object
//! tables. The floating-point parts of the pipeline (matrices, clear depth,
//! line width and the like) live beside it in the embedding program.

use vstd::prelude::*;
use crate::gl_types::{GL_ALWAYS, GL_BACK, GL_CCW, GL_COPY, GL_FILL, GL_FUNC_ADD, GL_KEEP, GL_LAST_VERTEX_CONVENTION, GL_LESS, GL_MAX_VERTEX_OUTPUT_COMPONENTS, GL_NO_ERROR, GL_ONE, GL_TEXTURE_UNBOUND, GL_UPPER_LEFT, GL_ZERO, GLenum, GLint, GLsizei, GLuint, GlBuffer, GlFramebuffer, GlTexture, GlVertexArray, PGL_SMOOTH};
use crate::gl_impl::{NUM_BUF_TARGETS, NUM_TEX_TARGETS};

verus! {

/// Which rasteriser draws the triangles of one face: 0 fills, 1 outlines,
/// 2 draws the corners.
pub type TriangleFunc = u8;

pub const TRIANGLE_FILL: TriangleFunc = 0;
pub const TRIANGLE_LINE: TriangleFunc = 1;
pub const TRIANGLE_POINT: TriangleFunc = 2;

/// A program object as the state machine sees it: the number of values its
/// vertex shader passes on, how each is interpolated, and its flags. The
/// shader entry points themselves are kept by the embedding program, in a
/// table indexed by the same program name.
#[derive(Clone, Debug)]
pub struct GlProgram {
    pub vs_output_size: GLsizei,
    pub interpolation: Vec<GLenum>,
    pub fragdepth_or_discard: bool,
    pub deleted: bool,
}

/// The named objects of a context and what is bound.
#[derive(Clone, Debug)]
pub struct GlObjects {
    pub vertex_arrays: Vec<GlVertexArray>,
    pub buffers: Vec<GlBuffer>,
    pub textures: Vec<GlTexture>,
    pub programs: Vec<GlProgram>,
    /// One texture per texture target, used while 0 is bound there.
    pub default_textures: Vec<GlTexture>,
    pub cur_vertex_array: GLuint,
    /// One buffer name per buffer target.
    pub bound_buffers: Vec<GLuint>,
    /// One texture name per texture target.
    pub bound_textures: Vec<GLuint>,
    pub cur_texture2d: GLuint,
    pub cur_program: GLuint,
}

impl GlObjects {
    /// Every binding refers to an existing slot of its table, the binding
    /// tables have one slot per target, and object names fit in a `GLuint`.
    pub open spec fn wf(&self) -> bool {
        &&& self.bound_buffers@.len() == NUM_BUF_TARGETS
        &&& self.bound_textures@.len() == NUM_TEX_TARGETS
        &&& self.default_textures@.len() == NUM_TEX_TARGETS
        &&& 1 <= self.vertex_arrays@.len() <= u32::MAX
        &&& 1 <= self.buffers@.len() <= u32::MAX
        &&& 1 <= self.textures@.len() <= u32::MAX
        &&& 1 <= self.programs@.len() <= u32::MAX
        &&& self.cur_vertex_array < self.vertex_arrays@.len()
        &&& self.cur_program < self.programs@.len()
        &&& forall|i: int| 0 <= i < NUM_BUF_TARGETS ==> #[trigger] self.bound_buffers@[i] < self.buffers@.len()
        &&& forall|i: int| 0 <= i < NUM_TEX_TARGETS ==> #[trigger] self.bound_textures@[i] < self.textures@.len()
    }

    /// No tables and nothing bound.
    pub open spec fn spec_blank(&self) -> bool {
        &&& self.vertex_arrays@.len() == 0 && self.buffers@.len() == 0
        &&& self.textures@.len() == 0 && self.programs@.len() == 0
        &&& self.default_textures@.len() == 0
        &&& self.cur_vertex_array == 0
        &&& self.bound_buffers@.len() == 0 && self.bound_textures@.len() == 0
        &&& self.cur_texture2d == 0 && self.cur_program == 0
    }

    /// The tables that `GlContext::init` sets up: one default object of
    /// each kind, one default texture per target, and nothing bound.
    pub open spec fn spec_initial(&self) -> bool {
        &&& self.vertex_arrays@.len() == 1 && self.vertex_arrays@[0].spec_fresh()
        &&& self.buffers@.len() == 1
        &&& self.buffers@[0].size == 0 && self.buffers@[0].type_ == 0
        &&& self.buffers@[0].data@.len() == 0 && !self.buffers@[0].deleted
        &&& self.buffers@[0].user_owned
        &&& self.textures@.len() == 1 && self.textures@[0].spec_fresh()
        &&& self.programs@.len() == 1 && self.programs@[0].spec_standard()
        &&& self.default_textures@.len() == NUM_TEX_TARGETS
        &&& forall|i: int| 0 <= i < NUM_TEX_TARGETS ==> (#[trigger] self.default_textures@[i]).spec_fresh()
        &&& self.cur_vertex_array == 0
        &&& self.bound_buffers@ == Seq::new(NUM_BUF_TARGETS as nat, |i: int| 0u32)
        &&& self.bound_textures@ == Seq::new(NUM_TEX_TARGETS as nat, |i: int| 0u32)
        &&& self.cur_texture2d == 0 && self.cur_program == 0
    }

    /// Empty tables, nothing bound.
    pub fn blank() -> (o: GlObjects)
        ensures
            o.spec_blank(),
    {
        GlObjects {
            vertex_arrays: Vec::new(),
            buffers: Vec::new(),
            textures: Vec::new(),
            programs: Vec::new(),
            default_textures: Vec::new(),
            cur_vertex_array: 0,
            bound_buffers: Vec::new(),
            bound_textures: Vec::new(),
            cur_texture2d: 0,
            cur_program: 0,
        }
    }

    /// The tables of a freshly initialised context.
    pub fn initial() -> (o: GlObjects)
        ensures
            o.spec_initial(),
            o.wf(),
    {
        let mut programs: Vec<GlProgram> = Vec::new();
        programs.push(GlProgram::standard());
        let mut vertex_arrays: Vec<GlVertexArray> = Vec::new();
        vertex_arrays.push(GlVertexArray::empty());
        let mut buf0 = GlBuffer::empty();
        buf0.user_owned = true;
        let mut buffers: Vec<GlBuffer> = Vec::new();
        buffers.push(buf0);
        let mut textures: Vec<GlTexture> = Vec::new();
        textures.push(GlTexture::empty());
        let mut defaults: Vec<GlTexture> = Vec::new();
        let mut i: usize = 0;
        while i < NUM_TEX_TARGETS
            invariant
                i <= NUM_TEX_TARGETS,
                defaults@.len() == i,
                forall|j: int| 0 <= j < i ==> (#[trigger] defaults@[j]).spec_fresh(),
            decreases NUM_TEX_TARGETS - i,
        {
            defaults.push(GlTexture::empty());
            i = i + 1;
        }
        let bound_buffers: Vec<GLuint> = vec![0u32; NUM_BUF_TARGETS];
        let bound_textures: Vec<GLuint> = vec![0u32; NUM_TEX_TARGETS];
        proof {
            assert(bound_buffers@ =~= Seq::new(NUM_BUF_TARGETS as nat, |i: int| 0u32));
            assert(bound_textures@ =~= Seq::new(NUM_TEX_TARGETS as nat, |i: int| 0u32));
        }
        GlObjects {
            vertex_arrays,
            buffers,
            textures,
            programs,
            default_textures: defaults,
            cur_vertex_array: 0,
            bound_buffers,
            bound_textures,
            cur_texture2d: 0,
            cur_program: 0,
        }
    }
}

/// The state of one rendering context.
#[derive(Clone, Debug)]
pub struct GlContext {
    // viewport
    pub xmin: GLint,
    pub ymin: GLint,
    pub width: GLsizei,
    pub height: GLsizei,
    // scissor/guardband clipping bounds
    pub lx: GLint,
    pub ly: GLint,
    pub ux: GLint,
    pub uy: GLint,
    // object tables and bindings
    pub objects: GlObjects,
    // error/debug state
    pub error: GLenum,
    pub dbg_output: bool,
    // values handed from the current program to the rasteriser
    pub vs_output_size: GLsizei,
    // capabilities
    pub depth_test: bool,
    pub line_smooth: bool,
    pub cull_face: bool,
    pub fragdepth_or_discard: bool,
    pub depth_clamp: bool,
    pub depth_mask: bool,
    pub blend: bool,
    pub logic_ops: bool,
    pub poly_offset_pt: bool,
    pub poly_offset_line: bool,
    pub poly_offset_fill: bool,
    pub scissor_test: bool,
    pub color_mask: u32,
    // stencil state
    pub stencil_test: bool,
    pub stencil_writemask: GLuint,
    pub stencil_writemask_back: GLuint,
    pub stencil_ref: GLint,
    pub stencil_ref_back: GLint,
    pub stencil_valuemask: GLuint,
    pub stencil_valuemask_back: GLuint,
    pub stencil_func: GLenum,
    pub stencil_func_back: GLenum,
    pub stencil_sfail: GLenum,
    pub stencil_dpfail: GLenum,
    pub stencil_dppass: GLenum,
    pub stencil_sfail_back: GLenum,
    pub stencil_dpfail_back: GLenum,
    pub stencil_dppass_back: GLenum,
    pub clear_stencil: GLint,
    pub stencil_buf: GlFramebuffer,
    // blend/logic and rasteriser state
    pub logic_func: GLenum,
    pub blend_srgb: GLenum,
    pub blend_sa: GLenum,
    pub blend_drgb: GLenum,
    pub blend_da: GLenum,
    pub blend_eq_rgb: GLenum,
    pub blend_eq_a: GLenum,
    pub cull_mode: GLenum,
    pub front_face: GLenum,
    pub poly_mode_front: GLenum,
    pub poly_mode_back: GLenum,
    pub depth_func: GLenum,
    pub point_spr_origin: GLenum,
    pub provoking_vert: GLenum,
    pub scissor_lx: GLint,
    pub scissor_ly: GLint,
    pub scissor_w: GLsizei,
    pub scissor_h: GLsizei,
    pub unpack_alignment: GLint,
    pub pack_alignment: GLint,
    pub clear_color: u32,
    pub draw_triangle_front: TriangleFunc,
    pub draw_triangle_back: TriangleFunc,
    // framebuffers
    pub zbuf: GlFramebuffer,
    pub back_buffer: GlFramebuffer,
    pub user_alloced_backbuf: bool,
}

impl GlProgram {
    /// The program that `standard` returns.
    pub open spec fn spec_standard(&self) -> bool {
        &&& self.vs_output_size == 0
        &&& self.interpolation@ == Seq::new(GL_MAX_VERTEX_OUTPUT_COMPONENTS as nat, |i: int| PGL_SMOOTH)
        &&& !self.fragdepth_or_discard
        &&& !self.deleted
    }

    /// A live program that passes nothing on and interpolates smoothly.
    pub fn standard() -> (p: GlProgram)
        ensures
            p.spec_standard(),
    {
        let interpolation: Vec<GLenum> = vec![PGL_SMOOTH; GL_MAX_VERTEX_OUTPUT_COMPONENTS];
        assert(interpolation@ =~= Seq::new(GL_MAX_VERTEX_OUTPUT_COMPONENTS as nat, |i: int| PGL_SMOOTH));
        GlProgram { vs_output_size: 0, interpolation, fragdepth_or_discard: false, deleted: false }
    }
}

/// An empty framebuffer.
pub open spec fn spec_no_framebuffer(f: GlFramebuffer) -> bool {
    f.buf@.len() == 0 && f.w == 0 && f.h == 0
}

/// A zero-filled framebuffer of `w` by `h` 32-bit pixels.
pub open spec fn spec_zero_framebuffer(f: GlFramebuffer, w: GLsizei, h: GLsizei) -> bool {
    &&& f.w == w
    &&& f.h == h
    &&& f.buf@ == Seq::new((w * h * 4) as nat, |i: int| 0u8)
}

/// A zero-filled framebuffer of `w` by `h` 32-bit pixels.
pub fn zero_framebuffer(w: GLsizei, h: GLsizei) -> (f: GlFramebuffer)
    requires
        0 <= w * h <= i32::MAX,
        w * h * 4 <= usize::MAX,
    ensures
        spec_zero_framebuffer(f, w, h),
{
    let total: usize = ((w * h) as usize) * 4;
    let buf: Vec<u8> = vec![0u8; total];
    assert(buf@ =~= Seq::new((w * h * 4) as nat, |i: int| 0u8));
    GlFramebuffer { buf, w, h }
}

impl GlContext {
    /// The context before `init`: every field zero, false or empty.
    pub open spec fn spec_blank(&self) -> bool {
        &&& self.xmin == 0 && self.ymin == 0 && self.width == 0 && self.height == 0
        &&& self.lx == 0 && self.ly == 0 && self.ux == 0 && self.uy == 0
        &&& self.objects.spec_blank()
        &&& self.error == 0 && !self.dbg_output && self.vs_output_size == 0
        &&& !self.depth_test && !self.line_smooth && !self.cull_face
        &&& !self.fragdepth_or_discard && !self.depth_clamp && !self.depth_mask
        &&& !self.blend && !self.logic_ops && !self.poly_offset_pt
        &&& !self.poly_offset_line && !self.poly_offset_fill && !self.scissor_test
        &&& self.color_mask == 0
        &&& !self.stencil_test
        &&& self.stencil_writemask == 0 && self.stencil_writemask_back == 0
        &&& self.stencil_ref == 0 && self.stencil_ref_back == 0
        &&& self.stencil_valuemask == 0 && self.stencil_valuemask_back == 0
        &&& self.stencil_func == 0 && self.stencil_func_back == 0
        &&& self.stencil_sfail == 0 && self.stencil_dpfail == 0 && self.stencil_dppass == 0
        &&& self.stencil_sfail_back == 0 && self.stencil_dpfail_back == 0
        &&& self.stencil_dppass_back == 0
        &&& self.clear_stencil == 0
        &&& spec_no_framebuffer(self.stencil_buf)
        &&& self.logic_func == 0
        &&& self.blend_srgb == 0 && self.blend_sa == 0 && self.blend_drgb == 0 && self.blend_da == 0
        &&& self.blend_eq_rgb == 0 && self.blend_eq_a == 0
        &&& self.cull_mode == 0 && self.front_face == 0
        &&& self.poly_mode_front == 0 && self.poly_mode_back == 0
        &&& self.depth_func == 0 && self.point_spr_origin == 0 && self.provoking_vert == 0
        &&& self.scissor_lx == 0 && self.scissor_ly == 0 && self.scissor_w == 0 && self.scissor_h == 0
        &&& self.unpack_alignment == 0 && self.pack_alignment == 0
        &&& self.clear_color == 0
        &&& self.draw_triangle_front == TRIANGLE_FILL && self.draw_triangle_back == TRIANGLE_FILL
        &&& spec_no_framebuffer(self.zbuf)
        &&& spec_no_framebuffer(self.back_buffer)
        &&& !self.user_alloced_backbuf
    }

    /// The state that `init(w, h)` sets up: the defaults of the OpenGL
    /// specification, one default object in each table, nothing bound, and
    /// zeroed colour, depth and stencil buffers of `w` by `h` pixels.
    pub open spec fn spec_initial(&self, w: GLsizei, h: GLsizei) -> bool {
        &&& self.xmin == 0 && self.ymin == 0 && self.width == w && self.height == h
        &&& self.lx == 0 && self.ly == 0 && self.ux == w && self.uy == h
        &&& self.objects.spec_initial()
        &&& self.error == 0 && !self.dbg_output && self.vs_output_size == 0
        &&& !self.depth_test && !self.line_smooth && !self.cull_face
        &&& !self.fragdepth_or_discard && !self.depth_clamp && self.depth_mask
        &&& !self.blend && !self.logic_ops && !self.poly_offset_pt
        &&& !self.poly_offset_line && !self.poly_offset_fill && !self.scissor_test
        &&& self.color_mask == 0xFFFF_FFFF
        &&& !self.stencil_test
        &&& self.stencil_writemask == 0xFFFF_FFFF && self.stencil_writemask_back == 0xFFFF_FFFF
        &&& self.stencil_ref == 0 && self.stencil_ref_back == 0
        &&& self.stencil_valuemask == 0xFFFF_FFFF && self.stencil_valuemask_back == 0xFFFF_FFFF
        &&& self.stencil_func == GL_ALWAYS && self.stencil_func_back == GL_ALWAYS
        &&& self.stencil_sfail == GL_KEEP && self.stencil_dpfail == GL_KEEP
        &&& self.stencil_dppass == GL_KEEP
        &&& self.stencil_sfail_back == GL_KEEP && self.stencil_dpfail_back == GL_KEEP
        &&& self.stencil_dppass_back == GL_KEEP
        &&& self.clear_stencil == 0
        &&& spec_zero_framebuffer(self.stencil_buf, w, h)
        &&& self.logic_func == GL_COPY
        &&& self.blend_srgb == GL_ONE && self.blend_sa == GL_ONE
        &&& self.blend_drgb == GL_ZERO && self.blend_da == GL_ZERO
        &&& self.blend_eq_rgb == GL_FUNC_ADD && self.blend_eq_a == GL_FUNC_ADD
        &&& self.cull_mode == GL_BACK && self.front_face == GL_CCW
        &&& self.poly_mode_front == GL_FILL && self.poly_mode_back == GL_FILL
        &&& self.depth_func == GL_LESS && self.point_spr_origin == GL_UPPER_LEFT
        &&& self.provoking_vert == GL_LAST_VERTEX_CONVENTION
        &&& self.scissor_lx == 0 && self.scissor_ly == 0 && self.scissor_w == w && self.scissor_h == h
        &&& self.unpack_alignment == 4 && self.pack_alignment == 4
        &&& self.clear_color == 0
        &&& self.draw_triangle_front == TRIANGLE_FILL && self.draw_triangle_back == TRIANGLE_FILL
        &&& spec_zero_framebuffer(self.zbuf, w, h)
        &&& spec_zero_framebuffer(self.back_buffer, w, h)
        &&& !self.user_alloced_backbuf
    }

    /// A blank context; `init` makes it usable.
    pub fn new() -> (c: GlContext)
        ensures
            c.spec_blank(),
    {
        GlContext {
            xmin: 0,
            ymin: 0,
            width: 0,
            height: 0,
            lx: 0,
            ly: 0,
            ux: 0,
            uy: 0,
            objects: GlObjects::blank(),
            error: 0,
            dbg_output: false,
            vs_output_size: 0,
            depth_test: false,
            line_smooth: false,
            cull_face: false,
            fragdepth_or_discard: false,
            depth_clamp: false,
            depth_mask: false,
            blend: false,
            logic_ops: false,
            poly_offset_pt: false,
            poly_offset_line: false,
            poly_offset_fill: false,
            scissor_test: false,
            color_mask: 0,
            stencil_test: false,
            stencil_writemask: 0,
            stencil_writemask_back: 0,
            stencil_ref: 0,
            stencil_ref_back: 0,
            stencil_valuemask: 0,
            stencil_valuemask_back: 0,
            stencil_func: 0,
            stencil_func_back: 0,
            stencil_sfail: 0,
            stencil_dpfail: 0,
            stencil_dppass: 0,
            stencil_sfail_back: 0,
            stencil_dpfail_back: 0,
            stencil_dppass_back: 0,
            clear_stencil: 0,
            stencil_buf: GlFramebuffer { buf: Vec::new(), w: 0, h: 0 },
            logic_func: 0,
            blend_srgb: 0,
            blend_sa: 0,
            blend_drgb: 0,
            blend_da: 0,
            blend_eq_rgb: 0,
            blend_eq_a: 0,
            cull_mode: 0,
            front_face: 0,
            poly_mode_front: 0,
            poly_mode_back: 0,
            depth_func: 0,
            point_spr_origin: 0,
            provoking_vert: 0,
            scissor_lx: 0,
            scissor_ly: 0,
            scissor_w: 0,
            scissor_h: 0,
            unpack_alignment: 0,
            pack_alignment: 0,
            clear_color: 0,
            draw_triangle_front: TRIANGLE_FILL,
            draw_triangle_back: TRIANGLE_FILL,
            zbuf: GlFramebuffer { buf: Vec::new(), w: 0, h: 0 },
            back_buffer: GlFramebuffer { buf: Vec::new(), w: 0, h: 0 },
            user_alloced_backbuf: false,
        }
    }

    /// The context after `init`: its object tables are well formed and the
    /// pixel row alignments are valid.
    pub open spec fn wf(&self) -> bool {
        &&& self.objects.wf()
        &&& (self.unpack_alignment == 1 || self.unpack_alignment == 2 || self.unpack_alignment == 4
            || self.unpack_alignment == 8)
        &&& (self.pack_alignment == 1 || self.pack_alignment == 2 || self.pack_alignment == 4
            || self.pack_alignment == 8)
    }

    /// The error flag after recording `err`: the first error since the last
    /// query is kept, later ones are dropped.
    pub open spec fn latched(old_error: GLenum, err: GLenum) -> GLenum {
        if old_error == GL_NO_ERROR { err } else { old_error }
    }

    /// The context with `err` recorded: only the error flag changes, and
    /// only if no earlier error is waiting.
    #[verifier::opaque]
    pub open spec fn with_error(self, err: GLenum) -> GlContext {
        GlContext { error: Self::latched(self.error, err), ..self }
    }

    /// Record `err` unless an earlier error is still waiting to be queried.
    pub fn set_error(&mut self, err: GLenum)
        ensures
            *final(self) == old(self).with_error(err),
    {
        proof {
            reveal(GlContext::with_error);
        }
        if self.error == GL_NO_ERROR {
            self.error = err;
        }
    }

    /// Only the first error recorded since the last query is kept.
    pub proof fn lemma_first_error_kept(self, e1: GLenum, e2: GLenum)
        requires
            e1 != GL_NO_ERROR,
        ensures
            self.with_error(e1).with_error(e2).error == (if self.error == GL_NO_ERROR { e1 } else { self.error }),
            self.with_error(e1).with_error(e2) == self.with_error(e1),
    {
        reveal(GlContext::with_error);
    }

    /// The context after the errors `es` are recorded in turn, as a run of
    /// failing calls records them.
    pub open spec fn with_errors(self, es: Seq<GLenum>) -> GlContext
        decreases es.len(),
    {
        if es.len() == 0 {
            self
        } else {
            self.with_errors(es.drop_last()).with_error(es.last())
        }
    }

    /// After a run of failing calls, the error flag holds the error that was
    /// waiting before, or else the first error of the run (`GL_NO_ERROR` for
    /// an empty run); nothing but the flag changes. `gl_get_error` then
    /// returns that error and clears the flag.
    pub proof fn lemma_first_of_many(self, es: Seq<GLenum>)
        requires
            forall|k: int| 0 <= k < es.len() ==> es[k] != GL_NO_ERROR,
        ensures
            self.with_errors(es).error == (if self.error != GL_NO_ERROR {
                self.error
            } else if es.len() == 0 {
                GL_NO_ERROR
            } else {
                es[0]
            }),
            self.with_errors(es) == (GlContext { error: self.with_errors(es).error, ..self }),
        decreases es.len(),
    {
        reveal(GlContext::with_error);
        if es.len() > 0 {
            let rest = es.drop_last();
            assert forall|k: int| 0 <= k < rest.len() implies rest[k] != GL_NO_ERROR by {
                assert(rest[k] == es[k]);
            }
            self.lemma_first_of_many(rest);
            if rest.len() > 0 {
                assert(rest[0] == es[0]);
            }
        }
    }

    /// Recording an error changes nothing but the error flag.
    pub proof fn lemma_error_only(self, e: GLenum)
        ensures
            self.with_error(e) == (GlContext { error: self.with_error(e).error, ..self }),
            self.with_error(e).error == Self::latched(self.error, e),
    {
        reveal(GlContext::with_error);
    }

    /// Return the waiting error, if any, and clear it.
    pub fn gl_get_error(&mut self) -> (e: GLenum)
        ensures
            e == old(self).error,
            *final(self) == (GlContext { error: GL_NO_ERROR, ..*old(self) }),
    {
        let e = self.error;
        self.error = GL_NO_ERROR;
        e
    }
}

impl Default for GlProgram {
    fn default() -> (p: GlProgram)
        ensures
            p.spec_standard(),
    {
        GlProgram::standard()
    }
}

impl Default for GlContext {
    fn default() -> (c: GlContext)
        ensures
            c.spec_blank(),
    {
        GlContext::new()
    }
}

} // verus!
