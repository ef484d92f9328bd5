//! The extension entry points of the renderer that work on the context's
//! integer state: whole-buffer clearing, interpolation modes, buffers and
//! textures handed over by the user, access to stored data, the back
//! buffer, and direct pixel and line drawing.

use vstd::prelude::*;
use crate::gl_context::{GlContext, GlObjects, GlProgram};
use crate::gl_impl::{spec_texture_target_index, texture_target_index, NUM_BUF_TARGETS, NUM_TEX_TARGETS};
use crate::gl_types::{
    GL_ARRAY_BUFFER, GL_INVALID_ENUM, GL_INVALID_OPERATION, GL_MAX_VERTEX_OUTPUT_COMPONENTS, GL_NUM_BUFFER_TYPES,
    GL_RGBA, GLenum, GLint, GLsizei, GLsizeiptr, GLuint, GlBuffer, GlFramebuffer, GlTexture,
};
use crate::math::Color;

verus! {

/// `n` zero bytes.
pub open spec fn spec_zeros(n: nat) -> Seq<u8> {
    Seq::new(n, |i: int| 0u8)
}

/// A vector of `n` zero bytes.
fn zeros(n: usize) -> (v: Vec<u8>)
    ensures
        v@ == spec_zeros(n as nat),
{
    let v: Vec<u8> = vec![0u8; n];
    assert(v@ =~= spec_zeros(n as nat));
    v
}

/// A copy of the first `n` bytes of `s`.
fn copy_prefix(s: &[u8], n: usize) -> (v: Vec<u8>)
    requires
        n <= s@.len(),
    ensures
        v@ == s@.subrange(0, n as int),
{
    let mut v: Vec<u8> = Vec::with_capacity(n);
    let mut i: usize = 0;
    while i < n
        invariant
            0 <= i <= n,
            n <= s@.len(),
            v@ == s@.subrange(0, i as int),
        decreases n - i,
    {
        v.push(s[i]);
        i = i + 1;
        assert(v@ =~= s@.subrange(0, i as int));
    }
    v
}

/// Set every byte of `buf` to 0.
fn zero_fill(buf: &mut Vec<u8>)
    ensures
        final(buf)@ == spec_zeros(old(buf)@.len()),
{
    let n = buf.len();
    let mut i: usize = 0;
    while i < n
        invariant
            0 <= i <= n,
            n == buf@.len(),
            forall|k: int| 0 <= k < i ==> #[trigger] buf@[k] == 0u8,
        decreases n - i,
    {
        buf.set(i, 0);
        i = i + 1;
    }
    assert(buf@ =~= spec_zeros(n as nat));
}

/// The buffer that a buffer target has bound, for the extension entry
/// points: an error for a value that is no buffer target, or a binding
/// without a buffer slot (0 included).
pub open spec fn spec_ext_bound_buffer(o: GlObjects, target: GLenum) -> Result<usize, GLenum> {
    if target < GL_ARRAY_BUFFER || target >= GL_NUM_BUFFER_TYPES {
        Err(GL_INVALID_ENUM)
    } else {
        let idx = (target - GL_ARRAY_BUFFER) as int;
        if idx >= o.bound_buffers@.len() {
            Err(GL_INVALID_OPERATION)
        } else {
            let b = o.bound_buffers@[idx];
            if b == 0 || b >= o.buffers@.len() {
                Err(GL_INVALID_OPERATION)
            } else {
                Ok(b as usize)
            }
        }
    }
}

fn ext_bound_buffer(o: &GlObjects, target: GLenum) -> (r: Result<usize, GLenum>)
    ensures
        r == spec_ext_bound_buffer(*o, target),
        r matches Ok(i) ==> i < o.buffers@.len(),
{
    if target < GL_ARRAY_BUFFER || target >= GL_NUM_BUFFER_TYPES {
        return Err(GL_INVALID_ENUM);
    }
    let idx = (target - GL_ARRAY_BUFFER) as usize;
    if idx >= o.bound_buffers.len() {
        return Err(GL_INVALID_OPERATION);
    }
    let b = o.bound_buffers[idx];
    if b == 0 || b as usize >= o.buffers.len() {
        return Err(GL_INVALID_OPERATION);
    }
    Ok(b as usize)
}

/// Put `b` in slot `i` of `table`.
fn replace_buffer(table: &mut Vec<GlBuffer>, i: usize, b: GlBuffer)
    requires
        i < old(table)@.len(),
    ensures
        final(table)@ == old(table)@.update(i as int, b),
{
    let _ = table.remove(i);
    table.insert(i, b);
}

/// Put `t` in slot `i` of `table`.
fn replace_texture(table: &mut Vec<GlTexture>, i: usize, t: GlTexture)
    requires
        i < old(table)@.len(),
    ensures
        final(table)@ == old(table)@.update(i as int, t),
{
    let _ = table.remove(i);
    table.insert(i, t);
}

/// The buffer that `pgl_buffer_data_slice` stores: `data` of kind
/// `usage`, owned by the user.
pub open spec fn spec_user_buffer(b: GlBuffer, before: GlBuffer, data: Seq<u8>, usage: GLenum) -> bool {
    &&& b.data@ == data
    &&& b.size == data.len() as GLsizei
    &&& b.type_ == usage
    &&& b.user_owned
    &&& b.deleted == before.deleted
}

/// The buffer that `pgl_buffer_data` stores: with `own`, a copy of the
/// first `size` bytes of `data` (nothing for no data or no size) that the
/// library owns; without, no bytes of its own and the user's ownership.
pub open spec fn spec_handed_buffer(b: GlBuffer, before: GlBuffer, size: GLsizeiptr, data: Option<Seq<u8>>, own: bool) -> bool {
    &&& b.data@ == (if own && data is Some && size > 0 {
        data.unwrap().subrange(0, size as int)
    } else {
        Seq::<u8>::empty()
    })
    &&& b.size == size as GLsizei
    &&& b.user_owned == !own
    &&& b.type_ == before.type_
    &&& b.deleted == before.deleted
}

/// How many modes `pgl_set_interp` copies for `n` outputs out of `given`
/// modes into a table of `table` modes.
pub open spec fn spec_interp_count(n: GLsizei, given: int, table: int) -> int {
    let c1: int = if n < 0 || n >= GL_MAX_VERTEX_OUTPUT_COMPONENTS { GL_MAX_VERTEX_OUTPUT_COMPONENTS as int } else { n as int };
    let c2: int = if c1 < given { c1 } else { given };
    if c2 < table { c2 } else { table }
}

/// `modes` with its first `count` entries taken from `given`.
pub open spec fn spec_with_modes(modes: Seq<GLenum>, given: Seq<GLenum>, count: int) -> Seq<GLenum> {
    Seq::new(modes.len(), |i: int| if i < count { given[i] } else { modes[i] })
}

/// Copy the first `count` modes of `given` into `modes`.
fn copy_modes(modes: &mut Vec<GLenum>, given: &[GLenum], count: usize)
    requires
        count <= old(modes)@.len(),
        count <= given@.len(),
    ensures
        final(modes)@ == spec_with_modes(old(modes)@, given@, count as int),
{
    let ghost m0 = modes@;
    let mut i: usize = 0;
    while i < count
        invariant
            0 <= i <= count,
            count <= m0.len(),
            count <= given@.len(),
            modes@.len() == m0.len(),
            forall|k: int| 0 <= k < m0.len() ==> #[trigger] modes@[k] == if k < i { given@[k] } else { m0[k] },
        decreases count - i,
    {
        modes.set(i, given[i]);
        i = i + 1;
    }
    assert(modes@ =~= spec_with_modes(m0, given@, count as int));
}

/// Put `p` in slot `i` of `table`.
fn replace_program(table: &mut Vec<GlProgram>, i: usize, p: GlProgram)
    requires
        i < old(table)@.len(),
    ensures
        final(table)@ == old(table)@.update(i as int, p),
{
    let _ = table.remove(i);
    table.insert(i, p);
}

/// The texture name that texture target `target` has bound, for the
/// extension entry points; 0 for a value that is no texture target.
pub open spec fn spec_ext_bound_texture(o: GlObjects, target: GLenum) -> int {
    match spec_texture_target_index(target) {
        Some(i) => if i < o.bound_textures@.len() {
            o.bound_textures@[i as int] as int
        } else {
            0
        },
        None => 0,
    }
}

fn ext_bound_texture(o: &GlObjects, target: GLenum) -> (r: usize)
    ensures
        r == spec_ext_bound_texture(*o, target),
{
    match texture_target_index(target) {
        Some(i) => if i < o.bound_textures.len() {
            o.bound_textures[i] as usize
        } else {
            0
        },
        None => 0,
    }
}

/// The texture that the `pgl_tex_image` entry points store: a `w` by `h`
/// by `d` RGBA image of `target` with the bytes `data`, owned by the user.
pub open spec fn spec_user_texture(t: GlTexture, before: GlTexture, target: GLenum, w: GLsizei, h: GLsizei, d: GLsizei, data: Seq<u8>) -> bool {
    &&& t.w == w && t.h == h && t.d == d
    &&& t.type_ == target
    &&& t.format == GL_RGBA
    &&& t.user_owned
    &&& t.data@ == data
    &&& t.mag_filter == before.mag_filter && t.min_filter == before.min_filter
    &&& t.wrap_s == before.wrap_s && t.wrap_t == before.wrap_t && t.wrap_r == before.wrap_r
    &&& t.deleted == before.deleted
    &&& t.border_color == before.border_color
}

/// The bytes of an image of `size` bytes made from `data`: its first
/// `size` bytes, or zeros without data.
pub open spec fn spec_image_bytes(data: Option<Seq<u8>>, size: int) -> Seq<u8> {
    match data {
        Some(s) => s.subrange(0, size),
        None => spec_zeros(size as nat),
    }
}

/// The view of an optional byte slice.
pub open spec fn spec_opt_bytes(data: Option<&[u8]>) -> Option<Seq<u8>> {
    match data {
        Some(d) => Some(d@),
        None => None,
    }
}

/// `buf` with pixel `(x, y)` of a `w` by `h` RGBA image (rows from the top,
/// 4 bytes per pixel) set to `c`; pixels outside the image, or whose bytes
/// run past the end of `buf`, leave it as it is.
pub open spec fn spec_put_pixel(buf: Seq<u8>, w: int, h: int, c: Color, x: int, y: int) -> Seq<u8> {
    if x < 0 || y < 0 || x >= w || y >= h {
        buf
    } else {
        let idx = (y * w + x) * 4;
        if idx + 3 < buf.len() {
            buf.update(idx, c.r).update(idx + 1, c.g).update(idx + 2, c.b).update(idx + 3, c.a)
        } else {
            buf
        }
    }
}

/// The byte offset of every pixel of a `w` by `h` image fits in an `i32`.
pub open spec fn spec_addressable(w: int, h: int) -> bool {
    w <= 0 || h <= 0 || (h * w - 1) * 4 <= i32::MAX
}

proof fn lemma_addressable(w: int, h: int, x: int, y: int)
    requires
        spec_addressable(w, h),
        0 <= x < w,
        0 <= y < h,
    ensures
        0 <= y * w + x,
        (y * w + x) * 4 <= i32::MAX,
{
    assert(0 <= y * w + x <= h * w - 1) by (nonlinear_arith)
        requires
            0 <= x < w,
            0 <= y < h,
    ;
}

/// The sign step from `a` towards `b`.
pub open spec fn spec_step(a: int, b: int) -> int {
    if a < b { 1 } else { -1 }
}

/// The distance between `a` and `b`.
pub open spec fn spec_dist(a: int, b: int) -> int {
    if a <= b { b - a } else { a - b }
}

/// `buf` after Bresenham's line is drawn from its current point `(x, y)`
/// to `(x2, y2)` with the slopes `dx` (at least 0) and `dy` (at most 0)
/// and the running error `err`: the current pixel is set; the walk ends at
/// the end point, or when a step would leave the end column or row; else
/// it steps in x when `2 * err >= dy` and in y when `2 * err <= dx`, both
/// tests on the error before the step.
pub open spec fn spec_line_from(buf: Seq<u8>, w: int, h: int, c: Color, x: int, y: int, x2: int, y2: int, dx: int, dy: int, err: int) -> Seq<u8>
    decreases spec_dist(x, x2) + spec_dist(y, y2),
{
    let b = spec_put_pixel(buf, w, h, c, x, y);
    let e2 = 2 * err;
    if x == x2 && y == y2 {
        b
    } else if e2 >= dy && x == x2 {
        b
    } else {
        let nx = if e2 >= dy { x + spec_step(x, x2) } else { x };
        let nerr = if e2 >= dy { err + dy } else { err };
        if e2 <= dx {
            if y == y2 {
                b
            } else {
                spec_line_from(b, w, h, c, nx, y + spec_step(y, y2), x2, y2, dx, dy, nerr + dx)
            }
        } else if e2 >= dy {
            spec_line_from(b, w, h, c, nx, y, x2, y2, dx, dy, nerr)
        } else {
            b
        }
    }
}

/// The line from `(x1, y1)` to `(x2, y2)` drawn into `buf`.
pub open spec fn spec_line(buf: Seq<u8>, w: int, h: int, c: Color, x1: int, y1: int, x2: int, y2: int) -> Seq<u8> {
    let dx = spec_dist(x1, x2);
    let dy = -spec_dist(y1, y2);
    spec_line_from(buf, w, h, c, x1, y1, x2, y2, dx, dy, dx + dy)
}

/// Set pixel `(x, y)` of the `w` by `h` image in `buf` to `c`.
fn put_pixel_in(buf: &mut Vec<u8>, w: i32, h: i32, c: Color, x: i32, y: i32)
    requires
        (0 <= x < w && 0 <= y < h) ==> (y * w + x) * 4 <= i32::MAX,
    ensures
        final(buf)@ == spec_put_pixel(old(buf)@, w as int, h as int, c, x as int, y as int),
{
    if x < 0 || y < 0 || x >= w || y >= h {
        return;
    }
    assert(0 <= y * w + x) by (nonlinear_arith)
        requires
            0 <= x,
            0 <= y,
            0 <= w,
    ;
    let idx = ((y * w + x) * 4) as usize;
    if idx + 3 < buf.len() {
        buf.set(idx, c.r);
        buf.set(idx + 1, c.g);
        buf.set(idx + 2, c.b);
        buf.set(idx + 3, c.a);
    }
}

impl GlContext {
    /// The effect of a `pgl_tex_image` entry point on this context, as
    /// `after`: without a texture of its own bound to `target` the error
    /// flag is set to `GL_INVALID_OPERATION`; otherwise that texture becomes
    /// the user's `w` by `h` by `d` RGBA image `bytes`.
    pub open spec fn spec_user_texture_outcome(self, after: GlContext, target: GLenum, w: GLsizei, h: GLsizei, d: GLsizei, bytes: Seq<u8>) -> bool {
        let i = spec_ext_bound_texture(self.objects, target);
        if i == 0 || i >= self.objects.textures@.len() {
            after == (GlContext { error: GL_INVALID_OPERATION, ..self })
        } else {
            &&& after.objects.textures@.len() == self.objects.textures@.len()
            &&& spec_user_texture(after.objects.textures@[i], self.objects.textures@[i], target, w, h, d, bytes)
            &&& forall|j: int| 0 <= j < self.objects.textures@.len() && j != i ==> #[trigger] after.objects.textures@[j]
                == self.objects.textures@[j]
            &&& after == (GlContext { objects: GlObjects { textures: after.objects.textures, ..self.objects }, ..self })
        }
    }

    /// Store the user's image in the texture bound to `target`.
    fn store_user_texture(&mut self, target: GLenum, w: GLsizei, h: GLsizei, d: GLsizei, data: Option<&[u8]>, size: usize)
        requires
            data matches Some(s) ==> size <= s@.len(),
        ensures
            old(self).spec_user_texture_outcome(*final(self), target, w, h, d, spec_image_bytes(spec_opt_bytes(data), size as int)),
    {
        let i = ext_bound_texture(&self.objects, target);
        if i == 0 || i >= self.objects.textures.len() {
            self.error = GL_INVALID_OPERATION;
            return;
        }
        let bytes = match data {
            Some(s) => copy_prefix(s, size),
            None => zeros(size),
        };
        let before = &self.objects.textures[i];
        let t = GlTexture {
            w,
            h,
            d,
            mag_filter: before.mag_filter,
            min_filter: before.min_filter,
            wrap_s: before.wrap_s,
            wrap_t: before.wrap_t,
            wrap_r: before.wrap_r,
            format: GL_RGBA,
            type_: target,
            deleted: before.deleted,
            user_owned: true,
            border_color: before.border_color,
            data: bytes,
        };
        replace_texture(&mut self.objects.textures, i, t);
    }

    /// Give the texture bound to `target` the user's 1D RGBA image of
    /// `width` texels: the first `width * 4` bytes of `data`, or zeros
    /// without data. Without a texture of its own bound there, the error
    /// flag is set to `GL_INVALID_OPERATION`.
    pub fn pgl_tex_image_1d(
        &mut self,
        target: GLenum,
        level: GLint,
        internalformat: GLint,
        width: GLsizei,
        border: GLint,
        format: GLenum,
        type_: GLenum,
        data: Option<&[u8]>,
    )
        requires
            0 <= width,
            width * 4 <= usize::MAX,
            data is Some ==> width * 4 <= data.unwrap()@.len(),
        ensures
            old(self).spec_user_texture_outcome(
                *final(self),
                target,
                width,
                1,
                1,
                spec_image_bytes(spec_opt_bytes(data), width * 4),
            ),
    {
        let size = (width as usize) * 4;
        self.store_user_texture(target, width, 1, 1, data, size);
    }

    /// Give the texture bound to `target` the user's 2D RGBA image of
    /// `width` by `height` texels, as `pgl_tex_image_1d` does.
    pub fn pgl_tex_image_2d(
        &mut self,
        target: GLenum,
        level: GLint,
        internalformat: GLint,
        width: GLsizei,
        height: GLsizei,
        border: GLint,
        format: GLenum,
        type_: GLenum,
        data: Option<&[u8]>,
    )
        requires
            0 <= width,
            0 <= height,
            width * height * 4 <= usize::MAX,
            data is Some ==> width * height * 4 <= data.unwrap()@.len(),
        ensures
            old(self).spec_user_texture_outcome(
                *final(self),
                target,
                width,
                height,
                1,
                spec_image_bytes(spec_opt_bytes(data), width * height * 4),
            ),
    {
        assert((width as usize) * (height as usize) * 4 == width * height * 4) by (nonlinear_arith)
            requires
                0 <= width,
                0 <= height,
        ;
        let size = (width as usize) * (height as usize) * 4;
        self.store_user_texture(target, width, height, 1, data, size);
    }

    /// Give the texture bound to `target` the user's 3D RGBA image of
    /// `width` by `height` by `depth` texels, as `pgl_tex_image_1d` does.
    pub fn pgl_tex_image_3d(
        &mut self,
        target: GLenum,
        level: GLint,
        internalformat: GLint,
        width: GLsizei,
        height: GLsizei,
        depth: GLsizei,
        border: GLint,
        format: GLenum,
        type_: GLenum,
        data: Option<&[u8]>,
    )
        requires
            0 <= width,
            0 <= height,
            0 <= depth,
            width * height <= usize::MAX,
            width * height * depth * 4 <= usize::MAX,
            data is Some ==> width * height * depth * 4 <= data.unwrap()@.len(),
        ensures
            old(self).spec_user_texture_outcome(
                *final(self),
                target,
                width,
                height,
                depth,
                spec_image_bytes(spec_opt_bytes(data), width * height * depth * 4),
            ),
    {
        assert(0 <= width * height && width * height * depth * 4 == (width * height) * depth * 4) by (nonlinear_arith)
            requires
                0 <= width,
                0 <= height,
        ;
        let wh = (width as usize) * (height as usize);
        assert(wh * (depth as usize) == width * height * depth && 0 <= width * height * depth <= width * height * depth * 4) by (nonlinear_arith)
            requires
                wh == width * height,
                0 <= width,
                0 <= height,
                0 <= depth,
        ;
        let size = wh * (depth as usize) * 4;
        self.store_user_texture(target, width, height, depth, data, size);
    }
}

impl GlContext {
    /// Set every byte of the back buffer to 0.
    pub fn pgl_clear_screen(&mut self)
        ensures
            final(self).back_buffer.buf@ == spec_zeros(old(self).back_buffer.buf@.len()),
            *final(self) == (GlContext {
                back_buffer: GlFramebuffer { buf: final(self).back_buffer.buf, ..old(self).back_buffer },
                ..*old(self)
            }),
    {
        zero_fill(&mut self.back_buffer.buf);
    }


    /// Set the output count of the current program, and take the
    /// interpolation modes of its first outputs from `interps` (as many as
    /// the count, the modes given and the program's table allow; a negative
    /// count allows all). The rasteriser's output count follows. Nothing
    /// changes when no program slot is current.
    pub fn pgl_set_interp(&mut self, num_attribs: GLsizei, interps: &[GLenum])
        ensures
            old(self).objects.cur_program >= old(self).objects.programs@.len() ==> *final(self) == *old(self),
            old(self).objects.cur_program < old(self).objects.programs@.len() ==> {
                let p = old(self).objects.cur_program as int;
                let prog = old(self).objects.programs@[p];
                &&& final(self).objects.programs@.len() == old(self).objects.programs@.len()
                &&& final(self).objects.programs@[p].vs_output_size == num_attribs
                &&& final(self).objects.programs@[p].interpolation@ == spec_with_modes(
                    prog.interpolation@,
                    interps@,
                    spec_interp_count(num_attribs, interps@.len() as int, prog.interpolation@.len() as int),
                )
                &&& final(self).objects.programs@[p].fragdepth_or_discard == prog.fragdepth_or_discard
                &&& final(self).objects.programs@[p].deleted == prog.deleted
                &&& forall|j: int| 0 <= j < old(self).objects.programs@.len() && j != p ==> #[trigger] final(self).objects.programs@[j]
                    == old(self).objects.programs@[j]
                &&& *final(self) == (GlContext {
                    objects: GlObjects { programs: final(self).objects.programs, ..old(self).objects },
                    vs_output_size: num_attribs,
                    ..*old(self)
                })
            },
    {
        let idx = self.objects.cur_program as usize;
        if idx >= self.objects.programs.len() {
            return;
        }
        let mut count: usize = if num_attribs < 0 || num_attribs as usize >= GL_MAX_VERTEX_OUTPUT_COMPONENTS {
            GL_MAX_VERTEX_OUTPUT_COMPONENTS
        } else {
            num_attribs as usize
        };
        if interps.len() < count {
            count = interps.len();
        }
        let prog = &self.objects.programs[idx];
        let mut modes = prog.interpolation.clone();
        assert(modes@ == prog.interpolation@);
        if modes.len() < count {
            count = modes.len();
        }
        copy_modes(&mut modes, interps, count);
        let p = GlProgram {
            vs_output_size: num_attribs,
            interpolation: modes,
            fragdepth_or_discard: prog.fragdepth_or_discard,
            deleted: prog.deleted,
        };
        replace_program(&mut self.objects.programs, idx, p);
        self.vs_output_size = num_attribs;
    }


    /// Set pixel `(x, y)` of the back buffer (rows counted from the top) to
    /// `color`; pixels outside it are skipped.
    pub fn put_pixel(&mut self, color: Color, x: i32, y: i32)
        requires
            (0 <= x < old(self).back_buffer.w && 0 <= y < old(self).back_buffer.h) ==> (y * old(self).back_buffer.w + x)
                * 4 <= i32::MAX,
        ensures
            final(self).back_buffer.buf@ == spec_put_pixel(
                old(self).back_buffer.buf@,
                old(self).back_buffer.w as int,
                old(self).back_buffer.h as int,
                color,
                x as int,
                y as int,
            ),
            *final(self) == (GlContext {
                back_buffer: GlFramebuffer { buf: final(self).back_buffer.buf, ..old(self).back_buffer },
                ..*old(self)
            }),
    {
        let w = self.back_buffer.w;
        let h = self.back_buffer.h;
        put_pixel_in(&mut self.back_buffer.buf, w, h, color, x, y);
    }

    /// Draw a one pixel wide line from `(x1, y1)` to `(x2, y2)` straight
    /// into the back buffer with Bresenham's algorithm.
    pub fn put_line(&mut self, color: Color, x1: i32, y1: i32, x2: i32, y2: i32)
        requires
            i32::MIN < x2 - x1 <= i32::MAX,
            i32::MIN < y2 - y1 <= i32::MAX,
            spec_addressable(old(self).back_buffer.w as int, old(self).back_buffer.h as int),
        ensures
            final(self).back_buffer.buf@ == spec_line(
                old(self).back_buffer.buf@,
                old(self).back_buffer.w as int,
                old(self).back_buffer.h as int,
                color,
                x1 as int,
                y1 as int,
                x2 as int,
                y2 as int,
            ),
            *final(self) == (GlContext {
                back_buffer: GlFramebuffer { buf: final(self).back_buffer.buf, ..old(self).back_buffer },
                ..*old(self)
            }),
    {
        let w = self.back_buffer.w;
        let h = self.back_buffer.h;
        let mut buf: Vec<u8> = Vec::new();
        std::mem::swap(&mut buf, &mut self.back_buffer.buf);
        let ghost start = buf@;
        let ddx: i64 = x2 as i64 - x1 as i64;
        let ddy: i64 = y2 as i64 - y1 as i64;
        let dx: i64 = if ddx < 0 { -ddx } else { ddx };
        let dy: i64 = if ddy < 0 { ddy } else { -ddy };
        let sx: i32 = if x1 < x2 { 1 } else { -1 };
        let sy: i32 = if y1 < y2 { 1 } else { -1 };
        let mut err: i64 = dx + dy;
        let mut x = x1;
        let mut y = y1;
        let ghost target = spec_line(start, w as int, h as int, color, x1 as int, y1 as int, x2 as int, y2 as int);
        loop
            invariant_except_break
                target == spec_line_from(buf@, w as int, h as int, color, x as int, y as int, x2 as int, y2 as int, dx as int, dy as int, err as int),
            invariant
                spec_addressable(w as int, h as int),
                dx == spec_dist(x1 as int, x2 as int),
                dy == -spec_dist(y1 as int, y2 as int),
                dx <= i32::MAX,
                -dy <= i32::MAX,
                2 * dy <= err <= 2 * dx,
                sx == spec_step(x1 as int, x2 as int),
                sy == spec_step(y1 as int, y2 as int),
                x1 < x2 ==> x1 <= x <= x2,
                x1 >= x2 ==> x2 <= x <= x1,
                y1 < y2 ==> y1 <= y <= y2,
                y1 >= y2 ==> y2 <= y <= y1,
            ensures
                buf@ == target,
            decreases spec_dist(x as int, x2 as int) + spec_dist(y as int, y2 as int),
        {
            let ghost before = buf@;
            let ghost ex = x as int;
            let ghost ey = y as int;
            let ghost eerr = err as int;
            proof {
                if 0 <= x < w && 0 <= y < h {
                    lemma_addressable(w as int, h as int, x as int, y as int);
                }
            }
            put_pixel_in(&mut buf, w, h, color, x, y);
            if x == x2 && y == y2 {
                break;
            }
            let e2: i64 = 2 * err;
            if e2 >= dy {
                if x == x2 {
                    break;
                }
                err = err + dy;
                x = x + sx;
            }
            if e2 <= dx {
                if y == y2 {
                    break;
                }
                err = err + dx;
                y = y + sy;
            }
            proof {
                assert(target == spec_line_from(before, w as int, h as int, color, ex, ey, x2 as int, y2 as int, dx as int, dy as int, eerr));
            }
        }
        self.back_buffer.buf = buf;
    }

    /// The back buffer.
    pub fn pgl_get_back_buffer(&self) -> (b: &GlFramebuffer)
        ensures
            *b == self.back_buffer,
    {
        &self.back_buffer
    }

    /// Set the border colour of the texture that `target` refers to (its
    /// bound texture, or its default texture while 0 is bound) to the first
    /// four entries of `params`, the IEEE-754 bits of red, green, blue and
    /// alpha; fewer than four leave it as it is. A value that is no texture
    /// target records `GL_INVALID_ENUM`.
    pub fn gl_tex_border_color(&mut self, target: GLenum, params: &[u32])
        requires
            old(self).objects.texture_bindings_ok(),
        ensures
            spec_texture_target_index(target) is None ==> *final(self) == old(self).with_error(GL_INVALID_ENUM),
            spec_texture_target_index(target) is Some && params@.len() < 4 ==> *final(self) == *old(self),
            spec_texture_target_index(target) is Some && params@.len() >= 4 ==> {
                let ti = spec_texture_target_index(target).unwrap() as int;
                let t = old(self).objects.spec_bound_texture(ti);
                &&& final(self).objects.spec_bound_texture(ti).border_color == [params@[0], params@[1], params@[2], params@[3]]
                &&& final(self).objects.spec_bound_texture(ti).data == t.data
                &&& old(self).objects.spec_texture_replaced(final(self).objects, ti, final(self).objects.spec_bound_texture(ti))
                &&& final(self).objects.spec_bound_texture(ti) == (GlTexture {
                    border_color: [params@[0], params@[1], params@[2], params@[3]],
                    data: final(self).objects.spec_bound_texture(ti).data,
                    ..t
                })
                &&& *final(self) == (GlContext { objects: final(self).objects, ..*old(self) })
            },
    {
        let ti = match texture_target_index(target) {
            None => {
                self.set_error(GL_INVALID_ENUM);
                return;
            },
            Some(ti) => ti,
        };
        if params.len() < 4 {
            return;
        }
        let ghost s0 = self.objects;
        let e = GlTexture::empty();
        let ghost eg = e;
        let mut t = self.objects.take_texture(ti, e);
        t.border_color = [params[0], params[1], params[2], params[3]];
        self.objects.put_texture(ti, t, Ghost(s0), Ghost(eg));
    }

    /// The back buffer, for changing it in place.
    pub fn pgl_get_back_buffer_mut(&mut self) -> (b: &mut GlFramebuffer)
        ensures
            *b == old(self).back_buffer,
            *final(self) == (GlContext { back_buffer: *final(b), ..*old(self) }),
    {
        &mut self.back_buffer
    }

    /// Make `buf`, `width` by `height` pixels, the back buffer; it belongs
    /// to the user from now on.
    pub fn pgl_set_back_buffer_vec(&mut self, width: GLsizei, height: GLsizei, buf: Vec<u8>)
        ensures
            *final(self) == (GlContext {
                back_buffer: GlFramebuffer { buf, w: width, h: height },
                user_alloced_backbuf: true,
                ..*old(self)
            }),
    {
        self.back_buffer = GlFramebuffer { buf, w: width, h: height };
        self.user_alloced_backbuf = true;
    }

    /// Make a `w` by `h` back buffer from the first `w * h * 4` bytes of
    /// `data` (zeros for no data or no pixels); with `own` the library owns
    /// it, without it the user does.
    pub fn pgl_set_back_buffer(&mut self, data: Option<&[u8]>, w: i32, h: i32, own: bool)
        requires
            0 <= w,
            0 <= h,
            w * h * 4 <= usize::MAX,
            (data matches Some(d) && w * h > 0) ==> w * h * 4 <= data.unwrap()@.len(),
        ensures
            final(self).back_buffer.buf@ == (match data {
                Some(d) if w * h > 0 => d@.subrange(0, w * h * 4),
                _ => spec_zeros((w * h * 4) as nat),
            }),
            *final(self) == (GlContext {
                back_buffer: GlFramebuffer { buf: final(self).back_buffer.buf, w, h },
                user_alloced_backbuf: !own,
                ..*old(self)
            }),
    {
        assert(0 <= w * h * 4) by (nonlinear_arith)
            requires
                0 <= w,
                0 <= h,
        ;
        let size = (w as usize) * (h as usize) * 4;
        assert(size == w * h * 4) by (nonlinear_arith)
            requires
                size == (w as usize) * (h as usize) * 4,
                0 <= w,
                0 <= h,
        ;
        let buf = match data {
            Some(d) => {
                if size > 0 {
                    copy_prefix(d, size)
                } else {
                    zeros(size)
                }
            },
            None => zeros(size),
        };
        self.back_buffer = GlFramebuffer { buf, w, h };
        self.user_alloced_backbuf = !own;
    }

    /// The data of buffer `buffer`, unless it is 0, past the end of the
    /// table or deleted.
    pub fn pgl_get_buffer_data_ref(&self, buffer: GLuint) -> (r: Option<&[u8]>)
        ensures
            (buffer == 0 || buffer >= self.objects.buffers@.len() || self.objects.buffers@[buffer as int].deleted)
                ==> r is None,
            !(buffer == 0 || buffer >= self.objects.buffers@.len() || self.objects.buffers@[buffer as int].deleted)
                ==> (r matches Some(s) && s@ == self.objects.buffers@[buffer as int].data@),
    {
        let idx = buffer as usize;
        if idx == 0 || idx >= self.objects.buffers.len() {
            return None;
        }
        if self.objects.buffers[idx].deleted {
            return None;
        }
        Some(self.objects.buffers[idx].data.as_slice())
    }

    /// The data of texture `texture`, unless it is 0, past the end of the
    /// table or deleted.
    pub fn pgl_get_texture_data_ref(&self, texture: GLuint) -> (r: Option<&[u8]>)
        ensures
            (texture == 0 || texture >= self.objects.textures@.len() || self.objects.textures@[texture as int].deleted)
                ==> r is None,
            !(texture == 0 || texture >= self.objects.textures@.len() || self.objects.textures@[texture as int].deleted)
                ==> (r matches Some(s) && s@ == self.objects.textures@[texture as int].data@),
    {
        let idx = texture as usize;
        if idx == 0 || idx >= self.objects.textures.len() {
            return None;
        }
        if self.objects.textures[idx].deleted {
            return None;
        }
        Some(self.objects.textures[idx].data.as_slice())
    }

    /// Give the buffer bound to `target` a copy of `data` of kind `usage`,
    /// marked as the user's. A value that is no buffer target sets the error
    /// flag to `GL_INVALID_ENUM`, a binding without a buffer to
    /// `GL_INVALID_OPERATION`; these overwrite any waiting error.
    pub fn pgl_buffer_data_slice(&mut self, target: GLenum, data: &[u8], usage: GLenum)
        ensures
            spec_ext_bound_buffer(old(self).objects, target) matches Err(e) ==> *final(self) == (GlContext {
                error: e,
                ..*old(self)
            }),
            spec_ext_bound_buffer(old(self).objects, target) matches Ok(i) ==> {
                &&& final(self).objects.buffers@.len() == old(self).objects.buffers@.len()
                &&& spec_user_buffer(final(self).objects.buffers@[i as int], old(self).objects.buffers@[i as int], data@, usage)
                &&& forall|j: int| 0 <= j < old(self).objects.buffers@.len() && j != i ==> #[trigger] final(self).objects.buffers@[j]
                    == old(self).objects.buffers@[j]
                &&& *final(self) == (GlContext {
                    objects: GlObjects { buffers: final(self).objects.buffers, ..old(self).objects },
                    ..*old(self)
                })
            },
    {
        match ext_bound_buffer(&self.objects, target) {
            Err(e) => {
                self.error = e;
            },
            Ok(i) => {
                let before = &self.objects.buffers[i];
                let b = GlBuffer {
                    size: data.len() as GLsizei,
                    type_: usage,
                    data: vstd::slice::slice_to_vec(data),
                    deleted: before.deleted,
                    user_owned: true,
                };
                replace_buffer(&mut self.objects.buffers, i, b);
            },
        }
    }

    /// Hand the buffer bound to `target` the user's data: with `own`, a copy
    /// of its first `size` bytes (`data` is `None` for no data); without,
    /// the buffer keeps no bytes of its own and is marked as the user's.
    /// Errors as for `pgl_buffer_data_slice`.
    pub fn pgl_buffer_data(&mut self, target: GLenum, size: GLsizeiptr, data: Option<&[u8]>, own: bool)
        requires
            own && size > 0 && data is Some ==> size <= data.unwrap()@.len(),
        ensures
            spec_ext_bound_buffer(old(self).objects, target) matches Err(e) ==> *final(self) == (GlContext {
                error: e,
                ..*old(self)
            }),
            spec_ext_bound_buffer(old(self).objects, target) matches Ok(i) ==> {
                &&& final(self).objects.buffers@.len() == old(self).objects.buffers@.len()
                &&& spec_handed_buffer(
                    final(self).objects.buffers@[i as int],
                    old(self).objects.buffers@[i as int],
                    size,
                    match data {
                        Some(d) => Some(d@),
                        None => None,
                    },
                    own,
                )
                &&& forall|j: int| 0 <= j < old(self).objects.buffers@.len() && j != i ==> #[trigger] final(self).objects.buffers@[j]
                    == old(self).objects.buffers@[j]
                &&& *final(self) == (GlContext {
                    objects: GlObjects { buffers: final(self).objects.buffers, ..old(self).objects },
                    ..*old(self)
                })
            },
    {
        match ext_bound_buffer(&self.objects, target) {
            Err(e) => {
                self.error = e;
            },
            Ok(i) => {
                let bytes = if own && size > 0 {
                    match data {
                        Some(d) => copy_prefix(d, size as usize),
                        None => Vec::new(),
                    }
                } else {
                    Vec::new()
                };
                let before = &self.objects.buffers[i];
                let b = GlBuffer {
                    size: size as GLsizei,
                    type_: before.type_,
                    data: bytes,
                    deleted: before.deleted,
                    user_owned: !own,
                };
                replace_buffer(&mut self.objects.buffers, i, b);
            },
        }
    }
}

} // verus!
