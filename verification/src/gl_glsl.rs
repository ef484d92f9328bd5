//! The integer side of texture sampling: coordinate wrapping, texture
//! lookup with its fallbacks, texel addressing and texture sizes.

use vstd::prelude::*;
use crate::gl_types::{GL_CLAMP_TO_BORDER, GL_CLAMP_TO_EDGE, GL_MIRRORED_REPEAT, GL_REPEAT, GL_TEXTURE_2D, GL_TEXTURE_UNBOUND, GLenum, GlTexture};
use crate::math::{IVec3};
use crate::gl_context::GlContext;
use crate::gl_internal::{spec_entry32, read_entry32};
use vstd::arithmetic::div_mod::{lemma_fundamental_div_mod, lemma_fundamental_div_mod_converse};

verus! {

/// Rust's remainder of `a` by `b`: the sign of `a`, the magnitude of
/// `|a| mod |b|`.
pub open spec fn spec_trem(a: int, b: int) -> int {
    if a >= 0 {
        a % b
    } else {
        -((-a) % b)
    }
}

/// The texel coordinate that `i` wraps to in a texture `size` texels wide:
/// in `[0, size)`, or -1 (the border) for clamp-to-border outside the texture.
/// For a size that is not positive, the repeating modes take the same steps
/// with Rust's remainder (see [`spec_wrap_steps`]).
pub open spec fn spec_wrap(i: int, size: int, mode: GLenum) -> int {
    if mode == GL_REPEAT {
        if size > 0 { i % size } else { spec_wrap_steps(i, size, mode).3 }
    } else if mode == GL_CLAMP_TO_BORDER {
        if i < 0 || i >= size { -1 } else { i }
    } else if mode == GL_MIRRORED_REPEAT {
        if size > 0 {
            let p = i % (2 * size);
            if p < size { p } else { 2 * size - 1 - p }
        } else {
            spec_wrap_steps(i, size, mode).3
        }
    } else if i < 0 {
        0
    } else if i > size - 1 {
        size - 1
    } else {
        i
    }
}

/// The intermediate values of the repeating modes, in order: the period
/// raised remainder, the folded value, its mirror, and the result. Repeat:
/// `t = (i rem size) + size`, result `t rem size`. Mirrored repeat, with
/// `s2 = 2 * size`: `t = (i rem s2) + s2`, `v1 = (t rem s2) - size`,
/// `v2 = v1` or `-(1 + v1)` when negative, result `size - 1 - v2`.
pub open spec fn spec_wrap_steps(i: int, size: int, mode: GLenum) -> (int, int, int, int) {
    if mode == GL_REPEAT {
        let t = spec_trem(i, size) + size;
        (t, 0, 0, spec_trem(t, size))
    } else {
        let s2 = 2 * size;
        let t = spec_trem(i, s2) + s2;
        let v1 = spec_trem(t, s2) - size;
        let v2 = if v1 >= 0 { v1 } else { -(1 + v1) };
        (t, v1, v2, size - 1 - v2)
    }
}

/// `x` fits in an `i32`.
pub open spec fn spec_fits_i32(x: int) -> bool {
    i32::MIN <= x <= i32::MAX
}

/// The inputs on which [`wrap`] computes without overflow or division by
/// zero: for the clamping modes a positive size; for the repeating modes a
/// non-zero size (and twice it fitting in an `i32` when mirrored) and
/// intermediate values that fit in an `i32`.
pub open spec fn spec_wrap_ok(i: i32, size: i32, mode: GLenum) -> bool {
    if mode == GL_CLAMP_TO_BORDER {
        true
    } else if mode == GL_REPEAT {
        &&& size != 0
        &&& !(i == i32::MIN && size == -1)
        &&& spec_fits_i32(spec_wrap_steps(i as int, size as int, mode).0)
    } else if mode == GL_MIRRORED_REPEAT {
        &&& size != 0
        &&& spec_fits_i32(2 * size)
        &&& spec_fits_i32(spec_wrap_steps(i as int, size as int, mode).0)
        &&& spec_fits_i32(spec_wrap_steps(i as int, size as int, mode).1)
        &&& spec_fits_i32(spec_wrap_steps(i as int, size as int, mode).3)
    } else {
        0 < size
    }
}

/// Wrap a texel coordinate `i` into `[0, size - 1]` according to `mode`.
pub fn wrap(i: i32, size: i32, mode: GLenum) -> (r: i32)
    requires
        spec_wrap_ok(i, size, mode),
    ensures
        r == spec_wrap(i as int, size as int, mode),
        size > 0 && mode != GL_CLAMP_TO_BORDER ==> 0 <= r < size,
        mode == GL_CLAMP_TO_BORDER ==> r == -1 || 0 <= r < size,
{
    match mode {
        GL_REPEAT => {
            let m = i % size;
            assert(m as int == if i >= 0 { i as int % size as int } else { -((-(i as int)) % size as int) });
            let t = m + size;
            let r = t % size;
            proof {
                if size > 0 {
                    lemma_trunc_rem(i as int, size as int);
                }
            }
            r
        },
        GL_CLAMP_TO_EDGE => clamp_i32(i, 0, size - 1),
        GL_CLAMP_TO_BORDER => {
            if i < 0 || i >= size {
                -1
            } else {
                i
            }
        },
        GL_MIRRORED_REPEAT => {
            let sz2 = 2 * size;
            let m = i % sz2;
            assert(m as int == if i >= 0 { i as int % sz2 as int } else { -((-(i as int)) % sz2 as int) });
            let t = m + sz2;
            let mut v = t % sz2;
            proof {
                if size > 0 {
                    lemma_trunc_rem(i as int, sz2 as int);
                }
            }
            v -= size;
            v = if v >= 0 {
                v
            } else {
                -(1 + v)
            };
            size - 1 - v
        },
        _ => clamp_i32(i, 0, size - 1),
    }
}

/// Rust's truncating remainder, made non-negative, is the Euclidean remainder.
proof fn lemma_trunc_rem(i: int, s: int)
    requires
        s > 0,
    ensures
        (if i >= 0 { i % s } else { -((-i) % s) } + s) % s == i % s,
{
    if i >= 0 {
        let r = i % s;
        lemma_fundamental_div_mod_converse(r + s, s, 1, r);
    } else {
        let q = (-i) / s;
        let r = (-i) % s;
        lemma_fundamental_div_mod(-i, s);
        assert(-i == q * s + r) by (nonlinear_arith)
            requires
                -i == s * q + r,
        ;
        if r == 0 {
            lemma_fundamental_div_mod_converse(s, s, 1, 0);
            assert(i == (-q) * s + 0) by (nonlinear_arith)
                requires
                    -i == q * s + r,
                    r == 0,
            ;
            lemma_fundamental_div_mod_converse(i, s, -q, 0);
        } else {
            lemma_fundamental_div_mod_converse(s - r, s, 0, s - r);
            assert(i == (-q - 1) * s + (s - r)) by (nonlinear_arith)
                requires
                    -i == q * s + r,
            ;
            lemma_fundamental_div_mod_converse(i, s, -q - 1, s - r);
        }
    }
}

/// `i` limited to `[lo, hi]`.
fn clamp_i32(i: i32, lo: i32, hi: i32) -> (r: i32)
    requires
        lo <= hi,
    ensures
        r == (if i < lo { lo } else if i > hi { hi } else { i }),
{
    if i < lo {
        lo
    } else if i > hi {
        hi
    } else {
        i
    }
}


// ---------------------------------------------------------------------------
// Texture lookup
// ---------------------------------------------------------------------------

/// Whether handle `tex` names an entry of the texture table (0 never does).
pub open spec fn spec_is_bound_handle(textures: Seq<GlTexture>, tex: u32) -> bool {
    tex != 0 && tex < textures.len()
}

/// The texture that handle `tex` samples for `target`: the named texture,
/// else the default texture of the target, else the first default texture.
pub open spec fn spec_get_texture(
    textures: Seq<GlTexture>,
    defaults: Seq<GlTexture>,
    tex: u32,
    target: GLenum,
) -> GlTexture {
    if spec_is_bound_handle(textures, tex) {
        textures[tex as int]
    } else if target - GL_TEXTURE_UNBOUND < defaults.len() {
        defaults[target - GL_TEXTURE_UNBOUND]
    } else {
        defaults[0]
    }
}

/// The texture for handle `tex`, falling back to the default texture of
/// `target` when `tex` names none.
pub fn get_texture<'a>(
    textures: &'a Vec<GlTexture>,
    defaults: &'a Vec<GlTexture>,
    tex: u32,
    target: GLenum,
) -> (t: &'a GlTexture)
    requires
        spec_is_bound_handle(textures@, tex) || (target >= GL_TEXTURE_UNBOUND && defaults@.len() > 0),
    ensures
        *t == spec_get_texture(textures@, defaults@, tex, target),
{
    if tex != 0 && (tex as usize) < textures.len() {
        &textures[tex as usize]
    } else {
        let idx = (target - GL_TEXTURE_UNBOUND) as usize;
        if idx < defaults.len() {
            &defaults[idx]
        } else {
            &defaults[0]
        }
    }
}

/// The dimensions reported for handle `tex`: those of the named texture,
/// else of the default 2D texture, else of the first default texture, and
/// all zero when there are no default textures.
pub open spec fn spec_texture_size(textures: Seq<GlTexture>, defaults: Seq<GlTexture>, tex: u32) -> IVec3 {
    if spec_is_bound_handle(textures, tex) || defaults.len() > 0 {
        let t = spec_get_texture(textures, defaults, tex, GL_TEXTURE_2D);
        IVec3 { x: t.w, y: t.h, z: t.d }
    } else {
        IVec3 { x: 0, y: 0, z: 0 }
    }
}

/// The dimensions `(w, h, d)` of a texture.
pub fn texture_size(textures: &Vec<GlTexture>, defaults: &Vec<GlTexture>, tex: u32, _lod: i32) -> (s: IVec3)
    ensures
        s == spec_texture_size(textures@, defaults@, tex),
{
    let t = if tex != 0 && (tex as usize) < textures.len() {
        &textures[tex as usize]
    } else {
        if defaults.len() > 0 {
            let idx = (GL_TEXTURE_2D - GL_TEXTURE_UNBOUND) as usize;
            if idx < defaults.len() {
                &defaults[idx]
            } else {
                &defaults[0]
            }
        } else {
            return IVec3::new(0, 0, 0);
        }
    };
    IVec3::new(t.w, t.h, t.d)
}

/// Number of whole 32-bit texels in a texture's data.
pub open spec fn spec_texel_count(t: GlTexture) -> int {
    (t.data@.len() / 4) as int
}

/// Texel `n` of a texture: its four bytes read as a little-endian pixel.
pub open spec fn spec_texel(t: GlTexture, n: int) -> u32 {
    spec_entry32(t.data@, n)
}

/// The texel that `texel_fetch1d` reads at `x`, or `None` for an empty
/// texture: `x` is clamped to the texture.
pub open spec fn spec_fetch1d(t: GlTexture, x: i32) -> Option<u32> {
    if spec_texel_count(t) == 0 || t.w <= 0 {
        None
    } else {
        Some(spec_texel(t, if x < 0 { 0 } else if x > t.w - 1 { t.w - 1 } else { x as int }))
    }
}

/// The packed texel at integer coordinate `x` of a 1D texture, clamped to
/// the texture; `None` when the texture is empty.
pub fn fetch_texel1d(t: &GlTexture, x: i32) -> (p: Option<u32>)
    requires
        t.w <= spec_texel_count(*t),
    ensures
        p == spec_fetch1d(*t, x),
{
    if t.data.len() / 4 == 0 || t.w <= 0 {
        return None;
    }
    let i = clamp_i32(x, 0, t.w - 1) as usize;
    Some(read_entry32(&t.data, i))
}

/// The texel that `texel_fetch2d` reads at `(x, y)`, or `None` for an
/// empty texture: both coordinates are clamped to the texture.
pub open spec fn spec_fetch2d(t: GlTexture, x: i32, y: i32) -> Option<u32> {
    if spec_texel_count(t) == 0 || t.w <= 0 || t.h <= 0 {
        None
    } else {
        let i = if x < 0 { 0 } else if x > t.w - 1 { t.w - 1 } else { x as int };
        let j = if y < 0 { 0 } else if y > t.h - 1 { t.h - 1 } else { y as int };
        Some(spec_texel(t, j * t.w + i))
    }
}

/// The packed texel at integer coordinates `(x, y)` of a 2D texture, each
/// clamped to the texture; `None` when the texture is empty.
pub fn fetch_texel2d(t: &GlTexture, x: i32, y: i32) -> (p: Option<u32>)
    requires
        t.w > 0 && t.h > 0 ==> t.w * t.h <= spec_texel_count(*t) && t.w * t.h <= i32::MAX,
    ensures
        p == spec_fetch2d(*t, x, y),
{
    if t.data.len() / 4 == 0 || t.w <= 0 || t.h <= 0 {
        return None;
    }
    let i = clamp_i32(x, 0, t.w - 1);
    let j = clamp_i32(y, 0, t.h - 1);
    assert(0 <= j * t.w + i < t.w * t.h) by (nonlinear_arith)
        requires
            0 <= i < t.w,
            0 <= j < t.h,
    ;
    Some(read_entry32(&t.data, (j * t.w + i) as usize))
}

/// The texel that `texel_fetch3d` reads at `(x, y, z)`, or `None` for an
/// empty texture: all coordinates are clamped to the texture.
pub open spec fn spec_fetch3d(t: GlTexture, x: i32, y: i32, z: i32) -> Option<u32> {
    if spec_texel_count(t) == 0 || t.w <= 0 || t.h <= 0 || t.d <= 0 {
        None
    } else {
        let i = if x < 0 { 0 } else if x > t.w - 1 { t.w - 1 } else { x as int };
        let j = if y < 0 { 0 } else if y > t.h - 1 { t.h - 1 } else { y as int };
        let k = if z < 0 { 0 } else if z > t.d - 1 { t.d - 1 } else { z as int };
        Some(spec_texel(t, k * (t.w * t.h) + j * t.w + i))
    }
}

/// The packed texel at integer coordinates `(x, y, z)` of a 3D texture,
/// each clamped to the texture; `None` when the texture is empty.
pub fn fetch_texel3d(t: &GlTexture, x: i32, y: i32, z: i32) -> (p: Option<u32>)
    requires
        t.w > 0 && t.h > 0 && t.d > 0 ==> t.w * t.h * t.d <= spec_texel_count(*t) && t.w * t.h * t.d <= i32::MAX,
    ensures
        p == spec_fetch3d(*t, x, y, z),
{
    if t.data.len() / 4 == 0 || t.w <= 0 || t.h <= 0 || t.d <= 0 {
        return None;
    }
    let i = clamp_i32(x, 0, t.w - 1);
    let j = clamp_i32(y, 0, t.h - 1);
    let k = clamp_i32(z, 0, t.d - 1);
    assert(0 <= k * (t.w * t.h) + j * t.w + i < t.w * t.h * t.d) by (nonlinear_arith)
        requires
            0 <= i < t.w,
            0 <= j < t.h,
            0 <= k < t.d,
    ;
    assert(t.w * t.h <= t.w * t.h * t.d) by (nonlinear_arith)
        requires
            0 < t.w,
            0 < t.h,
            0 < t.d,
    ;
    let plane = t.w * t.h;
    Some(read_entry32(&t.data, (k * plane + j * t.w + i) as usize))
}

impl GlContext {
    /// The dimensions reported for handle `tex` in this context, as the free
    /// function [`texture_size`] gives them for its texture tables.
    pub fn texture_size(&self, tex: u32, lod: i32) -> (s: IVec3)
        ensures
            s == spec_texture_size(self.objects.textures@, self.objects.default_textures@, tex),
    {
        texture_size(&self.objects.textures, &self.objects.default_textures, tex, lod)
    }
}

/// Wrapping in repeat mode has period `size`; mirrored repeat has period
/// `2 * size`; every mode but clamp-to-border stays inside the texture; and
/// every mode leaves a coordinate inside the texture as it is.
pub proof fn lemma_wrap_periodic(i: int, size: int)
    requires
        size > 0,
    ensures
        spec_wrap(i + size, size, GL_REPEAT) == spec_wrap(i, size, GL_REPEAT),
        spec_wrap(i + 2 * size, size, GL_MIRRORED_REPEAT) == spec_wrap(i, size, GL_MIRRORED_REPEAT),
        0 <= spec_wrap(i, size, GL_REPEAT) < size,
        0 <= spec_wrap(i, size, GL_MIRRORED_REPEAT) < size,
        0 <= spec_wrap(i, size, GL_CLAMP_TO_EDGE) < size,
        0 <= i < size ==> forall|mode: GLenum| #[trigger] spec_wrap(i, size, mode) == i,
{
    if 0 <= i < size {
        vstd::arithmetic::div_mod::lemma_small_mod(i as nat, size as nat);
        vstd::arithmetic::div_mod::lemma_small_mod(i as nat, (2 * size) as nat);
    }
    vstd::arithmetic::div_mod::lemma_mod_add_multiples_vanish(i, size);
    vstd::arithmetic::div_mod::lemma_mod_add_multiples_vanish(i, 2 * size);
}

} // verus!
