//! Object names: generating, binding and deleting vertex arrays, buffers,
//! textures and programs.
//!
//! Each table keeps slot 0 for the default object. A new name reuses the
//! lowest deleted slot above 0, and takes a new slot at the end of the
//! table only when there is none.

use vstd::prelude::*;
use crate::gl_context::{GlContext, GlObjects, GlProgram};
use crate::gl_impl::{buffer_target_index, spec_buffer_target_index, texture_target_index, spec_texture_target_index, NUM_BUF_TARGETS, NUM_TEX_TARGETS};
use crate::gl_types::{GL_ARRAY_BUFFER, GL_NUM_BUFFER_TYPES, GL_NO_ERROR, GL_MAX_VERTEX_OUTPUT_COMPONENTS, GL_NEAREST, GL_REPEAT, GL_RGBA, GL_TEXTURE_2D, GL_TEXTURE_MAG_FILTER, GL_TEXTURE_MIN_FILTER, GL_TEXTURE_UNBOUND, GL_TEXTURE_WRAP_R, GL_TEXTURE_WRAP_S, GL_TEXTURE_WRAP_T, GLint, GLsizeiptr, GL_MAX_VERTEX_ATTRIBS, GlVertexAttrib, PGL_SMOOTH, GL_ELEMENT_ARRAY_BUFFER, GL_FALSE, GL_INVALID_ENUM, GL_INVALID_OPERATION, GL_INVALID_VALUE, GL_TRUE, GLboolean, GLenum, GLsizei, GLuint, GlBuffer, GlTexture, GlVertexArray};

verus! {

/// The lowest index from `i` on whose flag is set, or the length of
/// `flags` when there is none.
pub open spec fn first_set_from(flags: Seq<bool>, i: int) -> int
    decreases flags.len() - i,
{
    if i >= flags.len() {
        flags.len() as int
    } else if flags[i] {
        i
    } else {
        first_set_from(flags, i + 1)
    }
}

/// The slot a new name takes in a table whose deleted slots are flagged in
/// `deleted`: the lowest deleted slot above 0, or a new slot at the end.
pub open spec fn first_free(deleted: Seq<bool>) -> int {
    first_set_from(deleted, 1)
}

/// The deletion flags after one name has been taken.
pub open spec fn after_alloc(deleted: Seq<bool>) -> Seq<bool> {
    let id = first_free(deleted);
    if id < deleted.len() {
        deleted.update(id, false)
    } else {
        deleted.push(false)
    }
}

/// The names that `n` successive allocations take.
pub open spec fn alloc_ids(deleted: Seq<bool>, n: nat) -> Seq<int>
    decreases n,
{
    if n == 0 {
        Seq::empty()
    } else {
        seq![first_free(deleted)] + alloc_ids(after_alloc(deleted), (n - 1) as nat)
    }
}

/// The deletion flags after `n` successive allocations.
pub open spec fn alloc_flags(deleted: Seq<bool>, n: nat) -> Seq<bool>
    decreases n,
{
    if n == 0 {
        deleted
    } else {
        alloc_flags(after_alloc(deleted), (n - 1) as nat)
    }
}

proof fn lemma_first_set_from(flags: Seq<bool>, i: int)
    requires
        0 <= i,
    ensures
        i <= first_set_from(flags, i) <= flags.len() || (i > flags.len() && first_set_from(flags, i)
            == flags.len()),
        first_set_from(flags, i) < flags.len() ==> flags[first_set_from(flags, i)],
        forall|j: int| i <= j < first_set_from(flags, i) ==> !flags[j],
    decreases flags.len() - i,
{
    if i < flags.len() && !flags[i] {
        lemma_first_set_from(flags, i + 1);
    }
}

/// A new name is never 0, and it is either a deleted slot or the first
/// slot past the end of the table.
pub proof fn lemma_first_free(deleted: Seq<bool>)
    requires
        deleted.len() >= 1,
    ensures
        1 <= first_free(deleted) <= deleted.len(),
        first_free(deleted) < deleted.len() ==> deleted[first_free(deleted)],
        forall|j: int| 1 <= j < first_free(deleted) ==> !deleted[j],
{
    lemma_first_set_from(deleted, 1);
}

/// What `n` allocations in a table with deletion flags `deleted` (slot 0
/// present) give: every name is above 0, names past the old end of the
/// table are new slots, every name is live afterwards, and no name is
/// given twice.
pub proof fn lemma_alloc_ids(deleted: Seq<bool>, n: nat)
    requires
        deleted.len() >= 1,
    ensures
        alloc_ids(deleted, n).len() == n,
        alloc_flags(deleted, n).len() >= deleted.len(),
        forall|k: int| 0 <= k < n ==> {
            let id = #[trigger] alloc_ids(deleted, n)[k];
            &&& 1 <= id < alloc_flags(deleted, n).len()
            &&& !alloc_flags(deleted, n)[id]
            &&& id < deleted.len() ==> deleted[id]
        },
        forall|k1: int, k2: int| 0 <= k1 < k2 < n ==> #[trigger] alloc_ids(deleted, n)[k1] != #[trigger] alloc_ids(deleted, n)[k2],
        forall|i: int| 0 <= i < deleted.len() && !deleted[i] ==> !#[trigger] alloc_flags(deleted, n)[i],
    decreases n,
{
    if n > 0 {
        let id = first_free(deleted);
        let next = after_alloc(deleted);
        lemma_first_free(deleted);
        lemma_alloc_ids(next, (n - 1) as nat);
        let rest = alloc_ids(next, (n - 1) as nat);
        assert(alloc_ids(deleted, n) == seq![id] + rest);
        assert(alloc_flags(deleted, n) == alloc_flags(next, (n - 1) as nat));
        assert(!next[id]);
        assert forall|k: int| 0 <= k < n implies {
            let x = #[trigger] alloc_ids(deleted, n)[k];
            &&& 1 <= x < alloc_flags(deleted, n).len()
            &&& !alloc_flags(deleted, n)[x]
            &&& x < deleted.len() ==> deleted[x]
        } by {
            if k > 0 {
                assert(alloc_ids(deleted, n)[k] == rest[k - 1]);
                let x = rest[k - 1];
                if x < deleted.len() {
                    assert(next[x]);
                    assert(x != id);
                }
            }
        }
        assert forall|k1: int, k2: int| 0 <= k1 < k2 < n implies #[trigger] alloc_ids(deleted, n)[k1]
            != #[trigger] alloc_ids(deleted, n)[k2] by {
            assert(alloc_ids(deleted, n)[k2] == rest[k2 - 1]);
            if k1 == 0 {
                let x = rest[k2 - 1];
                assert(!next[id]);
                assert(next[x] || x >= next.len());
            } else {
                assert(alloc_ids(deleted, n)[k1] == rest[k1 - 1]);
            }
        }
        assert forall|i: int| 0 <= i < deleted.len() && !deleted[i] implies !#[trigger] alloc_flags(deleted, n)[i] by {
            assert(!next[i]);
        }
    }
}

/// An object kept in a table of named slots.
pub trait TableSlot: Sized {
    /// Whether the slot has been deleted and may be reused.
    spec fn spec_deleted(&self) -> bool;

    /// Whether the object is the one that a newly generated name gets.
    spec fn spec_new(&self) -> bool;

    /// Whether `self` is `before` after a deletion.
    spec fn spec_deletion_of(&self, before: Self) -> bool;

    fn is_deleted(&self) -> (b: bool)
        ensures
            b == self.spec_deleted(),
    ;

    fn new_slot() -> (s: Self)
        ensures
            s.spec_new(),
            !s.spec_deleted(),
    ;

    fn mark_deleted(&mut self)
        ensures
            final(self).spec_deletion_of(*old(self)),
            final(self).spec_deleted(),
    ;

    /// Deleting twice is deleting once.
    proof fn lemma_deletion_twice(a: Self, b: Self, c: Self)
        requires
            b.spec_deletion_of(a),
            c.spec_deletion_of(b),
        ensures
            c.spec_deletion_of(a),
    ;
}

impl TableSlot for GlVertexArray {
    proof fn lemma_deletion_twice(a: Self, b: Self, c: Self) {
    }

    open spec fn spec_deleted(&self) -> bool {
        self.deleted
    }

    open spec fn spec_new(&self) -> bool {
        self.spec_fresh()
    }

    open spec fn spec_deletion_of(&self, before: Self) -> bool {
        *self == (GlVertexArray { deleted: true, ..before })
    }

    fn is_deleted(&self) -> (b: bool) {
        self.deleted
    }

    fn new_slot() -> (s: Self) {
        GlVertexArray::empty()
    }

    fn mark_deleted(&mut self) {
        self.deleted = true;
    }
}

impl TableSlot for GlBuffer {
    proof fn lemma_deletion_twice(a: Self, b: Self, c: Self) {
    }

    open spec fn spec_deleted(&self) -> bool {
        self.deleted
    }

    open spec fn spec_new(&self) -> bool {
        self.spec_fresh()
    }

    open spec fn spec_deletion_of(&self, before: Self) -> bool {
        &&& self.deleted
        &&& self.data@.len() == 0
        &&& self.size == before.size
        &&& self.type_ == before.type_
        &&& self.user_owned == before.user_owned
    }

    fn is_deleted(&self) -> (b: bool) {
        self.deleted
    }

    fn new_slot() -> (s: Self) {
        GlBuffer::empty()
    }

    fn mark_deleted(&mut self) {
        self.deleted = true;
        self.data = Vec::new();
    }
}

impl TableSlot for GlTexture {
    proof fn lemma_deletion_twice(a: Self, b: Self, c: Self) {
    }

    open spec fn spec_deleted(&self) -> bool {
        self.deleted
    }

    open spec fn spec_new(&self) -> bool {
        self.spec_fresh()
    }

    open spec fn spec_deletion_of(&self, before: Self) -> bool {
        &&& self.deleted
        &&& self.data@.len() == 0
        &&& self.w == before.w && self.h == before.h && self.d == before.d
        &&& self.mag_filter == before.mag_filter && self.min_filter == before.min_filter
        &&& self.wrap_s == before.wrap_s && self.wrap_t == before.wrap_t && self.wrap_r == before.wrap_r
        &&& self.format == before.format && self.type_ == before.type_
        &&& self.user_owned == before.user_owned && self.border_color == before.border_color
    }

    fn is_deleted(&self) -> (b: bool) {
        self.deleted
    }

    fn new_slot() -> (s: Self) {
        GlTexture::empty()
    }

    fn mark_deleted(&mut self) {
        self.deleted = true;
        self.data = Vec::new();
    }
}

impl TableSlot for GlProgram {
    proof fn lemma_deletion_twice(a: Self, b: Self, c: Self) {
    }

    open spec fn spec_deleted(&self) -> bool {
        self.deleted
    }

    open spec fn spec_new(&self) -> bool {
        self.spec_standard()
    }

    open spec fn spec_deletion_of(&self, before: Self) -> bool {
        *self == (GlProgram { deleted: true, ..before })
    }

    fn is_deleted(&self) -> (b: bool) {
        self.deleted
    }

    fn new_slot() -> (s: Self) {
        GlProgram::standard()
    }

    fn mark_deleted(&mut self) {
        self.deleted = true;
    }
}

/// The deletion flags of a table.
pub open spec fn slot_flags<T: TableSlot>(t: Seq<T>) -> Seq<bool> {
    t.map_values(|x: T| x.spec_deleted())
}

/// The slot that the next name of `table` takes.
pub fn free_slot<T: TableSlot>(table: &Vec<T>) -> (r: usize)
    requires
        1 <= table@.len(),
    ensures
        r == first_free(slot_flags(table@)),
{
    let ghost flags = slot_flags(table@);
    let mut i: usize = 1;
    while i < table.len()
        invariant
            1 <= i <= table@.len(),
            flags == slot_flags(table@),
            first_set_from(flags, 1) == first_set_from(flags, i as int),
        decreases table@.len() - i,
    {
        if table[i].is_deleted() {
            return i;
        }
        i = i + 1;
    }
    i
}

/// The names as integers.
pub open spec fn id_ints(ids: Seq<GLuint>) -> Seq<int> {
    ids.map_values(|x: GLuint| x as int)
}

/// Generate `n` names in `table`. Each takes the slot that a single
/// allocation would take after the ones before it and holds a new object
/// there; every other slot is left alone.
pub fn gen_slots<T: TableSlot>(table: &mut Vec<T>, n: GLsizei) -> (ids: Vec<GLuint>)
    requires
        0 <= n,
        1 <= old(table)@.len(),
        old(table)@.len() + n <= u32::MAX,
    ensures
        id_ints(ids@) == alloc_ids(slot_flags(old(table)@), n as nat),
        slot_flags(final(table)@) == alloc_flags(slot_flags(old(table)@), n as nat),
        forall|i: int| 0 <= i < final(table)@.len() ==>
            if id_ints(ids@).contains(i) {
                (#[trigger] final(table)@[i]).spec_new()
            } else {
                final(table)@[i] == old(table)@[i]
            },
{
    let ghost flags0 = slot_flags(table@);
    let mut ids: Vec<GLuint> = Vec::new();
    let mut k: i32 = 0;
    while k < n
        invariant
            0 <= k <= n,
            ids@.len() == k,
            1 <= table@.len() <= old(table)@.len() + k,
            old(table)@.len() + n <= u32::MAX,
            alloc_ids(flags0, n as nat) == id_ints(ids@) + alloc_ids(slot_flags(table@), (n - k) as nat),
            alloc_flags(flags0, n as nat) == alloc_flags(slot_flags(table@), (n - k) as nat),
            forall|i: int| 0 <= i < table@.len() ==>
                if id_ints(ids@).contains(i) {
                    (#[trigger] table@[i]).spec_new()
                } else {
                    table@[i] == old(table)@[i]
                },
            forall|i: int| old(table)@.len() <= i < table@.len() ==> id_ints(ids@).contains(i),
        decreases n - k,
    {
        let ghost before = slot_flags(table@);
        let ghost prev_ids = id_ints(ids@);
        let ghost prev_table = table@;
        proof {
            lemma_first_free(before);
        }
        let slot = free_slot(table);
        if slot < table.len() {
            table.set(slot, T::new_slot());
        } else {
            table.push(T::new_slot());
        }
        proof {
            assert(slot_flags(table@) =~= after_alloc(before));
        }
        ids.push(slot as GLuint);
        proof {
            assert(id_ints(ids@) =~= prev_ids.push(slot as int));
            assert(alloc_ids(before, (n - k) as nat) =~= seq![slot as int] + alloc_ids(
                after_alloc(before),
                (n - k - 1) as nat,
            ));
            assert(prev_ids + alloc_ids(before, (n - k) as nat) =~= prev_ids.push(slot as int) + alloc_ids(
                after_alloc(before),
                (n - k - 1) as nat,
            ));
            assert forall|i: int| 0 <= i < table@.len() implies if id_ints(ids@).contains(i) {
                (#[trigger] table@[i]).spec_new()
            } else {
                table@[i] == old(table)@[i]
            } by {
                if i == slot {
                    assert(id_ints(ids@)[k as int] == i);
                } else {
                    assert(table@[i] == prev_table[i]);
                    if prev_ids.contains(i) {
                        let j = choose|j: int| 0 <= j < prev_ids.len() && prev_ids[j] == i;
                        assert(id_ints(ids@)[j] == i);
                    }
                    if id_ints(ids@).contains(i) {
                        let j = choose|j: int| 0 <= j < id_ints(ids@).len() && id_ints(ids@)[j] == i;
                        assert(j != k);
                        assert(prev_ids[j] == i);
                    }
                }
            }
            assert forall|i: int| old(table)@.len() <= i < table@.len() implies id_ints(ids@).contains(i) by {
                if i == slot {
                    assert(id_ints(ids@)[k as int] == i);
                } else {
                    assert(i < prev_table.len());
                    assert(prev_ids.contains(i));
                    let j = choose|j: int| 0 <= j < prev_ids.len() && prev_ids[j] == i;
                    assert(id_ints(ids@)[j] == i);
                }
            }
        }
        k = k + 1;
    }
    proof {
        assert(alloc_ids(slot_flags(table@), 0) =~= Seq::<int>::empty());
        assert(alloc_ids(flags0, n as nat) =~= id_ints(ids@));
    }
    ids
}

/// Delete the named slots of `table`, skipping 0 and names past its end,
/// and reset every binding in `bound` that names a deleted slot to 0.
pub fn delete_slots<T: TableSlot>(table: &mut Vec<T>, bound: &mut Vec<GLuint>, names: &[GLuint])
    ensures
        final(table)@.len() == old(table)@.len(),
        forall|i: int| 0 <= i < old(table)@.len() ==>
            if i != 0 && id_ints(names@).contains(i) {
                (#[trigger] final(table)@[i]).spec_deletion_of(old(table)@[i]) && final(table)@[i].spec_deleted()
            } else {
                final(table)@[i] == old(table)@[i]
            },
        final(bound)@.len() == old(bound)@.len(),
        forall|t: int| 0 <= t < old(bound)@.len() ==>
            #[trigger] final(bound)@[t] == (if old(bound)@[t] != 0 && old(bound)@[t] < old(table)@.len()
                && names@.contains(old(bound)@[t]) {
                0
            } else {
                old(bound)@[t]
            }),
{
    let mut k: usize = 0;
    while k < names.len()
        invariant
            0 <= k <= names@.len(),
            table@.len() == old(table)@.len(),
            bound@.len() == old(bound)@.len(),
            forall|i: int| 0 <= i < old(table)@.len() ==>
                if i != 0 && id_ints(names@.subrange(0, k as int)).contains(i) {
                    (#[trigger] table@[i]).spec_deletion_of(old(table)@[i]) && table@[i].spec_deleted()
                } else {
                    table@[i] == old(table)@[i]
                },
            forall|t: int| 0 <= t < old(bound)@.len() ==>
                #[trigger] bound@[t] == (if old(bound)@[t] != 0 && old(bound)@[t] < old(table)@.len()
                    && names@.subrange(0, k as int).contains(old(bound)@[t]) {
                    0
                } else {
                    old(bound)@[t]
                }),
        decreases names@.len() - k,
    {
        let id = names[k];
        let idx = id as usize;
        let ghost prev = names@.subrange(0, k as int);
        let ghost t_start = table@;
        let ghost b_start = bound@;
        proof {
            assert(names@.subrange(0, k + 1) =~= prev.push(id));
            assert(id_ints(names@.subrange(0, k + 1)) =~= id_ints(prev).push(id as int));
        }
        if idx < table.len() && idx != 0 {
            let mut item = table.remove(idx);
            item.mark_deleted();
            table.insert(idx, item);
            let mut t: usize = 0;
            while t < bound.len()
                invariant
                    0 <= t <= bound@.len(),
                    bound@.len() == b_start.len(),
                    forall|u: int| 0 <= u < t ==> #[trigger] bound@[u] == (if b_start[u] == id { 0 } else { b_start[u] }),
                    forall|u: int| t <= u < bound@.len() ==> #[trigger] bound@[u] == b_start[u],
                decreases bound@.len() - t,
            {
                if bound[t] == id {
                    bound.set(t, 0);
                }
                t = t + 1;
            }
        }
        proof {
            let next = names@.subrange(0, k + 1);
            assert forall|i: int| 0 <= i < old(table)@.len() implies if i != 0 && id_ints(next).contains(i) {
                (#[trigger] table@[i]).spec_deletion_of(old(table)@[i]) && table@[i].spec_deleted()
            } else {
                table@[i] == old(table)@[i]
            } by {
                if i == idx && idx != 0 && idx < t_start.len() {
                    assert(id_ints(next)[k as int] == i);
                    if id_ints(prev).contains(i) {
                        T::lemma_deletion_twice(old(table)@[i], t_start[i], table@[i]);
                    }
                } else {
                    assert(table@[i] == t_start[i]);
                    if id_ints(prev).contains(i) {
                        let j = choose|j: int| 0 <= j < id_ints(prev).len() && id_ints(prev)[j] == i;
                        assert(id_ints(next)[j] == i);
                    }
                    if id_ints(next).contains(i) {
                        let j = choose|j: int| 0 <= j < id_ints(next).len() && id_ints(next)[j] == i;
                        if j < k {
                            assert(id_ints(prev)[j] == i);
                        }
                    }
                }
            }
            assert forall|t: int| 0 <= t < old(bound)@.len() implies #[trigger] bound@[t] == (if old(bound)@[t] != 0
                && old(bound)@[t] < old(table)@.len() && next.contains(old(bound)@[t]) {
                0
            } else {
                old(bound)@[t]
            }) by {
                let v = old(bound)@[t];
                if prev.contains(v) {
                    let j = choose|j: int| 0 <= j < prev.len() && prev[j] == v;
                    assert(next[j] == v);
                }
                if next.contains(v) && !prev.contains(v) {
                    let j = choose|j: int| 0 <= j < next.len() && next[j] == v;
                    if j < k {
                        assert(prev[j] == v);
                    }
                    assert(v == id);
                }
                if v == id {
                    assert(next[k as int] == v);
                }
            }
        }
        k = k + 1;
    }
    proof {
        assert(names@.subrange(0, names@.len() as int) =~= names@);
    }
}

/// is otherwise `before`.
pub open spec fn spec_buffer_stored(b: GlBuffer, before: GlBuffer, data: Seq<u8>, usage: GLenum) -> bool {
    &&& b.size == data.len() as GLsizei
    &&& b.type_ == usage
    &&& b.data@ == data
    &&& !b.user_owned
    &&& b.deleted == before.deleted
}

/// `b` is `before` with `data` written at byte `off`.
pub open spec fn spec_buffer_patched(b: GlBuffer, before: GlBuffer, off: int, data: Seq<u8>) -> bool {
    &&& b.data@ == before.data@.subrange(0, off) + data + before.data@.subrange(off + data.len(), before.data@.len() as int)
    &&& b.size == before.size
    &&& b.type_ == before.type_
    &&& b.deleted == before.deleted
    &&& b.user_owned == before.user_owned
}

/// Make `buffer` the element buffer of vertex array `va`.
fn set_element_buffer(table: &mut Vec<GlVertexArray>, va: usize, buffer: GLuint)
    requires
        va < old(table)@.len(),
    ensures
        final(table)@ == old(table)@.update(va as int, GlVertexArray { element_buffer: buffer, ..old(table)@[va as int] }),
{
    let mut v = table[va];
    v.element_buffer = buffer;
    table.set(va, v);
}

/// Replace the contents of buffer `idx` of `table`.
fn store_buffer(table: &mut Vec<GlBuffer>, idx: usize, data: &[u8], usage: GLenum)
    requires
        idx < old(table)@.len(),
    ensures
        final(table)@.len() == old(table)@.len(),
        spec_buffer_stored(final(table)@[idx as int], old(table)@[idx as int], data@, usage),
        forall|i: int| 0 <= i < old(table)@.len() && i != idx ==> #[trigger] final(table)@[i] == old(table)@[i],
{
    let mut b = table.remove(idx);
    b.size = data.len() as GLsizei;
    b.type_ = usage;
    b.data = vstd::slice::slice_to_vec(data);
    b.user_owned = false;
    table.insert(idx, b);
}

/// Write `data` at byte `off` of buffer `idx` of `table`.
fn patch_buffer(table: &mut Vec<GlBuffer>, idx: usize, off: usize, data: &[u8])
    requires
        idx < old(table)@.len(),
        off + data@.len() <= old(table)@[idx as int].data@.len(),
    ensures
        final(table)@.len() == old(table)@.len(),
        spec_buffer_patched(final(table)@[idx as int], old(table)@[idx as int], off as int, data@),
        forall|i: int| 0 <= i < old(table)@.len() && i != idx ==> #[trigger] final(table)@[i] == old(table)@[i],
{
    let b = table.remove(idx);
    let GlBuffer { size, type_, data: mut bytes, deleted, user_owned } = b;
    let ghost before = bytes@;
    let blen = bytes.len();
    let mut j: usize = 0;
    while j < data.len()
        invariant
            0 <= j <= data@.len(),
            before.len() == blen,
            off + data@.len() <= before.len(),
            bytes@.len() == before.len(),
            forall|x: int| 0 <= x < off ==> #[trigger] bytes@[x] == before[x],
            forall|x: int| off <= x < off + j ==> #[trigger] bytes@[x] == data@[x - off],
            forall|x: int| off + j <= x < before.len() ==> #[trigger] bytes@[x] == before[x],
        decreases data@.len() - j,
    {
        bytes.set(off + j, data[j]);
        j = j + 1;
    }
    assert(bytes@ =~= before.subrange(0, off as int) + data@ + before.subrange(off + data@.len(), before.len() as int));
    table.insert(idx, GlBuffer { size, type_, data: bytes, deleted, user_owned });
}

/// but for its target.
pub open spec fn spec_texture_for(t: GlTexture, target: GLenum) -> bool {
    &&& t.w == 0 && t.h == 0 && t.d == 0
    &&& t.mag_filter == GL_NEAREST && t.min_filter == GL_NEAREST
    &&& t.wrap_s == GL_REPEAT && t.wrap_t == GL_REPEAT && t.wrap_r == GL_REPEAT
    &&& t.format == GL_RGBA
    &&& t.type_ == target
    &&& !t.deleted && !t.user_owned
    &&& t.border_color == [0u32, 0u32, 0u32, 0u32]
    &&& t.data@.len() == 0
}

/// The texture `t` with texture parameter `pname` set to `p`, for the
/// filter and wrap parameters.
pub open spec fn spec_tex_param(t: GlTexture, pname: GLenum, p: GLenum) -> GlTexture {
    if pname == GL_TEXTURE_MIN_FILTER {
        GlTexture { min_filter: p, ..t }
    } else if pname == GL_TEXTURE_MAG_FILTER {
        GlTexture { mag_filter: p, ..t }
    } else if pname == GL_TEXTURE_WRAP_S {
        GlTexture { wrap_s: p, ..t }
    } else if pname == GL_TEXTURE_WRAP_T {
        GlTexture { wrap_t: p, ..t }
    } else {
        GlTexture { wrap_r: p, ..t }
    }
}

/// The parameters that `gl_tex_parameteri` sets.
pub open spec fn spec_is_tex_param(pname: GLenum) -> bool {
    pname == GL_TEXTURE_MIN_FILTER || pname == GL_TEXTURE_MAG_FILTER || pname == GL_TEXTURE_WRAP_S
        || pname == GL_TEXTURE_WRAP_T || pname == GL_TEXTURE_WRAP_R
}

fn set_tex_param(t: &mut GlTexture, pname: GLenum, p: GLenum)
    requires
        spec_is_tex_param(pname),
    ensures
        *final(t) == spec_tex_param(*old(t), pname, p),
{
    if pname == GL_TEXTURE_MIN_FILTER {
        t.min_filter = p;
    } else if pname == GL_TEXTURE_MAG_FILTER {
        t.mag_filter = p;
    } else if pname == GL_TEXTURE_WRAP_S {
        t.wrap_s = p;
    } else if pname == GL_TEXTURE_WRAP_T {
        t.wrap_t = p;
    } else {
        t.wrap_r = p;
    }
}

/// Give texture `i` of `table` the target `target`.
fn retype_in_table(table: &mut Vec<GlTexture>, i: usize, target: GLenum)
    requires
        i < old(table)@.len(),
    ensures
        final(table)@ == old(table)@.update(i as int, GlTexture { type_: target, ..old(table)@[i as int] }),
{
    let mut t = table.remove(i);
    t.type_ = target;
    table.insert(i, t);
}

/// Put `t` into slot `i` of `table`, returning what was there.
fn swap_texture(table: &mut Vec<GlTexture>, i: usize, t: GlTexture) -> (prev: GlTexture)
    requires
        i < old(table)@.len(),
    ensures
        prev == old(table)@[i as int],
        final(table)@ == old(table)@.update(i as int, t),
{
    let prev = table.remove(i);
    table.insert(i, t);
    prev
}

/// The program that `pgl_create_program(n, interpolation, fragdepth_or_discard)`
/// stores: each of the first `n` outputs (all of them when `n` is negative)
/// takes its mode from `interpolation` where that has one, and smooth
/// interpolation otherwise.
pub open spec fn spec_new_program(p: GlProgram, n: GLsizei, interpolation: Seq<GLenum>, fragdepth_or_discard: bool) -> bool {
    let count: int = if n < 0 || n >= GL_MAX_VERTEX_OUTPUT_COMPONENTS { GL_MAX_VERTEX_OUTPUT_COMPONENTS as int } else { n as int };
    &&& p.vs_output_size == n
    &&& p.fragdepth_or_discard == fragdepth_or_discard
    &&& !p.deleted
    &&& p.interpolation@.len() == GL_MAX_VERTEX_OUTPUT_COMPONENTS
    &&& forall|i: int| 0 <= i < GL_MAX_VERTEX_OUTPUT_COMPONENTS ==> #[trigger] p.interpolation@[i] == (if i < count
        && i < interpolation.len() {
        interpolation[i]
    } else {
        PGL_SMOOTH
    })
}

fn make_program(n: GLsizei, interpolation: &[GLenum], fragdepth_or_discard: bool) -> (p: GlProgram)
    ensures
        spec_new_program(p, n, interpolation@, fragdepth_or_discard),
{
    let count: usize = if n < 0 || n as usize >= GL_MAX_VERTEX_OUTPUT_COMPONENTS {
        GL_MAX_VERTEX_OUTPUT_COMPONENTS
    } else {
        n as usize
    };
    let mut modes: Vec<GLenum> = Vec::new();
    let mut i: usize = 0;
    while i < GL_MAX_VERTEX_OUTPUT_COMPONENTS
        invariant
            0 <= i <= GL_MAX_VERTEX_OUTPUT_COMPONENTS,
            count == (if n < 0 || n >= GL_MAX_VERTEX_OUTPUT_COMPONENTS { GL_MAX_VERTEX_OUTPUT_COMPONENTS as int } else { n as int }),
            modes@.len() == i,
            forall|j: int| 0 <= j < i ==> #[trigger] modes@[j] == (if j < count && j < interpolation@.len() {
                interpolation@[j]
            } else {
                PGL_SMOOTH
            }),
        decreases GL_MAX_VERTEX_OUTPUT_COMPONENTS - i,
    {
        if i < count && i < interpolation.len() {
            modes.push(interpolation[i]);
        } else {
            modes.push(PGL_SMOOTH);
        }
        i = i + 1;
    }
    GlProgram { vs_output_size: n, interpolation: modes, fragdepth_or_discard, deleted: false }
}


impl GlObjects {
    /// A well-formed state has well-formed buffer and texture bindings.
    pub proof fn lemma_wf_bindings(&self)
        requires
            self.wf(),
        ensures
            self.buffer_bindings_ok(),
            self.texture_bindings_ok(),
    {
        reveal(GlObjects::buffer_bindings_ok);
        reveal(GlObjects::texture_bindings_ok);
    }

    // ----- vertex arrays -----

    fn vertex_array_is_live(&self, array: GLuint) -> (b: bool)
        ensures
            b == (array < self.vertex_arrays@.len() && !self.vertex_arrays@[array as int].deleted),
    {
        (array as usize) < self.vertex_arrays.len() && !self.vertex_arrays[array as usize].deleted
    }

    fn delete_vertex_arrays(&mut self, arrays: &[GLuint])
        ensures
            final(self).vertex_arrays@.len() == old(self).vertex_arrays@.len(),
            forall|i: int| 0 <= i < old(self).vertex_arrays@.len() ==>
                if i != 0 && id_ints(arrays@).contains(i) {
                    (#[trigger] final(self).vertex_arrays@[i]) == (GlVertexArray {
                        deleted: true,
                        ..old(self).vertex_arrays@[i]
                    })
                } else {
                    final(self).vertex_arrays@[i] == old(self).vertex_arrays@[i]
                },
            final(self).cur_vertex_array == (if old(self).cur_vertex_array != 0 && old(self).cur_vertex_array < old(
                self,
            ).vertex_arrays@.len() && arrays@.contains(old(self).cur_vertex_array) {
                0
            } else {
                old(self).cur_vertex_array
            }),
            *final(self) == (GlObjects {
                vertex_arrays: final(self).vertex_arrays,
                cur_vertex_array: final(self).cur_vertex_array,
                ..*old(self)
            }),
    {
        let mut cur: Vec<GLuint> = vec![self.cur_vertex_array];
        delete_slots(&mut self.vertex_arrays, &mut cur, arrays);
        self.cur_vertex_array = cur[0];
    }

    // ----- buffers -----

    /// Whether `buffer` names a live buffer.
    pub open spec fn spec_buffer_live(&self, buffer: GLuint) -> bool {
        buffer < self.buffers@.len() && !self.buffers@[buffer as int].deleted
    }

    fn buffer_is_live(&self, buffer: GLuint) -> (b: bool)
        ensures
            b == self.spec_buffer_live(buffer),
    {
        (buffer as usize) < self.buffers.len() && !self.buffers[buffer as usize].deleted
    }

    /// The binding table of buffers holds one slot per target, and each
    /// refers to a slot of the buffer table.
    #[verifier::opaque]
    pub open spec fn buffer_bindings_ok(&self) -> bool {
        &&& self.bound_buffers@.len() == NUM_BUF_TARGETS
        &&& forall|i: int| 0 <= i < NUM_BUF_TARGETS ==> #[trigger] self.bound_buffers@[i] < self.buffers@.len()
    }

    /// The error that binding `buffer` to `target` reports, if any.
    pub open spec fn spec_bind_buffer_error(&self, target: GLenum, buffer: GLuint) -> Option<GLenum> {
        if spec_buffer_target_index(target) is None {
            Some(GL_INVALID_ENUM)
        } else if buffer != 0 && !self.spec_buffer_live(buffer) {
            Some(GL_INVALID_OPERATION)
        } else {
            None
        }
    }

    /// `after` is this state with `buffer` bound to `target`, and, for the
    /// element array target, made the element buffer of the current vertex
    /// array.
    pub open spec fn spec_bind_buffer_outcome(self, after: GlObjects, target: GLenum, buffer: GLuint) -> bool {
        &&& after.bound_buffers@ == self.bound_buffers@.update(spec_buffer_target_index(target).unwrap() as int, buffer)
        &&& if target == GL_ELEMENT_ARRAY_BUFFER {
            after.vertex_arrays@ == self.vertex_arrays@.update(
                self.cur_vertex_array as int,
                GlVertexArray { element_buffer: buffer, ..self.vertex_arrays@[self.cur_vertex_array as int] },
            )
        } else {
            after.vertex_arrays == self.vertex_arrays
        }
        &&& after == (GlObjects { bound_buffers: after.bound_buffers, vertex_arrays: after.vertex_arrays, ..self })
    }

    fn check_bind_buffer(&self, target: GLenum, buffer: GLuint) -> (r: Result<usize, GLenum>)
        ensures
            match self.spec_bind_buffer_error(target, buffer) {
                Some(e) => r == Err::<usize, GLenum>(e),
                None => r == Ok::<usize, GLenum>(spec_buffer_target_index(target).unwrap()),
            },
    {
        match buffer_target_index(target) {
            None => Err(GL_INVALID_ENUM),
            Some(ti) => {
                if buffer != 0 && !self.buffer_is_live(buffer) {
                    Err(GL_INVALID_OPERATION)
                } else {
                    Ok(ti)
                }
            },
        }
    }

    fn bind_buffer(&mut self, ti: usize, target: GLenum, buffer: GLuint)
        requires
            spec_buffer_target_index(target) == Some(ti),
            old(self).bound_buffers@.len() == NUM_BUF_TARGETS,
            old(self).cur_vertex_array < old(self).vertex_arrays@.len(),
        ensures
            old(self).spec_bind_buffer_outcome(*final(self), target, buffer),
    {
        self.bound_buffers.set(ti, buffer);
        if target == GL_ELEMENT_ARRAY_BUFFER {
            set_element_buffer(&mut self.vertex_arrays, self.cur_vertex_array as usize, buffer);
        }
    }

    /// The buffer bound to `target`, if `target` is a buffer target.
    pub open spec fn spec_bound_buffer(&self, target: GLenum) -> Option<GLuint> {
        if GL_ARRAY_BUFFER <= target < GL_NUM_BUFFER_TYPES {
            Some(self.bound_buffers@[target - GL_ARRAY_BUFFER])
        } else {
            None
        }
    }

    /// The slot of the buffer bound to `target`.
    pub open spec fn spec_bound_slot(&self, target: GLenum) -> int {
        self.bound_buffers@[target - GL_ARRAY_BUFFER] as int
    }

    /// The error that an update of the buffer bound to `target` reports:
    /// `GL_INVALID_ENUM` for an unknown target, `GL_INVALID_OPERATION` when
    /// nothing is bound there, `GL_NO_ERROR` otherwise.
    pub open spec fn spec_bound_buffer_error(&self, target: GLenum) -> GLenum {
        if !(GL_ARRAY_BUFFER <= target < GL_NUM_BUFFER_TYPES) {
            GL_INVALID_ENUM
        } else if self.bound_buffers@[target - GL_ARRAY_BUFFER] == 0 {
            GL_INVALID_OPERATION
        } else {
            GL_NO_ERROR
        }
    }

    fn bound_buffer_error(&self, target: GLenum) -> (e: GLenum)
        requires
            self.buffer_bindings_ok(),
        ensures
            e == self.spec_bound_buffer_error(target),
    {
        proof {
            reveal(GlObjects::buffer_bindings_ok);
        }
        if !(GL_ARRAY_BUFFER <= target && target < GL_NUM_BUFFER_TYPES) {
            GL_INVALID_ENUM
        } else if self.bound_buffers[(target - GL_ARRAY_BUFFER) as usize] == 0 {
            GL_INVALID_OPERATION
        } else {
            GL_NO_ERROR
        }
    }

    fn bound_slot(&self, target: GLenum) -> (idx: usize)
        requires
            self.buffer_bindings_ok(),
            self.spec_bound_buffer_error(target) == GL_NO_ERROR,
        ensures
            idx == self.spec_bound_slot(target),
            idx < self.buffers@.len(),
    {
        proof {
            reveal(GlObjects::buffer_bindings_ok);
        }
        self.bound_buffers[(target - GL_ARRAY_BUFFER) as usize] as usize
    }

    /// The slot of the buffer bound to `target`, or the error an update of
    /// it reports.
    fn bound_buffer_slot(&self, target: GLenum) -> (r: Result<usize, GLenum>)
        requires
            self.buffer_bindings_ok(),
        ensures
            self.spec_bound_buffer_error(target) != GL_NO_ERROR ==> r == Err::<usize, GLenum>(
                self.spec_bound_buffer_error(target),
            ),
            self.spec_bound_buffer_error(target) == GL_NO_ERROR ==> r == Ok::<usize, GLenum>(
                self.spec_bound_slot(target) as usize,
            ) && self.spec_bound_slot(target) < self.buffers@.len(),
    {
        proof {
            reveal(GlObjects::buffer_bindings_ok);
        }
        match buffer_target_index(target) {
            None => Err(GL_INVALID_ENUM),
            Some(ti) => {
                let buf_id = self.bound_buffers[ti];
                if buf_id == 0 {
                    Err(GL_INVALID_OPERATION)
                } else {
                    Ok(buf_id as usize)
                }
            },
        }
    }

    /// `after` is this state with the contents of buffer `idx` replaced by
    /// `data` of kind `usage`.
    #[verifier::opaque]
    pub open spec fn spec_store_outcome(self, after: GlObjects, idx: int, data: Seq<u8>, usage: GLenum) -> bool {
        &&& after.buffers@.len() == self.buffers@.len()
        &&& spec_buffer_stored(after.buffers@[idx], self.buffers@[idx], data, usage)
        &&& forall|i: int| 0 <= i < self.buffers@.len() && i != idx ==> #[trigger] after.buffers@[i] == self.buffers@[i]
        &&& after == (GlObjects { buffers: after.buffers, ..self })
    }

    fn store_buffer_at(&mut self, idx: usize, data: &[u8], usage: GLenum)
        requires
            idx < old(self).buffers@.len(),
        ensures
            old(self).spec_store_outcome(*final(self), idx as int, data@, usage),
    {
        store_buffer(&mut self.buffers, idx, data, usage);
        proof {
            reveal(GlObjects::spec_store_outcome);
        }
    }

    /// `after` is this state with `data` written at byte `off` of buffer
    /// `idx`.
    #[verifier::opaque]
    pub open spec fn spec_patch_outcome(self, after: GlObjects, idx: int, off: int, data: Seq<u8>) -> bool {
        &&& after.buffers@.len() == self.buffers@.len()
        &&& spec_buffer_patched(after.buffers@[idx], self.buffers@[idx], off, data)
        &&& forall|i: int| 0 <= i < self.buffers@.len() && i != idx ==> #[trigger] after.buffers@[i] == self.buffers@[i]
        &&& after == (GlObjects { buffers: after.buffers, ..self })
    }

    fn patch_buffer_at(&mut self, idx: usize, off: usize, data: &[u8])
        requires
            idx < old(self).buffers@.len(),
            off + data@.len() <= old(self).buffers@[idx as int].data@.len(),
        ensures
            old(self).spec_patch_outcome(*final(self), idx as int, off as int, data@),
    {
        patch_buffer(&mut self.buffers, idx, off, data);
        proof {
            reveal(GlObjects::spec_patch_outcome);
        }
    }

    /// The texture target slot that setting parameter `pname` for `target`
    /// goes to, or `GL_INVALID_ENUM`.
    fn check_tex_parameter(&self, target: GLenum, pname: GLenum) -> (r: Result<usize, GLenum>)
        ensures
            spec_texture_target_index(target) is None || !spec_is_tex_param(pname) ==> r == Err::<usize, GLenum>(
                GL_INVALID_ENUM,
            ),
            spec_texture_target_index(target) is Some && spec_is_tex_param(pname) ==> r == Ok::<usize, GLenum>(
                spec_texture_target_index(target).unwrap(),
            ),
    {
        match texture_target_index(target) {
            None => Err(GL_INVALID_ENUM),
            Some(ti) => {
                if pname == GL_TEXTURE_MIN_FILTER || pname == GL_TEXTURE_MAG_FILTER || pname == GL_TEXTURE_WRAP_S
                    || pname == GL_TEXTURE_WRAP_T || pname == GL_TEXTURE_WRAP_R {
                    Ok(ti)
                } else {
                    Err(GL_INVALID_ENUM)
                }
            },
        }
    }

    fn buffer_len(&self, idx: usize) -> (n: usize)
        requires
            idx < self.buffers@.len(),
        ensures
            n == self.buffers@[idx as int].data@.len(),
    {
        self.buffers[idx].data.len()
    }

    /// Whether a write of `len` bytes at byte `offset` of buffer `idx`
    /// stays inside its contents.
    pub open spec fn spec_patch_fits(&self, idx: int, off: int, len: int) -> bool {
        off + len <= self.buffers@[idx].data@.len()
    }

    // ----- textures -----

    /// Whether `texture` names a live texture.
    pub open spec fn spec_texture_live(&self, texture: GLuint) -> bool {
        texture < self.textures@.len() && !self.textures@[texture as int].deleted
    }

    fn texture_is_live(&self, texture: GLuint) -> (b: bool)
        ensures
            b == self.spec_texture_live(texture),
    {
        (texture as usize) < self.textures.len() && !self.textures[texture as usize].deleted
    }

    /// The texture tables have their fixed sizes and every texture binding
    /// refers to a slot of the texture table.
    #[verifier::opaque]
    pub open spec fn texture_bindings_ok(&self) -> bool {
        &&& self.bound_textures@.len() == NUM_TEX_TARGETS
        &&& self.default_textures@.len() == NUM_TEX_TARGETS
        &&& forall|i: int| 0 <= i < NUM_TEX_TARGETS ==> #[trigger] self.bound_textures@[i] < self.textures@.len()
    }

    /// The texture that texture target slot `ti` refers to: the bound one,
    /// or the target's default texture when 0 is bound.
    pub open spec fn spec_bound_texture(&self, ti: int) -> GlTexture {
        let b = self.bound_textures@[ti];
        if b == 0 {
            self.default_textures@[ti]
        } else {
            self.textures@[b as int]
        }
    }

    /// `after` is this state with the texture that slot `ti` refers to
    /// replaced by `t`.
    #[verifier::opaque]
    pub open spec fn spec_texture_replaced(self, after: GlObjects, ti: int, t: GlTexture) -> bool {
        let b = self.bound_textures@[ti];
        if b == 0 {
            &&& after.default_textures@ == self.default_textures@.update(ti, t)
            &&& after == (GlObjects { default_textures: after.default_textures, ..self })
        } else {
            &&& after.textures@ == self.textures@.update(b as int, t)
            &&& after == (GlObjects { textures: after.textures, ..self })
        }
    }

    /// Put `t` where slot `ti` refers to, returning the texture that was
    /// there.
    fn swap_bound_texture(&mut self, ti: usize, t: GlTexture) -> (prev: GlTexture)
        requires
            ti < NUM_TEX_TARGETS,
            old(self).texture_bindings_ok(),
        ensures
            prev == old(self).spec_bound_texture(ti as int),
            old(self).spec_texture_replaced(*final(self), ti as int, t),
    {
        proof {
            reveal(GlObjects::spec_texture_replaced);
            reveal(GlObjects::texture_bindings_ok);
        }
        let b = self.bound_textures[ti];
        if b == 0 {
            swap_texture(&mut self.default_textures, ti, t)
        } else {
            swap_texture(&mut self.textures, b as usize, t)
        }
    }

    /// Replacing the texture of a slot twice is replacing it once by the
    /// second texture.
    proof fn lemma_texture_replaced_twice(s: GlObjects, mid: GlObjects, after: GlObjects, ti: int, t1: GlTexture, t2: GlTexture)
        requires
            0 <= ti < NUM_TEX_TARGETS,
            s.texture_bindings_ok(),
            s.spec_texture_replaced(mid, ti, t1),
            mid.spec_texture_replaced(after, ti, t2),
        ensures
            s.spec_texture_replaced(after, ti, t2),
            after.texture_bindings_ok(),
            after.bound_textures == s.bound_textures,
    {
        reveal(GlObjects::spec_texture_replaced);
        reveal(GlObjects::texture_bindings_ok);
        let b = s.bound_textures@[ti];
        if b == 0 {
            assert(after.default_textures@ =~= s.default_textures@.update(ti, t2));
        } else {
            assert(after.textures@ =~= s.textures@.update(b as int, t2));
        }
    }

    /// Take out the texture that slot `ti` refers to, leaving `e` in its
    /// place.
    pub(crate) fn take_texture(&mut self, ti: usize, e: GlTexture) -> (prev: GlTexture)
        requires
            ti < NUM_TEX_TARGETS,
            old(self).texture_bindings_ok(),
        ensures
            prev == old(self).spec_bound_texture(ti as int),
            old(self).spec_texture_replaced(*final(self), ti as int, e),
            final(self).texture_bindings_ok(),
            final(self).bound_textures == old(self).bound_textures,
    {
        let ghost s0 = *self;
        let prev = self.swap_bound_texture(ti, e);
        proof {
            reveal(GlObjects::spec_texture_replaced);
            reveal(GlObjects::texture_bindings_ok);
        }
        prev
    }

    /// Put `t` back where `take_texture` left `e`: the result is `s0` with
    /// `t` in that place.
    pub(crate) fn put_texture(&mut self, ti: usize, t: GlTexture, Ghost(s0): Ghost<GlObjects>, Ghost(e): Ghost<GlTexture>)
        requires
            ti < NUM_TEX_TARGETS,
            s0.texture_bindings_ok(),
            s0.spec_texture_replaced(*old(self), ti as int, e),
            old(self).texture_bindings_ok(),
        ensures
            s0.spec_texture_replaced(*final(self), ti as int, t),
            final(self).spec_bound_texture(ti as int) == t,
            final(self).texture_bindings_ok(),
            final(self).bound_textures == s0.bound_textures,
    {
        let ghost s1 = *self;
        self.swap_bound_texture(ti, t);
        proof {
            Self::lemma_texture_replaced_twice(s0, s1, *self, ti as int, e, t);
            reveal(GlObjects::spec_texture_replaced);
            reveal(GlObjects::texture_bindings_ok);
        }
    }

    /// Set a parameter of the texture that slot `ti` refers to.
    fn update_bound_texture_param(&mut self, ti: usize, pname: GLenum, p: GLenum)
        requires
            ti < NUM_TEX_TARGETS,
            old(self).texture_bindings_ok(),
            spec_is_tex_param(pname),
        ensures
            old(self).spec_texture_replaced(
                *final(self),
                ti as int,
                spec_tex_param(old(self).spec_bound_texture(ti as int), pname, p),
            ),
    {
        let ghost s0 = *self;
        let e = GlTexture::empty();
        let mut t = self.swap_bound_texture(ti, e);
        let ghost s1 = *self;
        proof {
            reveal(GlObjects::spec_texture_replaced);
            reveal(GlObjects::texture_bindings_ok);
            let b = s0.bound_textures@[ti as int];
            if b == 0 {
                assert(s1.textures == s0.textures);
            } else {
                assert(s1.default_textures == s0.default_textures);
            }
            assert(s1.texture_bindings_ok());
        }
        set_tex_param(&mut t, pname, p);
        self.swap_bound_texture(ti, t);
        proof {
            Self::lemma_texture_replaced_twice(s0, s1, *self, ti as int, e, t);
        }
    }

    /// The error that binding `texture` to `target` reports, if any.
    pub open spec fn spec_bind_texture_error(&self, target: GLenum, texture: GLuint) -> Option<GLenum> {
        if spec_texture_target_index(target) is None {
            Some(GL_INVALID_ENUM)
        } else if texture != 0 && !self.spec_texture_live(texture) {
            Some(GL_INVALID_OPERATION)
        } else {
            None
        }
    }

    /// `after` is this state with `texture` bound to `target`: a texture
    /// that no target has claimed becomes one of `target`, and binding to
    /// the 2D target also makes it the current 2D texture.
    pub open spec fn spec_bind_texture_outcome(self, after: GlObjects, target: GLenum, texture: GLuint) -> bool {
        let ti = spec_texture_target_index(target).unwrap() as int;
        &&& after.bound_textures@ == self.bound_textures@.update(ti, texture)
        &&& if texture != 0 && self.textures@[texture as int].type_ == GL_TEXTURE_UNBOUND {
            after.textures@ == self.textures@.update(
                texture as int,
                GlTexture { type_: target, ..self.textures@[texture as int] },
            )
        } else {
            after.textures == self.textures
        }
        &&& after.cur_texture2d == (if target == GL_TEXTURE_2D { texture } else { self.cur_texture2d })
        &&& after == (GlObjects {
            bound_textures: after.bound_textures,
            textures: after.textures,
            cur_texture2d: after.cur_texture2d,
            ..self
        })
    }

    fn check_bind_texture(&self, target: GLenum, texture: GLuint) -> (r: Result<usize, GLenum>)
        ensures
            match self.spec_bind_texture_error(target, texture) {
                Some(e) => r == Err::<usize, GLenum>(e),
                None => r == Ok::<usize, GLenum>(spec_texture_target_index(target).unwrap()),
            },
    {
        match texture_target_index(target) {
            None => Err(GL_INVALID_ENUM),
            Some(ti) => {
                if texture != 0 && !self.texture_is_live(texture) {
                    Err(GL_INVALID_OPERATION)
                } else {
                    Ok(ti)
                }
            },
        }
    }

    fn bind_texture(&mut self, ti: usize, target: GLenum, texture: GLuint)
        requires
            spec_texture_target_index(target) == Some(ti),
            old(self).bound_textures@.len() == NUM_TEX_TARGETS,
            texture != 0 ==> texture < old(self).textures@.len(),
        ensures
            old(self).spec_bind_texture_outcome(*final(self), target, texture),
    {
        if texture != 0 && self.textures[texture as usize].type_ == GL_TEXTURE_UNBOUND {
            retype_in_table(&mut self.textures, texture as usize, target);
        }
        self.bound_textures.set(ti, texture);
        if target == GL_TEXTURE_2D {
            self.cur_texture2d = texture;
        }
    }

    fn create_textures(&mut self, target: GLenum, n: GLsizei) -> (ids: Vec<GLuint>)
        requires
            0 <= n,
            old(self).textures@.len() + n <= u32::MAX,
        ensures
            ids@.len() == n,
            forall|k: int| 0 <= k < n ==> #[trigger] ids@[k] == old(self).textures@.len() + k,
            final(self).textures@.len() == old(self).textures@.len() + n,
            forall|i: int| 0 <= i < old(self).textures@.len() ==> #[trigger] final(self).textures@[i] == old(self).textures@[i],
            forall|i: int| old(self).textures@.len() <= i < final(self).textures@.len()
                ==> spec_texture_for(#[trigger] final(self).textures@[i], target),
            *final(self) == (GlObjects { textures: final(self).textures, ..*old(self) }),
    {
        let mut ids: Vec<GLuint> = Vec::new();
        let mut k: i32 = 0;
        while k < n
            invariant
                0 <= k <= n,
                old(self).textures@.len() + n <= u32::MAX,
                ids@.len() == k,
                forall|j: int| 0 <= j < k ==> #[trigger] ids@[j] == old(self).textures@.len() + j,
                self.textures@.len() == old(self).textures@.len() + k,
                forall|i: int| 0 <= i < old(self).textures@.len() ==> #[trigger] self.textures@[i] == old(self).textures@[i],
                forall|i: int| old(self).textures@.len() <= i < self.textures@.len()
                    ==> spec_texture_for(#[trigger] self.textures@[i], target),
                *self == (GlObjects { textures: self.textures, ..*old(self) }),
            decreases n - k,
        {
            let idx = self.textures.len();
            let mut tex = GlTexture::empty();
            tex.type_ = target;
            self.textures.push(tex);
            ids.push(idx as GLuint);
            k = k + 1;
        }
        ids
    }

    // ----- programs -----

    /// Whether `program` names a live program.
    pub open spec fn spec_program_live(&self, program: GLuint) -> bool {
        program < self.programs@.len() && !self.programs@[program as int].deleted
    }

    fn program_is_live(&self, program: GLuint) -> (b: bool)
        ensures
            b == self.spec_program_live(program),
    {
        (program as usize) < self.programs.len() && !self.programs[program as usize].deleted
    }

    fn create_program(&mut self, p: GlProgram) -> (id: usize)
        requires
            1 <= old(self).programs@.len(),
        ensures
            id == first_free(slot_flags(old(self).programs@)),
            final(self).programs@ == (if id < old(self).programs@.len() {
                old(self).programs@.update(id as int, p)
            } else {
                old(self).programs@.push(p)
            }),
            *final(self) == (GlObjects { programs: final(self).programs, ..*old(self) }),
    {
        proof {
            lemma_first_free(slot_flags(self.programs@));
        }
        let slot = free_slot(&self.programs);
        if slot < self.programs.len() {
            self.programs.set(slot, p);
        } else {
            self.programs.push(p);
        }
        slot
    }

    fn delete_program(&mut self, idx: usize)
        requires
            idx < old(self).programs@.len(),
        ensures
            final(self).programs@ == old(self).programs@.update(
                idx as int,
                GlProgram { deleted: true, ..old(self).programs@[idx as int] },
            ),
            final(self).cur_program == (if old(self).cur_program == idx { 0 } else { old(self).cur_program }),
            *final(self) == (GlObjects { programs: final(self).programs, cur_program: final(self).cur_program, ..*old(self) }),
    {
        let mut p = self.programs.remove(idx);
        p.deleted = true;
        self.programs.insert(idx, p);
        if self.cur_program as usize == idx {
            self.cur_program = 0;
        }
    }

    fn program_settings(&self, idx: usize) -> (r: (GLsizei, bool))
        requires
            idx < self.programs@.len(),
        ensures
            r == (self.programs@[idx as int].vs_output_size, self.programs@[idx as int].fragdepth_or_discard),
    {
        (self.programs[idx].vs_output_size, self.programs[idx].fragdepth_or_discard)
    }

    // ----- vertex attributes -----

    /// `after` is this state with attribute `index` of the current vertex
    /// array replaced by `a`.
    pub open spec fn spec_attrib_replaced(self, after: GlObjects, index: int, a: GlVertexAttrib) -> bool {
        let cur = self.cur_vertex_array as int;
        &&& after.vertex_arrays@.len() == self.vertex_arrays@.len()
        &&& after.vertex_arrays@[cur].vertex_attribs@ == self.vertex_arrays@[cur].vertex_attribs@.update(index, a)
        &&& after.vertex_arrays@[cur].element_buffer == self.vertex_arrays@[cur].element_buffer
        &&& after.vertex_arrays@[cur].deleted == self.vertex_arrays@[cur].deleted
        &&& forall|i: int| 0 <= i < self.vertex_arrays@.len() && i != cur ==> #[trigger] after.vertex_arrays@[i]
            == self.vertex_arrays@[i]
        &&& after == (GlObjects { vertex_arrays: after.vertex_arrays, ..self })
    }

    /// The current attribute `index`.
    pub open spec fn spec_attrib(&self, index: int) -> GlVertexAttrib {
        self.vertex_arrays@[self.cur_vertex_array as int].vertex_attribs@[index]
    }

    fn current_attrib(&self, index: usize) -> (a: GlVertexAttrib)
        requires
            self.cur_vertex_array < self.vertex_arrays@.len(),
            index < 8,
        ensures
            a == self.spec_attrib(index as int),
    {
        self.vertex_arrays[self.cur_vertex_array as usize].vertex_attribs[index]
    }

    fn set_attrib(&mut self, index: usize, a: GlVertexAttrib)
        requires
            old(self).cur_vertex_array < old(self).vertex_arrays@.len(),
            index < 8,
        ensures
            old(self).spec_attrib_replaced(*final(self), index as int, a),
    {
        let cur = self.cur_vertex_array as usize;
        let mut v = self.vertex_arrays[cur];
        v.vertex_attribs[index] = a;
        self.vertex_arrays.set(cur, v);
    }
}

/// A name that `gl_gen_buffers` returned can be bound to any buffer
/// target: it names a live buffer.
pub proof fn lemma_bind_generated_buffer(before: GlObjects, after: GlObjects, ids: Seq<int>, n: nat, k: int, target: GLenum)
    requires
        1 <= before.buffers@.len(),
        ids == alloc_ids(slot_flags(before.buffers@), n),
        slot_flags(after.buffers@) == alloc_flags(slot_flags(before.buffers@), n),
        0 <= k < n,
        ids[k] <= u32::MAX,
        spec_buffer_target_index(target) is Some,
    ensures
        after.spec_bind_buffer_error(target, ids[k] as GLuint) is None,
{
    lemma_alloc_ids(slot_flags(before.buffers@), n);
    let id = ids[k];
    assert(!alloc_flags(slot_flags(before.buffers@), n)[id]);
    assert(slot_flags(after.buffers@)[id] == after.buffers@[id].deleted);
}

/// A name that `gl_gen_textures` returned can be bound to any texture
/// target: it names a live texture.
pub proof fn lemma_bind_generated_texture(before: GlObjects, after: GlObjects, ids: Seq<int>, n: nat, k: int, target: GLenum)
    requires
        1 <= before.textures@.len(),
        ids == alloc_ids(slot_flags(before.textures@), n),
        slot_flags(after.textures@) == alloc_flags(slot_flags(before.textures@), n),
        0 <= k < n,
        ids[k] <= u32::MAX,
        spec_texture_target_index(target) is Some,
    ensures
        after.spec_bind_texture_error(target, ids[k] as GLuint) is None,
{
    lemma_alloc_ids(slot_flags(before.textures@), n);
    let id = ids[k];
    assert(!alloc_flags(slot_flags(before.textures@), n)[id]);
    assert(slot_flags(after.textures@)[id] == after.textures@[id].deleted);
}

impl GlContext {
    /// Generate `n` vertex array names. Each takes the slot that a single
    /// allocation would take after the ones before it, and the vertex array
    /// there is a fresh one; every other slot is left alone.
    pub fn gl_gen_vertex_arrays(&mut self, n: GLsizei) -> (ids: Vec<GLuint>)
        requires
            0 <= n,
            1 <= old(self).objects.vertex_arrays@.len(),
            old(self).objects.vertex_arrays@.len() + n <= u32::MAX,
        ensures
            id_ints(ids@) == alloc_ids(slot_flags(old(self).objects.vertex_arrays@), n as nat),
            slot_flags(final(self).objects.vertex_arrays@) == alloc_flags(
                slot_flags(old(self).objects.vertex_arrays@),
                n as nat,
            ),
            forall|i: int| 0 <= i < final(self).objects.vertex_arrays@.len() ==>
                if id_ints(ids@).contains(i) {
                    (#[trigger] final(self).objects.vertex_arrays@[i]).spec_fresh()
                } else {
                    final(self).objects.vertex_arrays@[i] == old(self).objects.vertex_arrays@[i]
                },
            final(self).objects == (GlObjects { vertex_arrays: final(self).objects.vertex_arrays, ..old(self).objects }),
            *final(self) == (GlContext { objects: final(self).objects, ..*old(self) }),
    {
        gen_slots(&mut self.objects.vertex_arrays, n)
    }

    /// Delete vertex arrays. Names that are 0 or past the end of the table
    /// are skipped; a deleted current vertex array falls back to 0.
    pub fn gl_delete_vertex_arrays(&mut self, arrays: &[GLuint])
        ensures
            final(self).objects.vertex_arrays@.len() == old(self).objects.vertex_arrays@.len(),
            forall|i: int| 0 <= i < old(self).objects.vertex_arrays@.len() ==>
                if i != 0 && id_ints(arrays@).contains(i) {
                    (#[trigger] final(self).objects.vertex_arrays@[i]) == (GlVertexArray {
                        deleted: true,
                        ..old(self).objects.vertex_arrays@[i]
                    })
                } else {
                    final(self).objects.vertex_arrays@[i] == old(self).objects.vertex_arrays@[i]
                },
            final(self).objects.cur_vertex_array == (if old(self).objects.cur_vertex_array != 0
                && old(self).objects.cur_vertex_array < old(self).objects.vertex_arrays@.len() && arrays@.contains(
                old(self).objects.cur_vertex_array,
            ) {
                0
            } else {
                old(self).objects.cur_vertex_array
            }),
            final(self).objects == (GlObjects {
                vertex_arrays: final(self).objects.vertex_arrays,
                cur_vertex_array: final(self).objects.cur_vertex_array,
                ..old(self).objects
            }),
            *final(self) == (GlContext { objects: final(self).objects, ..*old(self) }),
    {
        self.objects.delete_vertex_arrays(arrays);
    }

    /// Make a vertex array current. A name with no live vertex array records
    /// `GL_INVALID_OPERATION` and returns it as the error.
    pub fn gl_bind_vertex_array(&mut self, array: GLuint) -> (r: Result<(), GLenum>)
        ensures
            r is Ok <==> (array < old(self).objects.vertex_arrays@.len()
                && !old(self).objects.vertex_arrays@[array as int].deleted),
            r is Ok ==> *final(self) == (GlContext {
                objects: GlObjects { cur_vertex_array: array, ..old(self).objects },
                ..*old(self)
            }),
            r is Err ==> r == Err::<(), GLenum>(GL_INVALID_OPERATION) && *final(self) == old(self).with_error(
                GL_INVALID_OPERATION,
            ),
    {
        if !self.objects.vertex_array_is_live(array) {
            self.set_error(GL_INVALID_OPERATION);
            return Err(GL_INVALID_OPERATION);
        }
        self.objects.cur_vertex_array = array;
        Ok(())
    }

    /// Generate `n` buffer names, as `gen_slots` describes; each names an
    /// empty buffer.
    pub fn gl_gen_buffers(&mut self, n: GLsizei) -> (ids: Vec<GLuint>)
        requires
            0 <= n,
            1 <= old(self).objects.buffers@.len(),
            old(self).objects.buffers@.len() + n <= u32::MAX,
        ensures
            id_ints(ids@) == alloc_ids(slot_flags(old(self).objects.buffers@), n as nat),
            slot_flags(final(self).objects.buffers@) == alloc_flags(slot_flags(old(self).objects.buffers@), n as nat),
            forall|i: int| 0 <= i < final(self).objects.buffers@.len() ==>
                if id_ints(ids@).contains(i) {
                    (#[trigger] final(self).objects.buffers@[i]).spec_fresh()
                } else {
                    final(self).objects.buffers@[i] == old(self).objects.buffers@[i]
                },
            final(self).objects == (GlObjects { buffers: final(self).objects.buffers, ..old(self).objects }),
            *final(self) == (GlContext { objects: final(self).objects, ..*old(self) }),
    {
        gen_slots(&mut self.objects.buffers, n)
    }

    /// Delete buffers: their contents are dropped, and every binding point
    /// that holds one of them is reset to 0. Names that are 0 or past the
    /// end of the table are skipped.
    pub fn gl_delete_buffers(&mut self, buffers: &[GLuint])
        ensures
            final(self).objects.buffers@.len() == old(self).objects.buffers@.len(),
            forall|i: int| 0 <= i < old(self).objects.buffers@.len() ==>
                if i != 0 && id_ints(buffers@).contains(i) {
                    (#[trigger] final(self).objects.buffers@[i]).spec_deletion_of(old(self).objects.buffers@[i])
                        && final(self).objects.buffers@[i].deleted
                } else {
                    final(self).objects.buffers@[i] == old(self).objects.buffers@[i]
                },
            final(self).objects.bound_buffers@.len() == old(self).objects.bound_buffers@.len(),
            forall|t: int| 0 <= t < old(self).objects.bound_buffers@.len() ==>
                #[trigger] final(self).objects.bound_buffers@[t] == (if old(self).objects.bound_buffers@[t] != 0
                    && old(self).objects.bound_buffers@[t] < old(self).objects.buffers@.len() && buffers@.contains(
                    old(self).objects.bound_buffers@[t],
                ) {
                    0
                } else {
                    old(self).objects.bound_buffers@[t]
                }),
            final(self).objects == (GlObjects {
                buffers: final(self).objects.buffers,
                bound_buffers: final(self).objects.bound_buffers,
                ..old(self).objects
            }),
            *final(self) == (GlContext { objects: final(self).objects, ..*old(self) }),
    {
        delete_slots(&mut self.objects.buffers, &mut self.objects.bound_buffers, buffers);
    }

    /// Bind `buffer` (0 unbinds) to a buffer target. Binding to the element
    /// array target also makes it the element buffer of the current vertex
    /// array. An unknown target reports `GL_INVALID_ENUM`, a name without a
    /// live buffer `GL_INVALID_OPERATION`; the error is recorded and returned.
    pub fn gl_bind_buffer(&mut self, target: GLenum, buffer: GLuint) -> (r: Result<(), GLenum>)
        requires
            old(self).objects.bound_buffers@.len() == NUM_BUF_TARGETS,
            old(self).objects.cur_vertex_array < old(self).objects.vertex_arrays@.len(),
        ensures
            old(self).objects.spec_bind_buffer_error(target, buffer) is Some ==> r == Err::<(), GLenum>(
                old(self).objects.spec_bind_buffer_error(target, buffer).unwrap(),
            ) && *final(self) == old(self).with_error(old(self).objects.spec_bind_buffer_error(target, buffer).unwrap()),
            old(self).objects.spec_bind_buffer_error(target, buffer) is None ==> r is Ok
                && old(self).objects.spec_bind_buffer_outcome(final(self).objects, target, buffer)
                && *final(self) == (GlContext { objects: final(self).objects, ..*old(self) }),
    {
        match self.objects.check_bind_buffer(target, buffer) {
            Err(e) => {
                self.set_error(e);
                Err(e)
            },
            Ok(ti) => {
                self.objects.bind_buffer(ti, target, buffer);
                Ok(())
            },
        }
    }

    /// Replace the contents of the buffer bound to `target` by `data`. An
    /// unknown target reports `GL_INVALID_ENUM`, an empty binding
    /// `GL_INVALID_OPERATION`.
    pub fn gl_buffer_data(&mut self, target: GLenum, data: &[u8], usage: GLenum) -> (r: Result<(), GLenum>)
        requires
            old(self).objects.buffer_bindings_ok(),
        ensures
            r == (if old(self).objects.spec_bound_buffer_error(target) != GL_NO_ERROR {
                Err::<(), GLenum>(old(self).objects.spec_bound_buffer_error(target))
            } else {
                Ok::<(), GLenum>(())
            }),
            r is Err ==> *final(self) == old(self).with_error(r->Err_0),
            r is Ok ==> old(self).objects.spec_store_outcome(
                final(self).objects,
                old(self).objects.spec_bound_slot(target),
                data@,
                usage,
            ),
            r is Ok ==> *final(self) == (GlContext { objects: final(self).objects, ..*old(self) }),
    {
        let e = self.objects.bound_buffer_error(target);
        if e != GL_NO_ERROR {
            self.set_error(e);
            return Err(e);
        }
        let idx = self.objects.bound_slot(target);
        self.objects.store_buffer_at(idx, data, usage);
        Ok(())
    }

    /// Write `data` at byte `offset` of the buffer bound to `target`; a write
    /// past the end of its contents reports `GL_INVALID_VALUE`.
    pub fn gl_buffer_sub_data(&mut self, target: GLenum, offset: isize, data: &[u8]) -> (r: Result<(), GLenum>)
        requires
            old(self).objects.buffer_bindings_ok(),
            (offset as usize) + data@.len() <= usize::MAX,
        ensures
            r == (if old(self).objects.spec_bound_buffer_error(target) != GL_NO_ERROR {
                Err::<(), GLenum>(old(self).objects.spec_bound_buffer_error(target))
            } else if !old(self).objects.spec_patch_fits(
                old(self).objects.spec_bound_slot(target),
                (offset as usize) as int,
                data@.len() as int,
            ) {
                Err::<(), GLenum>(GL_INVALID_VALUE)
            } else {
                Ok::<(), GLenum>(())
            }),
            r is Err ==> *final(self) == old(self).with_error(r->Err_0),
            r is Ok ==> old(self).objects.spec_patch_outcome(
                final(self).objects,
                old(self).objects.spec_bound_slot(target),
                (offset as usize) as int,
                data@,
            ),
            r is Ok ==> *final(self) == (GlContext { objects: final(self).objects, ..*old(self) }),
    {
        let e = self.objects.bound_buffer_error(target);
        if e != GL_NO_ERROR {
            self.set_error(e);
            return Err(e);
        }
        let idx = self.objects.bound_slot(target);
        let off = offset as usize;
        if off + data.len() > self.objects.buffer_len(idx) {
            self.set_error(GL_INVALID_VALUE);
            return Err(GL_INVALID_VALUE);
        }
        self.objects.patch_buffer_at(idx, off, data);
        Ok(())
    }

    /// Whether `buffer` names a live buffer other than the reserved buffer 0.
    pub open spec fn spec_named_buffer_ok(&self, buffer: GLuint) -> bool {
        buffer != 0 && self.objects.spec_buffer_live(buffer)
    }

    /// Replace the contents of buffer `buffer`; a name without a live
    /// buffer, or 0, reports `GL_INVALID_OPERATION`.
    pub fn gl_named_buffer_data(&mut self, buffer: GLuint, data: &[u8], usage: GLenum) -> (r: Result<(), GLenum>)
        ensures
            !old(self).spec_named_buffer_ok(buffer) ==> r == Err::<(), GLenum>(GL_INVALID_OPERATION)
                && *final(self) == old(self).with_error(GL_INVALID_OPERATION),
            old(self).spec_named_buffer_ok(buffer) ==> r is Ok && old(self).objects.spec_store_outcome(
                final(self).objects,
                buffer as int,
                data@,
                usage,
            ) && *final(self) == (GlContext { objects: final(self).objects, ..*old(self) }),
    {
        if buffer == 0 || !self.objects.buffer_is_live(buffer) {
            self.set_error(GL_INVALID_OPERATION);
            return Err(GL_INVALID_OPERATION);
        }
        self.objects.store_buffer_at(buffer as usize, data, usage);
        Ok(())
    }

    /// Write `data` at byte `offset` of buffer `buffer`.
    pub fn gl_named_buffer_sub_data(&mut self, buffer: GLuint, offset: isize, data: &[u8]) -> (r: Result<
        (),
        GLenum,
    >)
        requires
            (offset as usize) + data@.len() <= usize::MAX,
        ensures
            r == (if !old(self).spec_named_buffer_ok(buffer) {
                Err::<(), GLenum>(GL_INVALID_OPERATION)
            } else if !old(self).objects.spec_patch_fits(buffer as int, (offset as usize) as int, data@.len() as int) {
                Err::<(), GLenum>(GL_INVALID_VALUE)
            } else {
                Ok::<(), GLenum>(())
            }),
            r is Err ==> *final(self) == old(self).with_error(r->Err_0),
            r is Ok ==> old(self).objects.spec_patch_outcome(
                final(self).objects,
                buffer as int,
                (offset as usize) as int,
                data@,
            ),
            r is Ok ==> *final(self) == (GlContext { objects: final(self).objects, ..*old(self) }),
    {
        if buffer == 0 || !self.objects.buffer_is_live(buffer) {
            self.set_error(GL_INVALID_OPERATION);
            return Err(GL_INVALID_OPERATION);
        }
        let off = offset as usize;
        if off + data.len() > self.objects.buffer_len(buffer as usize) {
            self.set_error(GL_INVALID_VALUE);
            return Err(GL_INVALID_VALUE);
        }
        self.objects.patch_buffer_at(buffer as usize, off, data);
        Ok(())
    }

    /// The buffer whose storage mapping the buffer bound to `target` gives
    /// access to. An unknown target records `GL_INVALID_ENUM`; no binding, or
    /// a binding without a live buffer, records `GL_INVALID_OPERATION`.
    pub fn gl_map_buffer(&mut self, target: GLenum, access: GLenum) -> (r: Option<GLuint>)
        requires
            old(self).objects.buffer_bindings_ok(),
        ensures
            old(self).objects.spec_bound_buffer_error(target) != GL_NO_ERROR ==> r is None && *final(self) == old(
                self,
            ).with_error(old(self).objects.spec_bound_buffer_error(target)),
            old(self).objects.spec_bound_buffer_error(target) == GL_NO_ERROR && old(self).objects.spec_buffer_live(
                old(self).objects.spec_bound_buffer(target).unwrap(),
            ) ==> r == old(self).objects.spec_bound_buffer(target) && *final(self) == *old(self),
            old(self).objects.spec_bound_buffer_error(target) == GL_NO_ERROR && !old(self).objects.spec_buffer_live(
                old(self).objects.spec_bound_buffer(target).unwrap(),
            ) ==> r is None && *final(self) == old(self).with_error(GL_INVALID_OPERATION),
    {
        match self.objects.bound_buffer_slot(target) {
            Err(e) => {
                self.set_error(e);
                None
            },
            Ok(idx) => {
                if !self.objects.buffer_is_live(idx as GLuint) {
                    self.set_error(GL_INVALID_OPERATION);
                    return None;
                }
                Some(idx as GLuint)
            },
        }
    }

    /// The buffer whose storage mapping buffer `buffer` gives access to; a
    /// name without a live buffer records `GL_INVALID_OPERATION`.
    pub fn gl_map_named_buffer(&mut self, buffer: GLuint, access: GLenum) -> (r: Option<GLuint>)
        ensures
            old(self).objects.spec_buffer_live(buffer) ==> r == Some(buffer) && *final(self) == *old(self),
            !old(self).objects.spec_buffer_live(buffer) ==> r is None && *final(self) == old(self).with_error(
                GL_INVALID_OPERATION,
            ),
    {
        if !self.objects.buffer_is_live(buffer) {
            self.set_error(GL_INVALID_OPERATION);
            return None;
        }
        Some(buffer)
    }

    /// End access to the storage of the buffer bound to `target`. Unmapping
    /// always succeeds here, so the result is `GL_TRUE`; a target that names
    /// no buffer binding, or one with nothing bound, still records its error.
    pub fn gl_unmap_buffer(&mut self, target: GLenum) -> (r: GLboolean)
        requires
            old(self).objects.buffer_bindings_ok(),
        ensures
            r == GL_TRUE,
            old(self).objects.spec_bound_buffer_error(target) != GL_NO_ERROR ==> *final(self) == old(
                self,
            ).with_error(old(self).objects.spec_bound_buffer_error(target)),
            old(self).objects.spec_bound_buffer_error(target) == GL_NO_ERROR ==> *final(self) == *old(self),
    {
        match self.objects.bound_buffer_slot(target) {
            Err(e) => {
                self.set_error(e);
                GL_TRUE
            },
            Ok(_) => GL_TRUE,
        }
    }

    /// Generate `n` texture names, as `gen_slots` describes; each names an
    /// empty texture that no target has claimed yet.
    pub fn gl_gen_textures(&mut self, n: GLsizei) -> (ids: Vec<GLuint>)
        requires
            0 <= n,
            1 <= old(self).objects.textures@.len(),
            old(self).objects.textures@.len() + n <= u32::MAX,
        ensures
            id_ints(ids@) == alloc_ids(slot_flags(old(self).objects.textures@), n as nat),
            slot_flags(final(self).objects.textures@) == alloc_flags(slot_flags(old(self).objects.textures@), n as nat),
            forall|i: int| 0 <= i < final(self).objects.textures@.len() ==>
                if id_ints(ids@).contains(i) {
                    (#[trigger] final(self).objects.textures@[i]).spec_fresh()
                } else {
                    final(self).objects.textures@[i] == old(self).objects.textures@[i]
                },
            final(self).objects == (GlObjects { textures: final(self).objects.textures, ..old(self).objects }),
            *final(self) == (GlContext { objects: final(self).objects, ..*old(self) }),
    {
        gen_slots(&mut self.objects.textures, n)
    }

    /// Delete textures: their texels are dropped, and every texture target
    /// that has one bound falls back to 0. Names that are 0 or past the end
    /// of the table are skipped.
    pub fn gl_delete_textures(&mut self, textures: &[GLuint])
        ensures
            final(self).objects.textures@.len() == old(self).objects.textures@.len(),
            forall|i: int| 0 <= i < old(self).objects.textures@.len() ==>
                if i != 0 && id_ints(textures@).contains(i) {
                    (#[trigger] final(self).objects.textures@[i]).spec_deletion_of(old(self).objects.textures@[i])
                        && final(self).objects.textures@[i].deleted
                } else {
                    final(self).objects.textures@[i] == old(self).objects.textures@[i]
                },
            final(self).objects.bound_textures@.len() == old(self).objects.bound_textures@.len(),
            forall|t: int| 0 <= t < old(self).objects.bound_textures@.len() ==>
                #[trigger] final(self).objects.bound_textures@[t] == (if old(self).objects.bound_textures@[t] != 0
                    && old(self).objects.bound_textures@[t] < old(self).objects.textures@.len()
                    && textures@.contains(old(self).objects.bound_textures@[t]) {
                    0
                } else {
                    old(self).objects.bound_textures@[t]
                }),
            final(self).objects == (GlObjects {
                textures: final(self).objects.textures,
                bound_textures: final(self).objects.bound_textures,
                ..old(self).objects
            }),
            *final(self) == (GlContext { objects: final(self).objects, ..*old(self) }),
    {
        delete_slots(&mut self.objects.textures, &mut self.objects.bound_textures, textures);
    }

    /// Create `n` textures for `target` at the end of the table, never
    /// reusing deleted slots, and return their names in order.
    pub fn gl_create_textures(&mut self, target: GLenum, n: GLsizei) -> (ids: Vec<GLuint>)
        requires
            0 <= n,
            old(self).objects.textures@.len() + n <= u32::MAX,
        ensures
            ids@.len() == n,
            forall|k: int| 0 <= k < n ==> #[trigger] ids@[k] == old(self).objects.textures@.len() + k,
            final(self).objects.textures@.len() == old(self).objects.textures@.len() + n,
            forall|i: int| 0 <= i < old(self).objects.textures@.len() ==> #[trigger] final(self).objects.textures@[i]
                == old(self).objects.textures@[i],
            forall|i: int| old(self).objects.textures@.len() <= i < final(self).objects.textures@.len()
                ==> spec_texture_for(#[trigger] final(self).objects.textures@[i], target),
            final(self).objects == (GlObjects { textures: final(self).objects.textures, ..old(self).objects }),
            *final(self) == (GlContext { objects: final(self).objects, ..*old(self) }),
    {
        self.objects.create_textures(target, n)
    }

    /// Bind `texture` (0 for the default texture) to a texture target. An
    /// unknown target reports `GL_INVALID_ENUM`, a name without a live
    /// texture `GL_INVALID_OPERATION`; the error is recorded and returned.
    pub fn gl_bind_texture(&mut self, target: GLenum, texture: GLuint) -> (r: Result<(), GLenum>)
        requires
            old(self).objects.bound_textures@.len() == NUM_TEX_TARGETS,
        ensures
            old(self).objects.spec_bind_texture_error(target, texture) is Some ==> r == Err::<(), GLenum>(
                old(self).objects.spec_bind_texture_error(target, texture).unwrap(),
            ) && *final(self) == old(self).with_error(old(self).objects.spec_bind_texture_error(target, texture).unwrap()),
            old(self).objects.spec_bind_texture_error(target, texture) is None ==> r is Ok
                && old(self).objects.spec_bind_texture_outcome(final(self).objects, target, texture)
                && *final(self) == (GlContext { objects: final(self).objects, ..*old(self) }),
    {
        match self.objects.check_bind_texture(target, texture) {
            Err(e) => {
                self.set_error(e);
                Err(e)
            },
            Ok(ti) => {
                self.objects.bind_texture(ti, target, texture);
                Ok(())
            },
        }
    }

    /// Set a filter or wrap parameter of the texture that `target` refers
    /// to. An unknown target or parameter records `GL_INVALID_ENUM` and
    /// changes nothing else.
    pub fn gl_tex_parameteri(&mut self, target: GLenum, pname: GLenum, param: GLint)
        requires
            old(self).objects.texture_bindings_ok(),
        ensures
            spec_texture_target_index(target) is None || !spec_is_tex_param(pname) ==> *final(self) == old(
                self,
            ).with_error(GL_INVALID_ENUM),
            spec_texture_target_index(target) is Some && spec_is_tex_param(pname) ==> old(self).objects.spec_texture_replaced(
                final(self).objects,
                spec_texture_target_index(target).unwrap() as int,
                spec_tex_param(
                    old(self).objects.spec_bound_texture(spec_texture_target_index(target).unwrap() as int),
                    pname,
                    param as GLenum,
                ),
            ) && *final(self) == (GlContext { objects: final(self).objects, ..*old(self) }),
    {
        match self.objects.check_tex_parameter(target, pname) {
            Err(e) => self.set_error(e),
            Ok(ti) => self.objects.update_bound_texture_param(ti, pname, param as GLenum),
        }
    }

    /// Whether `program` names a live program.
    pub fn gl_is_program(&self, program: GLuint) -> (b: bool)
        ensures
            b == self.objects.spec_program_live(program),
    {
        self.objects.program_is_live(program)
    }

    /// Create a program whose vertex shader passes on `n` values,
    /// interpolated as `interpolation` says (see `spec_new_program`). It
    /// takes the slot that a single allocation takes; its name is returned.
    pub fn pgl_create_program(&mut self, n: GLsizei, interpolation: &[GLenum], fragdepth_or_discard: bool) -> (id: GLuint)
        requires
            1 <= old(self).objects.programs@.len() < u32::MAX,
        ensures
            id == first_free(slot_flags(old(self).objects.programs@)),
            final(self).objects.programs@.len() == (if id < old(self).objects.programs@.len() {
                old(self).objects.programs@.len()
            } else {
                old(self).objects.programs@.len() + 1
            }),
            spec_new_program(final(self).objects.programs@[id as int], n, interpolation@, fragdepth_or_discard),
            forall|i: int| 0 <= i < old(self).objects.programs@.len() && i != id ==> #[trigger] final(self).objects.programs@[i]
                == old(self).objects.programs@[i],
            final(self).objects == (GlObjects { programs: final(self).objects.programs, ..old(self).objects }),
            *final(self) == (GlContext { objects: final(self).objects, ..*old(self) }),
    {
        let p = make_program(n, interpolation, fragdepth_or_discard);
        let slot = self.objects.create_program(p);
        proof {
            lemma_first_free(slot_flags(old(self).objects.programs@));
        }
        slot as GLuint
    }

    /// Delete a program; 0 and names past the end of the table are
    /// skipped. Deleting the current program makes program 0 current.
    pub fn gl_delete_program(&mut self, program: GLuint)
        ensures
            program == 0 || program >= old(self).objects.programs@.len() ==> *final(self) == *old(self),
            program != 0 && program < old(self).objects.programs@.len() ==> final(self).objects.programs@ == old(
                self,
            ).objects.programs@.update(
                program as int,
                GlProgram { deleted: true, ..old(self).objects.programs@[program as int] },
            ) && final(self).objects.cur_program == (if old(self).objects.cur_program == program {
                0
            } else {
                old(self).objects.cur_program
            }) && final(self).objects == (GlObjects {
                programs: final(self).objects.programs,
                cur_program: final(self).objects.cur_program,
                ..old(self).objects
            }) && *final(self) == (GlContext { objects: final(self).objects, ..*old(self) }),
    {
        let idx = program as usize;
        if idx == 0 || idx >= self.objects.programs.len() {
            return;
        }
        self.objects.delete_program(idx);
    }

    /// Make a program current, taking over its output count and its
    /// fragment depth flag; a name without a live program records
    /// `GL_INVALID_OPERATION`.
    pub fn gl_use_program(&mut self, program: GLuint)
        ensures
            !old(self).objects.spec_program_live(program) ==> *final(self) == old(self).with_error(
                GL_INVALID_OPERATION,
            ),
            old(self).objects.spec_program_live(program) ==> *final(self) == (GlContext {
                objects: GlObjects { cur_program: program, ..old(self).objects },
                vs_output_size: old(self).objects.programs@[program as int].vs_output_size,
                fragdepth_or_discard: old(self).objects.programs@[program as int].fragdepth_or_discard,
                ..*old(self)
            }),
    {
        if !self.objects.program_is_live(program) {
            self.set_error(GL_INVALID_OPERATION);
            return;
        }
        let (size, flag) = self.objects.program_settings(program as usize);
        self.objects.cur_program = program;
        self.vs_output_size = size;
        self.fragdepth_or_discard = flag;
    }

    /// Take over the output count and fragment depth flag of the current
    /// program before a draw, when it exists.
    pub fn prepare_draw(&mut self)
        ensures
            old(self).objects.cur_program < old(self).objects.programs@.len() ==> *final(self) == (GlContext {
                vs_output_size: old(self).objects.programs@[old(self).objects.cur_program as int].vs_output_size,
                fragdepth_or_discard: old(self).objects.programs@[old(self).objects.cur_program as int].fragdepth_or_discard,
                ..*old(self)
            }),
            old(self).objects.cur_program >= old(self).objects.programs@.len() ==> *final(self) == *old(self),
    {
        let idx = self.objects.cur_program as usize;
        if idx < self.objects.programs.len() {
            let (size, flag) = self.objects.program_settings(idx);
            self.vs_output_size = size;
            self.fragdepth_or_discard = flag;
        }
    }

    /// Describe how attribute `index` of the current vertex array is read:
    /// from the buffer now bound to the array target, with the given layout.
    /// Its enabled flag and divisor are kept. An index past the last
    /// attribute records `GL_INVALID_VALUE`.
    pub fn gl_vertex_attrib_pointer(
        &mut self,
        index: GLuint,
        size: GLint,
        type_: GLenum,
        normalized: bool,
        stride: GLsizei,
        offset: GLsizeiptr,
    )
        requires
            old(self).objects.cur_vertex_array < old(self).objects.vertex_arrays@.len(),
            old(self).objects.bound_buffers@.len() == NUM_BUF_TARGETS,
        ensures
            index >= GL_MAX_VERTEX_ATTRIBS ==> *final(self) == old(self).with_error(GL_INVALID_VALUE),
            index < GL_MAX_VERTEX_ATTRIBS ==> old(self).objects.spec_attrib_replaced(
                final(self).objects,
                index as int,
                GlVertexAttrib {
                    size,
                    type_,
                    normalized,
                    stride,
                    offset,
                    buf: old(self).objects.bound_buffers@[0],
                    ..old(self).objects.spec_attrib(index as int)
                },
            ) && *final(self) == (GlContext { objects: final(self).objects, ..*old(self) }),
    {
        if index as usize >= GL_MAX_VERTEX_ATTRIBS {
            self.set_error(GL_INVALID_VALUE);
            return;
        }
        let mut a = self.objects.current_attrib(index as usize);
        a.size = size;
        a.type_ = type_;
        a.normalized = normalized;
        a.stride = stride;
        a.offset = offset;
        a.buf = self.objects.bound_buffers[0];
        self.objects.set_attrib(index as usize, a);
    }

    /// Set the instance divisor of attribute `index` of the current vertex
    /// array.
    pub fn gl_vertex_attrib_divisor(&mut self, index: GLuint, divisor: GLuint)
        requires
            old(self).objects.cur_vertex_array < old(self).objects.vertex_arrays@.len(),
        ensures
            index >= GL_MAX_VERTEX_ATTRIBS ==> *final(self) == old(self).with_error(GL_INVALID_VALUE),
            index < GL_MAX_VERTEX_ATTRIBS ==> old(self).objects.spec_attrib_replaced(
                final(self).objects,
                index as int,
                GlVertexAttrib { divisor, ..old(self).objects.spec_attrib(index as int) },
            ) && *final(self) == (GlContext { objects: final(self).objects, ..*old(self) }),
    {
        if index as usize >= GL_MAX_VERTEX_ATTRIBS {
            self.set_error(GL_INVALID_VALUE);
            return;
        }
        let mut a = self.objects.current_attrib(index as usize);
        a.divisor = divisor;
        self.objects.set_attrib(index as usize, a);
    }

    /// Switch attribute `index` of the current vertex array on or off.
    fn set_attrib_enabled(&mut self, index: GLuint, enabled: bool)
        requires
            old(self).objects.cur_vertex_array < old(self).objects.vertex_arrays@.len(),
        ensures
            index >= GL_MAX_VERTEX_ATTRIBS ==> *final(self) == old(self).with_error(GL_INVALID_VALUE),
            index < GL_MAX_VERTEX_ATTRIBS ==> old(self).objects.spec_attrib_replaced(
                final(self).objects,
                index as int,
                GlVertexAttrib { enabled, ..old(self).objects.spec_attrib(index as int) },
            ) && *final(self) == (GlContext { objects: final(self).objects, ..*old(self) }),
    {
        if index as usize >= GL_MAX_VERTEX_ATTRIBS {
            self.set_error(GL_INVALID_VALUE);
            return;
        }
        let mut a = self.objects.current_attrib(index as usize);
        a.enabled = enabled;
        self.objects.set_attrib(index as usize, a);
    }

    /// Switch attribute `index` of the current vertex array on.
    pub fn gl_enable_vertex_attrib_array(&mut self, index: GLuint)
        requires
            old(self).objects.cur_vertex_array < old(self).objects.vertex_arrays@.len(),
        ensures
            index >= GL_MAX_VERTEX_ATTRIBS ==> *final(self) == old(self).with_error(GL_INVALID_VALUE),
            index < GL_MAX_VERTEX_ATTRIBS ==> old(self).objects.spec_attrib_replaced(
                final(self).objects,
                index as int,
                GlVertexAttrib { enabled: true, ..old(self).objects.spec_attrib(index as int) },
            ) && *final(self) == (GlContext { objects: final(self).objects, ..*old(self) }),
    {
        self.set_attrib_enabled(index, true);
    }

    /// Switch attribute `index` of the current vertex array off.
    pub fn gl_disable_vertex_attrib_array(&mut self, index: GLuint)
        requires
            old(self).objects.cur_vertex_array < old(self).objects.vertex_arrays@.len(),
        ensures
            index >= GL_MAX_VERTEX_ATTRIBS ==> *final(self) == old(self).with_error(GL_INVALID_VALUE),
            index < GL_MAX_VERTEX_ATTRIBS ==> old(self).objects.spec_attrib_replaced(
                final(self).objects,
                index as int,
                GlVertexAttrib { enabled: false, ..old(self).objects.spec_attrib(index as int) },
            ) && *final(self) == (GlContext { objects: final(self).objects, ..*old(self) }),
    {
        self.set_attrib_enabled(index, false);
    }
}

} // verus!
