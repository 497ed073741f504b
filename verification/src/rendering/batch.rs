//! A batch: one draw call's worth of vertices, indices and texture slots,
//! held in buffers of fixed capacity that are refilled frame after frame.

use vstd::prelude::*;
use crate::rendering::{DrawCall, DrawCallView, Quad, Triangle, Vertex};
use crate::rendering::slots::{
    admit_texture, admit_textures, holds, law_new_textures_take_one_slot_each,
    law_resident_textures_take_no_slot, lemma_admit_contents, lemma_admit_extends,
    lemma_admit_prefix, referenced_textures, textures_needed,
};

verus! {

/// The number of vertices that one batch holds.
pub const BATCH_VERTEX_AMOUNT: usize = 1_000;

// The layout of a vertex record. Sizes and offsets count 32-bit words, those
// that end in `_BYTES` count bytes. The backend binds its vertex attributes
// by these numbers.
pub const POSITION_SIZE: usize = 3;
pub const POSITION_SIZE_BYTES: usize = POSITION_SIZE * 4;
pub const POSITION_OFFSET: usize = 0;
pub const POSITION_OFFSET_BYTES: usize = POSITION_OFFSET * 4;

pub const COLOR_SIZE: usize = 4;
pub const COLOR_SIZE_BYTES: usize = COLOR_SIZE * 4;
pub const COLOR_OFFSET: usize = POSITION_OFFSET + POSITION_SIZE;
pub const COLOR_OFFSET_BYTES: usize = COLOR_OFFSET * 4;

pub const UV_SIZE: usize = 2;
pub const UV_SIZE_BYTES: usize = UV_SIZE * 4;
pub const UV_OFFSET: usize = COLOR_OFFSET + COLOR_SIZE;
pub const UV_OFFSET_BYTES: usize = UV_OFFSET * 4;

pub const TEXTURE_SIZE: usize = 1;
pub const TEXTURE_SIZE_BYTES: usize = TEXTURE_SIZE * 4;
pub const TEXTURE_OFFSET: usize = UV_OFFSET + UV_SIZE;
pub const TEXTURE_OFFSET_BYTES: usize = TEXTURE_OFFSET * 4;

pub const HAS_TEXTURE_SIZE: usize = 1;
pub const HAS_TEXTURE_SIZE_BYTES: usize = HAS_TEXTURE_SIZE * 4;
pub const HAS_TEXTURE_OFFSET: usize = TEXTURE_OFFSET + TEXTURE_SIZE;
pub const HAS_TEXTURE_OFFSET_BYTES: usize = HAS_TEXTURE_OFFSET * 4;

/// The width of one vertex record, in 32-bit words.
pub const VERTEX_SIZE: usize = POSITION_SIZE + COLOR_SIZE + UV_SIZE + TEXTURE_SIZE
    + HAS_TEXTURE_SIZE;
pub const VERTEX_SIZE_BYTES: usize = VERTEX_SIZE * 4;

/// The number of texture slots that one draw call can bind.
pub const MAX_TEXTURES: usize = 16;

/// The number of entries of a batch's index buffer.
pub const BATCH_INDEX_AMOUNT: usize = BATCH_VERTEX_AMOUNT * 6;

/// The word that stands for the has-texture flag: 1 for a textured vertex,
/// 0 for one without texture.
pub open spec fn flag_word(has_texture: bool) -> u32 {
    if has_texture {
        1
    } else {
        0
    }
}

/// The record of one vertex: position, color, UV, texture id and
/// has-texture flag, each at its offset, `VERTEX_SIZE` words in all. The
/// offsets count 32-bit words.
pub open spec fn vertex_words(v: Vertex) -> Seq<u32> {
    seq![
        v.pos.0,
        v.pos.1,
        v.pos.2,
        v.color.0,
        v.color.1,
        v.color.2,
        v.color.3,
        v.uv.0,
        v.uv.1,
        v.texture,
        flag_word(v.has_texture),
    ]
}

/// The records of `points`, one after the other.
pub open spec fn packed(points: Seq<Vertex>) -> Seq<u32>
    decreases points.len(),
{
    if points.len() == 0 {
        Seq::empty()
    } else {
        packed(points.drop_last()) + vertex_words(points.last())
    }
}

/// The content of a batch in its current fill cycle.
pub struct BatchView {
    /// The number of vertex records written.
    pub vertex_count: nat,
    /// The words of those records, in the order written.
    pub vertices: Seq<u32>,
    /// The index entries written.
    pub indices: Seq<u32>,
    /// The texture ids that are resident, by slot.
    pub textures: Seq<u32>,
    /// The triangle counter.
    pub triangles: nat,
    pub vbo: u32,
    pub ibo: u32,
    pub shader: u32,
}

impl BatchView {
    /// The capacity invariant of a batch, and the soundness of its indices:
    /// every index entry refers to a vertex that has been written.
    pub open spec fn valid(self) -> bool {
        &&& self.vertex_count <= BATCH_VERTEX_AMOUNT
        &&& self.vertices.len() == VERTEX_SIZE * self.vertex_count
        &&& self.indices.len() == 3 * self.triangles
        &&& 2 * self.triangles <= self.vertex_count
        &&& self.textures.len() <= MAX_TEXTURES
        &&& self.textures.len() <= self.vertex_count
        &&& self.textures.no_duplicates()
        &&& forall|k: int| 0 <= k < self.indices.len() ==> self.indices[k] < self.vertex_count
    }

    /// A batch without content, for the given shader and GPU buffers.
    pub open spec fn empty(vbo: u32, ibo: u32, shader: u32) -> BatchView {
        BatchView {
            vertex_count: 0,
            vertices: Seq::empty(),
            indices: Seq::empty(),
            textures: Seq::empty(),
            triangles: 0,
            vbo,
            ibo,
            shader,
        }
    }

    /// Whether no vertex has been written.
    pub open spec fn is_empty(self) -> bool {
        self.vertex_count == 0
    }

    /// Whether the vertices `points` fit: there are vertex slots for all of
    /// them, and texture slots for the texture ids that are not resident yet,
    /// each counted once.
    pub open spec fn can_hold(self, points: Seq<Vertex>) -> bool {
        &&& self.vertex_count + points.len() <= BATCH_VERTEX_AMOUNT
        &&& self.textures.len() + textures_needed(self.textures, points) <= MAX_TEXTURES
    }

    /// Whether the three vertices of `triangle` fit.
    pub open spec fn can_hold_triangle(self, triangle: Triangle) -> bool {
        self.can_hold(triangle.points@)
    }

    /// Whether the four vertices of `quad` fit.
    pub open spec fn can_hold_quad(self, quad: Quad) -> bool {
        self.can_hold(quad.points@)
    }

    /// The batch after the record of `v` has been appended and its texture admitted.
    pub open spec fn with_vertex(self, v: Vertex) -> BatchView {
        BatchView {
            vertex_count: self.vertex_count + 1,
            vertices: self.vertices + vertex_words(v),
            textures: admit_texture(self.textures, v),
            ..self
        }
    }

    /// The batch after the records of `points` have been appended and their
    /// textures admitted.
    pub open spec fn with_points(self, points: Seq<Vertex>) -> BatchView {
        BatchView {
            vertex_count: self.vertex_count + points.len(),
            vertices: self.vertices + packed(points),
            textures: admit_textures(self.textures, points),
            ..self
        }
    }

    /// The batch after `triangle` has been pushed: three records, and the
    /// index entries `n, n+1, n+2` for the triangle counter `n`.
    pub open spec fn push_triangle(self, triangle: Triangle) -> BatchView {
        let n = self.triangles;
        BatchView {
            indices: self.indices + seq![n as u32, (n + 1) as u32, (n + 2) as u32],
            triangles: n + 1,
            ..self.with_points(triangle.points@)
        }
    }

    /// The batch after `quad` has been pushed: four records, and the index
    /// entries `n, n+1, n+2, n+2, n+3, n` for the triangle counter `n`.
    pub open spec fn push_quad(self, quad: Quad) -> BatchView {
        let n = self.triangles;
        BatchView {
            indices: self.indices + seq![
                n as u32,
                (n + 1) as u32,
                (n + 2) as u32,
                (n + 2) as u32,
                (n + 3) as u32,
                n as u32,
            ],
            triangles: n + 2,
            ..self.with_points(quad.points@)
        }
    }

    /// The batch after a reset: no content, the same shader and GPU buffers.
    pub open spec fn reset(self) -> BatchView {
        BatchView::empty(self.vbo, self.ibo, self.shader)
    }

    /// The draw call that the batch makes, to `target` if there is one.
    pub open spec fn draw_call(self, target: Option<u32>) -> DrawCallView {
        DrawCallView {
            vertices: self.vertices,
            indices: self.indices,
            textures: self.textures,
            vbo: self.vbo,
            ibo: self.ibo,
            amount: self.triangles * 3,
            shader: self.shader,
            target,
        }
    }
}

/// A fixed-capacity buffer of vertices, indices and texture slots, with the
/// cursors that say how far each is filled.
pub struct RenderBatch {
    vertex_data: Vec<u32>,
    index_data: Vec<u32>,
    texture_data: Vec<u32>,
    vertex_count: usize,
    index_index: usize,
    texture_index: usize,
    triangle_index: usize,
    vbo_id: u32,
    ibo_id: u32,
    shader: u32,
}

impl View for RenderBatch {
    type V = BatchView;

    closed spec fn view(&self) -> BatchView {
        BatchView {
            vertex_count: self.vertex_count as nat,
            vertices: self.vertex_data@.subrange(0, VERTEX_SIZE * self.vertex_count),
            indices: self.index_data@.subrange(0, self.index_index as int),
            textures: self.texture_data@.subrange(0, self.texture_index as int),
            triangles: self.triangle_index as nat,
            vbo: self.vbo_id,
            ibo: self.ibo_id,
            shader: self.shader,
        }
    }
}

/// Record `i` starts at word `VERTEX_SIZE * i`.
pub proof fn lemma_record_offset(i: int)
    ensures
        VERTEX_SIZE == 11,
        VERTEX_SIZE * i == 11 * i,
        i * VERTEX_SIZE == 11 * i,
{
    assert(VERTEX_SIZE == 11);
    assert(VERTEX_SIZE * i == 11 * i && i * VERTEX_SIZE == 11 * i) by (nonlinear_arith)
        requires
            VERTEX_SIZE == 11,
    ;
}

/// The records of `points` take `VERTEX_SIZE` words each.
pub proof fn lemma_packed_len(points: Seq<Vertex>)
    ensures
        packed(points).len() == VERTEX_SIZE * points.len(),
    decreases points.len(),
{
    lemma_record_offset(points.len() as int);
    if points.len() > 0 {
        lemma_record_offset(points.len() - 1);
        lemma_packed_len(points.drop_last());
    }
}

/// The vertex layout: word `k` of the record of vertex `i` stands at place
/// `VERTEX_SIZE * i + k` of the packed records.
pub proof fn law_packed_layout(points: Seq<Vertex>, i: int, k: int)
    requires
        0 <= i < points.len(),
        0 <= k < VERTEX_SIZE,
    ensures
        VERTEX_SIZE * i + k < packed(points).len(),
        packed(points)[VERTEX_SIZE * i + k] == vertex_words(points[i])[k],
    decreases points.len(),
{
    let front = points.drop_last();
    lemma_packed_len(points);
    lemma_packed_len(front);
    lemma_record_offset(i);
    lemma_record_offset(points.len() as int);
    lemma_record_offset(front.len() as int);
    if i < points.len() - 1 {
        law_packed_layout(front, i, k);
    }
}

/// A triangle that was admitted keeps the batch within its capacity: the
/// vertex count and the texture count stay within their limits, and every
/// index entry refers to a vertex that has been written.
pub proof fn law_admitted_triangle_is_sound(batch: BatchView, triangle: Triangle)
    requires
        batch.valid(),
        batch.can_hold_triangle(triangle),
    ensures
        batch.push_triangle(triangle).valid(),
{
    lemma_record_offset(batch.vertex_count as int);
    lemma_record_offset(batch.vertex_count as int + 3);
    lemma_packed_len(triangle.points@);
    lemma_admit_extends(batch.textures, triangle.points@);
    lemma_admit_contents(batch.textures, triangle.points@);
}

/// A quad that was admitted keeps the batch within its capacity: the vertex
/// count and the texture count stay within their limits, and every index
/// entry refers to a vertex that has been written.
pub proof fn law_admitted_quad_is_sound(batch: BatchView, quad: Quad)
    requires
        batch.valid(),
        batch.can_hold_quad(quad),
    ensures
        batch.push_quad(quad).valid(),
{
    lemma_record_offset(batch.vertex_count as int);
    lemma_record_offset(batch.vertex_count as int + 4);
    lemma_packed_len(quad.points@);
    lemma_admit_extends(batch.textures, quad.points@);
    lemma_admit_contents(batch.textures, quad.points@);
}

/// After a quad is pushed, the last six index entries are
/// `n, n+1, n+2, n+2, n+3, n` for the triangle counter `n` from before.
pub proof fn law_quad_indices(batch: BatchView, quad: Quad)
    requires
        batch.valid(),
        batch.can_hold_quad(quad),
    ensures
        ({
            let n = batch.triangles;
            let after = batch.push_quad(quad).indices;
            &&& after.len() == batch.indices.len() + 6
            &&& after.subrange(after.len() - 6, after.len() as int) == seq![
                n as u32,
                (n + 1) as u32,
                (n + 2) as u32,
                (n + 2) as u32,
                (n + 3) as u32,
                n as u32,
            ]
            &&& n + 3 < batch.vertex_count + 4 <= u32::MAX
        }),
{
    let after = batch.push_quad(quad).indices;
    assert(after.subrange(after.len() - 6, after.len() as int) =~= seq![
        batch.triangles as u32,
        (batch.triangles + 1) as u32,
        (batch.triangles + 2) as u32,
        (batch.triangles + 2) as u32,
        (batch.triangles + 3) as u32,
        batch.triangles as u32,
    ]);
}

/// After a triangle is pushed, the last three index entries are
/// `n, n+1, n+2` for the triangle counter `n` from before.
pub proof fn law_triangle_indices(batch: BatchView, triangle: Triangle)
    requires
        batch.valid(),
        batch.can_hold_triangle(triangle),
    ensures
        ({
            let n = batch.triangles;
            let after = batch.push_triangle(triangle).indices;
            &&& after.len() == batch.indices.len() + 3
            &&& after.subrange(after.len() - 3, after.len() as int) == seq![
                n as u32,
                (n + 1) as u32,
                (n + 2) as u32,
            ]
            &&& n + 2 < batch.vertex_count + 3 <= u32::MAX
        }),
{
    let after = batch.push_triangle(triangle).indices;
    assert(after.subrange(after.len() - 3, after.len() as int) =~= seq![
        batch.triangles as u32,
        (batch.triangles + 1) as u32,
        (batch.triangles + 2) as u32,
    ]);
}

/// The vertex limit is exact: with room for the texture ids, a triangle fits
/// if and only if three vertex slots are free, a quad if and only if four
/// are. A batch two slots short of full holds neither.
pub proof fn law_vertex_boundary(batch: BatchView, triangle: Triangle, quad: Quad)
    requires
        batch.valid(),
    ensures
        batch.textures.len() + 3 <= MAX_TEXTURES ==> (batch.can_hold_triangle(triangle)
            <==> batch.vertex_count + 3 <= BATCH_VERTEX_AMOUNT),
        batch.textures.len() + 4 <= MAX_TEXTURES ==> (batch.can_hold_quad(quad)
            <==> batch.vertex_count + 4 <= BATCH_VERTEX_AMOUNT),
        batch.vertex_count == BATCH_VERTEX_AMOUNT - 2 ==> !batch.can_hold_quad(quad)
            && !batch.can_hold_triangle(triangle),
{
    lemma_admit_extends(batch.textures, triangle.points@);
    lemma_admit_extends(batch.textures, quad.points@);
}

/// An empty batch holds any one primitive: any triangle and any quad.
pub proof fn law_empty_batch_holds_any(batch: BatchView, points: Seq<Vertex>)
    requires
        batch.valid(),
        batch.is_empty(),
        points.len() <= 4,
    ensures
        batch.can_hold(points),
{
    lemma_admit_extends(batch.textures, points);
}

/// An empty batch holds nothing at all: a reset leaves it as it is.
pub proof fn law_empty_batch_is_reset(batch: BatchView)
    requires
        batch.valid(),
        batch.is_empty(),
    ensures
        batch == batch.reset(),
{
    lemma_record_offset(0);
    assert(batch.vertices =~= Seq::empty());
    assert(batch.indices =~= Seq::empty());
    assert(batch.textures =~= Seq::empty());
}

/// Texture slots are taken once for each texture id: a primitive whose
/// textures are all resident takes none, however often it names them, and
/// any primitive takes as many as it names distinct ids that are not
/// resident.
pub proof fn law_texture_slots(batch: BatchView, triangle: Triangle, quad: Quad)
    requires
        batch.valid(),
    ensures
        batch.push_triangle(triangle).textures.len() == batch.textures.len()
            + referenced_textures(triangle.points@).difference(batch.textures.to_set()).len(),
        batch.push_quad(quad).textures.len() == batch.textures.len() + referenced_textures(
            quad.points@,
        ).difference(batch.textures.to_set()).len(),
        (forall|i: int|
            0 <= i < 3 && (#[trigger] triangle.points@[i]).has_texture ==> batch.textures.contains(
                triangle.points@[i].texture,
            )) ==> batch.push_triangle(triangle).textures == batch.textures,
        (forall|i: int|
            0 <= i < 4 && (#[trigger] quad.points@[i]).has_texture ==> batch.textures.contains(
                quad.points@[i].texture,
            )) ==> batch.push_quad(quad).textures == batch.textures,
{
    law_new_textures_take_one_slot_each(batch.textures, triangle.points@);
    law_new_textures_take_one_slot_each(batch.textures, quad.points@);
    lemma_admit_extends(batch.textures, triangle.points@);
    lemma_admit_extends(batch.textures, quad.points@);
    if forall|i: int|
        0 <= i < 3 && (#[trigger] triangle.points@[i]).has_texture ==> batch.textures.contains(
            triangle.points@[i].texture,
        ) {
        law_resident_textures_take_no_slot(batch.textures, triangle.points@);
    }
    if forall|i: int|
        0 <= i < 4 && (#[trigger] quad.points@[i]).has_texture ==> batch.textures.contains(
            quad.points@[i].texture,
        ) {
        law_resident_textures_take_no_slot(batch.textures, quad.points@);
    }
}

/// Triangles without texture fill an empty batch up to the last whole
/// triangle: one that holds `count` of them and nothing else takes another
/// if and only if `count` is less than a third of the vertex limit.
pub proof fn law_triangles_fill_a_batch(batch: BatchView, triangle: Triangle, count: nat)
    requires
        batch.valid(),
        batch.vertex_count == 3 * count,
        forall|i: int| 0 <= i < 3 ==> !(#[trigger] triangle.points@[i]).has_texture,
    ensures
        batch.can_hold_triangle(triangle) <==> count < BATCH_VERTEX_AMOUNT / 3,
        BATCH_VERTEX_AMOUNT / 3 == 333,
{
    law_resident_textures_take_no_slot(batch.textures, triangle.points@);
}

/// The first `n` entries of `data`, copied.
fn copy_prefix(data: &Vec<u32>, n: usize) -> (out: Vec<u32>)
    requires
        n <= data@.len(),
    ensures
        out@ == data@.subrange(0, n as int),
{
    let mut out: Vec<u32> = Vec::new();
    let mut i: usize = 0;
    while i < n
        invariant
            i <= n <= data@.len(),
            out@ == data@.subrange(0, i as int),
        decreases n - i,
    {
        out.push(data[i]);
        i += 1;
    }
    out
}

impl RenderBatch {
    /// The buffers have their fixed lengths and the cursors lie within them.
    pub closed spec fn storage_ok(&self) -> bool {
        &&& self.vertex_data@.len() == VERTEX_SIZE * BATCH_VERTEX_AMOUNT
        &&& self.index_data@.len() == BATCH_INDEX_AMOUNT
        &&& self.texture_data@.len() == MAX_TEXTURES
        &&& self.vertex_count <= BATCH_VERTEX_AMOUNT
        &&& self.index_index <= BATCH_INDEX_AMOUNT
        &&& self.texture_index <= MAX_TEXTURES
    }

    /// The whole of the three buffers, filled or not.
    pub closed spec fn storage(&self) -> (Seq<u32>, Seq<u32>, Seq<u32>) {
        (self.vertex_data@, self.index_data@, self.texture_data@)
    }

    /// The batch is in order: its storage is, and its content is valid.
    pub open spec fn wf(&self) -> bool {
        self.storage_ok() && self@.valid()
    }

    /// An empty batch for `shader`, with no GPU buffers bound yet (handle 0).
    pub fn new(shader: u32) -> (batch: Self)
        ensures
            batch.wf(),
            batch@ == BatchView::empty(0, 0, shader),
    {
        let batch = RenderBatch {
            vertex_data: vec![0u32; VERTEX_SIZE * BATCH_VERTEX_AMOUNT],
            index_data: vec![0u32; BATCH_INDEX_AMOUNT],
            texture_data: vec![0u32; MAX_TEXTURES],
            vertex_count: 0,
            index_index: 0,
            texture_index: 0,
            triangle_index: 0,
            vbo_id: 0,
            ibo_id: 0,
            shader,
        };
        proof {
            lemma_record_offset(0);
            assert(batch@.vertices =~= Seq::empty());
            assert(batch@.indices =~= Seq::empty());
            assert(batch@.textures =~= Seq::empty());
        }
        batch
    }

    /// Binds the GPU buffers that the batch's draw calls name.
    pub fn set_buffers(&mut self, vbo_id: u32, ibo_id: u32)
        ensures
            final(self)@ == (BatchView { vbo: vbo_id, ibo: ibo_id, ..old(self)@ }),
            final(self).storage() == old(self).storage(),
            old(self).wf() ==> final(self).wf(),
    {
        self.vbo_id = vbo_id;
        self.ibo_id = ibo_id;
    }

    /// Whether the texture `id` is resident.
    fn has_texture(&self, id: u32) -> (found: bool)
        requires
            self.wf(),
        ensures
            found == self@.textures.contains(id),
    {
        holds(&self.texture_data, self.texture_index, id)
    }

    /// The number of texture slots that `points` need beyond the resident ones.
    fn count_new_textures(&self, points: &[Vertex]) -> (needed: usize)
        requires
            self.wf(),
        ensures
            needed == textures_needed(self@.textures, points@),
    {
        let mut seen: Vec<u32> = Vec::new();
        let mut i: usize = 0;
        while i < points.len()
            invariant
                self.wf(),
                i <= points@.len(),
                seen@.len() <= i,
                self@.textures + seen@ == admit_textures(self@.textures, points@.take(i as int)),
            decreases points@.len() - i,
        {
            let vertex = points[i];
            let ghost old_seen = seen@;
            let ghost before = self@.textures + seen@;
            if vertex.has_texture {
                let known = holds(&seen, seen.len(), vertex.texture);
                assert(seen@.subrange(0, seen@.len() as int) == seen@);
                if !known && !self.has_texture(vertex.texture) {
                    seen.push(vertex.texture);
                    assert(self@.textures + seen@ == before.push(vertex.texture));
                }
            }
            proof {
                let id = vertex.texture;
                if before.contains(id) {
                    let j = choose|j: int| 0 <= j < before.len() && before[j] == id;
                    if j < self@.textures.len() {
                        assert(self@.textures[j] == id);
                    } else {
                        assert(old_seen[j - self@.textures.len()] == id);
                    }
                }
                if self@.textures.contains(id) {
                    let j = choose|j: int| 0 <= j < self@.textures.len() && self@.textures[j] == id;
                    assert(before[j] == id);
                }
                if old_seen.contains(id) {
                    let j = choose|j: int| 0 <= j < old_seen.len() && old_seen[j] == id;
                    assert(before[self@.textures.len() + j] == id);
                }
                assert(points@.take(i + 1).drop_last() == points@.take(i as int));
                assert(points@.take(i + 1).last() == vertex);
            }
            i += 1;
        }
        assert(points@.take(i as int) == points@);
        seen.len()
    }

    /// Whether `points` fit into the batch.
    fn can_hold(&self, points: &[Vertex]) -> (fits: bool)
        requires
            self.wf(),
            points@.len() <= 4,
        ensures
            fits == self@.can_hold(points@),
    {
        if self.vertex_count + points.len() > BATCH_VERTEX_AMOUNT {
            return false;
        }
        let needed = self.count_new_textures(points);
        proof {
            lemma_admit_extends(self@.textures, points@);
        }
        if self.texture_index + needed > MAX_TEXTURES {
            return false;
        }
        true
    }

    /// Whether the batch has room for `triangle`: three vertex slots, and a
    /// texture slot for each of its texture ids that is not resident yet.
    pub fn can_hold_triangle(&self, triangle: &Triangle) -> (fits: bool)
        requires
            self.wf(),
        ensures
            fits == self@.can_hold_triangle(*triangle),
    {
        self.can_hold(triangle.points.as_slice())
    }

    /// Whether the batch has room for `quad`: four vertex slots, and a texture
    /// slot for each of its texture ids that is not resident yet.
    pub fn can_hold_quad(&self, quad: &Quad) -> (fits: bool)
        requires
            self.wf(),
        ensures
            fits == self@.can_hold_quad(*quad),
    {
        self.can_hold(quad.points.as_slice())
    }

    /// Writes the record of `vertex` at the vertex cursor, makes its texture
    /// resident if it is not, and moves the cursors on.
    fn push_vertex(&mut self, vertex: Vertex)
        requires
            old(self).wf(),
            old(self)@.vertex_count < BATCH_VERTEX_AMOUNT,
            admit_texture(old(self)@.textures, vertex).len() <= MAX_TEXTURES,
        ensures
            final(self).wf(),
            final(self)@ == old(self)@.with_vertex(vertex),
    {
        proof {
            lemma_record_offset(self.vertex_count as int);
            lemma_record_offset(self.vertex_count + 1);
            lemma_record_offset(BATCH_VERTEX_AMOUNT as int);
        }
        let base: usize = self.vertex_count * VERTEX_SIZE;
        self.vertex_data[base + POSITION_OFFSET] = vertex.pos.0;
        self.vertex_data[base + POSITION_OFFSET + 1] = vertex.pos.1;
        self.vertex_data[base + POSITION_OFFSET + 2] = vertex.pos.2;
        self.vertex_data[base + COLOR_OFFSET] = vertex.color.0;
        self.vertex_data[base + COLOR_OFFSET + 1] = vertex.color.1;
        self.vertex_data[base + COLOR_OFFSET + 2] = vertex.color.2;
        self.vertex_data[base + COLOR_OFFSET + 3] = vertex.color.3;
        self.vertex_data[base + UV_OFFSET] = vertex.uv.0;
        self.vertex_data[base + UV_OFFSET + 1] = vertex.uv.1;
        self.vertex_data[base + TEXTURE_OFFSET] = vertex.texture;
        self.vertex_data[base + HAS_TEXTURE_OFFSET] = if vertex.has_texture {
            1
        } else {
            0
        };
        self.vertex_count += 1;
        if vertex.has_texture && !holds(&self.texture_data, self.texture_index, vertex.texture) {
            self.texture_data[self.texture_index] = vertex.texture;
            self.texture_index += 1;
        }
        proof {
            let goal = old(self)@.with_vertex(vertex);
            assert(self@.vertices =~= goal.vertices);
            assert(self@.textures =~= goal.textures);
            assert(self@.indices =~= goal.indices);
            assert(goal.textures.no_duplicates());
        }
    }

    /// Writes the records of `points` one after the other.
    fn push_points(&mut self, points: &[Vertex])
        requires
            old(self).wf(),
            old(self)@.can_hold(points@),
        ensures
            final(self).wf(),
            final(self)@ == old(self)@.with_points(points@),
    {
        let mut i: usize = 0;
        assert(points@.take(0) =~= Seq::empty());
        assert(self@.vertices + packed(points@.take(0)) =~= self@.vertices);
        while i < points.len()
            invariant
                i <= points@.len(),
                old(self)@.can_hold(points@),
                self.wf(),
                self@ == old(self)@.with_points(points@.take(i as int)),
            decreases points@.len() - i,
        {
            proof {
                lemma_admit_prefix(old(self)@.textures, points@, i + 1);
                lemma_admit_extends(old(self)@.textures, points@);
                assert(points@.take(i + 1).drop_last() == points@.take(i as int));
                assert(points@.take(i + 1).last() == points@[i as int]);
            }
            self.push_vertex(points[i]);
            proof {
                let goal = old(self)@.with_points(points@.take(i + 1));
                assert(self@.vertices =~= goal.vertices);
            }
            i += 1;
        }
        assert(points@.take(i as int) == points@);
    }

    /// Appends `triangle`: its three vertex records, those of its texture ids
    /// that were not resident, and the index entries `n, n+1, n+2` for the
    /// triangle counter `n`. The batch must have room for it.
    pub fn push_triangle(&mut self, triangle: Triangle)
        requires
            old(self).wf(),
            old(self)@.can_hold_triangle(triangle),
        ensures
            final(self).wf(),
            final(self)@ == old(self)@.push_triangle(triangle),
    {
        self.push_points(triangle.points.as_slice());
        let n: u32 = self.triangle_index as u32;
        self.index_data[self.index_index] = n;
        self.index_data[self.index_index + 1] = n + 1;
        self.index_data[self.index_index + 2] = n + 2;
        self.index_index += 3;
        self.triangle_index += 1;
        proof {
            let goal = old(self)@.push_triangle(triangle);
            assert(self@.indices =~= goal.indices);
        }
    }

    /// Appends `quad`: its four vertex records, those of its texture ids that
    /// were not resident, and the index entries `n, n+1, n+2, n+2, n+3, n`
    /// for the triangle counter `n`. The batch must have room for it.
    pub fn push_quad(&mut self, quad: Quad)
        requires
            old(self).wf(),
            old(self)@.can_hold_quad(quad),
        ensures
            final(self).wf(),
            final(self)@ == old(self)@.push_quad(quad),
    {
        self.push_points(quad.points.as_slice());
        let n: u32 = self.triangle_index as u32;
        self.index_data[self.index_index] = n;
        self.index_data[self.index_index + 1] = n + 1;
        self.index_data[self.index_index + 2] = n + 2;
        self.index_data[self.index_index + 3] = n + 2;
        self.index_data[self.index_index + 4] = n + 3;
        self.index_data[self.index_index + 5] = n;
        self.index_index += 6;
        self.triangle_index += 2;
        proof {
            let goal = old(self)@.push_quad(quad);
            assert(self@.indices =~= goal.indices);
        }
    }

    /// Empties the batch: all four cursors go back to zero. The buffers keep
    /// what they hold, and the GPU buffers stay bound.
    pub fn prepare_batch(&mut self)
        ensures
            final(self)@ == old(self)@.reset(),
            final(self).storage() == old(self).storage(),
            old(self).wf() ==> final(self).wf(),
    {
        self.vertex_count = 0;
        self.index_index = 0;
        self.triangle_index = 0;
        self.texture_index = 0;
        proof {
            lemma_record_offset(0);
            assert(self@.vertices =~= Seq::empty());
            assert(self@.indices =~= Seq::empty());
            assert(self@.textures =~= Seq::empty());
        }
    }

    /// The draw call for what the batch holds, to `target` if there is one.
    fn call(&self, target: Option<u32>) -> (call: DrawCall)
        requires
            self.wf(),
        ensures
            call@ == self@.draw_call(target),
    {
        proof {
            lemma_record_offset(self.vertex_count as int);
            lemma_record_offset(BATCH_VERTEX_AMOUNT as int);
        }
        DrawCall {
            vertices: copy_prefix(&self.vertex_data, self.vertex_count * VERTEX_SIZE),
            indices: copy_prefix(&self.index_data, self.index_index),
            textures: copy_prefix(&self.texture_data, self.texture_index),
            vbo: self.vbo_id,
            ibo: self.ibo_id,
            amount: (self.triangle_index * 3) as u32,
            shader: self.shader,
            target,
        }
    }

    /// Hands out the draw call for what the batch holds, to the default
    /// framebuffer, and empties the batch.
    pub fn draw(&mut self) -> (call: DrawCall)
        requires
            old(self).wf(),
        ensures
            call@ == old(self)@.draw_call(None),
            final(self)@ == old(self)@.reset(),
            final(self).storage() == old(self).storage(),
            final(self).wf(),
    {
        let call = self.call(None);
        self.prepare_batch();
        call
    }

    /// Hands out the draw call for what the batch holds, to the offscreen
    /// target `target`, and empties the batch.
    pub fn draw_to_target(&mut self, target: u32) -> (call: DrawCall)
        requires
            old(self).wf(),
        ensures
            call@ == old(self)@.draw_call(Some(target)),
            final(self)@ == old(self)@.reset(),
            final(self).storage() == old(self).storage(),
            final(self).wf(),
    {
        let call = self.call(Some(target));
        self.prepare_batch();
        call
    }

    /// The vertex cursor: the number of words of the vertex buffer that are
    /// filled, which is the width of one record for each vertex written since
    /// the last reset.
    pub fn vertex_index(&self) -> (n: usize)
        requires
            self.wf(),
        ensures
            n == VERTEX_SIZE * self@.vertex_count,
            n == self@.vertices.len(),
    {
        proof {
            lemma_record_offset(self.vertex_count as int);
            lemma_record_offset(BATCH_VERTEX_AMOUNT as int);
        }
        self.vertex_count * VERTEX_SIZE
    }

    /// The number of vertices written since the last reset.
    pub fn vertex_count(&self) -> (n: usize)
        ensures
            n == self@.vertex_count,
    {
        self.vertex_count
    }

    /// The number of index entries written since the last reset.
    pub fn index_index(&self) -> (n: usize)
        requires
            self.wf(),
        ensures
            n == self@.indices.len(),
    {
        self.index_index
    }

    /// The number of texture slots in use.
    pub fn texture_index(&self) -> (n: usize)
        requires
            self.wf(),
        ensures
            n == self@.textures.len(),
    {
        self.texture_index
    }

    /// The triangle counter.
    pub fn triangle_index(&self) -> (n: usize)
        ensures
            n == self@.triangles,
    {
        self.triangle_index
    }

    /// The handles of the vertex and the index buffer on the GPU; 0 where
    /// none is bound.
    pub fn buffers(&self) -> (handles: (u32, u32))
        ensures
            handles == (self@.vbo, self@.ibo),
    {
        (self.vbo_id, self.ibo_id)
    }

    /// Whether no vertex has been written since the last reset.
    pub fn is_empty(&self) -> (empty: bool)
        ensures
            empty == self@.is_empty(),
    {
        self.vertex_count == 0
    }
}

} // verus!
