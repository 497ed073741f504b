//! The render controller: a sink for any number of primitives, spread over
//! a growing list of batches, and the draw pass that empties them.

use vstd::prelude::*;
use crate::rendering::{DrawCall, DrawCallView, Quad, Triangle};
use crate::rendering::batch::{
    law_admitted_quad_is_sound, law_admitted_triangle_is_sound, law_empty_batch_holds_any,
    law_empty_batch_is_reset, law_triangles_fill_a_batch, BatchView, RenderBatch,
    BATCH_VERTEX_AMOUNT,
};

verus! {

/// A controller as mathematical data: its batches in the order in which they
/// are drawn, and the place of the batch that is being filled.
pub struct ControllerView {
    pub batches: Seq<BatchView>,
    pub batch_index: nat,
    pub default_shader: u32,
}

/// The draw calls that a pass over `batches` makes: one for each batch that
/// is not empty, in the order of the batches.
pub open spec fn frame_calls(batches: Seq<BatchView>, target: Option<u32>) -> Seq<DrawCallView>
    decreases batches.len(),
{
    if batches.len() == 0 {
        Seq::empty()
    } else {
        let front = frame_calls(batches.drop_last(), target);
        if batches.last().is_empty() {
            front
        } else {
            front.push(batches.last().draw_call(target))
        }
    }
}

/// The draw calls of `calls` as mathematical data.
pub open spec fn call_views(calls: Seq<DrawCall>) -> Seq<DrawCallView> {
    calls.map_values(|call: DrawCall| call@)
}

impl ControllerView {
    /// There is a batch being filled, every batch is valid, and the batches
    /// behind the one being filled are empty.
    pub open spec fn valid(self) -> bool {
        &&& self.batch_index < self.batches.len()
        &&& forall|i: int| 0 <= i < self.batches.len() ==> (#[trigger] self.batches[i]).valid()
        &&& forall|i: int|
            self.batch_index < i < self.batches.len() ==> (#[trigger] self.batches[i]).is_empty()
    }

    /// A controller with one empty batch.
    pub open spec fn fresh(default_shader: u32) -> ControllerView {
        ControllerView {
            batches: seq![BatchView::empty(0, 0, default_shader)],
            batch_index: 0,
            default_shader,
        }
    }

    /// The batch that is being filled.
    pub open spec fn current(self) -> BatchView {
        self.batches[self.batch_index as int]
    }

    /// The controller after a new empty batch has been appended and the next
    /// batch has become the one being filled. While the batches grow for the
    /// first time the next batch is the new one; after a draw pass it is one
    /// that the pass has emptied, and the new one waits at the end.
    pub open spec fn spill(self) -> ControllerView {
        ControllerView {
            batches: self.batches.push(BatchView::empty(0, 0, self.default_shader)),
            batch_index: self.batch_index + 1,
            ..self
        }
    }

    /// The controller after `triangle` has been pushed: into the batch being
    /// filled if it has room, else into the next batch after a spill.
    pub open spec fn push_triangle(self, triangle: Triangle) -> ControllerView {
        let at = if self.current().can_hold_triangle(triangle) {
            self
        } else {
            self.spill()
        };
        ControllerView {
            batches: at.batches.update(
                at.batch_index as int,
                at.current().push_triangle(triangle),
            ),
            ..at
        }
    }

    /// The controller after `quad` has been pushed: into the batch being
    /// filled if it has room, else into the next batch after a spill.
    pub open spec fn push_quad(self, quad: Quad) -> ControllerView {
        let at = if self.current().can_hold_quad(quad) {
            self
        } else {
            self.spill()
        };
        ControllerView {
            batches: at.batches.update(at.batch_index as int, at.current().push_quad(quad)),
            ..at
        }
    }

    /// The controller after the triangles of `triangles` have been pushed in order.
    pub open spec fn push_triangles(self, triangles: Seq<Triangle>) -> ControllerView
        decreases triangles.len(),
    {
        if triangles.len() == 0 {
            self
        } else {
            self.push_triangles(triangles.drop_last()).push_triangle(triangles.last())
        }
    }

    /// The controller after a draw pass: the same batches, all empty, and the
    /// first of them being filled.
    pub open spec fn after_draw(self) -> ControllerView {
        ControllerView {
            batches: self.batches.map_values(|batch: BatchView| batch.reset()),
            batch_index: 0,
            ..self
        }
    }
}

/// A pass over batches that are all empty makes no draw call.
pub proof fn law_idle_pass_draws_nothing(batches: Seq<BatchView>, target: Option<u32>)
    requires
        forall|i: int| 0 <= i < batches.len() ==> (#[trigger] batches[i]).is_empty(),
    ensures
        frame_calls(batches, target).len() == 0,
    decreases batches.len(),
{
    if batches.len() > 0 {
        let front = batches.drop_last();
        assert forall|i: int| 0 <= i < front.len() implies (#[trigger] front[i]).is_empty() by {
            assert(front[i] == batches[i]);
        }
        law_idle_pass_draws_nothing(front, target);
        assert(batches.last() == batches[batches.len() - 1]);
    }
}

/// A pass makes one draw call at most for each batch, and exactly one for
/// each where none is empty.
pub proof fn law_pass_draws_each_batch_once(batches: Seq<BatchView>, target: Option<u32>)
    ensures
        frame_calls(batches, target).len() <= batches.len(),
        (forall|i: int| 0 <= i < batches.len() ==> !(#[trigger] batches[i]).is_empty())
            ==> frame_calls(batches, target) == batches.map_values(
            |batch: BatchView| batch.draw_call(target),
        ),
    decreases batches.len(),
{
    if batches.len() > 0 {
        let front = batches.drop_last();
        law_pass_draws_each_batch_once(front, target);
        if forall|i: int| 0 <= i < batches.len() ==> !(#[trigger] batches[i]).is_empty() {
            assert forall|i: int| 0 <= i < front.len() implies !(#[trigger] front[i]).is_empty() by {
                assert(front[i] == batches[i]);
            }
            assert(batches.last() == batches[batches.len() - 1]);
            assert(frame_calls(batches, target) =~= batches.map_values(
                |batch: BatchView| batch.draw_call(target),
            ));
        }
    } else {
        assert(frame_calls(batches, target) =~= batches.map_values(
            |batch: BatchView| batch.draw_call(target),
        ));
    }
}

/// A push of a triangle keeps the controller valid, whether it spills or not.
pub proof fn law_push_triangle_keeps_valid(controller: ControllerView, triangle: Triangle)
    requires
        controller.valid(),
    ensures
        controller.push_triangle(triangle).valid(),
{
    let spilled = controller.spill();
    law_empty_batch_holds_any(spilled.current(), triangle.points@);
    if controller.current().can_hold_triangle(triangle) {
        law_admitted_triangle_is_sound(controller.current(), triangle);
    } else {
        law_admitted_triangle_is_sound(spilled.current(), triangle);
    }
}

/// A push of a quad keeps the controller valid, whether it spills or not.
pub proof fn law_push_quad_keeps_valid(controller: ControllerView, quad: Quad)
    requires
        controller.valid(),
    ensures
        controller.push_quad(quad).valid(),
{
    let spilled = controller.spill();
    law_empty_batch_holds_any(spilled.current(), quad.points@);
    if controller.current().can_hold_quad(quad) {
        law_admitted_quad_is_sound(controller.current(), quad);
    } else {
        law_admitted_quad_is_sound(spilled.current(), quad);
    }
}

/// Overflow spills: a triangle that the batch being filled cannot hold goes
/// into the next batch, which then holds this triangle and nothing else; one
/// more batch stands at the end, and the batches up to the one that was
/// being filled stay as they are. A triangle that fits changes that batch
/// alone.
pub proof fn law_overflow_spills(controller: ControllerView, triangle: Triangle)
    requires
        controller.valid(),
    ensures
        ({
            let after = controller.push_triangle(triangle);
            let at = controller.batch_index as int;
            if controller.current().can_hold_triangle(triangle) {
                &&& after.batch_index == at
                &&& after.batches == controller.batches.update(
                    at,
                    controller.current().push_triangle(triangle),
                )
            } else {
                &&& after.batch_index == at + 1
                &&& after.batches.len() == controller.batches.len() + 1
                &&& after.batches[at + 1].vertex_count == 3
                &&& after.batches[at + 1].triangles == 1
                &&& after.batches[at + 1].reset().push_triangle(triangle) == after.batches[at + 1]
                &&& forall|i: int| 0 <= i <= at ==> after.batches[i] == controller.batches[i]
            }
        }),
{
    if !controller.current().can_hold_triangle(triangle) {
        let spilled = controller.spill();
        let next = spilled.current();
        law_empty_batch_is_reset(next);
        let after = controller.push_triangle(triangle);
        assert(after.batches[controller.batch_index as int + 1] == next.push_triangle(triangle));
        assert(next.push_triangle(triangle).reset() == next);
    }
}

/// Triangles without texture, pushed into a fresh controller, fill one batch
/// after the other: with `full` times a third of the vertex limit and `rest`
/// more of them, `rest` being one at least and a third of the limit at most,
/// there are `full` batches holding a third of the limit each and one batch
/// more holding `rest`.
pub proof fn law_triangles_spread_over_batches(
    default_shader: u32,
    triangles: Seq<Triangle>,
    full: nat,
    rest: nat,
)
    requires
        forall|k: int, i: int|
            0 <= k < triangles.len() && 0 <= i < 3 ==> !(#[trigger] triangles[k].points@[i]).has_texture,
        triangles.len() == (BATCH_VERTEX_AMOUNT / 3) * full + rest,
        1 <= rest <= BATCH_VERTEX_AMOUNT / 3,
    ensures
        ({
            let after = ControllerView::fresh(default_shader).push_triangles(triangles);
            &&& after.valid()
            &&& after.default_shader == default_shader
            &&& after.batches.len() == full + 1
            &&& after.batch_index == full
            &&& forall|j: int|
                0 <= j < full ==> (#[trigger] after.batches[j]).triangles == BATCH_VERTEX_AMOUNT / 3
            &&& after.batches[full as int].triangles == rest
            &&& forall|j: int|
                0 <= j <= full ==> (#[trigger] after.batches[j]).vertex_count == 3
                    * after.batches[j].triangles
        }),
    decreases triangles.len(),
{
    let fresh = ControllerView::fresh(default_shader);
    let front = triangles.drop_last();
    let last = triangles.last();
    let after = fresh.push_triangles(triangles);
    assert forall|i: int| 0 <= i < 3 implies !(#[trigger] last.points@[i]).has_texture by {
        assert(!triangles[triangles.len() - 1].points@[i].has_texture);
    }
    if triangles.len() == 1 {
        assert(full == 0) by (nonlinear_arith)
            requires
                333 * full + rest == 1,
                rest >= 1,
        ;
        assert(front.len() == 0);
        assert(fresh.push_triangles(front) == fresh);
        law_empty_batch_holds_any(fresh.current(), last.points@);
        law_push_triangle_keeps_valid(fresh, last);
    } else {
        assert forall|k: int, i: int| 0 <= k < front.len() && 0 <= i < 3 implies !(
        #[trigger] front[k].points@[i]).has_texture by {
            assert(!triangles[k].points@[i].has_texture);
        }
        if rest > 1 {
            law_triangles_spread_over_batches(default_shader, front, full, (rest - 1) as nat);
            let before = fresh.push_triangles(front);
            law_triangles_fill_a_batch(before.current(), last, (rest - 1) as nat);
            law_push_triangle_keeps_valid(before, last);
            assert(after == before.push_triangle(last));
        } else {
            assert(full >= 1) by (nonlinear_arith)
                requires
                    333 * full + rest > 1,
                    rest == 1,
            ;
            assert(front.len() == 333 * (full - 1) + 333) by (nonlinear_arith)
                requires
                    front.len() + 1 == 333 * full + 1,
                    full >= 1,
            ;
            law_triangles_spread_over_batches(default_shader, front, (full - 1) as nat, 333);
            let before = fresh.push_triangles(front);
            law_triangles_fill_a_batch(before.current(), last, 333);
            law_push_triangle_keeps_valid(before, last);
            assert(after == before.push_triangle(last));
            let spilled = before.spill();
            assert(spilled.current() == BatchView::empty(0, 0, default_shader));
        }
    }
}

/// Owns the batches of a frame and routes each primitive to one of them.
pub struct RenderController {
    default_shader: u32,
    batches: Vec<RenderBatch>,
    batch_index: usize,
}

impl View for RenderController {
    type V = ControllerView;

    closed spec fn view(&self) -> ControllerView {
        ControllerView {
            batches: self.batches@.map_values(|batch: RenderBatch| batch@),
            batch_index: self.batch_index as nat,
            default_shader: self.default_shader,
        }
    }
}

impl RenderController {
    /// Every batch's storage is in order.
    pub closed spec fn storage_ok(&self) -> bool {
        forall|i: int| 0 <= i < self.batches@.len() ==> (#[trigger] self.batches@[i]).storage_ok()
    }

    /// The controller is in order: the storage of its batches is, and its
    /// content is valid.
    pub open spec fn wf(&self) -> bool {
        self.storage_ok() && self@.valid()
    }

    /// What the model says of the batches holds of the batches themselves.
    proof fn lemma_batches(&self)
        requires
            self.wf(),
        ensures
            self@.batches.len() == self.batches@.len(),
            self.batch_index < self.batches@.len(),
            forall|i: int|
                0 <= i < self.batches@.len() ==> (#[trigger] self.batches@[i]).wf()
                    && self.batches@[i]@ == self@.batches[i],
    {
        assert forall|i: int| 0 <= i < self.batches@.len() implies (#[trigger] self.batches@[i]).wf()
            && self.batches@[i]@ == self@.batches[i] by {
            assert(self@.batches[i].valid());
        }
    }

    /// A controller with one empty batch, whose batches draw with `default_shader`.
    pub fn new(default_shader: u32) -> (controller: Self)
        ensures
            controller.wf(),
            controller@ == ControllerView::fresh(default_shader),
    {
        let mut batches: Vec<RenderBatch> = Vec::new();
        batches.push(RenderBatch::new(default_shader));
        let controller = RenderController { default_shader, batches, batch_index: 0 };
        assert(controller@.batches =~= ControllerView::fresh(default_shader).batches);
        controller
    }

    /// Drops every batch and starts again with one empty batch.
    pub fn setup(&mut self)
        ensures
            final(self).wf(),
            final(self)@ == ControllerView::fresh(old(self)@.default_shader),
    {
        let mut batches: Vec<RenderBatch> = Vec::new();
        batches.push(RenderBatch::new(self.default_shader));
        self.batches = batches;
        self.batch_index = 0;
        assert(self@.batches =~= ControllerView::fresh(self.default_shader).batches);
    }

    /// Appends an empty batch and makes the next batch the one being filled.
    fn spill(&mut self)
        requires
            old(self).wf(),
        ensures
            final(self).wf(),
            final(self)@ == old(self)@.spill(),
    {
        proof {
            self.lemma_batches();
            assert(self.batch_index < self.batches.len());
        }
        self.batches.push(RenderBatch::new(self.default_shader));
        self.batch_index += 1;
        assert(self@.batches =~= old(self)@.spill().batches);
    }

    /// Pushes `triangle` into the batch being filled; if that batch has no
    /// room for it, a new batch is appended first and the triangle goes into
    /// the next batch.
    pub fn push_triangle(&mut self, triangle: Triangle)
        requires
            old(self).wf(),
        ensures
            final(self).wf(),
            final(self)@ == old(self)@.push_triangle(triangle),
    {
        proof {
            self.lemma_batches();
        }
        if !self.batches[self.batch_index].can_hold_triangle(&triangle) {
            self.spill();
            proof {
                self.lemma_batches();
                law_empty_batch_holds_any(self@.current(), triangle.points@);
            }
        }
        let ghost at = self@;
        self.batches[self.batch_index].push_triangle(triangle);
        assert(self@.batches =~= at.batches.update(
            at.batch_index as int,
            at.current().push_triangle(triangle),
        ));
    }

    /// Pushes `quad` into the batch being filled; if that batch has no room
    /// for it, a new batch is appended first and the quad goes into the next
    /// batch.
    pub fn push_quad(&mut self, quad: Quad)
        requires
            old(self).wf(),
        ensures
            final(self).wf(),
            final(self)@ == old(self)@.push_quad(quad),
    {
        proof {
            self.lemma_batches();
        }
        if !self.batches[self.batch_index].can_hold_quad(&quad) {
            self.spill();
            proof {
                self.lemma_batches();
                law_empty_batch_holds_any(self@.current(), quad.points@);
            }
        }
        let ghost at = self@;
        self.batches[self.batch_index].push_quad(quad);
        assert(self@.batches =~= at.batches.update(
            at.batch_index as int,
            at.current().push_quad(quad),
        ));
    }

    /// The draw pass: every batch that is not empty hands out its draw call
    /// and is emptied, in the order of the batches, and the first batch
    /// becomes the one being filled.
    fn pass(&mut self, target: Option<u32>) -> (calls: Vec<DrawCall>)
        requires
            old(self).wf(),
        ensures
            final(self).wf(),
            call_views(calls@) == frame_calls(old(self)@.batches, target),
            final(self)@ == old(self)@.after_draw(),
    {
        let mut calls: Vec<DrawCall> = Vec::new();
        let count: usize = self.batches.len();
        let mut i: usize = 0;
        proof {
            self.lemma_batches();
            assert(old(self)@.batches.take(0) =~= Seq::empty());
            assert(call_views(calls@) =~= Seq::empty());
        }
        while i < count
            invariant
                i <= count,
                count == self.batches@.len(),
                count == old(self)@.batches.len(),
                self.batch_index == old(self).batch_index,
                self.default_shader == old(self).default_shader,
                call_views(calls@) == frame_calls(old(self)@.batches.take(i as int), target),
                forall|j: int|
                    0 <= j < count ==> (#[trigger] self.batches@[j]).wf(),
                forall|j: int|
                    0 <= j < i ==> (#[trigger] self.batches@[j])@ == old(self)@.batches[j].reset(),
                forall|j: int|
                    i <= j < count ==> (#[trigger] self.batches@[j])@ == old(self)@.batches[j],
                forall|j: int| 0 <= j < count ==> (#[trigger] old(self)@.batches[j]).valid(),
            decreases count - i,
        {
            let ghost before = calls@;
            proof {
                assert(old(self)@.batches.take(i + 1).drop_last() == old(self)@.batches.take(
                    i as int,
                ));
                assert(old(self)@.batches.take(i + 1).last() == old(self)@.batches[i as int]);
                assert(old(self)@.batches[i as int].valid());
            }
            if !self.batches[i].is_empty() {
                let call = match target {
                    Some(handle) => self.batches[i].draw_to_target(handle),
                    None => self.batches[i].draw(),
                };
                calls.push(call);
                assert(call_views(calls@) =~= call_views(before).push(call@));
            } else {
                proof {
                    law_empty_batch_is_reset(old(self)@.batches[i as int]);
                }
            }
            i += 1;
        }
        self.batch_index = 0;
        proof {
            assert(old(self)@.batches.take(count as int) == old(self)@.batches);
            assert(self@.batches =~= old(self)@.after_draw().batches);
        }
        calls
    }

    /// Draws the frame to the default framebuffer: hands out the draw call
    /// of every batch that is not empty, in the order of the batches, empties
    /// them, and makes the first batch the one being filled.
    pub fn draw(&mut self) -> (calls: Vec<DrawCall>)
        requires
            old(self).wf(),
        ensures
            final(self).wf(),
            call_views(calls@) == frame_calls(old(self)@.batches, None),
            final(self)@ == old(self)@.after_draw(),
    {
        self.pass(None)
    }

    /// Draws the frame to the offscreen target `target`; in all else as `draw`.
    pub fn draw_to_target(&mut self, target: u32) -> (calls: Vec<DrawCall>)
        requires
            old(self).wf(),
        ensures
            final(self).wf(),
            call_views(calls@) == frame_calls(old(self)@.batches, Some(target)),
            final(self)@ == old(self)@.after_draw(),
    {
        self.pass(Some(target))
    }

    /// The place of the batch that is being filled.
    pub fn batch_index(&self) -> (index: usize)
        ensures
            index == self@.batch_index,
    {
        self.batch_index
    }

    /// The number of batches.
    pub fn batch_count(&self) -> (count: usize)
        ensures
            count == self@.batches.len(),
    {
        self.batches.len()
    }

    /// The batch at `index`.
    pub fn batch(&self, index: usize) -> (batch: &RenderBatch)
        requires
            self.wf(),
            index < self@.batches.len(),
        ensures
            batch.wf(),
            batch@ == self@.batches[index as int],
    {
        proof {
            self.lemma_batches();
        }
        &self.batches[index]
    }

    /// Binds the GPU buffers of the batch at `index`.
    pub fn set_buffers(&mut self, index: usize, vbo_id: u32, ibo_id: u32)
        requires
            old(self).wf(),
            index < old(self)@.batches.len(),
        ensures
            final(self).wf(),
            final(self)@ == (ControllerView {
                batches: old(self)@.batches.update(
                    index as int,
                    (BatchView { vbo: vbo_id, ibo: ibo_id, ..old(self)@.batches[index as int] }),
                ),
                ..old(self)@
            }),
    {
        proof {
            self.lemma_batches();
        }
        self.batches[index].set_buffers(vbo_id, ibo_id);
        assert(self@.batches =~= old(self)@.batches.update(
            index as int,
            (BatchView { vbo: vbo_id, ibo: ibo_id, ..old(self)@.batches[index as int] }),
        ));
    }
}

} // verus!
