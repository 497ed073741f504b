//! Dispatch of raw input events to the processors that have asked for them.

use vstd::prelude::*;
use crate::input::{Input, RawInputEvent};

verus! {

/// Something that takes raw input events, frame by frame.
///
/// What a processor does with an event or at the end of a frame is its own
/// business. What it owes is an account of what it has been given: the
/// events it has digested, each with the input state shown with it, and the
/// number of frames it has seen end. The account is a matter of proof only
/// and costs nothing when the program runs. Beside it stands the flag:
/// `enabled` is what `set_enabled` sets and `is_enabled` reports.
///
/// Code that is compiled without being verified cannot keep such an account.
/// It implements `InputHandler` and is wrapped in a `HandlerProcessor`.
pub trait InputProcessor {
    /// Whether events are to be dispatched to this processor.
    spec fn enabled(&self) -> bool;

    /// The events digested so far, oldest first, each with the input state
    /// that was shown with it.
    spec fn digested(&self) -> Seq<(RawInputEvent, Input)>;

    /// The number of frames that the processor has seen end.
    spec fn frames_ended(&self) -> nat;

    /// Takes in `action`, which came while the input state was `input`.
    fn digest_action(&mut self, action: RawInputEvent, input: &Input)
        ensures
            final(self).digested() == old(self).digested().push((action, *input)),
            final(self).frames_ended() == old(self).frames_ended(),
    ;

    /// Takes note that the frame has ended.
    fn end_frame(&mut self)
        ensures
            final(self).digested() == old(self).digested(),
            final(self).frames_ended() == old(self).frames_ended() + 1,
    ;

    /// Sets the flag.
    fn set_enabled(&mut self, state: bool)
        ensures
            final(self).enabled() == state,
            final(self).digested() == old(self).digested(),
            final(self).frames_ended() == old(self).frames_ended(),
    ;

    /// Reports the flag.
    fn is_enabled(&self) -> (state: bool)
        ensures
            state == self.enabled(),
    ;

    /// Sets the flag to true.
    fn enable(&mut self)
        ensures
            final(self).enabled(),
            final(self).digested() == old(self).digested(),
            final(self).frames_ended() == old(self).frames_ended(),
    {
        self.set_enabled(true);
    }

    /// Sets the flag to false.
    fn disable(&mut self)
        ensures
            !final(self).enabled(),
            final(self).digested() == old(self).digested(),
            final(self).frames_ended() == old(self).frames_ended(),
    {
        self.set_enabled(false);
    }
}

/// Hands every event to the action processor, and to each of the targets
/// that is enabled, in the order in which the targets stand.
pub struct InputCollector<A: InputProcessor> {
    pub action_processor: A,
    /// The targets, in the order in which they were added.
    pub targets: Vec<Box<dyn InputProcessor>>,
}

impl<A: InputProcessor> InputCollector<A> {
    /// A collector around `action_processor`, without targets.
    pub fn new(action_processor: A) -> (collector: Self)
        ensures
            collector.action_processor == action_processor,
            collector.targets@.len() == 0,
    {
        InputCollector { action_processor, targets: Vec::new() }
    }

    /// Gives `action`, with `input` beside it, to the action processor,
    /// whether it is enabled or not, and then to each target that is
    /// enabled, in order: each of them has digested one event more, this
    /// one. The targets stay in their places, and one that is not enabled is
    /// left as it is. No frame ends.
    pub fn dispatch_input(&mut self, action: RawInputEvent, input: &Input)
        ensures
            final(self).action_processor.digested() == old(self).action_processor.digested().push(
                (action, *input),
            ),
            final(self).action_processor.frames_ended() == old(
                self,
            ).action_processor.frames_ended(),
            final(self).targets@.len() == old(self).targets@.len(),
            forall|i: int|
                0 <= i < old(self).targets@.len() && (#[trigger] old(self).targets@[i]).enabled()
                    ==> final(self).targets@[i].digested() == old(self).targets@[i].digested().push(
                    (action, *input),
                ) && final(self).targets@[i].frames_ended() == old(
                    self,
                ).targets@[i].frames_ended(),
            forall|i: int|
                0 <= i < old(self).targets@.len() && !(#[trigger] old(self).targets@[i]).enabled()
                    ==> final(self).targets@[i] == old(self).targets@[i],
    {
        self.action_processor.digest_action(action, input);
        let count: usize = self.targets.len();
        let mut i: usize = 0;
        while i < count
            invariant
                i <= count,
                count == self.targets@.len(),
                count == old(self).targets@.len(),
                self.action_processor.digested() == old(self).action_processor.digested().push(
                    (action, *input),
                ),
                self.action_processor.frames_ended() == old(self).action_processor.frames_ended(),
                forall|j: int|
                    0 <= j < i && (#[trigger] old(self).targets@[j]).enabled()
                        ==> self.targets@[j].digested() == old(self).targets@[j].digested().push(
                        (action, *input),
                    ) && self.targets@[j].frames_ended() == old(self).targets@[j].frames_ended(),
                forall|j: int|
                    0 <= j < i && !(#[trigger] old(self).targets@[j]).enabled() ==> self.targets@[j]
                        == old(self).targets@[j],
                forall|j: int| i <= j < count ==> self.targets@[j] == old(self).targets@[j],
            decreases count - i,
        {
            if self.targets[i].is_enabled() {
                self.targets[i].digest_action(action, input);
            }
            i += 1;
        }
    }

    /// Ends the frame for the action processor, whether it is enabled or
    /// not, and then for each target that is enabled, in order: each of them
    /// has seen one frame more end, and has digested what it had. The
    /// targets stay in their places, and one that is not enabled is left as
    /// it is.
    pub fn end_frame(&mut self)
        ensures
            final(self).action_processor.digested() == old(self).action_processor.digested(),
            final(self).action_processor.frames_ended() == old(
                self,
            ).action_processor.frames_ended() + 1,
            final(self).targets@.len() == old(self).targets@.len(),
            forall|i: int|
                0 <= i < old(self).targets@.len() && (#[trigger] old(self).targets@[i]).enabled()
                    ==> final(self).targets@[i].digested() == old(self).targets@[i].digested()
                    && final(self).targets@[i].frames_ended() == old(
                    self,
                ).targets@[i].frames_ended() + 1,
            forall|i: int|
                0 <= i < old(self).targets@.len() && !(#[trigger] old(self).targets@[i]).enabled()
                    ==> final(self).targets@[i] == old(self).targets@[i],
    {
        self.action_processor.end_frame();
        let count: usize = self.targets.len();
        let mut i: usize = 0;
        while i < count
            invariant
                i <= count,
                count == self.targets@.len(),
                count == old(self).targets@.len(),
                self.action_processor.digested() == old(self).action_processor.digested(),
                self.action_processor.frames_ended() == old(self).action_processor.frames_ended()
                    + 1,
                forall|j: int|
                    0 <= j < i && (#[trigger] old(self).targets@[j]).enabled()
                        ==> self.targets@[j].digested() == old(self).targets@[j].digested()
                        && self.targets@[j].frames_ended() == old(self).targets@[j].frames_ended()
                        + 1,
                forall|j: int|
                    0 <= j < i && !(#[trigger] old(self).targets@[j]).enabled() ==> self.targets@[j]
                        == old(self).targets@[j],
                forall|j: int| i <= j < count ==> self.targets@[j] == old(self).targets@[j],
            decreases count - i,
        {
            if self.targets[i].is_enabled() {
                self.targets[i].end_frame();
            }
            i += 1;
        }
    }
}

/// What a processor does with its events: the part that no contract speaks of.
pub trait InputHandler {
    /// Takes in `action`, which came while the input state was `input`.
    fn digest_action(&mut self, action: RawInputEvent, input: &Input);

    /// Takes note that the frame has ended.
    fn end_frame(&mut self);
}

/// A processor made of a handler: it holds the flag, hands every event and
/// every end of a frame on to the handler, and keeps the account of them.
pub struct HandlerProcessor<H: InputHandler> {
    handler: H,
    enabled: bool,
    digested: Ghost<Seq<(RawInputEvent, Input)>>,
    frames_ended: Ghost<nat>,
}

impl<H: InputHandler> HandlerProcessor<H> {
    /// The handler that the processor hands on to, as it is now.
    pub closed spec fn inner(&self) -> H {
        self.handler
    }

    /// A processor around `handler` that has been given nothing yet.
    pub fn new(handler: H, enabled: bool) -> (processor: Self)
        ensures
            processor.inner() == handler,
            processor.enabled() == enabled,
            processor.digested() == Seq::<(RawInputEvent, Input)>::empty(),
            processor.frames_ended() == 0,
    {
        HandlerProcessor {
            handler,
            enabled,
            digested: Ghost(Seq::empty()),
            frames_ended: Ghost(0),
        }
    }

    /// The handler, as it is now.
    pub fn handler(&self) -> (handler: &H)
        ensures
            *handler == self.inner(),
    {
        &self.handler
    }
}

impl<H: InputHandler> InputProcessor for HandlerProcessor<H> {
    closed spec fn enabled(&self) -> bool {
        self.enabled
    }

    closed spec fn digested(&self) -> Seq<(RawInputEvent, Input)> {
        self.digested@
    }

    closed spec fn frames_ended(&self) -> nat {
        self.frames_ended@
    }

    fn digest_action(&mut self, action: RawInputEvent, input: &Input) {
        self.handler.digest_action(action, input);
        self.digested = Ghost(self.digested@.push((action, *input)));
    }

    fn end_frame(&mut self) {
        self.handler.end_frame();
        self.frames_ended = Ghost(self.frames_ended@ + 1);
    }

    fn set_enabled(&mut self, state: bool) {
        self.enabled = state;
    }

    fn is_enabled(&self) -> (state: bool) {
        self.enabled
    }
}

} // verus!
