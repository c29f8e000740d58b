//! The main loop's state machine: drain the input, decide, and either plan
//! one frame or stop for good.

use vstd::prelude::*;
use crate::command::GlCommand;
use crate::frame::{
    frame_is_one_full_sequence, frame_ops, FrameOp, FrameRenderer, FrameSettings,
};
use crate::input::{any_exit_request, exit_requested, InputEvent, Key};
use crate::vertex::{destroy_commands, Vertex, VertexView};

verus! {

/// State of the loop.
#[derive(Clone, Copy, Debug, PartialEq, Eq, Structural)]
pub enum LoopState {
    Running,
    Terminated,
}

/// The state after an iteration that drained `events`: a running loop goes
/// on running unless some event is a quit event or the escape key going
/// down; a terminated loop stays terminated.
pub open spec fn next_state(state: LoopState, events: Seq<InputEvent>) -> LoopState {
    if state == LoopState::Running && !exit_requested(events) {
        LoopState::Running
    } else {
        LoopState::Terminated
    }
}

/// The state after one iteration for each batch of drained events, in order.
pub open spec fn state_after(state: LoopState, batches: Seq<Seq<InputEvent>>) -> LoopState
    decreases batches.len(),
{
    if batches.len() == 0 {
        state
    } else {
        next_state(state_after(state, batches.drop_last()), batches.last())
    }
}

/// What a loop is: its state, the settings of its renderer and the geometry
/// that it draws.
pub struct RenderLoopView {
    pub state: LoopState,
    pub settings: FrameSettings,
    pub geometry: VertexView,
}

/// What an iteration plans: one whole frame if the loop is still running
/// after the events, nothing otherwise.
pub open spec fn iteration_ops(before: RenderLoopView, events: Seq<InputEvent>) -> Seq<FrameOp> {
    if next_state(before.state, events) == LoopState::Running {
        frame_ops(before.settings, before.geometry)
    } else {
        Seq::empty()
    }
}

/// One quit event or escape key-down anywhere among the drained events ends
/// the loop, and the iteration plans nothing: the frame of that iteration is
/// skipped.
pub proof fn exit_signal_skips_the_frame(
    before: RenderLoopView,
    events: Seq<InputEvent>,
    index: int,
)
    requires
        0 <= index < events.len(),
        events[index] == InputEvent::Quit || events[index] == (InputEvent::KeyDown {
            key: Some(Key::Escape),
        }),
    ensures
        next_state(before.state, events) == LoopState::Terminated,
        iteration_ops(before, events) == Seq::<FrameOp>::empty(),
{
    assert(events[index].is_exit_signal());
}

/// A running loop that drains neither a quit event nor an escape key-down
/// stays running, and the iteration plans exactly one frame; draining
/// nothing at all is such an iteration.
pub proof fn quiet_iteration_is_one_frame(before: RenderLoopView, events: Seq<InputEvent>)
    requires
        before.state == LoopState::Running,
        forall|i: int|
            0 <= i < events.len() ==> #[trigger] events[i] != InputEvent::Quit && events[i] != (
            InputEvent::KeyDown { key: Some(Key::Escape) }),
    ensures
        next_state(before.state, events) == LoopState::Running,
        iteration_ops(before, events) == frame_ops(before.settings, before.geometry),
        iteration_ops(before, Seq::empty()) == frame_ops(before.settings, before.geometry),
{
    assert forall|i: int| 0 <= i < events.len() implies !(#[trigger] events[i]).is_exit_signal() by {
        assert(events[i] != InputEvent::Quit);
    }
}

/// In a running loop the geometry is drawn, once, exactly if no drained
/// event is a quit event or an escape key-down, and the loop then stays
/// running; otherwise nothing is drawn and the loop is terminated.
pub proof fn frame_exactly_without_exit_signal(before: RenderLoopView, events: Seq<InputEvent>)
    requires
        before.state == LoopState::Running,
        before.settings.valid(),
    ensures
        ({
            let ops = iteration_ops(before, events);
            let quiet = forall|i: int|
                0 <= i < events.len() ==> #[trigger] events[i] != InputEvent::Quit && events[i] != (
                InputEvent::KeyDown { key: Some(Key::Escape) });
            &&& quiet <==> next_state(before.state, events) == LoopState::Running
            &&& quiet ==> ops.len() == 16 && forall|k: int|
                0 <= k < ops.len() ==> ((#[trigger] ops[k]).is_draw_call() <==> k == 9)
            &&& !quiet ==> ops.len() == 0 && next_state(before.state, events)
                == LoopState::Terminated
        }),
{
    let quiet = forall|i: int|
        0 <= i < events.len() ==> #[trigger] events[i] != InputEvent::Quit && events[i] != (
        InputEvent::KeyDown { key: Some(Key::Escape) });
    frame_is_one_full_sequence(before.settings, before.geometry);
    if quiet {
        quiet_iteration_is_one_frame(before, events);
    } else {
        let i = choose|i: int|
            0 <= i < events.len() && !(#[trigger] events[i] != InputEvent::Quit && events[i] != (
            InputEvent::KeyDown { key: Some(Key::Escape) }));
        exit_signal_skips_the_frame(before, events, i);
    }
}

/// Events that are neither a quit event nor the escape key going down never
/// end the loop: another key going down, a key-down without a code, and
/// every other kind of event.
pub proof fn other_events_never_terminate(before: RenderLoopView, events: Seq<InputEvent>)
    requires
        before.state == LoopState::Running,
        forall|i: int|
            0 <= i < events.len() ==> {
                ||| #[trigger] events[i] == InputEvent::Other
                ||| events[i] == (InputEvent::KeyDown { key: Some(Key::Other) })
                ||| events[i] == (InputEvent::KeyDown { key: None })
            },
    ensures
        next_state(before.state, events) == LoopState::Running,
{
    assert forall|i: int| 0 <= i < events.len() implies !(#[trigger] events[i]).is_exit_signal() by {
        assert(events[i] != InputEvent::Quit);
    }
}

/// There is no way back: a terminated loop is terminated after any number
/// of iterations, whatever events they drain.
pub proof fn terminated_is_final(batches: Seq<Seq<InputEvent>>)
    ensures
        state_after(LoopState::Terminated, batches) == LoopState::Terminated,
    decreases batches.len(),
{
    if batches.len() > 0 {
        terminated_is_final(batches.drop_last());
    }
}

/// A loop is running after some iterations exactly if it was running before
/// them and none of the events that they drained was an exit signal.
pub proof fn running_means_no_exit_request(state: LoopState, batches: Seq<Seq<InputEvent>>)
    ensures
        state_after(state, batches) == LoopState::Running <==> (state == LoopState::Running
            && forall|k: int| 0 <= k < batches.len() ==> !exit_requested(#[trigger] batches[k])),
    decreases batches.len(),
{
    if batches.len() > 0 {
        let front = batches.drop_last();
        running_means_no_exit_request(state, front);
        assert(forall|k: int| 0 <= k < front.len() ==> front[k] == batches[k]);
        if state == LoopState::Running && forall|k: int|
            0 <= k < front.len() ==> !exit_requested(#[trigger] front[k]) {
            if !exit_requested(batches.last()) {
                assert forall|k: int| 0 <= k < batches.len() implies !exit_requested(
                    #[trigger] batches[k],
                ) by {
                    if k < front.len() {
                        assert(front[k] == batches[k]);
                    }
                }
            }
        } else if state == LoopState::Running {
            let k = choose|k: int| 0 <= k < front.len() && exit_requested(#[trigger] front[k]);
            assert(exit_requested(batches[k]));
        }
    }
}

/// The main loop: a state, the renderer and the geometry that it draws.
#[derive(Debug, PartialEq, Eq)]
pub struct RenderLoop {
    state: LoopState,
    renderer: FrameRenderer,
    geometry: Vertex,
}

impl View for RenderLoop {
    type V = RenderLoopView;

    closed spec fn view(&self) -> RenderLoopView {
        RenderLoopView { state: self.state, settings: self.renderer@, geometry: self.geometry@ }
    }
}

impl RenderLoop {
    /// A running loop that draws `geometry` with `renderer`.
    pub fn new(renderer: FrameRenderer, geometry: Vertex) -> (created: RenderLoop)
        ensures
            created@ == (RenderLoopView {
                state: LoopState::Running,
                settings: renderer@,
                geometry: geometry@,
            }),
    {
        RenderLoop { state: LoopState::Running, renderer, geometry }
    }

    /// The state of the loop.
    pub fn state(&self) -> (state: LoopState)
        ensures
            state == self@.state,
    {
        self.state
    }

    /// Whether the loop goes on.
    pub fn is_running(&self) -> (running: bool)
        ensures
            running == (self@.state == LoopState::Running),
    {
        self.state == LoopState::Running
    }

    /// One iteration. Takes all the events that were drained from the input
    /// source since the iteration before, classifies every one of them, and
    /// then decides: if the loop was running and no event is a quit event or
    /// the escape key going down, it stays running and the result is one
    /// whole frame; otherwise it is terminated and the result is empty.
    pub fn iterate(&mut self, events: &Vec<InputEvent>) -> (ops: Vec<FrameOp>)
        ensures
            final(self)@.state == next_state(old(self)@.state, events@),
            final(self)@.settings == old(self)@.settings,
            final(self)@.geometry == old(self)@.geometry,
            ops@ == iteration_ops(old(self)@, events@),
    {
        let exit: bool = any_exit_request(events);
        if self.state == LoopState::Running && !exit {
            self.renderer.render(&self.geometry)
        } else {
            self.state = LoopState::Terminated;
            Vec::new()
        }
    }

    /// Ends the loop for good and plans the release of the geometry's GPU
    /// objects.
    pub fn shutdown(self) -> (commands: Vec<GlCommand>)
        ensures
            commands@ == destroy_commands(self@.geometry),
    {
        self.geometry.destroy()
    }
}

} // verus!
