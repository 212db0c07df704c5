//! The frame loop: from window events to the actions the host performs.
//!
//! The controller never touches a window or a device. The host hands it one
//! event at a time and carries out the action it gets back; after a draw it
//! reports `Presented`, or `AcquireFailed` where it got no surface image, and
//! after a rebuild `Rebuilt` with the sizes it ended up with.

use vstd::prelude::*;
use crate::failure::FailedStage;
use crate::mesh::Mesh;
use crate::shell::SHELLS;
use crate::target::{Extent, RenderTarget};

verus! {

/// How the mesh is drawn.
#[derive(Clone, Copy, Debug, PartialEq, Eq, Structural)]
pub enum Variant {
    /// The surface alone, one instance.
    Base,
    /// The surface and its extruded layers, one instance per layer.
    Shell,
}

impl Variant {
    /// The number of instances one draw call covers.
    pub open spec fn instances(self) -> u32 {
        match self {
            Variant::Base => 1,
            Variant::Shell => SHELLS,
        }
    }

    /// The number of instances one draw call covers.
    pub fn instance_count(self) -> (count: u32)
        ensures
            count == self.instances(),
    {
        match self {
            Variant::Base => 1,
            Variant::Shell => SHELLS,
        }
    }
}

/// One indexed draw: indices `0..index_count` from base vertex 0, instances
/// `0..instance_count`.
#[derive(Clone, Copy, Debug, PartialEq, Eq, Structural)]
pub struct DrawCall {
    pub index_count: u32,
    pub instance_count: u32,
}

/// Everything that varies from one frame to the next.
#[derive(Clone, Copy, Debug, PartialEq, Eq, Structural)]
pub struct Frame {
    /// The time to write to the time uniform before the draw, in nanoseconds
    /// since start.
    pub elapsed_nanos: u128,
    /// The size of the surface image and of the depth attachment to draw to.
    pub extent: Extent,
    /// The single draw call of the frame.
    pub draw: DrawCall,
}

/// What the loop is doing while the target is valid.
#[derive(Clone, Copy, Debug, PartialEq, Eq, Structural)]
pub enum Activity {
    /// Waiting for the next event.
    Idle,
    /// A frame was handed out and has not been presented yet.
    Drawing,
    /// The last frame was presented.
    Presented,
}

/// The state of the loop as a whole.
#[derive(Clone, Copy, Debug, PartialEq, Eq, Structural)]
pub enum Phase {
    Idle,
    Drawing,
    Presented,
    /// The target is stale; no frame is drawn before it is rebuilt.
    Resizing,
    /// A close was requested; the loop has ended.
    Closed,
}

/// What the host reports.
#[derive(Clone, Copy, Debug, PartialEq, Eq, Structural)]
pub enum Event {
    /// The window asks to be closed.
    CloseRequested,
    /// The window asks for a frame; `elapsed_nanos` is the time since start.
    RedrawRequested { elapsed_nanos: u128 },
    /// The window has a new size.
    Resized { size: Extent },
    /// The host rebuilt the target: the surface is now configured at
    /// `surface`, the depth attachment is `depth` large.
    Rebuilt { surface: Extent, depth: Extent },
    /// The host submitted and presented the frame it was handed.
    Presented,
    /// The host could not acquire a surface image for the frame it was
    /// handed.
    AcquireFailed,
    /// The event queue is empty.
    AboutToWait,
}

/// What the host is to do next.
#[derive(Clone, Copy, Debug, PartialEq, Eq, Structural)]
pub enum Action {
    /// Leave the loop and release the resources.
    Exit,
    /// Write the time uniform, encode one pass with one draw call, submit and
    /// present; then report `Presented`, or `AcquireFailed`.
    Draw { frame: Frame },
    /// Configure the surface and recreate the depth attachment at `extent`,
    /// write the camera uniform for its aspect ratio; then report `Rebuilt`.
    Rebuild { extent: Extent },
    /// Ask the window for a redraw.
    RequestRedraw,
    /// Report a failure in `stage` and end the program.
    Fail { stage: FailedStage },
    /// Nothing to do.
    Wait,
}

/// The state of the frame loop.
#[derive(Clone, Copy, Debug, PartialEq, Eq, Structural)]
pub struct Controller {
    /// Whether a close was requested.
    pub closed: bool,
    /// The render target as last reported.
    pub target: RenderTarget,
    /// Where the loop stands between two frames.
    pub activity: Activity,
    /// The time handed out with the latest frame, in nanoseconds since start.
    pub elapsed_nanos: u128,
    /// The draw call every frame issues.
    pub draw: DrawCall,
}

/// The later of two times.
pub open spec fn later(a: u128, b: u128) -> u128 {
    if a >= b {
        a
    } else {
        b
    }
}

impl Controller {
    /// The phase the loop is in.
    pub open spec fn phase(self) -> Phase {
        if self.closed {
            Phase::Closed
        } else if self.target is Stale {
            Phase::Resizing
        } else {
            match self.activity {
                Activity::Idle => Phase::Idle,
                Activity::Drawing => Phase::Drawing,
                Activity::Presented => Phase::Presented,
            }
        }
    }

    /// Whether a frame was handed out and neither presented nor given up.
    pub open spec fn in_flight(self) -> bool {
        !self.closed && self.target is Valid && self.activity == Activity::Drawing
    }

    /// The frame a redraw at `elapsed_nanos` hands out. Time never runs
    /// backwards: a request that reports an earlier time than the latest
    /// frame's gets the latest frame's time.
    pub open spec fn frame_at(self, elapsed_nanos: u128) -> Frame {
        Frame {
            elapsed_nanos: later(self.elapsed_nanos, elapsed_nanos),
            extent: self.target.window(),
            draw: self.draw,
        }
    }

    /// The state after `event`.
    pub open spec fn next(self, event: Event) -> Controller {
        if self.closed {
            self
        } else {
            match event {
                Event::CloseRequested => Controller { closed: true, ..self },
                Event::Resized { size } => Controller {
                    target: self.target.resized(size),
                    activity: Activity::Idle,
                    ..self
                },
                Event::Rebuilt { surface, depth } => Controller {
                    target: self.target.rebuilt(surface, depth),
                    ..self
                },
                Event::RedrawRequested { elapsed_nanos } => if self.target is Valid
                    && self.activity != Activity::Drawing {
                    Controller {
                        activity: Activity::Drawing,
                        elapsed_nanos: later(self.elapsed_nanos, elapsed_nanos),
                        ..self
                    }
                } else {
                    self
                },
                Event::Presented => if self.in_flight() {
                    Controller { activity: Activity::Presented, ..self }
                } else {
                    self
                },
                Event::AcquireFailed => if self.in_flight() {
                    Controller { closed: true, ..self }
                } else {
                    self
                },
                Event::AboutToWait => if self.activity == Activity::Presented {
                    Controller { activity: Activity::Idle, ..self }
                } else {
                    self
                },
            }
        }
    }

    /// What the host is told to do on `event`.
    pub open spec fn action(self, event: Event) -> Action {
        if self.closed {
            Action::Exit
        } else {
            match event {
                Event::CloseRequested => Action::Exit,
                Event::Resized { size } => Action::Rebuild { extent: size },
                Event::Rebuilt { surface, depth } => if self.target.rebuilt(surface, depth)
                    is Valid {
                    Action::Wait
                } else {
                    Action::Rebuild { extent: self.target.window() }
                },
                Event::RedrawRequested { elapsed_nanos } => if self.target is Stale {
                    Action::Rebuild { extent: self.target.window() }
                } else if self.activity == Activity::Drawing {
                    Action::Wait
                } else {
                    Action::Draw { frame: self.frame_at(elapsed_nanos) }
                },
                Event::Presented => Action::Wait,
                Event::AcquireFailed => if self.in_flight() {
                    Action::Fail { stage: FailedStage::Presentation }
                } else {
                    Action::Wait
                },
                Event::AboutToWait => Action::RequestRedraw,
            }
        }
    }

    /// The state after the events of `events`, in order.
    pub open spec fn run(self, events: Seq<Event>) -> Controller
        decreases events.len(),
    {
        if events.len() == 0 {
            self
        } else {
            self.run(events.drop_last()).next(events.last())
        }
    }

    /// A controller for a window of `window` pixels whose surface and depth
    /// attachment were created at that size, drawing `index_count` indices
    /// per frame.
    pub fn new(window: Extent, index_count: u32, variant: Variant) -> (controller: Controller)
        ensures
            controller == (Controller {
                closed: false,
                target: RenderTarget::Valid { extent: window },
                activity: Activity::Idle,
                elapsed_nanos: 0,
                draw: DrawCall { index_count, instance_count: variant.instances() },
            }),
    {
        Controller {
            closed: false,
            target: RenderTarget::new(window),
            activity: Activity::Idle,
            elapsed_nanos: 0,
            draw: DrawCall { index_count, instance_count: variant.instance_count() },
        }
    }

    /// A controller that draws all the indices of `mesh` every frame.
    pub fn for_mesh(window: Extent, mesh: &Mesh, variant: Variant) -> (controller: Controller)
        ensures
            controller == (Controller {
                closed: false,
                target: RenderTarget::Valid { extent: window },
                activity: Activity::Idle,
                elapsed_nanos: 0,
                draw: DrawCall {
                    index_count: mesh.indices().len() as u32,
                    instance_count: variant.instances(),
                },
            }),
            controller.draw.index_count == mesh.indices().len(),
    {
        Controller::new(window, mesh.index_count(), variant)
    }

    /// Takes one event, moves to the next state and says what the host is to
    /// do.
    pub fn handle(&mut self, event: Event) -> (action: Action)
        ensures
            *final(self) == old(self).next(event),
            action == old(self).action(event),
    {
        if self.closed {
            return Action::Exit;
        }
        match event {
            Event::CloseRequested => {
                self.closed = true;
                Action::Exit
            },
            Event::Resized { size } => {
                self.target.resize(size);
                self.activity = Activity::Idle;
                Action::Rebuild { extent: size }
            },
            Event::Rebuilt { surface, depth } => {
                if self.target.confirm_rebuild(surface, depth) {
                    Action::Wait
                } else {
                    Action::Rebuild { extent: self.target.window_extent() }
                }
            },
            Event::RedrawRequested { elapsed_nanos } => {
                match self.target.drawable() {
                    None => Action::Rebuild { extent: self.target.window_extent() },
                    Some(extent) => {
                        if self.activity == Activity::Drawing {
                            Action::Wait
                        } else {
                            if elapsed_nanos > self.elapsed_nanos {
                                self.elapsed_nanos = elapsed_nanos;
                            }
                            self.activity = Activity::Drawing;
                            Action::Draw {
                                frame: Frame {
                                    elapsed_nanos: self.elapsed_nanos,
                                    extent,
                                    draw: self.draw,
                                },
                            }
                        }
                    },
                }
            },
            Event::Presented => {
                if self.activity == Activity::Drawing {
                    match self.target.drawable() {
                        Some(_) => {
                            self.activity = Activity::Presented;
                        },
                        None => {},
                    }
                }
                Action::Wait
            },
            Event::AcquireFailed => {
                if self.activity == Activity::Drawing {
                    match self.target.drawable() {
                        Some(_) => {
                            self.closed = true;
                            return Action::Fail { stage: FailedStage::Presentation };
                        },
                        None => {},
                    }
                }
                Action::Wait
            },
            Event::AboutToWait => {
                if self.activity == Activity::Presented {
                    self.activity = Activity::Idle;
                }
                Action::RequestRedraw
            },
        }
    }

    /// The phase the loop is in.
    pub fn current_phase(&self) -> (phase: Phase)
        ensures
            phase == self.phase(),
    {
        if self.closed {
            Phase::Closed
        } else {
            match self.target.drawable() {
                None => Phase::Resizing,
                Some(_) => match self.activity {
                    Activity::Idle => Phase::Idle,
                    Activity::Drawing => Phase::Drawing,
                    Activity::Presented => Phase::Presented,
                },
            }
        }
    }
}

/// A frame is only ever handed out for a valid target, and for the size that
/// the window, the surface and the depth attachment share.
pub proof fn lemma_draw_needs_valid_target(state: Controller, event: Event)
    ensures
        state.action(event) matches Action::Draw { frame } ==> {
            &&& state.target == (RenderTarget::Valid { extent: frame.extent })
            &&& state.next(event).target == state.target
            &&& state.target.surface() == frame.extent
            &&& state.target.depth() == frame.extent
        },
{
}

/// Only a resize changes the size the window asks for.
pub proof fn lemma_window_kept(state: Controller, events: Seq<Event>)
    requires
        forall|i: int| 0 <= i < events.len() ==> !(#[trigger] events[i] is Resized),
    ensures
        state.run(events).target.window() == state.target.window(),
    decreases events.len(),
{
    if events.len() > 0 {
        lemma_window_kept(state, events.drop_last());
    }
}

/// After a resize to `size`, whatever happens next short of another resize,
/// the next frame handed out is `size` large, and so are by then the surface
/// and the depth attachment.
pub proof fn lemma_draw_follows_resize(
    state: Controller,
    size: Extent,
    events: Seq<Event>,
    last: Event,
)
    requires
        forall|i: int| 0 <= i < events.len() ==> !(#[trigger] events[i] is Resized),
        !(last is Resized),
    ensures
        ({
            let before = state.next(Event::Resized { size }).run(events);
            before.action(last) matches Action::Draw { frame } ==> {
                &&& !state.closed
                &&& frame.extent == size
                &&& before.target.surface() == size
                &&& before.target.depth() == size
            }
        }),
{
    let resized = state.next(Event::Resized { size });
    lemma_window_kept(resized, events);
    if state.closed {
        lemma_closed_stays(state, events);
    }
}

/// Once closed, the loop stays as it is and answers every event with `Exit`.
pub proof fn lemma_closed_stays(state: Controller, events: Seq<Event>)
    requires
        state.closed,
    ensures
        state.run(events) == state,
        forall|event: Event| #[trigger] state.action(event) == Action::Exit,
    decreases events.len(),
{
    if events.len() > 0 {
        lemma_closed_stays(state, events.drop_last());
    }
}

/// A close request ends the loop from every state.
pub proof fn lemma_close_exits(state: Controller)
    ensures
        state.action(Event::CloseRequested) == Action::Exit,
        state.next(Event::CloseRequested).closed,
        state.next(Event::CloseRequested).phase() == Phase::Closed,
{
}

/// The time handed out never decreases, and the draw call never changes.
pub proof fn lemma_run_keeps_time_and_draw(state: Controller, events: Seq<Event>)
    ensures
        state.run(events).elapsed_nanos >= state.elapsed_nanos,
        state.run(events).draw == state.draw,
    decreases events.len(),
{
    if events.len() > 0 {
        lemma_run_keeps_time_and_draw(state, events.drop_last());
    }
}

/// Every frame carries the controller's one draw call, and the time it
/// carries is the time the controller holds afterwards: never earlier than
/// the time of the frame before, and the reported time itself unless that
/// would run backwards.
pub proof fn lemma_frame_contents(state: Controller, event: Event)
    ensures
        state.action(event) matches Action::Draw { frame } ==> {
            &&& event matches Event::RedrawRequested { elapsed_nanos }
            &&& frame.draw == state.draw
            &&& frame.elapsed_nanos == state.next(event).elapsed_nanos
            &&& frame.elapsed_nanos >= state.elapsed_nanos
            &&& frame.elapsed_nanos >= elapsed_nanos
            &&& elapsed_nanos >= state.elapsed_nanos ==> frame.elapsed_nanos == elapsed_nanos
        },
{
}

/// Of two frames handed out one after the other, with any events between
/// them, the second carries the same draw call and a time that is not earlier.
pub proof fn lemma_frames_in_order(
    state: Controller,
    first: Event,
    between: Seq<Event>,
    second: Event,
)
    ensures
        ({
            let later_state = state.next(first).run(between);
            state.action(first) matches Action::Draw { frame: earlier } ==> (later_state.action(
                second,
            ) matches Action::Draw { frame: later } ==> {
                &&& earlier.elapsed_nanos <= later.elapsed_nanos
                &&& earlier.draw == later.draw
            })
        }),
{
    lemma_run_keeps_time_and_draw(state.next(first), between);
}

/// A redraw request is answered with exactly one frame whenever the loop is
/// open, the target valid and no frame in flight; in every other state it is
/// answered with none.
pub proof fn lemma_redraw_draws_once(state: Controller, elapsed_nanos: u128)
    ensures
        ({
            let event = Event::RedrawRequested { elapsed_nanos };
            let ready = !state.closed && state.target is Valid && state.activity
                != Activity::Drawing;
            &&& ready ==> state.action(event) == (Action::Draw {
                frame: state.frame_at(elapsed_nanos),
            })
            &&& ready ==> state.next(event).phase() == Phase::Drawing
            &&& !ready ==> !(state.action(event) is Draw)
            &&& !ready ==> state.next(event) == state
        }),
{
}

/// A frame that finds no surface image to draw to ends the loop: the failure
/// is reported as one of presentation, and nothing is drawn after it.
pub proof fn lemma_acquire_failure_is_fatal(state: Controller, events: Seq<Event>, last: Event)
    requires
        state.in_flight(),
    ensures
        state.action(Event::AcquireFailed) == (Action::Fail { stage: FailedStage::Presentation }),
        state.next(Event::AcquireFailed).phase() == Phase::Closed,
        state.next(Event::AcquireFailed).run(events).action(last) == Action::Exit,
{
    lemma_closed_stays(state.next(Event::AcquireFailed), events);
}

/// While a frame is in flight, which is what the phase `Drawing` means, no
/// event is answered with another one.
pub proof fn lemma_one_frame_in_flight(state: Controller, event: Event)
    ensures
        state.in_flight() <==> state.phase() == Phase::Drawing,
        state.in_flight() ==> !(state.action(event) is Draw),
{
}

/// While the target is stale no frame is handed out, and a redraw request is
/// answered with the order to rebuild at the window's size.
pub proof fn lemma_stale_defers_redraw(state: Controller, event: Event)
    requires
        state.phase() == Phase::Resizing,
    ensures
        !(state.action(event) is Draw),
        event is RedrawRequested ==> state.action(event) == (Action::Rebuild {
            extent: state.target.window(),
        }) && state.next(event) == state,
{
}

} // verus!
