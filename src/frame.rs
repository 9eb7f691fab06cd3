//! Per-tick state machine of the render thread.
//!
//! The machine decides; the render thread does the graphics work that each
//! decision asks for and reports back with an event. One tick goes:
//! rebuild the swapchain if it is marked stale, build the framebuffers if
//! there are none, acquire an image, drain the commands into the geometry
//! registry and camera slot, draw, submit.

use vstd::prelude::*;
use crate::command::Command;
use crate::geometry_id::GeometryId;
use crate::registry::{inserted, GeometryRegistry};

verus! {

/// Why the output's dimensions could not be had.
#[derive(PartialEq, Eq, Structural, Copy, Clone, Debug)]
pub enum WindowError {
    /// The platform has no surface yet.
    NoWindowDimensions,
}

/// The output that frames are presented to; the swapchain follows its
/// dimensions.
pub trait Window {
    /// Width and height, in pixels.
    fn dimensions(&self) -> Result<(u32, u32), WindowError>;
}

/// Where the machine is within a tick.
#[derive(PartialEq, Eq, Structural, Copy, Clone, Debug)]
pub enum Phase {
    /// Between ticks.
    Idle,
    /// Waiting for the swapchain to be rebuilt.
    Recreating,
    /// Waiting for the framebuffers to be built.
    Building,
    /// Waiting for an image to draw into.
    Acquiring,
    /// Waiting for the pending commands.
    Draining,
    /// Waiting for the frame to be submitted.
    Drawing,
    /// Stopped after a fatal error.
    Terminated,
}

/// What the render thread reports.
#[derive(PartialEq, Eq, Structural, Copy, Clone, Debug)]
pub enum FrameEvent {
    /// A tick begins; finished work of the frame in flight has been reclaimed.
    TickStarted,
    /// The swapchain was rebuilt for output dimensions `width` x `height`.
    SwapchainRecreated { width: u32, height: u32 },
    /// The swapchain cannot be rebuilt for the present output dimensions.
    UnsupportedDimensions,
    /// One framebuffer per swapchain image was built.
    FramebuffersBuilt,
    /// Image `image` of the swapchain was acquired.
    ImageAcquired { image: usize },
    /// Acquiring failed because the swapchain no longer fits the output.
    OutOfDate,
    /// The frame was submitted and its presentation scheduled.
    Submitted,
    /// Graphics work failed in a way that cannot be recovered.
    Failed,
}

/// What the render thread is to do next.
#[derive(PartialEq, Eq, Structural, Copy, Clone, Debug)]
pub enum FrameAction {
    /// Query the output dimensions and rebuild the swapchain for them.
    RecreateSwapchain,
    /// Build one framebuffer per swapchain image.
    BuildFramebuffers,
    /// Acquire the next image of the swapchain.
    AcquireImage,
    /// Hand over every pending command.
    DrainCommands,
    /// Draw every registered entry, seen through the camera slot (the
    /// identity view when it is empty), into image `image`, and submit. The
    /// frame's completion is joined to that of the frame in flight when
    /// `join_previous` holds, and stands alone otherwise.
    Draw { image: usize, join_previous: bool },
    /// Nothing more in this tick.
    EndTick,
}

/// Why a step was refused.
#[derive(PartialEq, Eq, Structural, Copy, Clone, Debug)]
pub enum FrameError {
    /// Graphics work failed; the machine has stopped.
    Failed,
    /// The event does not fit the phase the machine is in.
    UnexpectedEvent,
    /// The machine stopped earlier after a failure.
    Terminated,
}

/// The decision state of the machine.
#[derive(PartialEq, Eq, Structural, Copy, Clone, Debug)]
pub struct FrameMachine {
    pub phase: Phase,
    /// Output dimensions the swapchain was last built for.
    pub width: u32,
    pub height: u32,
    /// Whether framebuffers exist for the present swapchain.
    pub has_framebuffers: bool,
    /// Whether the swapchain must be rebuilt before the next image is acquired.
    pub needs_recreate: bool,
    /// Whether a submitted frame may still be executing.
    pub in_flight: bool,
    /// The image acquired in the present tick.
    pub image: usize,
    /// Frames submitted so far (stops counting at `u64::MAX`).
    pub frames: u64,
}

/// The machine after `event`, and what the step returns.
pub open spec fn step_spec(m: FrameMachine, event: FrameEvent) -> (FrameMachine, Result<FrameAction, FrameError>) {
    if m.phase == Phase::Terminated {
        (m, Err(FrameError::Terminated))
    } else if event == FrameEvent::Failed {
        (FrameMachine { phase: Phase::Terminated, ..m }, Err(FrameError::Failed))
    } else {
        match (m.phase, event) {
            (Phase::Idle, FrameEvent::TickStarted) => if m.needs_recreate {
                (FrameMachine { phase: Phase::Recreating, ..m }, Ok(FrameAction::RecreateSwapchain))
            } else if !m.has_framebuffers {
                (FrameMachine { phase: Phase::Building, ..m }, Ok(FrameAction::BuildFramebuffers))
            } else {
                (FrameMachine { phase: Phase::Acquiring, ..m }, Ok(FrameAction::AcquireImage))
            },
            (Phase::Recreating, FrameEvent::SwapchainRecreated { width, height }) => (
                FrameMachine {
                    phase: Phase::Building,
                    width,
                    height,
                    has_framebuffers: false,
                    needs_recreate: false,
                    ..m
                },
                Ok(FrameAction::BuildFramebuffers),
            ),
            (Phase::Recreating, FrameEvent::UnsupportedDimensions) => (
                FrameMachine { phase: Phase::Idle, ..m },
                Ok(FrameAction::EndTick),
            ),
            (Phase::Building, FrameEvent::FramebuffersBuilt) => (
                FrameMachine { phase: Phase::Acquiring, has_framebuffers: true, ..m },
                Ok(FrameAction::AcquireImage),
            ),
            (Phase::Acquiring, FrameEvent::ImageAcquired { image }) => (
                FrameMachine { phase: Phase::Draining, image, ..m },
                Ok(FrameAction::DrainCommands),
            ),
            (Phase::Acquiring, FrameEvent::OutOfDate) => (
                FrameMachine { phase: Phase::Idle, needs_recreate: true, ..m },
                Ok(FrameAction::EndTick),
            ),
            (Phase::Drawing, FrameEvent::Submitted) => (
                FrameMachine {
                    phase: Phase::Idle,
                    in_flight: true,
                    frames: if m.frames < u64::MAX { (m.frames + 1) as u64 } else { m.frames },
                    ..m
                },
                Ok(FrameAction::EndTick),
            ),
            _ => (m, Err(FrameError::UnexpectedEvent)),
        }
    }
}

/// The camera slot and registry after one command.
pub open spec fn applied<K, E>(
    camera: Option<K>,
    registry: Seq<(GeometryId, E)>,
    command: Command<K, E>,
) -> (Option<K>, Seq<(GeometryId, E)>) {
    match command {
        Command::ClearCamera => (None, registry),
        Command::SetCamera(k) => (Some(k), registry),
        Command::AddGeometry(id, e) => (camera, inserted(registry, id, e)),
    }
}

/// The camera slot and registry after `commands`, applied in order.
pub open spec fn applied_all<K, E>(
    camera: Option<K>,
    registry: Seq<(GeometryId, E)>,
    commands: Seq<Command<K, E>>,
) -> (Option<K>, Seq<(GeometryId, E)>)
    decreases commands.len(),
{
    if commands.len() == 0 {
        (camera, registry)
    } else {
        let before = applied_all(camera, registry, commands.drop_last());
        applied(before.0, before.1, commands.last())
    }
}

/// The machine of a fresh renderer, for output dimensions `width` x `height`.
pub open spec fn fresh(width: u32, height: u32) -> FrameMachine {
    FrameMachine {
        phase: Phase::Idle,
        width,
        height,
        has_framebuffers: false,
        needs_recreate: false,
        in_flight: false,
        image: 0,
        frames: 0,
    }
}

/// The render thread's frame state: the decision machine, the camera slot
/// and the geometry registry.
pub struct FrameRenderer<K, E> {
    machine: FrameMachine,
    camera: Option<K>,
    registry: GeometryRegistry<E>,
}

impl<K, E> FrameRenderer<K, E> {
    pub closed spec fn machine(&self) -> FrameMachine {
        self.machine
    }

    pub closed spec fn camera_slot(&self) -> Option<K> {
        self.camera
    }

    pub closed spec fn entries(&self) -> Seq<(GeometryId, E)> {
        self.registry@
    }

    pub closed spec fn wf(&self) -> bool {
        self.registry.wf()
    }

    /// A renderer for a swapchain built for `width` x `height`, with no
    /// framebuffers, no frame in flight, an empty camera slot and an empty
    /// registry.
    pub fn new(width: u32, height: u32) -> (r: FrameRenderer<K, E>)
        ensures
            r.wf(),
            r.machine() == fresh(width, height),
            r.camera_slot() is None,
            r.entries() == Seq::<(GeometryId, E)>::empty(),
    {
        FrameRenderer {
            machine: FrameMachine {
                phase: Phase::Idle,
                width,
                height,
                has_framebuffers: false,
                needs_recreate: false,
                in_flight: false,
                image: 0,
                frames: 0,
            },
            camera: None,
            registry: GeometryRegistry::new(),
        }
    }

    /// The decision state.
    pub fn state(&self) -> (r: FrameMachine)
        ensures
            r == self.machine(),
    {
        self.machine
    }

    /// The camera slot.
    pub fn camera(&self) -> (r: &Option<K>)
        ensures
            *r == self.camera_slot(),
    {
        &self.camera
    }

    /// The geometry registry.
    pub fn registry(&self) -> (r: &GeometryRegistry<E>)
        requires
            self.wf(),
        ensures
            r.wf(),
            r@ == self.entries(),
    {
        &self.registry
    }

    /// Marks the swapchain stale, as when the output was resized: the next
    /// tick rebuilds it.
    pub fn request_recreate(&mut self)
        ensures
            final(self).machine() == (FrameMachine { needs_recreate: true, ..old(self).machine() }),
            final(self).camera_slot() == old(self).camera_slot(),
            final(self).entries() == old(self).entries(),
            final(self).wf() == old(self).wf(),
    {
        self.machine.needs_recreate = true;
    }
    /// Takes one event of the render thread and decides what comes next.
    pub fn step(&mut self, event: FrameEvent) -> (r: Result<FrameAction, FrameError>)
        ensures
            (final(self).machine(), r) == step_spec(old(self).machine(), event),
            final(self).camera_slot() == old(self).camera_slot(),
            final(self).entries() == old(self).entries(),
            final(self).wf() == old(self).wf(),
    {
        let m = self.machine;
        if m.phase == Phase::Terminated {
            return Err(FrameError::Terminated);
        }
        if event == FrameEvent::Failed {
            self.machine.phase = Phase::Terminated;
            return Err(FrameError::Failed);
        }
        match (m.phase, event) {
            (Phase::Idle, FrameEvent::TickStarted) => {
                if m.needs_recreate {
                    self.machine.phase = Phase::Recreating;
                    Ok(FrameAction::RecreateSwapchain)
                } else if !m.has_framebuffers {
                    self.machine.phase = Phase::Building;
                    Ok(FrameAction::BuildFramebuffers)
                } else {
                    self.machine.phase = Phase::Acquiring;
                    Ok(FrameAction::AcquireImage)
                }
            },
            (Phase::Recreating, FrameEvent::SwapchainRecreated { width, height }) => {
                self.machine.phase = Phase::Building;
                self.machine.width = width;
                self.machine.height = height;
                self.machine.has_framebuffers = false;
                self.machine.needs_recreate = false;
                Ok(FrameAction::BuildFramebuffers)
            },
            (Phase::Recreating, FrameEvent::UnsupportedDimensions) => {
                self.machine.phase = Phase::Idle;
                Ok(FrameAction::EndTick)
            },
            (Phase::Building, FrameEvent::FramebuffersBuilt) => {
                self.machine.phase = Phase::Acquiring;
                self.machine.has_framebuffers = true;
                Ok(FrameAction::AcquireImage)
            },
            (Phase::Acquiring, FrameEvent::ImageAcquired { image }) => {
                self.machine.phase = Phase::Draining;
                self.machine.image = image;
                Ok(FrameAction::DrainCommands)
            },
            (Phase::Acquiring, FrameEvent::OutOfDate) => {
                self.machine.phase = Phase::Idle;
                self.machine.needs_recreate = true;
                Ok(FrameAction::EndTick)
            },
            (Phase::Drawing, FrameEvent::Submitted) => {
                self.machine.phase = Phase::Idle;
                self.machine.in_flight = true;
                if m.frames < u64::MAX {
                    self.machine.frames = m.frames + 1;
                }
                Ok(FrameAction::EndTick)
            },
            _ => Err(FrameError::UnexpectedEvent),
        }
    }

    /// Applies one command to the camera slot or the registry. A geometry
    /// entry that is replaced is released.
    pub fn apply(&mut self, command: Command<K, E>)
        requires
            old(self).wf(),
        ensures
            final(self).wf(),
            (final(self).camera_slot(), final(self).entries()) == applied(
                old(self).camera_slot(),
                old(self).entries(),
                command,
            ),
            final(self).machine() == old(self).machine(),
    {
        match command {
            Command::ClearCamera => {
                self.camera = None;
            },
            Command::SetCamera(k) => {
                self.camera = Some(k);
            },
            Command::AddGeometry(id, e) => {
                let _released = self.registry.insert(id, e);
            },
        }
    }

    /// Applies the pending commands, in the order they were sent, once the
    /// image of this tick is acquired; then asks for the frame to be drawn.
    /// The frame is joined to the one in flight if there is one. Outside
    /// that phase the commands are handed back, untouched, with the error.
    pub fn drain(&mut self, commands: Vec<Command<K, E>>) -> (r: Result<
        FrameAction,
        (FrameError, Vec<Command<K, E>>),
    >)
        requires
            old(self).wf(),
        ensures
            final(self).wf(),
            old(self).machine().phase == Phase::Draining ==> {
                &&& r == Ok::<FrameAction, (FrameError, Vec<Command<K, E>>)>(
                    FrameAction::Draw { image: old(self).machine().image, join_previous: old(self).machine().in_flight },
                )
                &&& final(self).machine() == (FrameMachine { phase: Phase::Drawing, ..old(self).machine() })
                &&& (final(self).camera_slot(), final(self).entries()) == applied_all(
                    old(self).camera_slot(),
                    old(self).entries(),
                    commands@,
                )
            },
            old(self).machine().phase != Phase::Draining ==> {
                &&& r is Err
                &&& r->Err_0.0 == if old(self).machine().phase == Phase::Terminated {
                    FrameError::Terminated
                } else {
                    FrameError::UnexpectedEvent
                }
                &&& r->Err_0.1@ == commands@
                &&& final(self).machine() == old(self).machine()
                &&& final(self).camera_slot() == old(self).camera_slot()
                &&& final(self).entries() == old(self).entries()
            },
    {
        if self.machine.phase != Phase::Draining {
            if self.machine.phase == Phase::Terminated {
                return Err((FrameError::Terminated, commands));
            }
            return Err((FrameError::UnexpectedEvent, commands));
        }
        let ghost all = commands@;
        for command in it: commands.into_iter()
            invariant
                it.seq() == all,
                self.wf(),
                self.machine() == old(self).machine(),
                (self.camera_slot(), self.entries()) == applied_all(
                    old(self).camera_slot(),
                    old(self).entries(),
                    all.take(it.index() as int),
                ),
        {
            proof {
                assert(all.take(it.index() + 1).drop_last() =~= all.take(it.index() as int));
            }
            self.apply(command);
        }
        proof {
            assert(all.take(all.len() as int) =~= all);
        }
        self.machine.phase = Phase::Drawing;
        Ok(FrameAction::Draw { image: self.machine.image, join_previous: self.machine.in_flight })
    }
}

/// Commands reach the frame state once each and in the order sent, however
/// the stream is cut into drains: applying `first` and then `second`, in two
/// drains, leaves the same camera slot and registry as applying `first +
/// second` in one; a drain that finds nothing changes nothing.
pub proof fn lemma_drains_compose<K, E>(
    camera: Option<K>,
    registry: Seq<(GeometryId, E)>,
    first: Seq<Command<K, E>>,
    second: Seq<Command<K, E>>,
)
    ensures
        applied_all(camera, registry, Seq::<Command<K, E>>::empty()) == (camera, registry),
        ({
            let mid = applied_all(camera, registry, first);
            applied_all(mid.0, mid.1, second) == applied_all(camera, registry, first + second)
        }),
    decreases second.len(),
{
    if second.len() == 0 {
        assert(first + second =~= first);
    } else {
        assert((first + second).drop_last() =~= first + second.drop_last());
        assert((first + second).last() == second.last());
        lemma_drains_compose(camera, registry, first, second.drop_last());
    }
}

} // verus!
