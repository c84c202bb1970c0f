//! The frame bridge: the decisions of the frame loop.
//!
//! One frame is one pass through a fixed order of steps. The shared image is
//! prepared, a swapchain image is acquired, the copy is recorded, the one
//! submission is opened and handed to the queue, the image is presented, the
//! queue is drained, the submission is closed and the new texture is
//! published. The bridge holds where in that order the frame stands and which
//! semaphores it has lent to it. The driver reports what happened; the bridge
//! answers with what to do next.

use crate::extent::{full_transfer, stretch, Extent};
use crate::laws::law_step_keeps_wf;
use crate::output::Output;
use crate::protocol::{
    Action,
    CopyCommand,
    Event,
    Failure,
    FrameTick,
    Handoff,
    Operation,
    PresentRequest,
    Severity,
    Submission,
};
use crate::sync::{
    drained,
    lend_outcome,
    recycle_outcome,
    settled,
    signal_outcome,
    wait_outcome,
    SemaphoreId,
    SemaphorePool,
    SemaphoreState,
    SyncPoint,
};
use vstd::prelude::*;

verus! {

/// What a frame holds from its start: a copy of the output and two
/// semaphores of the pool.
#[derive(Clone, Copy, Debug, PartialEq, Eq, Structural)]
pub struct Lease {
    pub output: Output,
    /// Signaled when the acquired swapchain image can be written.
    pub acquire: SemaphoreId,
    /// Signaled when the copy is done and the image can be shown.
    pub copy_done: SemaphoreId,
}

/// A frame whose two images are known.
#[derive(Clone, Copy, Debug, PartialEq, Eq, Structural)]
pub struct Frame {
    pub lease: Lease,
    /// Extent of the shared image.
    pub shared: Extent,
    /// Index of the acquired swapchain image.
    pub index: u32,
    /// The present found the surface out of date.
    pub stale: bool,
}

/// The steps of a frame after both images are known, named by the operation
/// the driver is carrying out.
#[derive(Clone, Copy, Debug, PartialEq, Eq, Structural)]
pub enum Leg {
    Recording,
    Opening,
    Submitting,
    Presenting,
    Draining,
    Closing,
    Publishing,
}

/// Where the frame loop stands.
#[derive(Clone, Copy, Debug, PartialEq, Eq, Structural)]
pub enum Phase {
    /// Between frames, waiting for the compositor.
    Waiting,
    /// A render tick came in; the live output is being read.
    CheckingOutput,
    /// The shared image is being prepared.
    Preparing(Lease),
    /// The swapchain image is being acquired; the shared image has the given
    /// extent.
    Acquiring(Lease, Extent),
    /// Both images are known and the frame is on the given leg.
    InFlight(Leg, Frame),
    /// The bridge has stopped for good.
    Stopped(Failure),
}

/// The bridge as a value.
pub struct BridgeState {
    pub phase: Phase,
    /// The semaphores of the pool, by slot.
    pub slots: Seq<SemaphoreState>,
    /// The largest number of semaphores the pool may hold.
    pub limit: nat,
}

impl Phase {
    /// The operation whose outcome the bridge is waiting for.
    pub open spec fn operation(self) -> Operation {
        match self {
            Phase::Waiting => Operation::ReadEvent,
            Phase::CheckingOutput => Operation::ReadOutput,
            Phase::Preparing(_) => Operation::PrepareSharedImage,
            Phase::Acquiring(_, _) => Operation::AcquireLocalImage,
            Phase::InFlight(Leg::Recording, _) => Operation::RecordCopy,
            Phase::InFlight(Leg::Opening, _) => Operation::OpenSubmit,
            Phase::InFlight(Leg::Submitting, _) => Operation::Submit,
            Phase::InFlight(Leg::Presenting, _) => Operation::Present,
            Phase::InFlight(Leg::Draining, _) => Operation::WaitIdle,
            Phase::InFlight(Leg::Closing, _) => Operation::CloseSubmit,
            Phase::InFlight(Leg::Publishing, _) => Operation::Publish,
            Phase::Stopped(_) => Operation::Exit,
        }
    }

    /// The operation whose outcome the bridge is waiting for.
    pub fn pending(&self) -> (operation: Operation)
        ensures
            operation == self.operation(),
    {
        match self {
            Phase::Waiting => Operation::ReadEvent,
            Phase::CheckingOutput => Operation::ReadOutput,
            Phase::Preparing(_) => Operation::PrepareSharedImage,
            Phase::Acquiring(_, _) => Operation::AcquireLocalImage,
            Phase::InFlight(Leg::Recording, _) => Operation::RecordCopy,
            Phase::InFlight(Leg::Opening, _) => Operation::OpenSubmit,
            Phase::InFlight(Leg::Submitting, _) => Operation::Submit,
            Phase::InFlight(Leg::Presenting, _) => Operation::Present,
            Phase::InFlight(Leg::Draining, _) => Operation::WaitIdle,
            Phase::InFlight(Leg::Closing, _) => Operation::CloseSubmit,
            Phase::InFlight(Leg::Publishing, _) => Operation::Publish,
            Phase::Stopped(_) => Operation::Exit,
        }
    }
}

/// The slots after a signal on `id` was queued, if the pool accepts it.
pub open spec fn after_signal(slots: Seq<SemaphoreState>, id: SemaphoreId) -> Seq<SemaphoreState> {
    settled(slots, signal_outcome(slots, id))
}

/// The slots after a wait on `id` was queued, if the pool accepts it.
pub open spec fn after_wait(slots: Seq<SemaphoreState>, id: SemaphoreId) -> Seq<SemaphoreState> {
    settled(slots, wait_outcome(slots, id))
}

/// The slots after `id` was handed back, if the pool accepts it.
pub open spec fn after_recycle(slots: Seq<SemaphoreState>, id: SemaphoreId) -> Seq<
    SemaphoreState,
> {
    settled(slots, recycle_outcome(slots, id))
}

/// The slots after both semaphores of `lease` were handed back.
pub open spec fn released(slots: Seq<SemaphoreState>, lease: Lease) -> Seq<SemaphoreState> {
    after_recycle(after_recycle(slots, lease.acquire), lease.copy_done)
}

/// The submission of a frame: it waits until the shared image is ready and
/// the swapchain image is acquired, and it signals the release of the shared
/// image and the end of the copy.
pub open spec fn submission_of(lease: Lease) -> Submission {
    Submission {
        wait_shared: SyncPoint::SharedReady,
        wait_local: SyncPoint::Binary(lease.acquire),
        signal_shared: SyncPoint::SharedRelease,
        signal_local: SyncPoint::Binary(lease.copy_done),
    }
}

/// The copy of a frame: all of the shared image onto all of the acquired
/// swapchain image.
pub open spec fn copy_of(lease: Lease, shared: Extent, index: u32) -> CopyCommand {
    CopyCommand { image_index: index, transfer: stretch(shared, lease.output.surface_extent) }
}

/// Every semaphore is in the pool.
pub open spec fn all_free(slots: Seq<SemaphoreState>) -> bool {
    forall|i: int| 0 <= i < slots.len() ==> slots[i] == SemaphoreState::Free
}

/// The two semaphores of `lease` are two different slots in the given
/// states, and every other semaphore is in the pool.
pub open spec fn lent_as(
    slots: Seq<SemaphoreState>,
    lease: Lease,
    acquire: SemaphoreState,
    copy_done: SemaphoreState,
) -> bool {
    &&& lease.acquire.slot != lease.copy_done.slot
    &&& lease.acquire.slot < slots.len()
    &&& lease.copy_done.slot < slots.len()
    &&& slots[lease.acquire.slot as int] == acquire
    &&& slots[lease.copy_done.slot as int] == copy_done
    &&& forall|i: int|
        0 <= i < slots.len() && i != lease.acquire.slot && i != lease.copy_done.slot ==> slots[i]
            == SemaphoreState::Free
}

impl Leg {
    /// The states of a frame's two semaphores, `acquire` first, while the
    /// frame is on this leg.
    pub open spec fn semaphores(self) -> (SemaphoreState, SemaphoreState) {
        match self {
            Leg::Recording | Leg::Opening => (SemaphoreState::Signaled, SemaphoreState::Idle),
            Leg::Submitting => (SemaphoreState::Waited, SemaphoreState::Signaled),
            Leg::Presenting | Leg::Draining => (SemaphoreState::Waited, SemaphoreState::Waited),
            Leg::Closing | Leg::Publishing => (SemaphoreState::Free, SemaphoreState::Free),
        }
    }

    /// The image has been handed to the display engine.
    pub open spec fn presented(self) -> bool {
        self is Draining || self is Closing || self is Publishing
    }
}

/// The pool can lend two semaphores, one after the other.
pub open spec fn lends_two(slots: Seq<SemaphoreState>, limit: nat) -> bool {
    lend_outcome(slots, limit) matches Ok((first, _)) && lend_outcome(first, limit) is Ok
}

impl BridgeState {
    /// What holds of every bridge that was made by `FrameBridge::new` and
    /// moved by `FrameBridge::step` alone: between frames every semaphore is
    /// in the pool; during a frame exactly its two semaphores are lent out,
    /// each in the state that the frame's progress implies; and the acquired
    /// image is one the swapchain has.
    pub open spec fn wf(self) -> bool {
        &&& self.slots.len() <= self.limit <= usize::MAX
        &&& match self.phase {
            Phase::Waiting | Phase::CheckingOutput => all_free(self.slots),
            Phase::Preparing(lease) | Phase::Acquiring(lease, _) => lent_as(
                self.slots,
                lease,
                SemaphoreState::Idle,
                SemaphoreState::Idle,
            ),
            Phase::InFlight(leg, frame) => {
                &&& frame.index < frame.lease.output.image_count
                &&& frame.stale ==> leg.presented()
                &&& lent_as(self.slots, frame.lease, leg.semaphores().0, leg.semaphores().1)
            },
            Phase::Stopped(_) => true,
        }
    }

    /// The bridge before its first event.
    pub open spec fn initial(limit: nat) -> BridgeState {
        BridgeState { phase: Phase::Waiting, slots: Seq::empty(), limit }
    }

    /// The same bridge in another phase.
    pub open spec fn at(self, phase: Phase) -> BridgeState {
        BridgeState { phase, ..self }
    }

    /// The same bridge in another phase and with other slots.
    pub open spec fn with(self, phase: Phase, slots: Seq<SemaphoreState>) -> BridgeState {
        BridgeState { phase, slots, ..self }
    }

    /// The bridge stops for good.
    pub open spec fn halted(self, failure: Failure) -> (BridgeState, Action) {
        (self.at(Phase::Stopped(failure)), Action::Exit(failure))
    }

    /// The event cannot follow the operation that was under way.
    pub open spec fn out_of_turn(self) -> (BridgeState, Action) {
        self.halted(Failure::OutOfTurn { operation: self.phase.operation() })
    }

    /// Between frames: a ping is answered, a render tick starts a frame,
    /// anything else from the compositor is passed over.
    pub open spec fn after_tick(self, event: Event) -> (BridgeState, Action) {
        match event {
            Event::Tick(FrameTick::Ping) => (self, Action::AcknowledgePing),
            Event::Tick(FrameTick::StateSave) | Event::Woken => (self, Action::AwaitTick),
            Event::Tick(FrameTick::Render) => (self.at(Phase::CheckingOutput), Action::ReadOutput),
            Event::SourceClosed => self.halted(Failure::EventSourceClosed),
            _ => self.out_of_turn(),
        }
    }

    /// The output was read: without one the tick is passed over, with one
    /// the frame lends its two semaphores and begins.
    pub open spec fn after_output(self, event: Event) -> (BridgeState, Action) {
        match event {
            Event::OutputRead(None) => (self.at(Phase::Waiting), Action::AwaitTick),
            Event::OutputRead(Some(output)) => match lend_outcome(self.slots, self.limit) {
                Err(_) => self.halted(Failure::SemaphoresExhausted),
                Ok((first, acquire)) => match lend_outcome(first, self.limit) {
                    Err(_) => self.with(self.phase, first).halted(Failure::SemaphoresExhausted),
                    Ok((second, copy_done)) => (
                        self.with(Phase::Preparing(Lease { output, acquire, copy_done }), second),
                        Action::PrepareSharedImage,
                    ),
                },
            },
            _ => self.out_of_turn(),
        }
    }

    /// The shared image was asked for: with one the swapchain image is
    /// acquired next, without one the frame is given up.
    pub open spec fn after_prepare(self, lease: Lease, event: Event) -> (BridgeState, Action) {
        match event {
            Event::SharedImageReady { extent } => (
                self.at(Phase::Acquiring(lease, extent)),
                Action::AcquireLocalImage { signal: lease.acquire },
            ),
            Event::SharedPoolExhausted => (
                self.with(Phase::Waiting, released(self.slots, lease)),
                Action::AwaitTick,
            ),
            _ => self.out_of_turn(),
        }
    }

    /// The swapchain image was asked for: the copy goes to the image that
    /// was handed out; a surface that is out of date ends the frame and has
    /// the output flagged.
    pub open spec fn after_acquire(self, lease: Lease, shared: Extent, event: Event) -> (
        BridgeState,
        Action,
    ) {
        match event {
            Event::LocalImageAcquired { index } => if index < lease.output.image_count {
                (
                    self.with(
                        Phase::InFlight(
                            Leg::Recording,
                            Frame { lease, shared, index, stale: false },
                        ),
                        after_signal(self.slots, lease.acquire),
                    ),
                    Action::RecordCopy(copy_of(lease, shared, index)),
                )
            } else {
                self.halted(
                    Failure::ImageOutOfRange { index, count: lease.output.image_count },
                )
            },
            Event::SurfaceOutOfDate => (
                self.with(Phase::Waiting, released(self.slots, lease)),
                Action::InvalidateOutput { generation: lease.output.generation },
            ),
            _ => self.out_of_turn(),
        }
    }

    /// Both images are known: the frame goes from leg to leg.
    pub open spec fn after_leg(self, leg: Leg, frame: Frame, event: Event) -> (
        BridgeState,
        Action,
    ) {
        match (leg, event) {
            (Leg::Recording, Event::CopyRecorded) => (
                self.at(Phase::InFlight(Leg::Opening, frame)),
                Action::OpenSubmit,
            ),
            (Leg::Opening, Event::SubmitOpened) => (
                self.with(
                    Phase::InFlight(Leg::Submitting, frame),
                    after_signal(
                        after_wait(self.slots, frame.lease.acquire),
                        frame.lease.copy_done,
                    ),
                ),
                Action::Submit(submission_of(frame.lease)),
            ),
            (Leg::Submitting, Event::Submitted) => (
                self.with(
                    Phase::InFlight(Leg::Presenting, frame),
                    after_wait(self.slots, frame.lease.copy_done),
                ),
                Action::Present(
                    PresentRequest {
                        image_index: frame.index,
                        wait: SyncPoint::Binary(frame.lease.copy_done),
                    },
                ),
            ),
            (Leg::Presenting, Event::Presented) => (
                self.at(Phase::InFlight(Leg::Draining, frame)),
                Action::WaitIdle,
            ),
            (Leg::Presenting, Event::SurfaceOutOfDate) => (
                self.at(Phase::InFlight(Leg::Draining, Frame { stale: true, ..frame })),
                Action::WaitIdle,
            ),
            (Leg::Draining, Event::QueueIdle) => (
                self.with(
                    Phase::InFlight(Leg::Closing, frame),
                    released(drained(self.slots), frame.lease),
                ),
                Action::CloseSubmit,
            ),
            (Leg::Closing, Event::SubmitClosed(descriptor)) => (
                self.at(Phase::InFlight(Leg::Publishing, frame)),
                Action::Publish(Handoff { descriptor, extent: frame.shared }),
            ),
            (Leg::Publishing, Event::Published) => (
                self.at(Phase::Waiting),
                if frame.stale {
                    Action::InvalidateOutput { generation: frame.lease.output.generation }
                } else {
                    Action::AwaitTick
                },
            ),
            _ => self.out_of_turn(),
        }
    }

    /// How much an event matters to the bridge it reaches, if it is a
    /// condition at all and not the ordinary progress of a frame.
    ///
    /// Fatal are a lost device, a failed operation, an event stream that
    /// cannot be read, semaphores that cannot be lent, an image that the
    /// swapchain does not have, and an event that cannot follow the operation
    /// under way. Recoverable is a surface that is out of date when an image
    /// is acquired or presented. Ignorable are a ping, a request to save
    /// state, a wake-up without an event, a render tick without an output and
    /// a render tick for which no shared image can be written.
    pub open spec fn severity(self, event: Event) -> Option<Severity> {
        match (self.phase, event) {
            (Phase::Stopped(_), _) => Some(Severity::Fatal),
            (_, Event::DeviceLost) => Some(Severity::Fatal),
            (_, Event::Failed { .. }) => Some(Severity::Fatal),
            (Phase::Waiting, Event::Tick(FrameTick::Ping)) => Some(Severity::Ignorable),
            (Phase::Waiting, Event::Tick(FrameTick::StateSave)) => Some(Severity::Ignorable),
            (Phase::Waiting, Event::Woken) => Some(Severity::Ignorable),
            (Phase::Waiting, Event::Tick(FrameTick::Render)) => None,
            (Phase::CheckingOutput, Event::OutputRead(None)) => Some(Severity::Ignorable),
            (Phase::CheckingOutput, Event::OutputRead(Some(_))) => if lends_two(
                self.slots,
                self.limit,
            ) {
                None
            } else {
                Some(Severity::Fatal)
            },
            (Phase::Preparing(_), Event::SharedImageReady { .. }) => None,
            (Phase::Preparing(_), Event::SharedPoolExhausted) => Some(Severity::Ignorable),
            (Phase::Acquiring(lease, _), Event::LocalImageAcquired { index }) => if index
                < lease.output.image_count {
                None
            } else {
                Some(Severity::Fatal)
            },
            (Phase::Acquiring(_, _), Event::SurfaceOutOfDate) => Some(Severity::Recoverable),
            (Phase::InFlight(Leg::Recording, _), Event::CopyRecorded) => None,
            (Phase::InFlight(Leg::Opening, _), Event::SubmitOpened) => None,
            (Phase::InFlight(Leg::Submitting, _), Event::Submitted) => None,
            (Phase::InFlight(Leg::Presenting, _), Event::Presented) => None,
            (Phase::InFlight(Leg::Presenting, _), Event::SurfaceOutOfDate) => Some(
                Severity::Recoverable,
            ),
            (Phase::InFlight(Leg::Draining, _), Event::QueueIdle) => None,
            (Phase::InFlight(Leg::Closing, _), Event::SubmitClosed(_)) => None,
            (Phase::InFlight(Leg::Publishing, _), Event::Published) => None,
            _ => Some(Severity::Fatal),
        }
    }

    /// The bridge after an event, and the action it answers with.
    ///
    /// A bridge that has stopped stays stopped. A lost device or a failed
    /// operation stops it, and so does an event that cannot follow the
    /// operation under way. Everything else depends on the phase.
    pub open spec fn next(self, event: Event) -> (BridgeState, Action) {
        match self.phase {
            Phase::Stopped(failure) => (self, Action::Exit(failure)),
            _ => match event {
                Event::DeviceLost => self.halted(
                    Failure::DeviceLost { operation: self.phase.operation() },
                ),
                Event::Failed { code } => self.halted(
                    Failure::Failed { operation: self.phase.operation(), code },
                ),
                _ => match self.phase {
                    Phase::Waiting => self.after_tick(event),
                    Phase::CheckingOutput => self.after_output(event),
                    Phase::Preparing(lease) => self.after_prepare(lease, event),
                    Phase::Acquiring(lease, shared) => self.after_acquire(lease, shared, event),
                    Phase::InFlight(leg, frame) => self.after_leg(leg, frame, event),
                    Phase::Stopped(failure) => (self, Action::Exit(failure)),
                },
            },
        }
    }
}

/// The frame bridge.
pub struct FrameBridge {
    phase: Phase,
    pool: SemaphorePool,
}

impl View for FrameBridge {
    type V = BridgeState;

    closed spec fn view(&self) -> BridgeState {
        BridgeState { phase: self.phase, slots: self.pool@, limit: self.pool.limit() }
    }
}

impl FrameBridge {
    /// A bridge between frames whose pool may grow to `capacity` semaphores.
    /// Its driver begins by waiting for the compositor.
    pub fn new(capacity: usize) -> (bridge: FrameBridge)
        ensures
            bridge@ == BridgeState::initial(capacity as nat),
            bridge@.wf(),
    {
        FrameBridge { phase: Phase::Waiting, pool: SemaphorePool::new(capacity) }
    }

    /// Where the frame loop stands.
    pub fn phase(&self) -> (phase: Phase)
        ensures
            phase == self@.phase,
    {
        self.phase
    }

    /// The state of one semaphore of the bridge's pool.
    pub fn semaphore(&self, id: SemaphoreId) -> (state: SemaphoreState)
        ensures
            state == crate::sync::state_of(self@.slots, id),
    {
        self.pool.state(id)
    }

    /// Takes the outcome of the last action and says what to do next.
    pub fn step(&mut self, event: Event) -> (action: Action)
        ensures
            (final(self)@, action) == old(self)@.next(event),
            old(self)@.wf() ==> final(self)@.wf(),
    {
        proof {
            if self@.wf() {
                law_step_keeps_wf(self@, event);
            }
        }
        let phase = self.phase;
        match phase {
            Phase::Stopped(failure) => Action::Exit(failure),
            _ => match event {
                Event::DeviceLost => self.halt(Failure::DeviceLost { operation: phase.pending() }),
                Event::Failed { code } => self.halt(
                    Failure::Failed { operation: phase.pending(), code },
                ),
                _ => match phase {
                    Phase::Waiting => self.on_tick(event),
                    Phase::CheckingOutput => self.on_output(event),
                    Phase::Preparing(lease) => self.on_prepared(lease, event),
                    Phase::Acquiring(lease, shared) => self.on_acquired(lease, shared, event),
                    Phase::InFlight(leg, frame) => self.on_leg(leg, frame, event),
                    Phase::Stopped(failure) => Action::Exit(failure),
                },
            },
        }
    }

    /// Takes the outcome of the last action, says what to do next and how
    /// much the outcome matters, for the log.
    pub fn step_with_severity(&mut self, event: Event) -> (reply: (Action, Option<Severity>))
        ensures
            (final(self)@, reply.0) == old(self)@.next(event),
            reply.1 == old(self)@.severity(event),
            old(self)@.wf() ==> final(self)@.wf(),
    {
        let before = self.phase;
        let action = self.step(event);
        let stopped = match action {
            Action::Exit(_) => true,
            _ => false,
        };
        let severity = match (before, event) {
            (Phase::Stopped(_), _) => Some(Severity::Fatal),
            (_, Event::DeviceLost) => Some(Severity::Fatal),
            (_, Event::Failed { .. }) => Some(Severity::Fatal),
            (Phase::Waiting, Event::Tick(FrameTick::Ping)) => Some(Severity::Ignorable),
            (Phase::Waiting, Event::Tick(FrameTick::StateSave)) => Some(Severity::Ignorable),
            (Phase::Waiting, Event::Woken) => Some(Severity::Ignorable),
            (Phase::CheckingOutput, Event::OutputRead(None)) => Some(Severity::Ignorable),
            (Phase::Preparing(_), Event::SharedPoolExhausted) => Some(Severity::Ignorable),
            (Phase::Acquiring(_, _), Event::SurfaceOutOfDate) => Some(Severity::Recoverable),
            (Phase::InFlight(Leg::Presenting, _), Event::SurfaceOutOfDate) => Some(
                Severity::Recoverable,
            ),
            _ => if stopped {
                Some(Severity::Fatal)
            } else {
                None
            },
        };
        (action, severity)
    }

    /// Stops the bridge for good.
    fn halt(&mut self, failure: Failure) -> (action: Action)
        ensures
            (final(self)@, action) == old(self)@.halted(failure),
    {
        self.phase = Phase::Stopped(failure);
        Action::Exit(failure)
    }

    /// Stops the bridge on an event that cannot follow the operation under
    /// way.
    fn reject(&mut self) -> (action: Action)
        ensures
            (final(self)@, action) == old(self)@.out_of_turn(),
    {
        let operation = self.phase.pending();
        self.halt(Failure::OutOfTurn { operation })
    }

    /// Hands both semaphores of a frame back to the pool.
    fn release(&mut self, lease: Lease)
        ensures
            final(self)@ == old(self)@.with(old(self)@.phase, released(old(self)@.slots, lease)),
    {
        let _ = self.pool.recycle(lease.acquire);
        let _ = self.pool.recycle(lease.copy_done);
    }

    /// The step between frames.
    fn on_tick(&mut self, event: Event) -> (action: Action)
        ensures
            (final(self)@, action) == old(self)@.after_tick(event),
    {
        match event {
            Event::Tick(FrameTick::Ping) => Action::AcknowledgePing,
            Event::Tick(FrameTick::StateSave) | Event::Woken => Action::AwaitTick,
            Event::Tick(FrameTick::Render) => {
                self.phase = Phase::CheckingOutput;
                Action::ReadOutput
            },
            Event::SourceClosed => self.halt(Failure::EventSourceClosed),
            _ => self.reject(),
        }
    }

    /// The step after the output was read.
    fn on_output(&mut self, event: Event) -> (action: Action)
        ensures
            (final(self)@, action) == old(self)@.after_output(event),
    {
        match event {
            Event::OutputRead(None) => {
                self.phase = Phase::Waiting;
                Action::AwaitTick
            },
            Event::OutputRead(Some(output)) => match self.pool.allocate() {
                Err(_) => self.halt(Failure::SemaphoresExhausted),
                Ok(acquire) => match self.pool.allocate() {
                    Err(_) => self.halt(Failure::SemaphoresExhausted),
                    Ok(copy_done) => {
                        self.phase = Phase::Preparing(Lease { output, acquire, copy_done });
                        Action::PrepareSharedImage
                    },
                },
            },
            _ => self.reject(),
        }
    }

    /// The step after the shared image was asked for.
    fn on_prepared(&mut self, lease: Lease, event: Event) -> (action: Action)
        ensures
            (final(self)@, action) == old(self)@.after_prepare(lease, event),
    {
        match event {
            Event::SharedImageReady { extent } => {
                self.phase = Phase::Acquiring(lease, extent);
                Action::AcquireLocalImage { signal: lease.acquire }
            },
            Event::SharedPoolExhausted => {
                self.release(lease);
                self.phase = Phase::Waiting;
                Action::AwaitTick
            },
            _ => self.reject(),
        }
    }

    /// The step after the swapchain image was asked for.
    fn on_acquired(&mut self, lease: Lease, shared: Extent, event: Event) -> (action: Action)
        ensures
            (final(self)@, action) == old(self)@.after_acquire(lease, shared, event),
    {
        match event {
            Event::LocalImageAcquired { index } => {
                if index < lease.output.image_count {
                    let _ = self.pool.signal(lease.acquire);
                    self.phase =
                    Phase::InFlight(Leg::Recording, Frame { lease, shared, index, stale: false });
                    Action::RecordCopy(
                        CopyCommand {
                            image_index: index,
                            transfer: full_transfer(shared, lease.output.surface_extent),
                        },
                    )
                } else {
                    self.halt(Failure::ImageOutOfRange { index, count: lease.output.image_count })
                }
            },
            Event::SurfaceOutOfDate => {
                self.release(lease);
                self.phase = Phase::Waiting;
                Action::InvalidateOutput { generation: lease.output.generation }
            },
            _ => self.reject(),
        }
    }

    /// The step of a frame whose two images are known.
    fn on_leg(&mut self, leg: Leg, frame: Frame, event: Event) -> (action: Action)
        ensures
            (final(self)@, action) == old(self)@.after_leg(leg, frame, event),
    {
        match (leg, event) {
            (Leg::Recording, Event::CopyRecorded) => {
                self.phase = Phase::InFlight(Leg::Opening, frame);
                Action::OpenSubmit
            },
            (Leg::Opening, Event::SubmitOpened) => {
                let _ = self.pool.wait(frame.lease.acquire);
                let _ = self.pool.signal(frame.lease.copy_done);
                self.phase = Phase::InFlight(Leg::Submitting, frame);
                Action::Submit(
                    Submission {
                        wait_shared: SyncPoint::SharedReady,
                        wait_local: SyncPoint::Binary(frame.lease.acquire),
                        signal_shared: SyncPoint::SharedRelease,
                        signal_local: SyncPoint::Binary(frame.lease.copy_done),
                    },
                )
            },
            (Leg::Submitting, Event::Submitted) => {
                let _ = self.pool.wait(frame.lease.copy_done);
                self.phase = Phase::InFlight(Leg::Presenting, frame);
                Action::Present(
                    PresentRequest {
                        image_index: frame.index,
                        wait: SyncPoint::Binary(frame.lease.copy_done),
                    },
                )
            },
            (Leg::Presenting, Event::Presented) => {
                self.phase = Phase::InFlight(Leg::Draining, frame);
                Action::WaitIdle
            },
            (Leg::Presenting, Event::SurfaceOutOfDate) => {
                self.phase = Phase::InFlight(
                    Leg::Draining,
                    Frame {
                        lease: frame.lease,
                        shared: frame.shared,
                        index: frame.index,
                        stale: true,
                    },
                );
                Action::WaitIdle
            },
            (Leg::Draining, Event::QueueIdle) => {
                self.pool.drain();
                self.release(frame.lease);
                self.phase = Phase::InFlight(Leg::Closing, frame);
                Action::CloseSubmit
            },
            (Leg::Closing, Event::SubmitClosed(descriptor)) => {
                self.phase = Phase::InFlight(Leg::Publishing, frame);
                Action::Publish(Handoff { descriptor, extent: frame.shared })
            },
            (Leg::Publishing, Event::Published) => {
                self.phase = Phase::Waiting;
                if frame.stale {
                    Action::InvalidateOutput { generation: frame.lease.output.generation }
                } else {
                    Action::AwaitTick
                }
            },
            _ => self.reject(),
        }
    }
}

} // verus!
