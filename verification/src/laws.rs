//! What holds of the bridge on every run.

use crate::bridge::{all_free, BridgeState, Leg, Phase};
use crate::protocol::{Action, Event, FrameTick, Severity};
use crate::sync::{
    drained,
    is_lowest_free,
    lemma_lowest_free,
    lend_outcome,
    recycle_outcome,
    signal_outcome,
    wait_outcome,
    SemaphoreId,
    SemaphoreState,
    SyncError,
    SyncPoint,
};
use vstd::prelude::*;

verus! {

/// Lending from a pool in which every semaphore is free takes slot 0.
proof fn lemma_lend_first(slots: Seq<SemaphoreState>, limit: nat)
    requires
        all_free(slots),
        slots.len() <= limit <= usize::MAX,
    ensures
        match lend_outcome(slots, limit) {
            Ok((after, id)) => {
                &&& id.slot == 0
                &&& slots.len() <= after.len() <= limit
                &&& after.len() >= 1
                &&& after[0] == SemaphoreState::Idle
                &&& forall|i: int| 1 <= i < after.len() ==> after[i] == SemaphoreState::Free
            },
            Err(_) => true,
        },
{
    assert(is_lowest_free(slots, 0));
    lemma_lowest_free(slots, 0);
}

/// Lending from a pool in which only slot 0 is lent out takes slot 1.
proof fn lemma_lend_second(slots: Seq<SemaphoreState>, limit: nat)
    requires
        slots.len() >= 1,
        slots[0] == SemaphoreState::Idle,
        forall|i: int| 1 <= i < slots.len() ==> slots[i] == SemaphoreState::Free,
        slots.len() <= limit <= usize::MAX,
    ensures
        match lend_outcome(slots, limit) {
            Ok((after, id)) => {
                &&& id.slot == 1
                &&& slots.len() <= after.len() <= limit
                &&& after.len() >= 2
                &&& after[0] == SemaphoreState::Idle
                &&& after[1] == SemaphoreState::Idle
                &&& forall|i: int| 2 <= i < after.len() ==> after[i] == SemaphoreState::Free
            },
            Err(_) => true,
        },
{
    assert(is_lowest_free(slots, 1));
    lemma_lowest_free(slots, 1);
}

/// A step takes a well-formed bridge to a well-formed bridge.
pub proof fn law_step_keeps_wf(s: BridgeState, event: Event)
    requires
        s.wf(),
    ensures
        s.next(event).0.wf(),
{
    match s.phase {
        Phase::CheckingOutput => {
            lemma_lend_first(s.slots, s.limit);
            if let Ok((first, _)) = lend_outcome(s.slots, s.limit) {
                lemma_lend_second(first, s.limit);
            }
        },
        _ => {},
    }
}

/// One use of a semaphore, or of all of them.
pub enum Use {
    /// An operation that signals the semaphore is queued.
    Signal(SemaphoreId),
    /// An operation that waits on the semaphore is queued.
    Wait(SemaphoreId),
    /// The semaphore is handed back to the pool.
    Recycle(SemaphoreId),
    /// The queue has run dry.
    Drain,
}

/// What the pool makes of one use.
pub open spec fn use_outcome(slots: Seq<SemaphoreState>, u: Use) -> Result<
    Seq<SemaphoreState>,
    SyncError,
> {
    match u {
        Use::Signal(id) => signal_outcome(slots, id),
        Use::Wait(id) => wait_outcome(slots, id),
        Use::Recycle(id) => recycle_outcome(slots, id),
        Use::Drain => Ok(drained(slots)),
    }
}

/// What the pool makes of a run of uses, one after the other: the slots
/// after the last, or the first refusal.
pub open spec fn replay(slots: Seq<SemaphoreState>, uses: Seq<Use>) -> Result<
    Seq<SemaphoreState>,
    SyncError,
>
    decreases uses.len(),
{
    if uses.len() == 0 {
        Ok(slots)
    } else {
        match use_outcome(slots, uses.first()) {
            Err(e) => Err(e),
            Ok(after) => replay(after, uses.drop_first()),
        }
    }
}

/// The uses of semaphores that a step makes, in their order.
pub open spec fn uses_of(s: BridgeState, event: Event) -> Seq<Use> {
    match (s.phase, event) {
        (Phase::Preparing(lease), Event::SharedPoolExhausted) => seq![
            Use::Recycle(lease.acquire),
            Use::Recycle(lease.copy_done),
        ],
        (Phase::Acquiring(lease, _), Event::LocalImageAcquired { index }) => if index
            < lease.output.image_count {
            seq![Use::Signal(lease.acquire)]
        } else {
            seq![]
        },
        (Phase::Acquiring(lease, _), Event::SurfaceOutOfDate) => seq![
            Use::Recycle(lease.acquire),
            Use::Recycle(lease.copy_done),
        ],
        (Phase::InFlight(Leg::Opening, frame), Event::SubmitOpened) => seq![
            Use::Wait(frame.lease.acquire),
            Use::Signal(frame.lease.copy_done),
        ],
        (Phase::InFlight(Leg::Submitting, frame), Event::Submitted) => seq![
            Use::Wait(frame.lease.copy_done),
        ],
        (Phase::InFlight(Leg::Draining, frame), Event::QueueIdle) => seq![
            Use::Drain,
            Use::Recycle(frame.lease.acquire),
            Use::Recycle(frame.lease.copy_done),
        ],
        _ => seq![],
    }
}

proof fn lemma_replay_one(slots: Seq<SemaphoreState>, a: Use)
    ensures
        replay(slots, seq![a]) == match use_outcome(slots, a) {
            Err(e) => Err(e),
            Ok(after) => Ok(after),
        },
{
    reveal_with_fuel(replay, 2);
    assert(seq![a].drop_first() =~= Seq::<Use>::empty());
}

proof fn lemma_replay_two(slots: Seq<SemaphoreState>, a: Use, b: Use)
    ensures
        replay(slots, seq![a, b]) == match use_outcome(slots, a) {
            Err(e) => Err(e),
            Ok(after) => replay(after, seq![b]),
        },
{
    assert(seq![a, b].drop_first() =~= seq![b]);
}

proof fn lemma_replay_three(slots: Seq<SemaphoreState>, a: Use, b: Use, c: Use)
    ensures
        replay(slots, seq![a, b, c]) == match use_outcome(slots, a) {
            Err(e) => Err(e),
            Ok(after) => replay(after, seq![b, c]),
        },
{
    assert(seq![a, b, c].drop_first() =~= seq![b, c]);
}

/// The bridge never misuses a semaphore. On every step of a well-formed
/// bridge the pool accepts each use the step makes, in its order: no
/// semaphore is waited on without a signal or a second time, and none is
/// handed back while its signal is unconsumed or its wait may still be
/// executing. Apart from the step that lends the semaphores of a new frame,
/// those uses are all that happens to the pool.
pub proof fn law_semaphores_used_once(s: BridgeState, event: Event)
    requires
        s.wf(),
    ensures
        replay(s.slots, uses_of(s, event)) is Ok,
        !(s.phase is CheckingOutput) && !(s.phase is Stopped) && !(event is DeviceLost) && !(event
            is Failed) ==> replay(s.slots, uses_of(s, event)) == Ok::<
            Seq<SemaphoreState>,
            SyncError,
        >(s.next(event).0.slots),
{
    reveal_with_fuel(replay, 2);
    match (s.phase, event) {
        (Phase::Preparing(lease), Event::SharedPoolExhausted) => {
            lemma_replay_two(s.slots, Use::Recycle(lease.acquire), Use::Recycle(lease.copy_done));
            if let Ok(after) = recycle_outcome(s.slots, lease.acquire) {
                lemma_replay_one(after, Use::Recycle(lease.copy_done));
            }
        },
        (Phase::Acquiring(lease, _), Event::LocalImageAcquired { index }) => {
            if index < lease.output.image_count {
                lemma_replay_one(s.slots, Use::Signal(lease.acquire));
            }
        },
        (Phase::Acquiring(lease, _), Event::SurfaceOutOfDate) => {
            lemma_replay_two(s.slots, Use::Recycle(lease.acquire), Use::Recycle(lease.copy_done));
            if let Ok(after) = recycle_outcome(s.slots, lease.acquire) {
                lemma_replay_one(after, Use::Recycle(lease.copy_done));
            }
        },
        (Phase::InFlight(Leg::Opening, frame), Event::SubmitOpened) => {
            lemma_replay_two(
                s.slots,
                Use::Wait(frame.lease.acquire),
                Use::Signal(frame.lease.copy_done),
            );
            if let Ok(after) = wait_outcome(s.slots, frame.lease.acquire) {
                lemma_replay_one(after, Use::Signal(frame.lease.copy_done));
            }
        },
        (Phase::InFlight(Leg::Submitting, frame), Event::Submitted) => {
            lemma_replay_one(s.slots, Use::Wait(frame.lease.copy_done));
        },
        (Phase::InFlight(Leg::Draining, frame), Event::QueueIdle) => {
            let dry = drained(s.slots);
            lemma_replay_three(
                s.slots,
                Use::Drain,
                Use::Recycle(frame.lease.acquire),
                Use::Recycle(frame.lease.copy_done),
            );
            lemma_replay_two(
                dry,
                Use::Recycle(frame.lease.acquire),
                Use::Recycle(frame.lease.copy_done),
            );
            if let Ok(after) = recycle_outcome(dry, frame.lease.acquire) {
                lemma_replay_one(after, Use::Recycle(frame.lease.copy_done));
            }
        },
        _ => {},
    }
}

/// The bridge after a run of events.
pub open spec fn run(s: BridgeState, events: Seq<Event>) -> BridgeState
    decreases events.len(),
{
    if events.len() == 0 {
        s
    } else {
        run(s, events.drop_last()).next(events.last()).0
    }
}

/// The action that answers the last event of a run that is not empty.
pub open spec fn answer(s: BridgeState, events: Seq<Event>) -> Action {
    run(s, events.drop_last()).next(events.last()).1
}

/// The index that the swapchain handed out last within the tick that is
/// under way at the end of `events`, if it handed one out in that tick.
pub open spec fn acquired_this_tick(events: Seq<Event>) -> Option<u32>
    decreases events.len(),
{
    if events.len() == 0 {
        None
    } else {
        match events.last() {
            Event::LocalImageAcquired { index } => Some(index),
            Event::Tick(_) => None,
            _ => acquired_this_tick(events.drop_last()),
        }
    }
}

/// Every run of a bridge from its start keeps it well-formed.
pub proof fn law_run_keeps_wf(limit: nat, events: Seq<Event>)
    requires
        limit <= usize::MAX,
    ensures
        run(BridgeState::initial(limit), events).wf(),
    decreases events.len(),
{
    if events.len() > 0 {
        law_run_keeps_wf(limit, events.drop_last());
        law_step_keeps_wf(run(BridgeState::initial(limit), events.drop_last()), events.last());
    }
}

/// On no run of a bridge from its start is a semaphore misused: after any
/// events whatever, the pool accepts every use that the next step makes.
pub proof fn law_no_misuse_on_any_run(limit: nat, events: Seq<Event>, event: Event)
    requires
        limit <= usize::MAX,
    ensures
        replay(
            run(BridgeState::initial(limit), events).slots,
            uses_of(run(BridgeState::initial(limit), events), event),
        ) is Ok,
{
    law_run_keeps_wf(limit, events);
    law_semaphores_used_once(run(BridgeState::initial(limit), events), event);
}

/// The index a frame carries is the one acquired last in its tick.
proof fn lemma_frame_carries_acquired(s: BridgeState, events: Seq<Event>)
    requires
        !(s.phase is InFlight),
    ensures
        run(s, events).phase matches Phase::InFlight(_, frame) ==> acquired_this_tick(events)
            == Some(frame.index),
    decreases events.len(),
{
    if events.len() > 0 {
        lemma_frame_carries_acquired(s, events.drop_last());
    }
}

/// No stale index: on every run of a bridge, from its start, the image that
/// a copy is recorded into and the image that is presented are the image
/// that the swapchain handed out last, in the same tick.
pub proof fn law_copy_targets_acquired_image(limit: nat, events: Seq<Event>)
    requires
        events.len() > 0,
    ensures
        answer(BridgeState::initial(limit), events) matches Action::RecordCopy(copy)
            ==> acquired_this_tick(events) == Some(copy.image_index),
        answer(BridgeState::initial(limit), events) matches Action::Present(request) ==> {
            &&& acquired_this_tick(events) == Some(request.image_index)
            &&& !(events.last() is LocalImageAcquired)
        },
{
    lemma_frame_carries_acquired(BridgeState::initial(limit), events.drop_last());
}

/// A ping is answered and nothing else: in no phase does it lead to an
/// acquisition, a copy, a submission or a present, and between frames it
/// leaves the bridge as it was.
pub proof fn law_ping_is_inert(s: BridgeState)
    ensures
        !s.next(Event::Tick(FrameTick::Ping)).1.touches_swapchain(),
        s.phase is Waiting ==> s.next(Event::Tick(FrameTick::Ping)) == (
            s,
            Action::AcknowledgePing,
        ),
        s.next(Event::Tick(FrameTick::Ping)).1 is AcknowledgePing ==> s.phase is Waiting,
{
}

/// The copy fills the destination: whatever the extent of the shared image,
/// the copy that is recorded reads all of the shared image and writes all of
/// the swapchain image.
pub proof fn law_copy_fills_destination(s: BridgeState, event: Event)
    ensures
        s.next(event).1 matches Action::RecordCopy(copy) ==> {
            &&& s.phase matches Phase::Acquiring(lease, shared)
            &&& copy.transfer.destination == lease.output.surface_extent.whole()
            &&& copy.transfer.source == shared.whole()
        },
{
}

/// The frame stands on `leg`.
pub open spec fn on_leg(phase: Phase, leg: Leg) -> bool {
    phase matches Phase::InFlight(l, _) && l == leg
}

/// The frame stands on `leg` after it stood on `before`, and is otherwise
/// unchanged.
pub open spec fn moved(from: Phase, before: Leg, to: Phase, leg: Leg) -> bool {
    &&& from matches Phase::InFlight(l, frame)
    &&& l == before
    &&& to == Phase::InFlight(leg, frame)
}

/// The steps of a frame come in one order. Each action is asked for in one
/// phase only, the phase that the action before it leads to: the shared
/// image is prepared before the swapchain image is acquired, the image is
/// acquired before the copy is recorded, the copy is recorded before it is
/// submitted, submitted before the image is presented, and presented before
/// the texture is published. A new frame begins between frames only.
pub proof fn law_frame_order(s: BridgeState, event: Event)
    ensures
        ({
            let after = s.next(event).0.phase;
            let action = s.next(event).1;
            &&& action is ReadOutput ==> s.phase is Waiting && after is CheckingOutput
            &&& action is PrepareSharedImage ==> s.phase is CheckingOutput && after is Preparing
            &&& action is AcquireLocalImage ==> s.phase is Preparing && after is Acquiring
            &&& action is RecordCopy ==> s.phase is Acquiring && on_leg(after, Leg::Recording)
            &&& action is OpenSubmit ==> moved(s.phase, Leg::Recording, after, Leg::Opening)
            &&& action is Submit ==> moved(s.phase, Leg::Opening, after, Leg::Submitting)
            &&& action is Present ==> moved(s.phase, Leg::Submitting, after, Leg::Presenting)
            &&& action is WaitIdle ==> on_leg(s.phase, Leg::Presenting) && on_leg(
                after,
                Leg::Draining,
            )
            &&& action is CloseSubmit ==> moved(s.phase, Leg::Draining, after, Leg::Closing)
            &&& action is Publish ==> moved(s.phase, Leg::Closing, after, Leg::Publishing)
            &&& after is Waiting ==> {
                ||| s.phase is Waiting
                ||| s.phase is CheckingOutput
                ||| s.phase is Preparing
                ||| s.phase is Acquiring
                ||| on_leg(s.phase, Leg::Publishing)
            }
        }),
{
}

/// The sync points of a frame. The submission waits for exactly the shared
/// image's ready point and the acquire semaphore, and signals exactly the
/// shared image's release point and the copy-done semaphore. The present
/// waits for the copy-done semaphore, which is never the acquire semaphore.
pub proof fn law_sync_points_chain(s: BridgeState, event: Event)
    requires
        s.wf(),
    ensures
        s.next(event).1 matches Action::Submit(submission) ==> {
            &&& s.phase matches Phase::InFlight(_, frame)
            &&& submission.wait_set() == set![
                SyncPoint::SharedReady,
                SyncPoint::Binary(frame.lease.acquire),
            ]
            &&& submission.signal_set() == set![
                SyncPoint::SharedRelease,
                SyncPoint::Binary(frame.lease.copy_done),
            ]
        },
        s.next(event).1 matches Action::Present(request) ==> {
            &&& s.phase matches Phase::InFlight(_, frame)
            &&& request.wait == SyncPoint::Binary(frame.lease.copy_done)
            &&& request.wait != SyncPoint::Binary(frame.lease.acquire)
        },
{
}

/// Between frames nothing is lent out: when the bridge of a well-formed run
/// waits for the compositor, every semaphore is back in the pool.
pub proof fn law_no_semaphore_leaks(s: BridgeState, event: Event)
    requires
        s.wf(),
    ensures
        s.next(event).0.phase is Waiting ==> all_free(s.next(event).0.slots),
{
    law_step_keeps_wf(s, event);
}

/// The bridge treats every condition as its severity says. What is fatal
/// stops the bridge, and nothing else does. What can be ignored leaves the
/// bridge between frames, waiting for the compositor. A surface that is out
/// of date stops nothing: found while acquiring, the frame is given up and
/// its output is flagged at once; found while presenting, the frame is
/// completed and its output is flagged when the frame ends.
pub proof fn law_taxonomy(s: BridgeState, event: Event)
    ensures
        s.severity(event) == Some(Severity::Fatal) <==> s.next(event).0.phase is Stopped,
        s.severity(event) == Some(Severity::Fatal) <==> s.next(event).1 is Exit,
        s.severity(event) == Some(Severity::Ignorable) ==> {
            &&& s.next(event).0.phase is Waiting
            &&& s.next(event).1 is AwaitTick || s.next(event).1 is AcknowledgePing
        },
        s.severity(event) == Some(Severity::Recoverable) ==> {
            ||| s.phase matches Phase::Acquiring(lease, _) && s.next(event) == (
                s.with(Phase::Waiting, crate::bridge::released(s.slots, lease)),
                Action::InvalidateOutput { generation: lease.output.generation },
            )
            ||| s.phase matches Phase::InFlight(_, frame) && s.next(event).0.phase
                == Phase::InFlight(Leg::Draining, crate::bridge::Frame { stale: true, ..frame })
        },
        s.phase matches Phase::InFlight(Leg::Publishing, frame) ==> (frame.stale && event
            is Published ==> s.next(event).1 == (Action::InvalidateOutput {
            generation: frame.lease.output.generation,
        })),
{
}

} // verus!
