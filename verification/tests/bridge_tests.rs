use frame_bridge::bridge::{Frame, FrameBridge, Lease, Leg, Phase};
use frame_bridge::extent::{Extent, Rect};
use frame_bridge::output::Output;
use frame_bridge::protocol::{
    Action, CopyCommand, Event, Failure, FrameTick, Handoff, Operation, PresentRequest, Severity,
    SubmitDescriptor, Submission, FAILURE_STATUS,
};
use frame_bridge::sync::{SemaphoreId, SemaphorePool, SemaphoreState, SyncPoint};

fn output(generation: u64, width: u32, height: u32, image_count: u32) -> Output {
    Output {
        generation,
        surface_extent: Extent::new(width, height),
        shared_extent: Extent::new(width, height),
        image_count,
    }
}

fn descriptor(id: u64) -> SubmitDescriptor {
    SubmitDescriptor { id, acquire_point: 10 * id, release_point: 10 * id + 1 }
}

fn sem(slot: usize) -> SemaphoreId {
    SemaphoreId { slot }
}

/// What a driver did, counted by kind.
#[derive(Debug, Default, PartialEq, Eq)]
struct Counts {
    pings: u32,
    output_reads: u32,
    prepares: u32,
    acquires: u32,
    copies: u32,
    submits: u32,
    presents: u32,
    drains: u32,
    publishes: u32,
    invalidations: u32,
    exits: u32,
}

/// A driver without a GPU: it answers every action with the event a healthy
/// system would report, takes ticks from a list, and keeps count. A second
/// pool watches every use of a semaphore that the actions ask for.
struct Driver {
    ticks: Vec<Option<FrameTick>>,
    next_tick: usize,
    output_from_tick: usize,
    output: Output,
    shared: Extent,
    next_index: u32,
    acquired: Option<u32>,
    frame_id: u64,
    counts: Counts,
    monitor: SemaphorePool,
    lent: Vec<SemaphoreId>,
}

impl Driver {
    fn new(ticks: Vec<Option<FrameTick>>, output_from_tick: usize) -> Driver {
        Driver {
            ticks,
            next_tick: 0,
            output_from_tick,
            output: output(1, 1920, 1080, 3),
            shared: Extent::new(1024, 1024),
            next_index: 0,
            acquired: None,
            frame_id: 0,
            counts: Counts::default(),
            monitor: SemaphorePool::new(2),
            lent: vec![],
        }
    }

    fn tick(&mut self) -> Option<Event> {
        if self.next_tick == self.ticks.len() {
            return None;
        }
        let tick = self.ticks[self.next_tick];
        self.next_tick += 1;
        Some(match tick {
            Some(t) => Event::Tick(t),
            None => Event::Woken,
        })
    }

    fn lend(&mut self, id: SemaphoreId) {
        if !self.lent.contains(&id) {
            assert_eq!(self.monitor.allocate(), Ok(id));
            self.lent.push(id);
        }
    }

    fn binary(point: SyncPoint) -> SemaphoreId {
        match point {
            SyncPoint::Binary(id) => id,
            other => panic!("not a semaphore of the bridge: {:?}", other),
        }
    }

    /// Carries out one action; `None` when the ticks have run out or the
    /// bridge has asked to exit.
    fn perform(&mut self, action: Action) -> Option<Event> {
        match action {
            Action::AwaitTick => self.tick(),
            Action::AcknowledgePing => {
                self.counts.pings += 1;
                self.tick()
            }
            Action::ReadOutput => {
                self.counts.output_reads += 1;
                if self.next_tick > self.output_from_tick {
                    Some(Event::OutputRead(Some(self.output)))
                } else {
                    Some(Event::OutputRead(None))
                }
            }
            Action::PrepareSharedImage => {
                self.counts.prepares += 1;
                Some(Event::SharedImageReady { extent: self.shared })
            }
            Action::AcquireLocalImage { signal } => {
                self.counts.acquires += 1;
                self.lend(signal);
                assert_eq!(self.monitor.signal(signal), Ok(()));
                let index = self.next_index;
                self.next_index = (self.next_index + 1) % self.output.image_count;
                self.acquired = Some(index);
                Some(Event::LocalImageAcquired { index })
            }
            Action::RecordCopy(copy) => {
                self.counts.copies += 1;
                assert_eq!(Some(copy.image_index), self.acquired);
                assert_eq!(
                    copy.transfer.destination,
                    Rect { x: 0, y: 0, width: 1920, height: 1080 }
                );
                assert_eq!(copy.transfer.source, Rect { x: 0, y: 0, width: 1024, height: 1024 });
                Some(Event::CopyRecorded)
            }
            Action::OpenSubmit => Some(Event::SubmitOpened),
            Action::Submit(submission) => {
                self.counts.submits += 1;
                assert_eq!(submission.wait_shared, SyncPoint::SharedReady);
                assert_eq!(submission.signal_shared, SyncPoint::SharedRelease);
                let wait = Driver::binary(submission.wait_local);
                let signal = Driver::binary(submission.signal_local);
                assert_ne!(wait, signal);
                self.lend(signal);
                assert_eq!(self.monitor.wait(wait), Ok(()));
                assert_eq!(self.monitor.signal(signal), Ok(()));
                Some(Event::Submitted)
            }
            Action::Present(request) => {
                self.counts.presents += 1;
                assert_eq!(Some(request.image_index), self.acquired);
                assert_eq!(self.monitor.wait(Driver::binary(request.wait)), Ok(()));
                Some(Event::Presented)
            }
            Action::WaitIdle => {
                self.counts.drains += 1;
                self.monitor.drain();
                Some(Event::QueueIdle)
            }
            Action::CloseSubmit => {
                self.frame_id += 1;
                self.acquired = None;
                Some(Event::SubmitClosed(descriptor(self.frame_id)))
            }
            Action::Publish(handoff) => {
                self.counts.publishes += 1;
                assert_eq!(handoff.descriptor, descriptor(self.frame_id));
                assert_eq!(handoff.extent, self.shared);
                Some(Event::Published)
            }
            Action::InvalidateOutput { .. } => {
                self.counts.invalidations += 1;
                self.tick()
            }
            Action::Exit(_) => {
                self.counts.exits += 1;
                None
            }
        }
    }

    fn run(&mut self, bridge: &mut FrameBridge) {
        let mut action = Action::AwaitTick;
        while let Some(event) = self.perform(action) {
            action = bridge.step(event);
        }
    }
}

/// Takes a bridge through a whole frame up to the given leg.
fn frame_on(leg: Leg, out: Output, shared: Extent, index: u32) -> FrameBridge {
    let mut bridge = FrameBridge::new(2);
    assert_eq!(bridge.step(Event::Tick(FrameTick::Render)), Action::ReadOutput);
    assert_eq!(bridge.step(Event::OutputRead(Some(out))), Action::PrepareSharedImage);
    assert_eq!(
        bridge.step(Event::SharedImageReady { extent: shared }),
        Action::AcquireLocalImage { signal: sem(0) }
    );
    assert!(matches!(bridge.step(Event::LocalImageAcquired { index }), Action::RecordCopy(_)));
    let order = [
        (Leg::Recording, Event::CopyRecorded),
        (Leg::Opening, Event::SubmitOpened),
        (Leg::Submitting, Event::Submitted),
        (Leg::Presenting, Event::Presented),
        (Leg::Draining, Event::QueueIdle),
        (Leg::Closing, Event::SubmitClosed(descriptor(1))),
    ];
    for (at, event) in order {
        if at == leg {
            break;
        }
        bridge.step(event);
    }
    assert!(matches!(bridge.phase(), Phase::InFlight(l, _) if l == leg));
    bridge
}

#[test]
fn five_ticks_give_three_frames_and_one_ping() {
    let ticks = vec![
        Some(FrameTick::Ping),
        Some(FrameTick::Render),
        Some(FrameTick::Render),
        Some(FrameTick::StateSave),
        Some(FrameTick::Render),
    ];
    let mut driver = Driver::new(ticks, 1);
    let mut bridge = FrameBridge::new(2);
    driver.run(&mut bridge);
    assert_eq!(
        driver.counts,
        Counts {
            pings: 1,
            output_reads: 3,
            prepares: 3,
            acquires: 3,
            copies: 3,
            submits: 3,
            presents: 3,
            drains: 3,
            publishes: 3,
            invalidations: 0,
            exits: 0,
        }
    );
    assert_eq!(bridge.phase(), Phase::Waiting);
    assert_eq!(bridge.semaphore(sem(0)), SemaphoreState::Free);
    assert_eq!(bridge.semaphore(sem(1)), SemaphoreState::Free);
}

#[test]
fn no_frame_before_an_output_exists() {
    let ticks = vec![
        Some(FrameTick::Ping),
        Some(FrameTick::Render),
        Some(FrameTick::Render),
        Some(FrameTick::StateSave),
        Some(FrameTick::Render),
    ];
    let mut driver = Driver::new(ticks, 4);
    let mut bridge = FrameBridge::new(2);
    driver.run(&mut bridge);
    assert_eq!(driver.counts.pings, 1);
    assert_eq!(driver.counts.output_reads, 3);
    assert_eq!(driver.counts.prepares, 1);
    assert_eq!(driver.counts.copies, 1);
    assert_eq!(driver.counts.submits, 1);
    assert_eq!(driver.counts.presents, 1);
    assert_eq!(driver.counts.publishes, 1);

    let ticks = vec![Some(FrameTick::Render), Some(FrameTick::Render), None];
    let mut driver = Driver::new(ticks, 99);
    let mut bridge = FrameBridge::new(2);
    driver.run(&mut bridge);
    assert_eq!(
        driver.counts,
        Counts { output_reads: 2, ..Counts::default() }
    );
    assert_eq!(bridge.phase(), Phase::Waiting);
}

#[test]
fn pings_alone_touch_nothing() {
    let mut driver = Driver::new(vec![Some(FrameTick::Ping); 7], 0);
    let mut bridge = FrameBridge::new(2);
    driver.run(&mut bridge);
    assert_eq!(driver.counts, Counts { pings: 7, ..Counts::default() });
    assert_eq!(bridge.phase(), Phase::Waiting);
    assert_eq!(driver.monitor.len(), 0);
}

#[test]
fn ping_is_answered_and_leaves_the_bridge_waiting() {
    let mut bridge = FrameBridge::new(2);
    assert_eq!(bridge.step(Event::Tick(FrameTick::Ping)), Action::AcknowledgePing);
    assert_eq!(bridge.phase(), Phase::Waiting);
    assert_eq!(bridge.step(Event::Tick(FrameTick::StateSave)), Action::AwaitTick);
    assert_eq!(bridge.step(Event::Woken), Action::AwaitTick);
    assert_eq!(bridge.phase(), Phase::Waiting);
    assert_eq!(bridge.phase().pending(), Operation::ReadEvent);
}

#[test]
fn ping_in_the_middle_of_a_frame_starts_no_gpu_work() {
    let mut bridge = frame_on(Leg::Opening, output(1, 800, 600, 2), Extent::new(800, 600), 1);
    let action = bridge.step(Event::Tick(FrameTick::Ping));
    assert_eq!(action, Action::Exit(Failure::OutOfTurn { operation: Operation::OpenSubmit }));
}

#[test]
fn a_frame_goes_through_its_steps_in_order() {
    let out = output(7, 1920, 1080, 3);
    let shared = Extent::new(1024, 1024);
    let lease = Lease { output: out, acquire: sem(0), copy_done: sem(1) };
    let frame = Frame { lease, shared, index: 2, stale: false };
    let mut bridge = FrameBridge::new(2);

    assert_eq!(bridge.step(Event::Tick(FrameTick::Render)), Action::ReadOutput);
    assert_eq!(bridge.phase(), Phase::CheckingOutput);

    assert_eq!(bridge.step(Event::OutputRead(Some(out))), Action::PrepareSharedImage);
    assert_eq!(bridge.phase(), Phase::Preparing(lease));
    assert_eq!(bridge.semaphore(sem(0)), SemaphoreState::Idle);
    assert_eq!(bridge.semaphore(sem(1)), SemaphoreState::Idle);

    assert_eq!(
        bridge.step(Event::SharedImageReady { extent: shared }),
        Action::AcquireLocalImage { signal: sem(0) }
    );
    assert_eq!(bridge.phase(), Phase::Acquiring(lease, shared));

    assert_eq!(
        bridge.step(Event::LocalImageAcquired { index: 2 }),
        Action::RecordCopy(CopyCommand {
            image_index: 2,
            transfer: frame_bridge::extent::Transfer {
                source: Rect { x: 0, y: 0, width: 1024, height: 1024 },
                destination: Rect { x: 0, y: 0, width: 1920, height: 1080 },
                scaled: true,
            },
        })
    );
    assert_eq!(bridge.phase(), Phase::InFlight(Leg::Recording, frame));
    assert_eq!(bridge.semaphore(sem(0)), SemaphoreState::Signaled);
    assert_eq!(bridge.semaphore(sem(1)), SemaphoreState::Idle);

    assert_eq!(bridge.step(Event::CopyRecorded), Action::OpenSubmit);
    assert_eq!(bridge.phase(), Phase::InFlight(Leg::Opening, frame));

    assert_eq!(
        bridge.step(Event::SubmitOpened),
        Action::Submit(Submission {
            wait_shared: SyncPoint::SharedReady,
            wait_local: SyncPoint::Binary(sem(0)),
            signal_shared: SyncPoint::SharedRelease,
            signal_local: SyncPoint::Binary(sem(1)),
        })
    );
    assert_eq!(bridge.phase(), Phase::InFlight(Leg::Submitting, frame));
    assert_eq!(bridge.semaphore(sem(0)), SemaphoreState::Waited);
    assert_eq!(bridge.semaphore(sem(1)), SemaphoreState::Signaled);

    assert_eq!(
        bridge.step(Event::Submitted),
        Action::Present(PresentRequest { image_index: 2, wait: SyncPoint::Binary(sem(1)) })
    );
    assert_eq!(bridge.phase(), Phase::InFlight(Leg::Presenting, frame));
    assert_eq!(bridge.semaphore(sem(0)), SemaphoreState::Waited);
    assert_eq!(bridge.semaphore(sem(1)), SemaphoreState::Waited);

    assert_eq!(bridge.step(Event::Presented), Action::WaitIdle);
    assert_eq!(bridge.phase(), Phase::InFlight(Leg::Draining, frame));

    assert_eq!(bridge.step(Event::QueueIdle), Action::CloseSubmit);
    assert_eq!(bridge.phase(), Phase::InFlight(Leg::Closing, frame));
    assert_eq!(bridge.semaphore(sem(0)), SemaphoreState::Free);
    assert_eq!(bridge.semaphore(sem(1)), SemaphoreState::Free);

    let d = SubmitDescriptor { id: 42, acquire_point: 5, release_point: 6 };
    assert_eq!(
        bridge.step(Event::SubmitClosed(d)),
        Action::Publish(Handoff { descriptor: d, extent: shared })
    );
    assert_eq!(bridge.phase(), Phase::InFlight(Leg::Publishing, frame));

    assert_eq!(bridge.step(Event::Published), Action::AwaitTick);
    assert_eq!(bridge.phase(), Phase::Waiting);
}

#[test]
fn pending_operation_follows_the_phase() {
    let out = output(1, 800, 600, 2);
    let shared = Extent::new(800, 600);
    let expected = [
        (Leg::Recording, Operation::RecordCopy),
        (Leg::Opening, Operation::OpenSubmit),
        (Leg::Submitting, Operation::Submit),
        (Leg::Presenting, Operation::Present),
        (Leg::Draining, Operation::WaitIdle),
        (Leg::Closing, Operation::CloseSubmit),
        (Leg::Publishing, Operation::Publish),
    ];
    for (leg, operation) in expected {
        assert_eq!(frame_on(leg, out, shared, 0).phase().pending(), operation);
    }
    let mut bridge = FrameBridge::new(2);
    bridge.step(Event::Tick(FrameTick::Render));
    assert_eq!(bridge.phase().pending(), Operation::ReadOutput);
    bridge.step(Event::OutputRead(Some(out)));
    assert_eq!(bridge.phase().pending(), Operation::PrepareSharedImage);
    bridge.step(Event::SharedImageReady { extent: shared });
    assert_eq!(bridge.phase().pending(), Operation::AcquireLocalImage);
    bridge.step(Event::DeviceLost);
    assert_eq!(bridge.phase().pending(), Operation::Exit);
}

#[test]
fn copy_and_present_use_the_index_acquired_in_the_same_tick() {
    let out = output(1, 640, 480, 4);
    let mut bridge = FrameBridge::new(2);
    for index in [3u32, 0, 2, 2, 1] {
        bridge.step(Event::Tick(FrameTick::Render));
        bridge.step(Event::OutputRead(Some(out)));
        bridge.step(Event::SharedImageReady { extent: Extent::new(640, 480) });
        match bridge.step(Event::LocalImageAcquired { index }) {
            Action::RecordCopy(copy) => assert_eq!(copy.image_index, index),
            other => panic!("no copy: {:?}", other),
        }
        bridge.step(Event::CopyRecorded);
        bridge.step(Event::SubmitOpened);
        match bridge.step(Event::Submitted) {
            Action::Present(request) => assert_eq!(request.image_index, index),
            other => panic!("no present: {:?}", other),
        }
        bridge.step(Event::Presented);
        bridge.step(Event::QueueIdle);
        bridge.step(Event::SubmitClosed(descriptor(1)));
        assert_eq!(bridge.step(Event::Published), Action::AwaitTick);
    }
}

#[test]
fn the_frame_after_a_resize_copies_to_the_new_extent() {
    let mut state = frame_bridge::output::OutputState::new();
    let names = vec!["B8G8R8A8_SRGB".to_string()];
    let plan = frame_bridge::setup::plan_output(Extent::new(1280, 720), 2, &names).unwrap();
    let first = state.install(&plan, 3).unwrap();
    let size = Extent::new(800, 600);
    state.on_signal(frame_bridge::output::WindowSignal::Resized(size));

    let mut bridge = FrameBridge::new(2);
    bridge.step(Event::Tick(FrameTick::Render));
    assert_eq!(bridge.step(Event::OutputRead(state.snapshot())), Action::AwaitTick);

    let plan = frame_bridge::setup::plan_output(size, 2, &names).unwrap();
    assert_eq!(
        plan.shared_size,
        frame_bridge::setup::TextureSize::Dim2D { width: 800, height: 600 }
    );
    let second = state.install(&plan, 3).unwrap();
    assert_ne!(first.generation, second.generation);
    bridge.step(Event::Tick(FrameTick::Render));
    assert_eq!(bridge.step(Event::OutputRead(state.snapshot())), Action::PrepareSharedImage);
    bridge.step(Event::SharedImageReady { extent: second.shared_extent });
    match bridge.step(Event::LocalImageAcquired { index: 0 }) {
        Action::RecordCopy(copy) => {
            assert_eq!(copy.transfer.destination, Rect { x: 0, y: 0, width: 800, height: 600 });
            assert_eq!(copy.transfer.source, Rect { x: 0, y: 0, width: 800, height: 600 });
            assert!(!copy.transfer.scaled);
        }
        other => panic!("no copy: {:?}", other),
    }
}

#[test]
fn render_without_output_is_passed_over() {
    let mut bridge = FrameBridge::new(2);
    assert_eq!(bridge.step(Event::Tick(FrameTick::Render)), Action::ReadOutput);
    assert_eq!(bridge.step(Event::OutputRead(None)), Action::AwaitTick);
    assert_eq!(bridge.phase(), Phase::Waiting);
    assert_eq!(bridge.semaphore(sem(0)), SemaphoreState::Free);
}

#[test]
fn exhausted_shared_pool_gives_the_frame_up() {
    let mut bridge = FrameBridge::new(2);
    bridge.step(Event::Tick(FrameTick::Render));
    bridge.step(Event::OutputRead(Some(output(1, 800, 600, 2))));
    assert_eq!(bridge.step(Event::SharedPoolExhausted), Action::AwaitTick);
    assert_eq!(bridge.phase(), Phase::Waiting);
    assert_eq!(bridge.semaphore(sem(0)), SemaphoreState::Free);
    assert_eq!(bridge.semaphore(sem(1)), SemaphoreState::Free);
    assert_eq!(bridge.step(Event::Tick(FrameTick::Render)), Action::ReadOutput);
    assert_eq!(
        bridge.step(Event::OutputRead(Some(output(1, 800, 600, 2)))),
        Action::PrepareSharedImage
    );
}

#[test]
fn surface_out_of_date_on_acquire_abandons_the_frame() {
    let mut bridge = FrameBridge::new(2);
    bridge.step(Event::Tick(FrameTick::Render));
    bridge.step(Event::OutputRead(Some(output(9, 800, 600, 2))));
    bridge.step(Event::SharedImageReady { extent: Extent::new(800, 600) });
    assert_eq!(
        bridge.step(Event::SurfaceOutOfDate),
        Action::InvalidateOutput { generation: 9 }
    );
    assert_eq!(bridge.phase(), Phase::Waiting);
    assert_eq!(bridge.semaphore(sem(0)), SemaphoreState::Free);
    assert_eq!(bridge.semaphore(sem(1)), SemaphoreState::Free);
    assert_eq!(bridge.step(Event::Tick(FrameTick::Ping)), Action::AcknowledgePing);
}

#[test]
fn surface_out_of_date_on_present_completes_the_frame_first() {
    let out = output(4, 800, 600, 2);
    let mut bridge = frame_on(Leg::Presenting, out, Extent::new(800, 600), 1);
    assert_eq!(bridge.step(Event::SurfaceOutOfDate), Action::WaitIdle);
    assert!(matches!(bridge.phase(), Phase::InFlight(Leg::Draining, f) if f.stale));
    assert_eq!(bridge.step(Event::QueueIdle), Action::CloseSubmit);
    assert!(matches!(
        bridge.step(Event::SubmitClosed(descriptor(3))),
        Action::Publish(h) if h.descriptor == descriptor(3)
    ));
    assert_eq!(bridge.step(Event::Published), Action::InvalidateOutput { generation: 4 });
    assert_eq!(bridge.phase(), Phase::Waiting);
    assert_eq!(bridge.semaphore(sem(0)), SemaphoreState::Free);
    assert_eq!(bridge.semaphore(sem(1)), SemaphoreState::Free);
}

#[test]
fn event_source_closed_is_fatal() {
    let mut bridge = FrameBridge::new(2);
    assert_eq!(bridge.step(Event::SourceClosed), Action::Exit(Failure::EventSourceClosed));
    assert_eq!(bridge.phase(), Phase::Stopped(Failure::EventSourceClosed));
}

#[test]
fn lost_device_is_fatal_in_every_phase() {
    let mut bridge = FrameBridge::new(2);
    assert_eq!(
        bridge.step(Event::DeviceLost),
        Action::Exit(Failure::DeviceLost { operation: Operation::ReadEvent })
    );
    let mut bridge = frame_on(Leg::Submitting, output(1, 8, 8, 2), Extent::new(8, 8), 0);
    assert_eq!(
        bridge.step(Event::DeviceLost),
        Action::Exit(Failure::DeviceLost { operation: Operation::Submit })
    );
    assert_eq!(
        bridge.phase(),
        Phase::Stopped(Failure::DeviceLost { operation: Operation::Submit })
    );
}

#[test]
fn failed_operation_is_fatal_and_names_operation_and_code() {
    let mut bridge = frame_on(Leg::Presenting, output(1, 8, 8, 2), Extent::new(8, 8), 0);
    let failure = Failure::Failed { operation: Operation::Present, code: -3 };
    assert_eq!(bridge.step(Event::Failed { code: -3 }), Action::Exit(failure));
    assert_eq!(failure.operation(), Operation::Present);
    assert_eq!(failure.operation().name(), "present");
    assert_eq!(failure.code(), Some(-3));
    assert_ne!(FAILURE_STATUS, 0);
}

#[test]
fn semaphores_exhausted_is_fatal() {
    for capacity in [0usize, 1] {
        let mut bridge = FrameBridge::new(capacity);
        bridge.step(Event::Tick(FrameTick::Render));
        assert_eq!(
            bridge.step(Event::OutputRead(Some(output(1, 8, 8, 2)))),
            Action::Exit(Failure::SemaphoresExhausted)
        );
        assert_eq!(bridge.phase(), Phase::Stopped(Failure::SemaphoresExhausted));
    }
    let mut bridge = FrameBridge::new(1);
    bridge.step(Event::Tick(FrameTick::Render));
    assert_eq!(bridge.step(Event::OutputRead(None)), Action::AwaitTick);
}

#[test]
fn image_out_of_range_is_fatal() {
    let mut bridge = FrameBridge::new(2);
    bridge.step(Event::Tick(FrameTick::Render));
    bridge.step(Event::OutputRead(Some(output(1, 8, 8, 2))));
    bridge.step(Event::SharedImageReady { extent: Extent::new(8, 8) });
    assert_eq!(
        bridge.step(Event::LocalImageAcquired { index: 2 }),
        Action::Exit(Failure::ImageOutOfRange { index: 2, count: 2 })
    );
    let mut bridge = FrameBridge::new(2);
    bridge.step(Event::Tick(FrameTick::Render));
    bridge.step(Event::OutputRead(Some(output(1, 8, 8, 0))));
    bridge.step(Event::SharedImageReady { extent: Extent::new(8, 8) });
    assert_eq!(
        bridge.step(Event::LocalImageAcquired { index: 0 }),
        Action::Exit(Failure::ImageOutOfRange { index: 0, count: 0 })
    );
}

#[test]
fn event_out_of_turn_is_fatal() {
    let mut bridge = FrameBridge::new(2);
    assert_eq!(
        bridge.step(Event::Presented),
        Action::Exit(Failure::OutOfTurn { operation: Operation::ReadEvent })
    );
    let mut bridge = FrameBridge::new(2);
    bridge.step(Event::Tick(FrameTick::Render));
    assert_eq!(
        bridge.step(Event::Tick(FrameTick::Render)),
        Action::Exit(Failure::OutOfTurn { operation: Operation::ReadOutput })
    );
    let mut bridge = frame_on(Leg::Recording, output(1, 8, 8, 2), Extent::new(8, 8), 0);
    assert_eq!(
        bridge.step(Event::Submitted),
        Action::Exit(Failure::OutOfTurn { operation: Operation::RecordCopy })
    );
    let mut bridge = frame_on(Leg::Draining, output(1, 8, 8, 2), Extent::new(8, 8), 0);
    assert_eq!(
        bridge.step(Event::SourceClosed),
        Action::Exit(Failure::OutOfTurn { operation: Operation::WaitIdle })
    );
}

#[test]
fn a_stopped_bridge_stays_stopped() {
    let mut bridge = FrameBridge::new(2);
    bridge.step(Event::SourceClosed);
    for event in [
        Event::Tick(FrameTick::Ping),
        Event::Tick(FrameTick::Render),
        Event::OutputRead(None),
        Event::DeviceLost,
        Event::Failed { code: 7 },
        Event::Published,
    ] {
        assert_eq!(bridge.step(event), Action::Exit(Failure::EventSourceClosed));
        assert_eq!(bridge.phase(), Phase::Stopped(Failure::EventSourceClosed));
    }
}

#[test]
fn severity_follows_the_taxonomy() {
    let mut bridge = FrameBridge::new(2);
    assert_eq!(
        bridge.step_with_severity(Event::Tick(FrameTick::Ping)),
        (Action::AcknowledgePing, Some(Severity::Ignorable))
    );
    assert_eq!(
        bridge.step_with_severity(Event::Tick(FrameTick::StateSave)),
        (Action::AwaitTick, Some(Severity::Ignorable))
    );
    assert_eq!(
        bridge.step_with_severity(Event::Woken),
        (Action::AwaitTick, Some(Severity::Ignorable))
    );
    assert_eq!(
        bridge.step_with_severity(Event::Tick(FrameTick::Render)),
        (Action::ReadOutput, None)
    );
    assert_eq!(
        bridge.step_with_severity(Event::OutputRead(None)),
        (Action::AwaitTick, Some(Severity::Ignorable))
    );
    bridge.step(Event::Tick(FrameTick::Render));
    assert_eq!(
        bridge.step_with_severity(Event::OutputRead(Some(output(3, 8, 8, 2)))),
        (Action::PrepareSharedImage, None)
    );
    assert_eq!(
        bridge.step_with_severity(Event::SharedPoolExhausted),
        (Action::AwaitTick, Some(Severity::Ignorable))
    );
    bridge.step(Event::Tick(FrameTick::Render));
    bridge.step(Event::OutputRead(Some(output(3, 8, 8, 2))));
    bridge.step(Event::SharedImageReady { extent: Extent::new(8, 8) });
    assert_eq!(
        bridge.step_with_severity(Event::SurfaceOutOfDate),
        (Action::InvalidateOutput { generation: 3 }, Some(Severity::Recoverable))
    );

    let mut bridge = frame_on(Leg::Presenting, output(3, 8, 8, 2), Extent::new(8, 8), 0);
    assert_eq!(
        bridge.step_with_severity(Event::SurfaceOutOfDate),
        (Action::WaitIdle, Some(Severity::Recoverable))
    );
    assert_eq!(bridge.step_with_severity(Event::QueueIdle), (Action::CloseSubmit, None));
    assert_eq!(
        bridge.step_with_severity(Event::Presented),
        (
            Action::Exit(Failure::OutOfTurn { operation: Operation::CloseSubmit }),
            Some(Severity::Fatal)
        )
    );
    assert_eq!(
        bridge.step_with_severity(Event::Published).1,
        Some(Severity::Fatal)
    );

    let mut bridge = FrameBridge::new(1);
    bridge.step(Event::Tick(FrameTick::Render));
    assert_eq!(
        bridge.step_with_severity(Event::OutputRead(Some(output(3, 8, 8, 2)))),
        (Action::Exit(Failure::SemaphoresExhausted), Some(Severity::Fatal))
    );

    let mut bridge = FrameBridge::new(2);
    bridge.step(Event::Tick(FrameTick::Render));
    bridge.step(Event::OutputRead(Some(output(3, 8, 8, 2))));
    bridge.step(Event::SharedImageReady { extent: Extent::new(8, 8) });
    assert_eq!(
        bridge.step_with_severity(Event::LocalImageAcquired { index: 5 }).1,
        Some(Severity::Fatal)
    );
    let mut bridge = FrameBridge::new(2);
    assert_eq!(bridge.step_with_severity(Event::DeviceLost).1, Some(Severity::Fatal));
    let mut bridge = FrameBridge::new(2);
    assert_eq!(bridge.step_with_severity(Event::Failed { code: 1 }).1, Some(Severity::Fatal));
    let mut bridge = FrameBridge::new(2);
    assert_eq!(bridge.step_with_severity(Event::SourceClosed).1, Some(Severity::Fatal));
}

#[test]
fn operations_have_names() {
    let expected = [
        (Operation::ReadEvent, "read event"),
        (Operation::ReadOutput, "read output"),
        (Operation::PrepareSharedImage, "prepare shared image"),
        (Operation::AcquireLocalImage, "acquire local image"),
        (Operation::RecordCopy, "record copy"),
        (Operation::OpenSubmit, "open submit"),
        (Operation::Submit, "submit"),
        (Operation::Present, "present"),
        (Operation::WaitIdle, "wait idle"),
        (Operation::CloseSubmit, "close submit"),
        (Operation::Publish, "publish"),
        (Operation::Exit, "exit"),
    ];
    for (operation, name) in expected {
        assert_eq!(operation.name(), name);
    }
}

#[test]
fn failures_tell_operation_and_code() {
    assert_eq!(Failure::EventSourceClosed.operation(), Operation::ReadEvent);
    assert_eq!(Failure::EventSourceClosed.code(), None);
    assert_eq!(Failure::SemaphoresExhausted.operation(), Operation::ReadOutput);
    assert_eq!(
        Failure::ImageOutOfRange { index: 3, count: 2 }.operation(),
        Operation::AcquireLocalImage
    );
    assert_eq!(
        Failure::DeviceLost { operation: Operation::WaitIdle }.operation(),
        Operation::WaitIdle
    );
    assert_eq!(Failure::DeviceLost { operation: Operation::WaitIdle }.code(), None);
    assert_eq!(
        Failure::OutOfTurn { operation: Operation::Publish }.operation(),
        Operation::Publish
    );
    let failed = Failure::Failed { operation: Operation::Submit, code: -1000001004 };
    assert_eq!(failed.operation(), Operation::Submit);
    assert_eq!(failed.code(), Some(-1000001004));
}

#[test]
fn semaphores_are_reused_from_frame_to_frame() {
    let ticks = vec![Some(FrameTick::Render); 50];
    let mut driver = Driver::new(ticks, 0);
    let mut bridge = FrameBridge::new(2);
    driver.run(&mut bridge);
    assert_eq!(driver.counts.publishes, 50);
    assert_eq!(driver.counts.exits, 0);
    assert_eq!(driver.monitor.len(), 2);
    assert_eq!(driver.monitor.state(sem(0)), SemaphoreState::Idle);
    assert_eq!(driver.monitor.state(sem(1)), SemaphoreState::Idle);
    assert_eq!(bridge.semaphore(sem(2)), SemaphoreState::Free);
}
