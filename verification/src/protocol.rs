//! The vocabulary between the bridge and its driver: the events the driver
//! reports, the actions the bridge asks for, and the ways a frame can fail.

use crate::extent::{Extent, Transfer};
use crate::output::Output;
use crate::sync::{SemaphoreId, SyncPoint};
use vstd::prelude::*;

verus! {

/// A unit of work from the compositor's event stream.
#[derive(Clone, Copy, Debug, PartialEq, Eq, Structural)]
pub enum FrameTick {
    /// A liveness check that wants an immediate answer and nothing else.
    Ping,
    /// A request to save state, which the bridge has no part in.
    StateSave,
    /// A request to render one frame.
    Render,
}

/// What the owner of the shared image hands back for a submitted frame, to
/// be passed on to whoever displays the image.
#[derive(Clone, Copy, Debug, PartialEq, Eq, Structural)]
pub struct SubmitDescriptor {
    /// Names the shared image.
    pub id: u64,
    /// The timeline value from which the image may be read.
    pub acquire_point: u64,
    /// The timeline value to reach when the reader is done.
    pub release_point: u64,
}

/// One thing the driver does for the bridge.
#[derive(Clone, Copy, Debug, PartialEq, Eq, Structural)]
pub enum Operation {
    ReadEvent,
    ReadOutput,
    PrepareSharedImage,
    AcquireLocalImage,
    RecordCopy,
    OpenSubmit,
    Submit,
    Present,
    WaitIdle,
    CloseSubmit,
    Publish,
    Exit,
}

/// Why the bridge stopped for good.
#[derive(Clone, Copy, Debug, PartialEq, Eq, Structural)]
pub enum Failure {
    /// The compositor's event stream can no longer be read.
    EventSourceClosed,
    /// The device was lost during the operation.
    DeviceLost { operation: Operation },
    /// The semaphore pool cannot lend the two semaphores a frame needs.
    SemaphoresExhausted,
    /// The swapchain handed out an image it does not have.
    ImageOutOfRange { index: u32, count: u32 },
    /// The operation failed with the given code.
    Failed { operation: Operation, code: i32 },
    /// The driver reported something that cannot follow the operation.
    OutOfTurn { operation: Operation },
}

/// How much a condition matters.
#[derive(Clone, Copy, Debug, PartialEq, Eq, Structural)]
pub enum Severity {
    /// The process ends.
    Fatal,
    /// The frame is given up or the output is flagged for replacement; the
    /// loop goes on.
    Recoverable,
    /// Nothing is rendered and nothing is wrong.
    Ignorable,
}

/// What the driver reports after it has carried out an action.
#[derive(Clone, Copy, Debug, PartialEq, Eq, Structural)]
pub enum Event {
    /// The compositor sent a tick.
    Tick(FrameTick),
    /// The wait for the compositor ended without an event.
    Woken,
    /// The compositor's event stream cannot be read.
    SourceClosed,
    /// The live output, or none if there is no live output.
    OutputRead(Option<Output>),
    /// The shared image to render into is prepared and has this extent.
    SharedImageReady { extent: Extent },
    /// The owner of the shared images has none to write to at the moment.
    SharedPoolExhausted,
    /// The swapchain handed out the image with this index.
    LocalImageAcquired { index: u32 },
    /// The surface no longer fits the window.
    SurfaceOutOfDate,
    /// The copy stands recorded in a command buffer.
    CopyRecorded,
    /// The owner of the shared image has opened the submission and brought
    /// its two sync points.
    SubmitOpened,
    /// The command buffer was handed to the queue.
    Submitted,
    /// The present request was handed to the queue.
    Presented,
    /// The queue has run dry.
    QueueIdle,
    /// The owner of the shared image has closed the submission.
    SubmitClosed(SubmitDescriptor),
    /// The new texture was published to the display side.
    Published,
    /// The device was lost.
    DeviceLost,
    /// The action failed with the given code.
    Failed { code: i32 },
}

/// The one copy of a frame.
#[derive(Clone, Copy, Debug, PartialEq, Eq, Structural)]
pub struct CopyCommand {
    /// The swapchain image to copy into.
    pub image_index: u32,
    /// The regions to copy from and to.
    pub transfer: Transfer,
}

/// The sync points of the one queue submission of a frame.
#[derive(Clone, Copy, Debug, PartialEq, Eq, Structural)]
pub struct Submission {
    pub wait_shared: SyncPoint,
    pub wait_local: SyncPoint,
    pub signal_shared: SyncPoint,
    pub signal_local: SyncPoint,
}

/// The present request of a frame.
#[derive(Clone, Copy, Debug, PartialEq, Eq, Structural)]
pub struct PresentRequest {
    /// The swapchain image to show.
    pub image_index: u32,
    /// What the display engine waits for before it shows the image.
    pub wait: SyncPoint,
}

/// What is published to the display side after a frame.
#[derive(Clone, Copy, Debug, PartialEq, Eq, Structural)]
pub struct Handoff {
    /// The new texture reference, published as a whole.
    pub descriptor: SubmitDescriptor,
    /// Extent of the shared image, whose aspect ratio the projection of the
    /// redraw follows.
    pub extent: Extent,
}

/// What the bridge asks the driver to do next. The driver carries the action
/// out and reports exactly one event back.
#[derive(Clone, Copy, Debug, PartialEq, Eq, Structural)]
pub enum Action {
    /// Wait for the next event of the compositor.
    AwaitTick,
    /// Answer the ping, then wait for the next event of the compositor.
    AcknowledgePing,
    /// Take a copy of the live output.
    ReadOutput,
    /// Ask the owner of the shared images for the next image to write.
    PrepareSharedImage,
    /// Acquire the next swapchain image; `signal` is signaled once the image
    /// can be written.
    AcquireLocalImage { signal: SemaphoreId },
    /// Record the copy into a command buffer for one submission.
    RecordCopy(CopyCommand),
    /// Ask the owner of the shared image to open the submission.
    OpenSubmit,
    /// Hand the command buffer to the queue with these sync points.
    Submit(Submission),
    /// Hand the present request to the queue.
    Present(PresentRequest),
    /// Block until the queue has run dry.
    WaitIdle,
    /// Return the submission to the owner of the shared image.
    CloseSubmit,
    /// Publish the new texture and request the redraw.
    Publish(Handoff),
    /// Flag the output of this generation for replacement, then wait for the
    /// next event of the compositor.
    InvalidateOutput { generation: u64 },
    /// Log the failure and end the process with a status other than zero.
    Exit(Failure),
}

/// The status with which the process ends after a fatal failure.
pub const FAILURE_STATUS: i32 = 1;

impl Operation {
    /// The name of the operation, for the log.
    pub open spec fn spec_name(self) -> Seq<char> {
        match self {
            Operation::ReadEvent => "read event"@,
            Operation::ReadOutput => "read output"@,
            Operation::PrepareSharedImage => "prepare shared image"@,
            Operation::AcquireLocalImage => "acquire local image"@,
            Operation::RecordCopy => "record copy"@,
            Operation::OpenSubmit => "open submit"@,
            Operation::Submit => "submit"@,
            Operation::Present => "present"@,
            Operation::WaitIdle => "wait idle"@,
            Operation::CloseSubmit => "close submit"@,
            Operation::Publish => "publish"@,
            Operation::Exit => "exit"@,
        }
    }

    /// The name of the operation, for the log.
    pub fn name(&self) -> (name: &'static str)
        ensures
            name@ == self.spec_name(),
    {
        match self {
            Operation::ReadEvent => "read event",
            Operation::ReadOutput => "read output",
            Operation::PrepareSharedImage => "prepare shared image",
            Operation::AcquireLocalImage => "acquire local image",
            Operation::RecordCopy => "record copy",
            Operation::OpenSubmit => "open submit",
            Operation::Submit => "submit",
            Operation::Present => "present",
            Operation::WaitIdle => "wait idle",
            Operation::CloseSubmit => "close submit",
            Operation::Publish => "publish",
            Operation::Exit => "exit",
        }
    }
}

impl Failure {
    /// The operation that failed.
    pub open spec fn spec_operation(self) -> Operation {
        match self {
            Failure::EventSourceClosed => Operation::ReadEvent,
            Failure::DeviceLost { operation } => operation,
            Failure::SemaphoresExhausted => Operation::ReadOutput,
            Failure::ImageOutOfRange { .. } => Operation::AcquireLocalImage,
            Failure::Failed { operation, .. } => operation,
            Failure::OutOfTurn { operation } => operation,
        }
    }

    /// The code the failed operation reported, if it reported one.
    pub open spec fn spec_code(self) -> Option<i32> {
        match self {
            Failure::Failed { code, .. } => Some(code),
            _ => None,
        }
    }

    /// The operation that failed.
    pub fn operation(&self) -> (operation: Operation)
        ensures
            operation == self.spec_operation(),
    {
        match self {
            Failure::EventSourceClosed => Operation::ReadEvent,
            Failure::DeviceLost { operation } => *operation,
            Failure::SemaphoresExhausted => Operation::ReadOutput,
            Failure::ImageOutOfRange { .. } => Operation::AcquireLocalImage,
            Failure::Failed { operation, .. } => *operation,
            Failure::OutOfTurn { operation } => *operation,
        }
    }

    /// The code the failed operation reported, if it reported one.
    pub fn code(&self) -> (code: Option<i32>)
        ensures
            code == self.spec_code(),
    {
        match self {
            Failure::Failed { code, .. } => Some(*code),
            _ => None,
        }
    }
}

impl Submission {
    /// What the submission waits for.
    pub open spec fn wait_set(self) -> Set<SyncPoint> {
        set![self.wait_shared, self.wait_local]
    }

    /// What the submission signals.
    pub open spec fn signal_set(self) -> Set<SyncPoint> {
        set![self.signal_shared, self.signal_local]
    }
}

impl Action {
    /// The action puts work on the GPU queue or takes an image from the
    /// swapchain.
    pub open spec fn touches_swapchain(self) -> bool {
        self is AcquireLocalImage || self is RecordCopy || self is Submit || self is Present
    }
}

} // verus!
