//! The output of the current window and its life.
//!
//! An output is the pair of the window's swapchain and the texture shared
//! with the compositor. It is created when a surface becomes available,
//! replaced as a whole when the window is resized, and torn down once, at the
//! end. Only the side that owns the window moves it from state to state; the
//! frame loop takes a copy of the current output for the length of one frame.

use crate::extent::Extent;
use crate::setup::OutputPlan;
use vstd::prelude::*;

verus! {

/// What a frame needs to know of the live output.
#[derive(Clone, Copy, Debug, PartialEq, Eq, Structural)]
pub struct Output {
    /// Tells this output from the one it replaced.
    pub generation: u64,
    /// Extent of the images of the window's swapchain.
    pub surface_extent: Extent,
    /// Extent of the texture shared with the compositor.
    pub shared_extent: Extent,
    /// Number of images in the window's swapchain.
    pub image_count: u32,
}

/// Where the output stands in its life.
#[derive(Clone, Copy, Debug, PartialEq, Eq, Structural)]
pub enum Stage {
    /// No surface has been available yet.
    Uninitialized,
    /// An output is live and frames may use it.
    Ready(Output),
    /// The last output no longer fits the window and awaits its replacement.
    Invalidated,
    /// Teardown has begun: the queue is being drained.
    Draining,
    /// Teardown is complete: the queue ran dry and the resources are gone.
    Closed,
}

/// What the window system reports.
#[derive(Clone, Copy, Debug, PartialEq, Eq, Structural)]
pub enum WindowSignal {
    /// A surface can be created now.
    Resumed,
    /// The window has the given new inner size.
    Resized(Extent),
    CloseRequested,
    Destroyed,
    RedrawRequested,
    /// Anything else.
    Other,
}

/// What the owner of the window has to do in answer to a signal.
#[derive(Clone, Copy, Debug, PartialEq, Eq, Structural)]
pub enum WindowAction {
    Nothing,
    /// Create window, swapchain and shared texture, then install the output.
    CreateOutput,
    /// Create swapchain and shared texture anew for a window of the given
    /// extent, then install the output.
    ReplaceOutput(Extent),
    /// Leave the event loop; teardown has begun.
    Exit,
}

/// Why an output was not installed.
#[derive(Clone, Copy, Debug, PartialEq, Eq, Structural)]
pub enum InstallError {
    /// Teardown has begun; no output is created any more.
    ShuttingDown,
}

/// The life of the output as a value: its stage and how many outputs have
/// been installed so far.
pub struct Lifecycle {
    pub stage: Stage,
    pub installs: u64,
}

/// The holder of the output's life.
pub struct OutputState {
    stage: Stage,
    installs: u64,
}

impl View for OutputState {
    type V = Lifecycle;

    closed spec fn view(&self) -> Lifecycle {
        Lifecycle { stage: self.stage, installs: self.installs }
    }
}

/// The generation that follows `generation`.
pub open spec fn next_generation(generation: u64) -> u64 {
    if generation == u64::MAX {
        0
    } else {
        (generation + 1) as u64
    }
}

impl Lifecycle {
    /// A live output carries the number of the installation that made it.
    pub open spec fn wf(self) -> bool {
        self.stage matches Stage::Ready(output) ==> output.generation == self.installs
    }

    /// Teardown has begun or is complete.
    pub open spec fn torn_down(self) -> bool {
        self.stage is Draining || self.stage is Closed
    }

    /// The output a frame may use, if there is one.
    pub open spec fn live(self) -> Option<Output> {
        match self.stage {
            Stage::Ready(output) => Some(output),
            _ => None,
        }
    }

    /// The output that installing `plan` with `image_count` images creates.
    pub open spec fn fresh(self, plan: OutputPlan, image_count: u32) -> Output {
        Output {
            generation: next_generation(self.installs),
            surface_extent: plan.surface_extent,
            shared_extent: plan.shared_size.spec_extent(),
            image_count,
        }
    }

    /// The life after an output made from `plan` has been installed, which
    /// happens unless teardown has begun.
    pub open spec fn installed(self, plan: OutputPlan, image_count: u32) -> Lifecycle {
        if self.torn_down() {
            self
        } else {
            Lifecycle {
                stage: Stage::Ready(self.fresh(plan, image_count)),
                installs: next_generation(self.installs),
            }
        }
    }

    /// The life after the output of `generation` was found out of date: it is
    /// invalidated if it is still the live one.
    pub open spec fn invalidated(self, generation: u64) -> Lifecycle {
        match self.stage {
            Stage::Ready(output) if output.generation == generation => Lifecycle {
                stage: Stage::Invalidated,
                ..self
            },
            _ => self,
        }
    }

    /// The life once teardown has begun.
    pub open spec fn draining(self) -> Lifecycle {
        if self.stage is Closed {
            self
        } else {
            Lifecycle { stage: Stage::Draining, ..self }
        }
    }

    /// The life once the queue has run dry. Only a teardown that has begun
    /// can complete.
    pub open spec fn closed(self) -> Lifecycle {
        if self.stage is Draining {
            Lifecycle { stage: Stage::Closed, ..self }
        } else {
            self
        }
    }

    /// The life after a signal of the window system, and what is to be done.
    pub open spec fn signaled(self, signal: WindowSignal) -> (Lifecycle, WindowAction) {
        match signal {
            WindowSignal::Resumed => if self.torn_down() {
                (self, WindowAction::Nothing)
            } else {
                (self, WindowAction::CreateOutput)
            },
            WindowSignal::Resized(extent) => match self.stage {
                Stage::Ready(_) | Stage::Invalidated => (
                    Lifecycle { stage: Stage::Invalidated, ..self },
                    WindowAction::ReplaceOutput(extent),
                ),
                _ => (self, WindowAction::Nothing),
            },
            WindowSignal::CloseRequested | WindowSignal::Destroyed => (
                self.draining(),
                WindowAction::Exit,
            ),
            WindowSignal::RedrawRequested | WindowSignal::Other => (self, WindowAction::Nothing),
        }
    }
}

impl OutputState {
    /// The state before any surface has been available.
    pub fn new() -> (state: OutputState)
        ensures
            state@ == (Lifecycle { stage: Stage::Uninitialized, installs: 0 }),
            state@.wf(),
    {
        OutputState { stage: Stage::Uninitialized, installs: 0 }
    }

    /// The stage the output is in.
    pub fn stage(&self) -> (stage: Stage)
        ensures
            stage == self@.stage,
    {
        self.stage
    }

    /// A copy of the live output for one frame, if there is a live output.
    pub fn snapshot(&self) -> (output: Option<Output>)
        ensures
            output == self@.live(),
    {
        match self.stage {
            Stage::Ready(output) => Some(output),
            _ => None,
        }
    }

    /// Makes the output that was created after `plan`, with `image_count`
    /// swapchain images, the live one. Whatever output was live before is
    /// replaced as a whole. Once teardown has begun nothing is installed.
    pub fn install(&mut self, plan: &OutputPlan, image_count: u32) -> (r: Result<
        Output,
        InstallError,
    >)
        ensures
            final(self)@ == old(self)@.installed(*plan, image_count),
            final(self)@.wf(),
            match r {
                Ok(output) => !old(self)@.torn_down() && output == old(self)@.fresh(
                    *plan,
                    image_count,
                ),
                Err(e) => old(self)@.torn_down() && e == InstallError::ShuttingDown,
            },
    {
        match self.stage {
            Stage::Draining | Stage::Closed => Err(InstallError::ShuttingDown),
            _ => {
                let generation: u64 = if self.installs == u64::MAX {
                    0
                } else {
                    self.installs + 1
                };
                let output = Output {
                    generation,
                    surface_extent: plan.surface_extent,
                    shared_extent: plan.shared_size.extent(),
                    image_count,
                };
                self.installs = generation;
                self.stage = Stage::Ready(output);
                Ok(output)
            },
        }
    }

    /// Marks the output of `generation` as out of date, if it is still the
    /// live one. Says whether it was.
    pub fn invalidate(&mut self, generation: u64) -> (hit: bool)
        ensures
            final(self)@ == old(self)@.invalidated(generation),
            hit == (old(self)@.stage matches Stage::Ready(output) && output.generation
                == generation),
            old(self)@.wf() ==> final(self)@.wf(),
    {
        match self.stage {
            Stage::Ready(output) => {
                if output.generation == generation {
                    self.stage = Stage::Invalidated;
                    true
                } else {
                    false
                }
            },
            _ => false,
        }
    }

    /// Takes a signal of the window system and says what is to be done.
    pub fn on_signal(&mut self, signal: WindowSignal) -> (action: WindowAction)
        ensures
            (final(self)@, action) == old(self)@.signaled(signal),
            old(self)@.wf() ==> final(self)@.wf(),
    {
        match signal {
            WindowSignal::Resumed => match self.stage {
                Stage::Draining | Stage::Closed => WindowAction::Nothing,
                _ => WindowAction::CreateOutput,
            },
            WindowSignal::Resized(extent) => match self.stage {
                Stage::Ready(_) | Stage::Invalidated => {
                    self.stage = Stage::Invalidated;
                    WindowAction::ReplaceOutput(extent)
                },
                _ => WindowAction::Nothing,
            },
            WindowSignal::CloseRequested | WindowSignal::Destroyed => {
                self.begin_teardown();
                WindowAction::Exit
            },
            WindowSignal::RedrawRequested | WindowSignal::Other => WindowAction::Nothing,
        }
    }

    /// Begins teardown. From here on no frame gets an output; the queue has
    /// to be drained before the resources of the last output are destroyed.
    pub fn begin_teardown(&mut self)
        ensures
            final(self)@ == old(self)@.draining(),
            final(self)@.wf(),
    {
        match self.stage {
            Stage::Closed => {},
            _ => {
                self.stage = Stage::Draining;
            },
        }
    }

    /// Completes teardown after the queue has run dry. Says whether the
    /// resources may be destroyed now, which they may only after a teardown
    /// that has begun.
    pub fn finish_teardown(&mut self) -> (done: bool)
        ensures
            final(self)@ == old(self)@.closed(),
            done == (final(self)@.stage is Closed),
            old(self)@.wf() ==> final(self)@.wf(),
    {
        match self.stage {
            Stage::Draining => {
                self.stage = Stage::Closed;
                true
            },
            Stage::Closed => true,
            _ => false,
        }
    }
}

/// A resize invalidates the live output, and the output installed for the
/// new size is a fresh one whose swapchain images and shared texture both
/// have that size.
pub proof fn law_resize_replaces_output(
    before: Lifecycle,
    size: Extent,
    plan: OutputPlan,
    image_count: u32,
)
    requires
        before.wf(),
        before.stage is Ready,
        plan.surface_extent == size,
        plan.shared_size.spec_extent() == size,
    ensures
        before.signaled(WindowSignal::Resized(size)).1 == WindowAction::ReplaceOutput(size),
        before.signaled(WindowSignal::Resized(size)).0.live() is None,
        ({
            let after = before.signaled(WindowSignal::Resized(size)).0.installed(plan, image_count);
            &&& after.live() matches Some(output)
            &&& output.surface_extent == size
            &&& output.shared_extent == size
            &&& output.generation != before.live()->Some_0.generation
        }),
{
}

/// Once teardown has begun no output is live again, whatever happens: no
/// installation, signal or invalidation brings one back.
pub proof fn law_teardown_is_final(
    life: Lifecycle,
    plan: OutputPlan,
    image_count: u32,
    signal: WindowSignal,
    generation: u64,
)
    requires
        life.torn_down(),
    ensures
        life.live() is None,
        life.installed(plan, image_count).torn_down(),
        life.signaled(signal).0.torn_down(),
        life.invalidated(generation).torn_down(),
        life.draining().torn_down(),
        life.closed().torn_down(),
{
}

/// Resources are released only behind a drained queue: the output reaches
/// `Closed` from `Draining` alone, so every teardown that completes has begun
/// before, and while it is under way no frame holds a live output.
pub proof fn law_drain_precedes_release(life: Lifecycle)
    ensures
        life.closed().stage is Closed <==> life.stage is Draining || life.stage is Closed,
        life.draining().live() is None,
        life.draining().closed().stage is Closed,
{
}

} // verus!
