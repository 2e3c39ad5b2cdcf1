//! The order of the startup stages.
//!
//! The stages themselves call the device and so belong to the caller. What
//! is decided here is which stage runs next, and what startup comes to when
//! a stage fails.

use vstd::prelude::*;
use crate::base::teardown::{StepKind, release_rank};
use crate::error::{Error, Stage};

verus! {

/// How a stage has ended.
#[derive(Clone, Copy, Debug, PartialEq, Eq, Structural)]
pub enum StageOutcome {
    /// The stage has created its objects.
    Done,
    /// The device refused a call of the stage, with this result code.
    Refused { code: i32 },
    /// The stage was given up before the device was asked.
    Failed(Error),
}

/// What startup does next.
#[derive(Clone, Copy, Debug, PartialEq, Eq, Structural)]
pub enum StartupStep {
    /// This stage is to be run.
    Run(Stage),
    /// Every stage has run; rendering can begin.
    Ready,
    /// Startup is abandoned with this error.
    Abort(Error),
}

impl Stage {
    /// The place of the stage in the order of startup.
    pub open spec fn position(self) -> nat {
        match self {
            Stage::Instance => 0,
            Stage::DebugMessenger => 1,
            Stage::Surface => 2,
            Stage::PhysicalDevice => 3,
            Stage::LogicalDevice => 4,
            Stage::Swapchain => 5,
            Stage::ImageViews => 6,
            Stage::RenderPass => 7,
            Stage::Pipeline => 8,
            Stage::Framebuffers => 9,
            Stage::CommandPool => 10,
            Stage::CommandBuffers => 11,
            Stage::SyncObjects => 12,
        }
    }

    /// The stage that follows this one. The debug messenger is created
    /// only where diagnostics are on. Nothing follows the last stage.
    pub open spec fn spec_next(self, diagnostics: bool) -> Option<Stage> {
        match self {
            Stage::Instance => if diagnostics {
                Some(Stage::DebugMessenger)
            } else {
                Some(Stage::Surface)
            },
            Stage::DebugMessenger => Some(Stage::Surface),
            Stage::Surface => Some(Stage::PhysicalDevice),
            Stage::PhysicalDevice => Some(Stage::LogicalDevice),
            Stage::LogicalDevice => Some(Stage::Swapchain),
            Stage::Swapchain => Some(Stage::ImageViews),
            Stage::ImageViews => Some(Stage::RenderPass),
            Stage::RenderPass => Some(Stage::Pipeline),
            Stage::Pipeline => Some(Stage::Framebuffers),
            Stage::Framebuffers => Some(Stage::CommandPool),
            Stage::CommandPool => Some(Stage::CommandBuffers),
            Stage::CommandBuffers => Some(Stage::SyncObjects),
            Stage::SyncObjects => None,
        }
    }

    #[verifier::when_used_as_spec(spec_next)]
    pub fn next(self, diagnostics: bool) -> (r: Option<Stage>)
        ensures
            r == self.spec_next(diagnostics),
    {
        match self {
            Stage::Instance => if diagnostics {
                Some(Stage::DebugMessenger)
            } else {
                Some(Stage::Surface)
            },
            Stage::DebugMessenger => Some(Stage::Surface),
            Stage::Surface => Some(Stage::PhysicalDevice),
            Stage::PhysicalDevice => Some(Stage::LogicalDevice),
            Stage::LogicalDevice => Some(Stage::Swapchain),
            Stage::Swapchain => Some(Stage::ImageViews),
            Stage::ImageViews => Some(Stage::RenderPass),
            Stage::RenderPass => Some(Stage::Pipeline),
            Stage::Pipeline => Some(Stage::Framebuffers),
            Stage::Framebuffers => Some(Stage::CommandPool),
            Stage::CommandPool => Some(Stage::CommandBuffers),
            Stage::CommandBuffers => Some(Stage::SyncObjects),
            Stage::SyncObjects => None,
        }
    }
}

/// The progress of startup.
#[derive(Clone, Copy, Debug, PartialEq, Eq, Structural)]
pub struct Startup {
    /// Whether the validation layer and its messenger are asked for.
    pub diagnostics: bool,
    /// The stage that is running; none once startup has ended.
    pub stage: Option<Stage>,
}

/// What startup comes to when the running stage ends: after a stage that
/// has created its objects the next stage runs, or startup is complete;
/// a refused device call abandons startup as a failure of that stage; a
/// stage that was given up abandons startup with its own error.
pub open spec fn startup_step(stage: Stage, diagnostics: bool, outcome: StageOutcome) -> StartupStep {
    match outcome {
        StageOutcome::Done => match stage.spec_next(diagnostics) {
            Some(next) => StartupStep::Run(next),
            None => StartupStep::Ready,
        },
        StageOutcome::Refused { code } => StartupStep::Abort(Error::Initialization { stage, code }),
        StageOutcome::Failed(error) => StartupStep::Abort(error),
    }
}

impl Startup {
    /// Begins startup with its first stage, the instance.
    pub fn new(diagnostics: bool) -> (r: (Startup, StartupStep))
        ensures
            r.0 == (Startup { diagnostics, stage: Some(Stage::Instance) }),
            r.1 == StartupStep::Run(Stage::Instance),
    {
        (Startup { diagnostics, stage: Some(Stage::Instance) }, StartupStep::Run(Stage::Instance))
    }

    /// Takes note of how the running stage has ended and says what comes
    /// next.
    pub fn advance(&mut self, outcome: StageOutcome) -> (step: StartupStep)
        requires
            old(self).stage is Some,
        ensures
            step == startup_step(old(self).stage->0, old(self).diagnostics, outcome),
            final(self).diagnostics == old(self).diagnostics,
            final(self).stage == match step {
                StartupStep::Run(next) => Some(next),
                _ => None,
            },
    {
        let stage: Stage = match self.stage {
            Some(stage) => stage,
            None => {
                assert(false);
                Stage::Instance
            },
        };
        let step: StartupStep = match outcome {
            StageOutcome::Done => match stage.next(self.diagnostics) {
                Some(next) => StartupStep::Run(next),
                None => StartupStep::Ready,
            },
            StageOutcome::Refused { code } => StartupStep::Abort(
                Error::Initialization { stage, code },
            ),
            StageOutcome::Failed(error) => StartupStep::Abort(error),
        };
        self.stage = match step {
            StartupStep::Run(next) => Some(next),
            _ => None,
        };
        step
    }
}

/// The stage after `n` stages that created their objects, counted from the
/// first; none once the last stage has run.
pub open spec fn stage_after(diagnostics: bool, n: nat) -> Option<Stage>
    decreases n,
{
    if n == 0 {
        Some(Stage::Instance)
    } else {
        match stage_after(diagnostics, (n - 1) as nat) {
            Some(stage) => stage.spec_next(diagnostics),
            None => None,
        }
    }
}

/// Every stage is followed by a later one, so that no stage runs twice.
pub proof fn lemma_stages_advance(stage: Stage, diagnostics: bool)
    ensures
        stage.spec_next(diagnostics) matches Some(next) ==> stage.position() < next.position(),
        stage.spec_next(diagnostics) is None <==> stage == Stage::SyncObjects,
        !diagnostics ==> stage.spec_next(diagnostics) != Some(Stage::DebugMessenger),
{
}

/// Startup is complete after thirteen stages with diagnostics and after
/// twelve without, the synchronisation objects being the last of them.
pub proof fn lemma_startup_completes(diagnostics: bool)
    ensures
        ({
            let stages: nat = if diagnostics { 13 } else { 12 };
            &&& stage_after(diagnostics, (stages - 1) as nat) == Some(Stage::SyncObjects)
            &&& stage_after(diagnostics, stages) is None
        }),
{
    reveal_with_fuel(stage_after, 14);
}

/// The stage that creates the objects of a kind.
pub open spec fn created_at(kind: StepKind) -> Option<Stage> {
    match kind {
        StepKind::WaitIdle => None,
        StepKind::Instance => Some(Stage::Instance),
        StepKind::DebugMessenger => Some(Stage::DebugMessenger),
        StepKind::Surface => Some(Stage::Surface),
        StepKind::Device => Some(Stage::LogicalDevice),
        StepKind::Swapchain => Some(Stage::Swapchain),
        StepKind::ImageView => Some(Stage::ImageViews),
        StepKind::RenderPass => Some(Stage::RenderPass),
        StepKind::PipelineLayout => Some(Stage::Pipeline),
        StepKind::ShaderModule => Some(Stage::Pipeline),
        StepKind::Pipeline => Some(Stage::Pipeline),
        StepKind::Framebuffer => Some(Stage::Framebuffers),
        StepKind::CommandPool => Some(Stage::CommandPool),
        StepKind::CommandBuffer => Some(Stage::CommandBuffers),
        StepKind::Semaphore => Some(Stage::SyncObjects),
        StepKind::Fence => Some(Stage::SyncObjects),
    }
}

/// What a later stage has created is released before what an earlier stage
/// has created.
pub proof fn lemma_release_reverses_startup(earlier: StepKind, later: StepKind)
    requires
        created_at(earlier) matches Some(a) && created_at(later) matches Some(b) && a.position()
            < b.position(),
    ensures
        release_rank(later) < release_rank(earlier),
{
}

} // verus!
