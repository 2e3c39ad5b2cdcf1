//! The failures that the renderer distinguishes.

use vstd::prelude::*;

verus! {

/// The startup stage at which a device call was refused.
#[derive(Clone, Copy, Debug, PartialEq, Eq, Structural)]
pub enum Stage {
    Instance,
    DebugMessenger,
    Surface,
    PhysicalDevice,
    LogicalDevice,
    Swapchain,
    ImageViews,
    RenderPass,
    Pipeline,
    Framebuffers,
    CommandPool,
    CommandBuffers,
    SyncObjects,
}

/// What can go wrong between startup and shutdown.
///
/// `code` is the result code that the device reported.
#[derive(Clone, Copy, Debug, PartialEq, Eq, Structural)]
pub enum Error {
    /// A startup stage failed; startup is abandoned.
    Initialization { stage: Stage, code: i32 },
    /// No physical device passed every eligibility check.
    DeviceSelection,
    /// The surface no longer matches the swapchain; the swapchain has to be
    /// created anew, the process goes on.
    SwapchainOutOfDate,
    /// A device call of the frame loop failed for another reason.
    FrameSubmission { code: i32 },
    /// A shader blob whose length is zero or no multiple of four.
    InvalidBytecode { len: usize },
}

impl Error {
    /// Only an out-of-date swapchain leaves the process running.
    pub open spec fn spec_is_fatal(self) -> bool {
        !(self is SwapchainOutOfDate)
    }

    /// Whether the process has to stop on this error.
    #[verifier::when_used_as_spec(spec_is_fatal)]
    pub fn is_fatal(self) -> (r: bool)
        ensures
            r == self.spec_is_fatal(),
    {
        match self {
            Error::SwapchainOutOfDate => false,
            _ => true,
        }
    }

    /// The process exit code that startup ends with: 1 after any failure.
    pub fn exit_code(self) -> (r: i32)
        ensures
            r == 1,
    {
        1
    }
}

} // verus!
