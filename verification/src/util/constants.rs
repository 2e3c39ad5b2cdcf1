//! Fixed parameters of the application.

use vstd::prelude::*;

verus! {

pub const WINDOW_TITLE: &'static str = "Vulkan Testing";

pub const WINDOW_HEIGHT: u32 = 600;

pub const WINDOW_WIDTH: u32 = 800;

/// Name of the engine that the instance is created for.
pub const ENGINE_NAME: &'static str = "Vulkan Engine";

/// The layer that checks the use of the API.
pub const VALIDATION_LAYER: &'static str = "VK_LAYER_KHRONOS_validation";

/// Entry point of both shader stages.
pub const SHADER_MAIN: &'static str = "main";

/// How many frames the CPU may have handed to the GPU at once.
pub const MAX_FRAMES_IN_FLIGHT: usize = 2;

} // verus!
