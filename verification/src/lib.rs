//! Bootstrapping and frame scheduling for a renderer that draws one fixed
//! triangle to a window surface.
//!
//! The crate holds the decisions of such a renderer as verified functions on
//! plain values: which GPU and queue families are usable, how the swapchain is
//! negotiated, what the fixed pipeline and command buffers contain, in which
//! order a frame's device calls are made, and in which order everything is
//! released again. The device calls themselves are made by the program that
//! uses the crate; handles travel through the crate as raw `u64` values.
//!
//! - [`base`] holds the renderer's state ([`base::App`]) and, module by
//!   module, the stages that build it (`instance`, `device`, `swapchain`,
//!   `pipeline`, `commands`, `frame`), their order (`startup`), the frame
//!   cycle (`frame`) and the release of everything (`teardown`). `data`
//!   holds the descriptors that the stages hand on, `vk` the values taken
//!   from the Vulkan bindings.
//! - [`error`] holds the failures that are told apart.
//! - [`util`] holds the shader bytecode and the fixed parameters.

pub mod base;
pub mod error;
pub mod util;
