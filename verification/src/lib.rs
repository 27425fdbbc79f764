//! The verified core of a small Vulkan renderer: generic vectors and points
//! over integer scalars, the decisions taken while setting up Vulkan (queue
//! families, physical devices, swapchain settings, required extensions),
//! the embedded-shader types and the input grammar of the `shaders!` macro.
//!
//! The calls into the Vulkan driver, the window system and the shader
//! compiler are made by the program around this library, which hands the
//! library plain values and acts on what it decides.

use vstd::prelude::*;

pub mod arith_traits;
pub mod vectors;
pub mod vector2;
pub mod vector3;
pub mod vector4;
pub mod point;
pub mod vector_laws;
pub mod queues;
pub mod device;
pub mod swapchain;
pub mod instance;
pub mod setup;
pub mod shader;
pub mod shader_macro;
pub mod validation;
pub mod api_version;

pub use instance::AppInfo;
pub use swapchain::SwapchainCreationError;

verus! {

/// Number of frames the renderer keeps in flight at once.
pub const FRAMES_IN_FLIGHT: usize = 2;

} // verus!
