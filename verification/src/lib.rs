//! Bring-up of a Vulkan presentation chain: the decisions that turn what a
//! driver reports into the parameters of an instance, a logical device and a
//! swapchain, and the state machine of the acquire/present loop.
//!
//! Nothing in this crate talks to a driver. Callers query the driver, hand the
//! answers over as plain values, and carry out what comes back.

mod bindings;
pub mod device;
pub mod diagnostics;
pub mod error;
pub mod frame_loop;
pub mod instance;
pub mod pipeline;
pub mod selector;
pub mod swapchain;
