//! Decision logic for bringing up a Vulkan rendering backend: device
//! selection, queue-family resolution, swapchain negotiation, creation
//! requests and teardown ordering, all over plain values reported by the
//! driver.

pub mod errors;
pub mod names;
pub mod physical;
pub mod logical;
pub mod version;
pub mod instance;
pub mod debug;
pub mod teardown;
pub mod queues;
pub mod swapchain;

