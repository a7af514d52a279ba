//! GPU resource bookkeeping and command-submission rules for an explicit
//! graphics API: device selection, buffer sub-allocation, command-encoder
//! lifecycle, swapchain configuration and the per-frame protocol.

pub mod align;
pub mod commands;
pub mod device;
pub mod flags;
pub mod frame;
pub mod megabuffer;
pub mod queue;
pub mod renderer;
pub mod texture;
pub mod transfer;
pub mod viewport;
