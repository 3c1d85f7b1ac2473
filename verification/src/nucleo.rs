//! Values and capabilities shared by every device, and the cycle that polls
//! them.
pub mod bytes;
pub mod clock;
pub mod cycle;
pub mod factory;
pub mod retry;
pub mod runtime;
pub mod text;
pub mod traits;
pub mod types;
