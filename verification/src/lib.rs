//! The firmware of the Ugly Duckling: what a device decides, apart from the
//! hardware that it decides it for.

pub mod bring_up;
pub mod config;
pub mod kernel;
pub mod network;
pub mod payload;
pub mod tasks;
pub mod text;
pub mod wireless;
