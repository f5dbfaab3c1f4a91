//! Decisions and data behind a one-step installer of the Stable Diffusion
//! web UI for AMD graphics cards on Ubuntu.

pub mod checksum;
pub mod command;
pub mod desktop;
pub mod distribution;
pub mod docker;
pub mod gpu;
pub mod install;
pub mod launch;
pub mod packages;
pub mod progress;
pub mod setup;
pub mod text;
