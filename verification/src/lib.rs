//! Planning core for a fixed "hello triangle" rendering application.
//!
//! The library holds the decision logic of the application: which validation
//! layers and devices are acceptable, how the swapchain is parameterised, in
//! which order the graphics context is brought up and torn down, and what a
//! single frame of the render loop performs.  Every function here is verified;
//! the unverified shell around the library carries the plans produced here to
//! the native windowing and graphics interfaces and feeds their answers back
//! in as plain values.

pub mod application;
pub mod bringup;
pub mod context;
pub mod controllers;
pub mod frame;
pub mod gateways;
pub mod graphics;
pub mod infra;
pub mod host;
pub mod plans;
pub mod queue_families;
pub mod support;
pub mod swapchain;
pub mod utils;
pub mod vk;
