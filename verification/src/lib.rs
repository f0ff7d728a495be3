//! Core logic of a minimal GPU rendering backend.
//!
//! The backend selects a physical device, resolves queue families against a
//! presentation surface, negotiates a swapchain, and drives a one-frame-in-flight
//! render loop that clears the screen, synchronized by a fence and two semaphores.
//!
//! This crate holds the decisions of that backend — selection policies, the
//! swapchain negotiation, the per-frame synchronization state machine, and the
//! teardown order — verified over plain values. The graphics API calls that carry
//! the decisions out live outside the library, which hands them out as explicit
//! actions and consumes their outcomes as events.

pub mod context;
pub mod device;
pub mod error;
pub mod frame;
pub mod queue;
pub mod renderer;
pub mod swapchain;
pub mod teardown;
