//! A verified remapping engine for the buttons of a pressure-stylus tablet:
//! raw stylus-button and tip-contact events become mouse-click semantics.
//!
//! The crate holds the event-driven core: the shared input context, a small
//! generic state-machine engine, the four button-mapping states with their
//! transition policy, and the per-report batcher whose flush discipline
//! keeps every emitted hardware report whole. Device discovery, exclusive
//! acquisition and the raw transport live outside, around this library.

pub mod args;
pub mod events;
pub mod laws;
pub mod remap;
pub mod state_machine;
pub mod stylus;
