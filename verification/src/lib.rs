//! Playback coordination for a small desktop video player.
//!
//! The decode pipeline and the display surface live outside this crate. What
//! is here is every decision taken between them: which pipeline command a
//! user gesture turns into, how a lifecycle notification is answered, how a
//! decoded frame becomes a displayable pixel buffer, and in which order a
//! shutdown proceeds. Each decision is a function from plain values to plain
//! values, so a caller performs the returned actions and feeds back what it
//! observed.

pub mod action;
pub mod bridge;
pub mod frame;
pub mod input;
pub mod mirror;
pub mod state;
pub mod transport;
