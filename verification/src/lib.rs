//! Audio playback requests and controller input events for a game engine.
//!
//! The playback half models a fire-and-forget play request (spawn a sink,
//! enqueue a source a number of times, detach) as a small session state
//! machine; an unverified shell performs the actual device calls and feeds
//! the answers back in. The input half defines the controller event
//! enumerations and their lossless conversion into the engine-wide input
//! event union.

pub mod controller;
pub mod event;
pub mod output;
pub mod source;
