//! Protocol layer for a three-zone keyboard backlight controller.
//!
//! The hardware is driven through two write-only device endpoints: a
//! "dynamic" endpoint that accepts 16-byte frames (animated effects and
//! brightness) and a "static" endpoint that accepts 8-byte frames
//! (per-zone color and enable control). This crate holds the in-memory
//! lighting state, the encoders that turn a state snapshot into the exact
//! byte frames the driver expects, the sequencing rules for mode switches,
//! and a snapshot codec for persisting the state between runs. All of it
//! is pure: the caller performs the actual device writes and file I/O.

pub mod error;
pub mod frames;
pub mod session;
pub mod snapshot;
pub mod state;
