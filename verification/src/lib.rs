//! A frame bridge between a compositor-owned shared texture and a window's
//! presentation surface, written as verified decision logic.
//!
//! The library performs no input or output. It decides what has to happen
//! next, given what happened last; a driver carries the decisions out on the
//! GPU and the compositor connection and reports the outcomes back.

pub mod bridge;
pub mod extent;
pub mod laws;
pub mod output;
pub mod protocol;
pub mod setup;
pub mod sync;
