//! Core of a terminal client that searches a video catalog, queues results and
//! drives an external player through a control socket.
//!
//! The crate holds no I/O. The caller owns the player process, the control
//! socket and the background lookup; the types here decide what is to be done
//! and record what was done.

pub mod app;
pub mod effect;
pub mod keys;
pub mod laws;
pub mod lines;
pub mod list;
pub mod protocol;
pub mod search;
pub mod session;
pub mod video;
