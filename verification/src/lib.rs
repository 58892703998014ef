//! The verified core of a shared pixel canvas: many clients paint single
//! pixels onto one raster and see each other's writes as they are committed.
//!
//! The crate holds the rules and leaves the waiting to its caller: the wire
//! codec of a pixel write, the canvas store, the hub that fans committed
//! writes out, the life cycle of a client session, and the policy by which the
//! canvas is saved and restored.

pub mod applier;
pub mod canvas;
pub mod config;
pub mod grid;
pub mod hub;
pub mod persist;
pub mod point;
pub mod raster;
pub mod recovery;
pub mod session;
pub mod snapshot;
