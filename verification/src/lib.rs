//! Object-lifetime core of a software graphics runtime: a registry of live
//! objects, the two handle protocols that name them, and the fence and
//! semaphore primitives built on top.
//!
//! The registry is an ordinary value, [`context::Context`]. Whoever owns it
//! decides how it is shared; every operation here takes it by reference and
//! states exactly how it changes.

pub mod context;
pub mod dispatchable;
pub mod error;
pub mod fence;
pub mod handle;
pub mod instance;
pub mod logical_device;
pub mod non_dispatchable;
pub mod physical_device;
pub mod pipeline;
pub mod queue;
pub mod semaphore;
