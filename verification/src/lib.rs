//! Planning, validation and sequencing for a one-shot GPU compute dispatch.
//!
//! The crate holds everything about a dispatch-and-readback cycle that can be
//! decided on the host without touching a device: how an array is laid out in
//! bytes, which buffers are needed and with which capabilities, how buffers are
//! wired to a kernel's binding slots, which commands are recorded, and in which
//! order the backend has to be driven. A caller owns the device; it performs
//! the step a [`session::Session`] asks for and reports back what happened.

pub mod words;
pub mod error;
pub mod usage;
pub mod buffers;
pub mod binding;
pub mod commands;
pub mod session;
