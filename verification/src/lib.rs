//! Asset download subsystem for a catalog of sounds: a queue of pending
//! fetches, a per-task worker protocol with progress reporting, and a
//! two-strategy acquisition policy (an external extraction tool when
//! available, a direct HTTP byte stream otherwise).
//!
//! The controller, the queue and the worker's decision logic are verified;
//! the outside work (subprocess, network, disk) is performed by the
//! program around this library, which feeds what it saw back in.

pub mod assets;
pub mod controller;
pub mod queue;
pub mod sound;
pub mod text;
pub mod worker;
