//! Verified core of a cross-address-space screen mirroring protocol.
//!
//! A guest process publishes frames into a fixed shared structure in its own
//! address space; a host with nothing but raw memory access discovers that
//! structure by signature scanning and polls it, handing frames across with a
//! pair of monotonically increasing counters. This crate holds the protocol
//! itself: the shared byte layout, the marker scanner, the guest publisher
//! state machine, the host poller, and the reader that schedules the poller.
//! The pixel-capture backends, windowing, and the raw memory provider are
//! external collaborators driven from outside the crate.
pub mod config;
pub mod guest;
pub mod host;
pub mod layout;
pub mod reader;
pub mod scanner;
pub mod wire;
