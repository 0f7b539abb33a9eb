//! Memory-introspection and offset-discovery library for a live CS2 process.
//!
//! The crate works on captured views of the target's address space: an
//! accessor models the sparse set of byte regions an external shell has read
//! out of the process, and every analysis — module parsing, pattern search,
//! interface resolution, schema-table offset discovery and per-cycle roster
//! building — is a verified function of that captured data.

pub mod accessor;
pub mod constants;
pub mod cs2;
pub mod image;
pub mod math;
pub mod memory;
pub mod offsets;
