//! Packaging of compiled dynamic libraries into loadable database-engine
//! extensions.
//!
//! The crate covers the logic of the packaging pipeline: encoding fixed-width
//! metadata fields, assembling the exact 534-byte footer that the consuming
//! engine expects, resolving a platform identifier from a target triple or
//! from the host, filtering a build-event stream down to the dynamic-library
//! artifacts of known packages, and deriving the per-artifact packaging
//! parameters. File copying, process handling and command-line parsing are
//! left to the thin binary built on top of this crate.

pub mod events;
pub mod footer;
pub mod pack;
pub mod platform;
pub mod tasks;
pub mod text;
