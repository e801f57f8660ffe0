//! Staged builder for a minimal bootable OS image.
//!
//! The library holds the orchestration, validation, and promotion logic of
//! the pipeline: verifying a prebuilt kernel's artifacts, deciding which
//! artifacts still have to be produced, selecting kernel modules for the
//! boot-time filesystem, planning the delegated build steps, and publishing
//! generated binary outputs atomically.  Every decision is a pure function
//! over plain values (path strings and existence flags); the surrounding
//! program performs the filesystem probes and the delegated tool runs and
//! feeds their outcomes back in.

pub mod errors;
pub mod strutil;
pub mod config;
pub mod kernel;
pub mod payload;
pub mod promote;
pub mod initramfs;
pub mod iso;
pub mod pipeline;
