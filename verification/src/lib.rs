//! Lossy quality-score binning for sequencing-alignment records.
//!
//! The library quantizes per-base quality scores to a small set of
//! representative levels (a coarse and a fine table), locates the
//! quality-score region inside one packed alignment record from its
//! header lengths, rewrites exactly that region in place, and decides
//! the run's preflight checks and thread budget. Container I/O is left
//! to the surrounding program.

pub mod layout;
pub mod preflight;
pub mod stream;
pub mod tables;
pub mod threads;
