//! A resumable, progress-instrumented file transfer engine, together with
//! the presentation helpers and command descriptions that surround it.
//!
//! Everything here is pure logic: the network, the disk, the clock and the
//! process environment are supplied by the caller as plain values.

pub mod command;
pub mod format;
pub mod listing;
pub mod rate;
pub mod trace;
pub mod transfer;
