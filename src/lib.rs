//! Encoding of vehicle state changes as KOMSI commands: each command is a
//! code byte followed by the decimal digits of a value, and a batch of
//! commands ends with a line feed.
use vstd::prelude::*;

/// KOMSI command codes and the encoders for single commands.
pub mod komsi;
/// Vehicle state snapshots and the comparison that turns their differences
/// into KOMSI commands.
pub mod vehicle;
