//! Redis string and hash commands, built and decoded with proved contracts.
//!
//! The library builds each command with `redis::Cmd` and states exactly which
//! arguments it holds. It also decodes replies under one fixed policy: a failure
//! becomes a default value. Sending a command over a connection is left to the
//! caller.

use vstd::prelude::*;

pub mod command;
pub mod hashes;
pub mod reply;
pub mod strings;
