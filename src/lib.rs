//! A rotating, asynchronous log-persistence pipeline.
//!
//! Producers format leveled records into plain lines and hand them to a
//! bounded channel; a single runner drains the channel, stamps each line with
//! the local time and appends it to size-rotated files.
use vstd::prelude::*;

pub mod channel;
pub mod clock;
pub mod level;
pub mod pipeline;
pub mod plugin;
pub mod record;
pub mod runner;
pub mod search;
pub mod text;
pub mod utils;
