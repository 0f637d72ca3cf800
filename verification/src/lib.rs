//! Client side of a node's administrative `validator-whitelist` command.
//!
//! The command accepts a path to a whitelist file, validates the shape of
//! the invocation, and relays the path to an already-running node over its
//! local administrative control channel.  `args` validates the raw
//! command-line tokens into a typed request; `invoke` decides, from the
//! outcome of each transport step, how the invocation ends.

pub mod args;
pub mod invoke;
