//! Errors reported by the collectors.

use vstd::prelude::*;

verus! {

/// What went wrong, with a message for the console.
#[derive(Debug, Clone, Copy, PartialEq, Eq)]
pub enum Error {
    /// A network service could not be configured or reached.
    ConfigError(&'static str),
    /// The request cannot be served, or received data is malformed.
    SystemError(&'static str),
}

} // verus!
