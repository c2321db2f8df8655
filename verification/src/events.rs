//! Events that systems publish to each other.
use vstd::prelude::*;

verus! {

/// How important a user-facing message is.
#[derive(Debug, Clone, Copy, PartialEq, Eq, Structural)]
pub enum MessageLevel {
    Success,
    Info,
    Warning,
    Error,
}

/// A message to show to the user.
pub struct MessageEvent {
    pub level: MessageLevel,
    pub message: String,
}

/// Published once per frame.
pub struct Tick;

} // verus!
