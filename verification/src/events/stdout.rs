//! The sink that prints events to standard output.

use vstd::prelude::*;

verus! {

/// A sink to standard output that can be switched off.
#[derive(Debug, Clone, Copy, PartialEq, Eq, Structural)]
pub struct StdoutSink {
    pub enabled: bool,
}

impl StdoutSink {
    /// A sink that prints.
    pub fn new() -> (s: Self)
        ensures
            s.enabled,
    {
        Self { enabled: true }
    }

    /// A sink that prints nothing.
    pub fn new_disabled() -> (s: Self)
        ensures
            !s.enabled,
    {
        Self { enabled: false }
    }

    /// Whether an event handed to the sink is printed.
    pub fn prints(&self) -> (b: bool)
        ensures
            b == self.enabled,
    {
        self.enabled
    }
}

/// A sink to standard output.
#[derive(Debug, Clone, Copy, PartialEq, Eq, Structural)]
pub struct StdoutEventSink {}

impl StdoutEventSink {
    /// The sink.
    pub fn new() -> Self {
        Self {  }
    }
}

} // verus!
