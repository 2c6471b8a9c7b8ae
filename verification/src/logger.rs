//! The logger's one piece of state: whether the process-wide dispatcher has
//! been installed. Building and installing the dispatcher is I/O and
//! belongs to the surrounding binary; the once-only decision lives here.

use vstd::prelude::*;

verus! {

/// Tracks whether logging has been initialised, so that a second
/// initialisation is skipped instead of failing on the process-wide
/// dispatcher already being set.
#[derive(Debug)]
pub struct Logger {
    has_init: bool,
}

impl Logger {
    /// Whether the dispatcher has been recorded as installed.
    pub closed spec fn spec_initialized(self) -> bool {
        self.has_init
    }

    /// A logger that has not been initialised yet.
    pub fn new() -> (r: Self)
        ensures
            !r.spec_initialized(),
    {
        Self { has_init: false }
    }

    /// True once initialisation has been recorded; callers skip the
    /// dispatcher setup in that case.
    pub fn is_initialized(&self) -> (r: bool)
        ensures
            r == self.spec_initialized(),
    {
        self.has_init
    }

    /// Records that the dispatcher was installed successfully.
    pub fn mark_initialized(&mut self)
        ensures
            final(self).spec_initialized(),
    {
        self.has_init = true;
    }
}

} // verus!
