//! The logger's settings.
use vstd::prelude::*;

verus! {

/// Console logging; debug messages are printed only when verbose.
#[derive(Debug, Clone)]
pub struct Logger {
    verbose: bool,
}

impl View for Logger {
    type V = bool;

    closed spec fn view(&self) -> bool {
        self.verbose
    }
}

impl Logger {
    /// A logger, verbose or not.
    pub fn new(verbose: bool) -> (logger: Self)
        ensures
            logger@ == verbose,
    {
        Logger { verbose }
    }

    /// Whether debug messages are printed.
    pub fn verbose(&self) -> (r: bool)
        ensures
            r == self@,
    {
        self.verbose
    }
}

} // verus!
