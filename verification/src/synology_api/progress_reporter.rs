//! The sink that a transfer reports its progress to.

use vstd::prelude::*;

verus! {

/// Why a progress report was not delivered.
#[derive(Clone, Copy, Debug, PartialEq, Eq, Structural)]
pub enum ProgressError {
    /// The sink could not write the report.
    NotWritten,
}

/// A sink for progress reports. A transfer hands it the number of bytes moved
/// since its last report.
pub trait ProgressReporter {
    /// The byte counts that this sink has been handed, oldest first, where
    /// the sink keeps track of them. A sink that says nothing here does not.
    open spec fn reported(&self) -> Option<Seq<usize>> {
        None
    }

    /// Takes one report. A sink that keeps track records it whether or not
    /// it could deliver it.
    fn update(&mut self, bytes_since_last: usize) -> (r: Result<(), ProgressError>)
        ensures
            final(self).reported() == match old(self).reported() {
                Some(log) => Some(log.push(bytes_since_last)),
                None => None,
            },
    ;
}

} // verus!
