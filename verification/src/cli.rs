//! Arguments of the command line.

use vstd::prelude::*;

verus! {

/// The arguments of the hidden subcommand that runs a validation worker.
#[derive(Debug, PartialEq, Eq)]
pub struct ValidationWorkerCommand {
    /// The identifier of the shared memory the worker serves.
    pub mem_id: String,
}

} // verus!
