//! The failures that the asset pipeline reports.
use vstd::prelude::*;

verus! {

/// Why an asset could not be resolved, fetched or stored, or a record built.
#[derive(Debug, Clone, Copy, PartialEq, Eq, Structural)]
pub enum AssetError {
    /// The requested edition is not one of the entry's editions.
    UnknownEdition,
    /// The remote resource could not be fetched.
    FetchError,
    /// The fetched bytes could not be written to disk.
    WriteError,
    /// A record's editions and URL lists are empty or not aligned.
    ConstructionError,
}

} // verus!
