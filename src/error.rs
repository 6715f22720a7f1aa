use vstd::prelude::*;

verus! {

/// Why the library refused to produce a result.
pub enum BakeError {
    /// The builder reported a binary path that does not end in a file name.
    InvalidGuestPath(String),
    /// A containerized build was asked for without the directory that roots it.
    MissingWorkingDirectory,
}

} // verus!
