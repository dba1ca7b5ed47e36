//! The ways in which a build or a metadata query fails.

use vstd::prelude::*;

verus! {

/// Why no path, or no metadata, could be returned.
#[derive(Clone, Copy, Debug, PartialEq, Eq, Structural)]
pub enum BuildError {
    /// `cargo` could not be started at all.
    Cargo,
    /// A line of the build's output was not a message that is known.
    Message,
    /// `cargo` ran and failed, or succeeded without reporting an artifact.
    CargoFail,
    /// The artifact that was built holds no dynamic library.
    CdylibNotFound,
    /// The answer to the metadata query did not have the expected shape.
    Metadata,
}

} // verus!
