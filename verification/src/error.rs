use vstd::prelude::*;

verus! {

/// Every failure a handler can surface to its caller. Each handler returns
/// the first error encountered and commits no state alongside an error.
#[derive(Clone, Copy, Debug, PartialEq, Eq)]
pub enum ContractError {
    /// A mutating action was invoked by an account other than the owner.
    Unauthorized,
    /// A query or an update was attempted before the record was created.
    NotFound,
    /// A migration was attempted against metadata recorded under a
    /// different contract identity.
    IncompatibleContract,
    /// The recorded or the current version string is not a well-formed
    /// semantic version.
    VersionParseError,
}

} // verus!
