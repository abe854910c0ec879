use vstd::prelude::*;

verus! {

/// The migration metadata recorded beside the pet: the identity string of
/// the contract that wrote the store, and the semantic version it was
/// written under.
#[derive(Debug, PartialEq, Eq)]
pub struct ContractVersion {
    pub contract: String,
    pub version: String,
}

/// The mathematical model of a [`ContractVersion`].
pub ghost struct ContractVersionView {
    pub contract: Seq<char>,
    pub version: Seq<char>,
}

impl View for ContractVersion {
    type V = ContractVersionView;

    open spec fn view(&self) -> ContractVersionView {
        ContractVersionView { contract: self.contract@, version: self.version@ }
    }
}

/// Whether `s` is a well-formed semantic version, exactly as
/// `semver::Version::parse` accepts it.
pub uninterp spec fn semver_parses(s: Seq<char>) -> bool;

/// Whether the version parsed from `a` orders strictly before the version
/// parsed from `b`, exactly as `semver::Version`'s ordering ranks them.
/// Meaningful only where both strings parse.
pub uninterp spec fn semver_lt(a: Seq<char>, b: Seq<char>) -> bool;

/// Relies on `semver::Version::parse`: it accepts or rejects a version
/// string deterministically, as a function of the characters alone.
#[verifier::external_body]
pub(crate) fn semver_is_valid(s: &str) -> (r: bool)
    ensures
        r == semver_parses(s@),
{
    semver::Version::parse(s).is_ok()
}

/// Relies on `semver::Version::parse` and on `semver::Version`'s `Ord`:
/// both are deterministic functions of the version strings, so which of two
/// well-formed versions orders first depends on the two strings alone.
#[verifier::external_body]
pub(crate) fn semver_precedes(a: &str, b: &str) -> (r: bool)
    requires
        semver_parses(a@),
        semver_parses(b@),
    ensures
        r == semver_lt(a@, b@),
{
    let va = semver::Version::parse(a).unwrap();
    let vb = semver::Version::parse(b).unwrap();
    va < vb
}

} // verus!
