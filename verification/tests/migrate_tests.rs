use cw_pets::contract::migrate;
use cw_pets::error::ContractError;
use cw_pets::version::ContractVersion;

fn meta(contract: &str, version: &str) -> ContractVersion {
    ContractVersion {
        contract: contract.to_string(),
        version: version.to_string(),
    }
}

#[test]
fn migrate_bumps_an_older_version() {
    let stored = meta("crates.io:cw-pets", "0.1.0");
    let current = meta("crates.io:cw-pets", "0.2.0");
    let updated = migrate(&stored, &current).unwrap().unwrap();
    assert_eq!("crates.io:cw-pets", updated.contract);
    assert_eq!("0.2.0", updated.version);
}

#[test]
fn migrate_is_idempotent_after_a_bump() {
    let stored = meta("crates.io:cw-pets", "0.1.0");
    let current = meta("crates.io:cw-pets", "0.2.0");
    let first = migrate(&stored, &current).unwrap().unwrap();

    // the second run succeeds and asks for no further change
    let second = migrate(&first, &current).unwrap();
    assert_eq!(None, second);
}

#[test]
fn migrate_without_a_bump_changes_nothing() {
    let current = meta("crates.io:cw-pets", "0.2.0");
    assert_eq!(None, migrate(&current, &current).unwrap());

    // a stored version newer than the target is also left alone
    let newer = meta("crates.io:cw-pets", "0.3.1");
    assert_eq!(None, migrate(&newer, &current).unwrap());
}

#[test]
fn migrate_orders_versions_by_semantic_precedence() {
    // numerically, not textually: 0.10.0 comes after 0.9.0
    let stored = meta("crates.io:cw-pets", "0.9.0");
    let current = meta("crates.io:cw-pets", "0.10.0");
    let updated = migrate(&stored, &current).unwrap().unwrap();
    assert_eq!("0.10.0", updated.version);
    assert_eq!(None, migrate(&current, &stored).unwrap());
}

#[test]
fn migrate_refuses_a_different_contract() {
    let current = meta("crates.io:cw-pets", "0.2.0");
    for stored_version in ["0.1.0", "0.2.0", "0.3.0"] {
        let stored = meta("crates.io:other", stored_version);
        assert_eq!(
            Err(ContractError::IncompatibleContract),
            migrate(&stored, &current)
        );
    }
}

#[test]
fn migrate_refuses_a_malformed_version() {
    let current = meta("crates.io:cw-pets", "0.2.0");
    let stored = meta("crates.io:cw-pets", "not-a-version");
    assert_eq!(
        Err(ContractError::VersionParseError),
        migrate(&stored, &current)
    );

    let stored = meta("crates.io:cw-pets", "0.1");
    assert_eq!(
        Err(ContractError::VersionParseError),
        migrate(&stored, &current)
    );

    let stored = meta("crates.io:cw-pets", "0.1.0");
    let bad_current = meta("crates.io:cw-pets", "fuzzy");
    assert_eq!(
        Err(ContractError::VersionParseError),
        migrate(&stored, &bad_current)
    );
}

#[test]
fn migrate_checks_identity_before_versions() {
    // an identity mismatch wins even when both versions are malformed
    let stored = meta("crates.io:other", "junk");
    let current = meta("crates.io:cw-pets", "also junk");
    assert_eq!(
        Err(ContractError::IncompatibleContract),
        migrate(&stored, &current)
    );
}
