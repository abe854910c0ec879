use vstd::prelude::*;

use crate::error::ContractError;
use crate::msg::{ExecuteMsg, InstantiateMsg, PetResponse, QueryMsg};
use crate::pet::{spec_new, Pet, PetView};
use crate::state::PetStore;
use crate::version::{
    semver_is_valid, semver_lt, semver_parses, semver_precedes, ContractVersion,
    ContractVersionView,
};

verus! {

/// What the watering action does to the store's contents: fail with
/// `NotFound` on an empty store, fail with `Unauthorized` for any sender
/// but the owner, and otherwise replace only the last watering time.
pub open spec fn spec_water(stored: Option<PetView>, sender: Seq<char>, now: u64) -> Result<
    PetView,
    ContractError,
> {
    match stored {
        None => Err(ContractError::NotFound),
        Some(p) => if sender == p.owner {
            Ok(PetView { last_watering_time: now, ..p })
        } else {
            Err(ContractError::Unauthorized)
        },
    }
}

/// What the feeding action does to the store's contents: the mirror image
/// of [`spec_water`], replacing only the last feeding time.
pub open spec fn spec_feed(stored: Option<PetView>, sender: Seq<char>, now: u64) -> Result<
    PetView,
    ContractError,
> {
    match stored {
        None => Err(ContractError::NotFound),
        Some(p) => if sender == p.owner {
            Ok(PetView { last_feeding_time: now, ..p })
        } else {
            Err(ContractError::Unauthorized)
        },
    }
}

/// Creates the singleton record: the sender becomes the owner, the species
/// is derived from the creation height, and all three timestamps are the
/// creation time. Re-creation over an existing record overwrites it; the
/// host environment instantiates a contract once, so the slot is empty in
/// every supported run.
pub fn instantiate(store: &mut PetStore, sender: String, msg: InstantiateMsg, height: u64, now: u64)
    ensures
        final(store)@ == Some(spec_new(sender@, msg.name@, height, now)),
{
    let pet = Pet::new(sender, msg.name, height, now);
    store.save(pet);
}

/// Dispatches a mutating action to its handler.
pub fn execute(store: &mut PetStore, sender: &String, now: u64, msg: &ExecuteMsg) -> (r: Result<
    (),
    ContractError,
>)
    ensures
        match msg {
            ExecuteMsg::GiveWater {  } => match spec_water(old(store)@, sender@, now) {
                Ok(p) => r is Ok && final(store)@ == Some(p),
                Err(e) => r == Err::<(), ContractError>(e) && *final(store) == *old(store),
            },
            ExecuteMsg::Feed {  } => match spec_feed(old(store)@, sender@, now) {
                Ok(p) => r is Ok && final(store)@ == Some(p),
                Err(e) => r == Err::<(), ContractError>(e) && *final(store) == *old(store),
            },
        },
{
    match msg {
        ExecuteMsg::GiveWater {  } => try_water(store, sender, now),
        ExecuteMsg::Feed {  } => try_feed(store, sender, now),
    }
}

/// The watering handler: authorizes the sender against the stored owner,
/// then records the watering. On any failure the store is left exactly as
/// it was.
pub fn try_water(store: &mut PetStore, sender: &String, now: u64) -> (r: Result<(), ContractError>)
    ensures
        match spec_water(old(store)@, sender@, now) {
            Ok(p) => r is Ok && final(store)@ == Some(p),
            Err(e) => r == Err::<(), ContractError>(e) && *final(store) == *old(store),
        },
{
    let mut pet = match store.load() {
        Ok(p) => p,
        Err(e) => return Err(e),
    };
    if *sender != pet.owner {
        return Err(ContractError::Unauthorized);
    }
    pet.water(now);
    store.save(pet);
    Ok(())
}

/// The feeding handler: authorizes the sender against the stored owner,
/// then records the feeding. On any failure the store is left exactly as
/// it was.
pub fn try_feed(store: &mut PetStore, sender: &String, now: u64) -> (r: Result<(), ContractError>)
    ensures
        match spec_feed(old(store)@, sender@, now) {
            Ok(p) => r is Ok && final(store)@ == Some(p),
            Err(e) => r == Err::<(), ContractError>(e) && *final(store) == *old(store),
        },
{
    let mut pet = match store.load() {
        Ok(p) => p,
        Err(e) => return Err(e),
    };
    if *sender != pet.owner {
        return Err(ContractError::Unauthorized);
    }
    pet.feed(now);
    store.save(pet);
    Ok(())
}

/// Dispatches a read-only request to its projection.
pub fn query(store: &PetStore, msg: &QueryMsg) -> (r: Result<PetResponse, ContractError>)
    ensures
        match msg {
            QueryMsg::GetPetStatus {  } => match store@ {
                Some(p) => r is Ok && spec_response_of(r->Ok_0, p),
                None => r == Err::<PetResponse, ContractError>(ContractError::NotFound),
            },
        },
{
    match msg {
        QueryMsg::GetPetStatus {  } => query_pet_status(store),
    }
}

/// Whether `resp` projects exactly the stored record `p`.
pub open spec fn spec_response_of(resp: PetResponse, p: PetView) -> bool {
    &&& resp.name@ == p.name
    &&& resp.pet_type == p.pet_type
    &&& resp.stage == p.stage
    &&& resp.last_watering_time == p.last_watering_time
    &&& resp.last_feeding_time == p.last_feeding_time
    &&& resp.birth_date == p.birth_date
}

/// The read-only projection of the stored record. It requires no
/// authorization, changes nothing, and fails with `NotFound` if no record
/// has been created.
pub fn query_pet_status(store: &PetStore) -> (r: Result<PetResponse, ContractError>)
    ensures
        match store@ {
            Some(p) => r is Ok && spec_response_of(r->Ok_0, p),
            None => r == Err::<PetResponse, ContractError>(ContractError::NotFound),
        },
{
    let pet = match store.load() {
        Ok(p) => p,
        Err(e) => return Err(e),
    };
    Ok(
        PetResponse {
            name: pet.name,
            pet_type: pet.pet_type,
            stage: pet.stage,
            last_watering_time: pet.last_watering_time,
            last_feeding_time: pet.last_feeding_time,
            birth_date: pet.birth_date,
        },
    )
}

/// What a migration does to the recorded metadata: refuse a record written
/// under a different contract identity, refuse metadata whose version (or
/// whose target version) is not a well-formed semantic version, bump the
/// recorded version when it is older than the target, and change nothing
/// when it is already up to date.
pub open spec fn spec_migrate(
    stored: ContractVersionView,
    current: ContractVersionView,
) -> Result<Option<ContractVersionView>, ContractError> {
    if stored.contract != current.contract {
        Err(ContractError::IncompatibleContract)
    } else if !semver_parses(stored.version) || !semver_parses(current.version) {
        Err(ContractError::VersionParseError)
    } else if semver_lt(stored.version, current.version) {
        Ok(Some(ContractVersionView { contract: stored.contract, version: current.version }))
    } else {
        Ok(None)
    }
}

/// The migration guard. `stored` is the metadata recorded at the last
/// instantiation or migration; `current` is this contract's identity and
/// version. `Ok(Some(meta))` asks the caller to record `meta`;
/// `Ok(None)` asks for no change (the recorded version is already up to
/// date); errors leave the metadata alone.
pub fn migrate(stored: &ContractVersion, current: &ContractVersion) -> (r: Result<
    Option<ContractVersion>,
    ContractError,
>)
    ensures
        match spec_migrate(stored@, current@) {
            Ok(opt) => r is Ok && (match (r->Ok_0, opt) {
                (Some(cv), Some(m)) => cv@ == m,
                (None, None) => true,
                _ => false,
            }),
            Err(e) => r == Err::<Option<ContractVersion>, ContractError>(e),
        },
{
    if stored.contract != current.contract {
        return Err(ContractError::IncompatibleContract);
    }
    if !semver_is_valid(stored.version.as_str()) {
        return Err(ContractError::VersionParseError);
    }
    if !semver_is_valid(current.version.as_str()) {
        return Err(ContractError::VersionParseError);
    }
    if semver_precedes(stored.version.as_str(), current.version.as_str()) {
        Ok(
            Some(
                ContractVersion {
                    contract: stored.contract.clone(),
                    version: current.version.clone(),
                },
            ),
        )
    } else {
        Ok(None)
    }
}

/// A successful migration is idempotent: run a second time against the
/// metadata it left behind, it succeeds again and leaves that metadata
/// unchanged, whether or not the first run bumped the version.
pub proof fn lemma_migrate_idempotent(stored: ContractVersionView, current: ContractVersionView)
    requires
        spec_migrate(stored, current) is Ok,
    ensures
        ({
            let after = match spec_migrate(stored, current)->Ok_0 {
                Some(m) => m,
                None => stored,
            };
            &&& spec_migrate(after, current) is Ok
            &&& match spec_migrate(after, current)->Ok_0 {
                Some(m2) => m2 == after,
                None => true,
            }
        }),
{
}

/// Migration against metadata recorded under a different contract identity
/// always fails with `IncompatibleContract`, whatever the two version
/// strings hold.
pub proof fn lemma_migrate_incompatible(stored: ContractVersionView, current: ContractVersionView)
    requires
        stored.contract != current.contract,
    ensures
        spec_migrate(stored, current) == Err::<Option<ContractVersionView>, ContractError>(
            ContractError::IncompatibleContract,
        ),
{
}

/// Watering and feeding commute: starting from a store that accepts the
/// owner's watering, applying water at `t1` then feed at `t2` reaches the
/// same record as feed at `t2` then water at `t1`.
pub proof fn lemma_water_feed_commute(stored: Option<PetView>, sender: Seq<char>, t1: u64, t2: u64)
    requires
        spec_water(stored, sender, t1) is Ok,
    ensures
        spec_feed(Some(spec_water(stored, sender, t1)->Ok_0), sender, t2) is Ok,
        spec_water(Some(spec_feed(stored, sender, t2)->Ok_0), sender, t1) is Ok,
        spec_feed(Some(spec_water(stored, sender, t1)->Ok_0), sender, t2)->Ok_0 == spec_water(
            Some(spec_feed(stored, sender, t2)->Ok_0),
            sender,
            t1,
        )->Ok_0,
{
}

/// Both actions preserve the record's well-formedness (the birth date is
/// no later than either care timestamp) whenever the action's block time
/// is no earlier than the birth date.
pub proof fn lemma_actions_preserve_wf(stored: Option<PetView>, sender: Seq<char>, now: u64)
    requires
        stored is Some ==> stored->Some_0.wf(),
        stored is Some ==> now >= stored->Some_0.birth_date,
    ensures
        spec_water(stored, sender, now) is Ok ==> spec_water(stored, sender, now)->Ok_0.wf(),
        spec_feed(stored, sender, now) is Ok ==> spec_feed(stored, sender, now)->Ok_0.wf(),
{
}

} // verus!
