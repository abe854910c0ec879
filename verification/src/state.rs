use vstd::prelude::*;

use crate::error::ContractError;
use crate::pet::{Pet, PetView};

verus! {

/// The singleton slot that persists the one [`Pet`] record of a contract
/// instance. It starts empty; the creation handler fills it; the action
/// handlers replace its contents only after authorization succeeds, so a
/// failed call never alters what is stored.
pub struct PetStore {
    pet: Option<Pet>,
}

impl View for PetStore {
    type V = Option<PetView>;

    closed spec fn view(&self) -> Option<PetView> {
        match self.pet {
            Some(p) => Some(p@),
            None => None,
        }
    }
}

impl PetStore {
    /// An empty slot: no pet has been created yet.
    pub fn new() -> (store: PetStore)
        ensures
            store@ is None,
    {
        PetStore { pet: None }
    }

    /// Reads the stored record, or fails with `NotFound` if none has been
    /// written yet. The store itself is never changed by a read.
    pub fn load(&self) -> (r: Result<Pet, ContractError>)
        ensures
            match self@ {
                Some(p) => r is Ok && r->Ok_0@ == p,
                None => r == Err::<Pet, ContractError>(ContractError::NotFound),
            },
    {
        match &self.pet {
            Some(pet) => Ok(
                Pet {
                    owner: pet.owner.clone(),
                    name: pet.name.clone(),
                    pet_type: pet.pet_type,
                    stage: pet.stage,
                    last_watering_time: pet.last_watering_time,
                    last_feeding_time: pet.last_feeding_time,
                    birth_date: pet.birth_date,
                },
            ),
            None => Err(ContractError::NotFound),
        }
    }

    /// Overwrites the slot with `pet` unconditionally.
    pub fn save(&mut self, pet: Pet)
        ensures
            final(self)@ == Some(pet@),
    {
        self.pet = Some(pet);
    }

    /// Hands the slot's contents out, for a caller that persists them
    /// elsewhere.
    pub fn into_pet(self) -> (r: Option<Pet>)
        ensures
            match r {
                Some(p) => self@ == Some(p@),
                None => self@ is None,
            },
    {
        self.pet
    }
}

} // verus!
