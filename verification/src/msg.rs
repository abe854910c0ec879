use vstd::prelude::*;

use crate::pet::{PetType, Stage};

verus! {

/// The creation request: the display name of the pet to create.
#[derive(Debug, PartialEq, Eq)]
pub struct InstantiateMsg {
    pub name: String,
}

/// A mutating action request, dispatched by [`crate::contract::execute`].
#[derive(Debug, PartialEq, Eq)]
pub enum ExecuteMsg {
    GiveWater {},
    Feed {},
}

/// A read-only request, dispatched by [`crate::contract::query`].
#[derive(Debug, PartialEq, Eq)]
pub enum QueryMsg {
    GetPetStatus {},
}

/// The projection of the stored record that queries return. It is publicly
/// readable: no authorization guards it, and building it mutates nothing.
#[derive(Debug, PartialEq, Eq)]
pub struct PetResponse {
    pub name: String,
    pub pet_type: PetType,
    pub stage: Stage,
    pub last_watering_time: u64,
    pub last_feeding_time: u64,
    pub birth_date: u64,
}

} // verus!
