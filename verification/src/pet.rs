use vstd::prelude::*;

verus! {

/// The six fixed species a pet can be assigned at creation. The assignment
/// is permanent: no function of this crate changes a pet's species.
#[derive(Clone, Copy, Debug, PartialEq, Eq)]
pub enum PetType {
    Water,
    Fire,
    Grass,
    Air,
    Ground,
    Space,
}

/// The lifecycle phase of a pet. Every pet starts as an `Egg`; transitions
/// to later stages are an extension point that this core leaves empty.
#[derive(Clone, Copy, Debug, PartialEq, Eq)]
pub enum Stage {
    Egg,
    Baby,
    Adult,
}

/// The singleton persisted record. Timestamps are block times in
/// nanoseconds; the owner is the address string of the creating account.
#[derive(Debug, PartialEq, Eq)]
pub struct Pet {
    pub owner: String,
    pub name: String,
    pub pet_type: PetType,
    pub stage: Stage,
    pub last_watering_time: u64,
    pub last_feeding_time: u64,
    pub birth_date: u64,
}

/// The mathematical model of a [`Pet`]: the same fields with strings taken
/// as character sequences.
pub ghost struct PetView {
    pub owner: Seq<char>,
    pub name: Seq<char>,
    pub pet_type: PetType,
    pub stage: Stage,
    pub last_watering_time: u64,
    pub last_feeding_time: u64,
    pub birth_date: u64,
}

impl View for Pet {
    type V = PetView;

    open spec fn view(&self) -> PetView {
        PetView {
            owner: self.owner@,
            name: self.name@,
            pet_type: self.pet_type,
            stage: self.stage,
            last_watering_time: self.last_watering_time,
            last_feeding_time: self.last_feeding_time,
            birth_date: self.birth_date,
        }
    }
}

impl PetView {
    /// Both care timestamps date from the pet's creation or later.
    pub open spec fn wf(self) -> bool {
        self.birth_date <= self.last_watering_time && self.birth_date
            <= self.last_feeding_time
    }
}

/// The fixed ordered list of species from which creation draws.
pub open spec fn species_list() -> Seq<PetType> {
    seq![
        PetType::Water,
        PetType::Fire,
        PetType::Grass,
        PetType::Air,
        PetType::Ground,
        PetType::Space,
    ]
}

/// The species assigned to a pet created at block height `height`: the
/// entry of [`species_list`] at index `height` modulo the list's length.
/// Block height is the only input, so replaying the creation on any party
/// derives the same species.
pub open spec fn spec_species(height: u64) -> PetType {
    species_list()[height as int % species_list().len() as int]
}

/// The record built by [`Pet::new`]: stage `Egg`, species derived from the
/// creation height, and all three timestamps equal to the creation time.
pub open spec fn spec_new(owner: Seq<char>, name: Seq<char>, height: u64, time: u64) -> PetView {
    PetView {
        owner: owner,
        name: name,
        pet_type: spec_species(height),
        stage: Stage::Egg,
        last_watering_time: time,
        last_feeding_time: time,
        birth_date: time,
    }
}

impl Pet {
    /// Builds the record for a pet created by `owner` at block height
    /// `height` and block time `now`. Immediately after creation the birth
    /// date and both care timestamps coincide.
    pub fn new(owner: String, name: String, height: u64, now: u64) -> (pet: Pet)
        ensures
            pet@ == spec_new(owner@, name@, height, now),
            pet@.wf(),
    {
        let options = [
            PetType::Water,
            PetType::Fire,
            PetType::Grass,
            PetType::Air,
            PetType::Ground,
            PetType::Space,
        ];
        let idx: usize = (height % 6) as usize;
        assert(options@ =~= species_list());
        Pet {
            owner,
            name,
            pet_type: options[idx],
            stage: Stage::Egg,
            last_watering_time: now,
            last_feeding_time: now,
            birth_date: now,
        }
    }

    /// Records a watering at block time `now`; every other field is kept.
    pub fn water(&mut self, now: u64)
        ensures
            final(self)@ == (PetView { last_watering_time: now, ..old(self)@ }),
    {
        self.last_watering_time = now;
    }

    /// Records a feeding at block time `now`; every other field is kept.
    pub fn feed(&mut self, now: u64)
        ensures
            final(self)@ == (PetView { last_feeding_time: now, ..old(self)@ }),
    {
        self.last_feeding_time = now;
    }
}

/// Species derivation is a pure function of the creation height: two
/// creations at the same height, whatever their owner, name or time,
/// always derive the same species.
pub proof fn lemma_species_deterministic(
    owner1: Seq<char>,
    name1: Seq<char>,
    time1: u64,
    owner2: Seq<char>,
    name2: Seq<char>,
    time2: u64,
    height: u64,
)
    ensures
        spec_new(owner1, name1, height, time1).pet_type == spec_new(
            owner2,
            name2,
            height,
            time2,
        ).pet_type,
{
}

} // verus!
