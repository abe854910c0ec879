use cw_pets::pet::{Pet, PetType, Stage};

fn species_at(height: u64) -> PetType {
    Pet::new("creator".to_string(), "peepo".to_string(), height, 0).pet_type
}

#[test]
fn species_cycles_through_the_fixed_list() {
    assert_eq!(PetType::Water, species_at(0));
    assert_eq!(PetType::Fire, species_at(1));
    assert_eq!(PetType::Grass, species_at(2));
    assert_eq!(PetType::Air, species_at(3));
    assert_eq!(PetType::Ground, species_at(4));
    assert_eq!(PetType::Space, species_at(5));
    assert_eq!(PetType::Water, species_at(6));
}

#[test]
fn species_at_height_12345_is_air() {
    // 12345 mod 6 == 3, the fourth entry of the species list.
    assert_eq!(PetType::Air, species_at(12_345));
}

#[test]
fn species_depends_on_height_alone() {
    let a = Pet::new("creator".to_string(), "peepo".to_string(), 777, 1);
    let b = Pet::new("someone".to_string(), "gonzo".to_string(), 777, 999);
    assert_eq!(a.pet_type, b.pet_type);
}

#[test]
fn new_pet_fields() {
    let pet = Pet::new("creator".to_string(), "peepo".to_string(), 4, 42);
    assert_eq!("creator", pet.owner);
    assert_eq!("peepo", pet.name);
    assert_eq!(PetType::Ground, pet.pet_type);
    assert_eq!(Stage::Egg, pet.stage);
    assert_eq!(42, pet.birth_date);
    assert_eq!(42, pet.last_watering_time);
    assert_eq!(42, pet.last_feeding_time);
}

#[test]
fn water_and_feed_touch_one_field_each() {
    let mut pet = Pet::new("creator".to_string(), "peepo".to_string(), 0, 10);
    pet.water(20);
    assert_eq!(20, pet.last_watering_time);
    assert_eq!(10, pet.last_feeding_time);
    assert_eq!(10, pet.birth_date);
    pet.feed(30);
    assert_eq!(20, pet.last_watering_time);
    assert_eq!(30, pet.last_feeding_time);
    assert_eq!(10, pet.birth_date);
    assert_eq!("creator", pet.owner);
    assert_eq!("peepo", pet.name);
    assert_eq!(PetType::Water, pet.pet_type);
    assert_eq!(Stage::Egg, pet.stage);
}
