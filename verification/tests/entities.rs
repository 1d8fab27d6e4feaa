//! The value-object validation gates and their lossless round trips.

use pokedex::entities::{PokemonName, PokemonNumber, PokemonType, PokemonTypes};

#[test]
fn a_valid_number_round_trips_exactly() {
    let number = PokemonNumber::try_from(25).unwrap();
    assert_eq!(number.value(), 25);
    let largest = PokemonNumber::try_from(u16::MAX).unwrap();
    assert_eq!(largest.value(), u16::MAX);
    let smallest = PokemonNumber::try_from(1).unwrap();
    assert_eq!(smallest.value(), 1);
}

#[test]
fn the_reserved_number_is_invalid() {
    assert!(PokemonNumber::try_from(0).is_err());
}

#[test]
fn a_valid_name_round_trips_exactly() {
    let name = PokemonName::try_from("Pikachu".to_string()).unwrap();
    assert_eq!(name.value(), "Pikachu".to_string());
    let spaces = PokemonName::try_from("  ".to_string()).unwrap();
    assert_eq!(spaces.value(), "  ".to_string());
}

#[test]
fn an_empty_name_is_invalid() {
    assert!(PokemonName::try_from(String::new()).is_err());
}

#[test]
fn a_valid_tag_list_round_trips_exactly() {
    let types = PokemonTypes::try_from(vec!["Electric".to_string(), "Fire".to_string()]).unwrap();
    assert_eq!(types.to_vec(), vec!["Electric".to_string(), "Fire".to_string()]);
}

#[test]
fn duplicate_tags_are_kept_as_given() {
    let types =
        PokemonTypes::try_from(vec!["Electric".to_string(), "Electric".to_string()]).unwrap();
    assert_eq!(types.to_vec(), vec!["Electric".to_string(), "Electric".to_string()]);
}

#[test]
fn an_empty_tag_list_is_invalid() {
    assert!(PokemonTypes::try_from(Vec::new()).is_err());
}

#[test]
fn a_tag_outside_the_vocabulary_is_invalid() {
    assert!(PokemonTypes::try_from(vec!["Water".to_string()]).is_err());
    assert!(PokemonTypes::try_from(vec!["Electric".to_string(), "Water".to_string()]).is_err());
    assert!(PokemonType::try_from(&"electric".to_string()).is_err());
}

#[test]
fn a_single_tag_round_trips_exactly() {
    let tag = PokemonType::try_from(&"Fire".to_string()).unwrap();
    assert_eq!(tag.as_string(), "Fire".to_string());
}
