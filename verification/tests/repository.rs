//! The repository contract, exercised on the in-memory backend, plus the
//! startup failure path of the relational one.

use pokedex::entities::{PokemonName, PokemonNumber, PokemonTypes};
use pokedex::in_memory::InMemoryRepository;
use pokedex::repository::{DeleteError, FetchOneError, InsertError, Repository};
use pokedex::sqlite::SqliteRepository;

fn number(n: u16) -> PokemonNumber {
    PokemonNumber::try_from(n).unwrap()
}

fn name(s: &str) -> PokemonName {
    PokemonName::try_from(s.to_string()).unwrap()
}

fn types(tags: &[&str]) -> PokemonTypes {
    PokemonTypes::try_from(tags.iter().map(|t| t.to_string()).collect()).unwrap()
}

#[test]
fn inserting_the_same_number_twice_yields_ok_then_conflict() {
    let mut repo = InMemoryRepository::new();
    let first = repo.insert(number(25), name("Pikachu"), types(&["Electric"]));
    assert!(first.is_ok());
    let second = repo.insert(number(25), name("Charmander"), types(&["Fire"]));
    assert!(matches!(second, Err(InsertError::Conflict)));
}

#[test]
fn fetching_an_absent_number_yields_not_found() {
    let repo = InMemoryRepository::new();
    let res = repo.fetch_one(number(25));
    assert!(matches!(res, Err(FetchOneError::NotFound)));
}

#[test]
fn deleting_an_absent_number_yields_not_found() {
    let mut repo = InMemoryRepository::new();
    let res = repo.delete(number(25));
    assert!(matches!(res, Err(DeleteError::NotFound)));
}

#[test]
fn fetch_all_comes_back_ordered_by_increasing_number() {
    let mut repo = InMemoryRepository::new();
    repo.insert(number(25), name("Pikachu"), types(&["Electric"])).ok();
    repo.insert(number(4), name("Charmander"), types(&["Fire"])).ok();
    let all = repo.fetch_all().unwrap();
    assert_eq!(all.len(), 2);
    assert_eq!(all[0].number.value(), 4);
    assert_eq!(all[1].number.value(), 25);
}

#[test]
fn a_record_lives_from_insert_to_delete() {
    let mut repo = InMemoryRepository::new();

    let created = repo.insert(number(25), name("Pikachu"), types(&["Electric"])).unwrap();
    assert_eq!(created.number.value(), 25);
    assert_eq!(created.name.value(), "Pikachu".to_string());
    assert_eq!(created.types.to_vec(), vec!["Electric".to_string()]);

    let conflict = repo.insert(number(25), name("Charmander"), types(&["Fire"]));
    assert!(matches!(conflict, Err(InsertError::Conflict)));

    let fetched = repo.fetch_one(number(25)).unwrap();
    assert_eq!(fetched.number.value(), 25);
    assert_eq!(fetched.name.value(), "Pikachu".to_string());
    assert_eq!(fetched.types.to_vec(), vec!["Electric".to_string()]);

    assert!(repo.delete(number(25)).is_ok());

    let gone = repo.fetch_one(number(25));
    assert!(matches!(gone, Err(FetchOneError::NotFound)));
}

#[test]
fn error_injection_makes_every_operation_fail_unknown() {
    let mut repo = InMemoryRepository::new().with_error();
    let inserted = repo.insert(number(25), name("Pikachu"), types(&["Electric"]));
    assert!(matches!(inserted, Err(InsertError::Unknown)));
    assert!(repo.fetch_all().is_err());
    assert!(matches!(repo.fetch_one(number(25)), Err(FetchOneError::Unknown)));
    assert!(matches!(repo.delete(number(25)), Err(DeleteError::Unknown)));
}

#[test]
fn a_missing_database_file_is_fatal_at_startup() {
    assert!(SqliteRepository::try_new("no_such_catalog.db").is_err());
}
