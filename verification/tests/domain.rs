//! The use-case orchestrators, exercised against the in-memory backend.

use pokedex::domain::create_pokemon;
use pokedex::domain::delete_pokemon;
use pokedex::domain::fetch_all_pokemons;
use pokedex::domain::fetch_pokemon;
use pokedex::entities::{PokemonName, PokemonNumber, PokemonTypes};
use pokedex::in_memory::InMemoryRepository;
use pokedex::repository::Repository;

fn pikachu_number() -> PokemonNumber {
    PokemonNumber::try_from(25).unwrap()
}

fn pikachu_name() -> PokemonName {
    PokemonName::try_from("Pikachu".to_string()).unwrap()
}

fn pikachu_types() -> PokemonTypes {
    PokemonTypes::try_from(vec!["Electric".to_string()]).unwrap()
}

fn charmander_number() -> PokemonNumber {
    PokemonNumber::try_from(4).unwrap()
}

fn charmander_name() -> PokemonName {
    PokemonName::try_from("Charmander".to_string()).unwrap()
}

fn charmander_types() -> PokemonTypes {
    PokemonTypes::try_from(vec!["Fire".to_string()]).unwrap()
}

#[test]
fn create_pokemon_it_should_return_a_bad_request_error_when_request_is_invalid() {
    let mut repo = InMemoryRepository::new();
    let req = create_pokemon::Request {
        number: 25,
        name: String::new(),
        types: vec!["Electric".to_string()],
    };

    let res = create_pokemon::execute(&mut repo, req);

    match res {
        Err(create_pokemon::Error::BadRequest) => {}
        _ => unreachable!(),
    };
}

#[test]
fn it_should_return_a_conflict_error_when_pokemon_number_already_exists() {
    let mut repo = InMemoryRepository::new();
    repo.insert(pikachu_number(), pikachu_name(), pikachu_types()).ok();
    let req = create_pokemon::Request {
        number: 25,
        name: "Charmander".to_string(),
        types: vec!["Fire".to_string()],
    };

    let res = create_pokemon::execute(&mut repo, req);

    match res {
        Err(create_pokemon::Error::Conflict) => {}
        _ => unreachable!(),
    }
}

#[test]
fn create_pokemon_it_should_return_an_unknown_error_when_an_unexpected_error_happens() {
    let mut repo = InMemoryRepository::new().with_error();
    let req = create_pokemon::Request {
        number: 25,
        name: "Pikachu".to_string(),
        types: vec!["Electric".to_string()],
    };

    let res = create_pokemon::execute(&mut repo, req);

    match res {
        Err(create_pokemon::Error::Unknown) => {}
        _ => unreachable!(),
    };
}

#[test]
fn create_pokemon_it_should_return_the_pokemon_otherwise() {
    let mut repo = InMemoryRepository::new();
    let req = create_pokemon::Request {
        number: 25,
        name: "Pikachu".to_string(),
        types: vec!["Electric".to_string()],
    };

    let res = create_pokemon::execute(&mut repo, req);

    match res {
        Ok(res) => {
            assert_eq!(res.number, 25);
            assert_eq!(res.name, "Pikachu".to_string());
            assert_eq!(res.types, vec!["Electric".to_string()]);
        }
        _ => unreachable!(),
    };
}

#[test]
fn fetch_all_pokemons_it_should_return_an_unknown_error_when_an_unexpected_error_happens() {
    let repo = InMemoryRepository::new().with_error();

    let res = fetch_all_pokemons::execute(&repo);

    match res {
        Err(fetch_all_pokemons::Error::Unknown) => {}
        _ => unreachable!(),
    };
}

#[test]
fn it_should_return_all_the_pokemons_ordered_by_increasing_number_otherwise() {
    let mut repo = InMemoryRepository::new();
    repo.insert(pikachu_number(), pikachu_name(), pikachu_types()).ok();
    repo.insert(charmander_number(), charmander_name(), charmander_types()).ok();

    let res = fetch_all_pokemons::execute(&repo);

    match res {
        Ok(res) => {
            assert_eq!(res[0].number, 4);
            assert_eq!(res[0].name, "Charmander".to_string());
            assert_eq!(res[0].types, vec!["Fire".to_string()]);
            assert_eq!(res[1].number, 25);
            assert_eq!(res[1].name, "Pikachu".to_string());
            assert_eq!(res[1].types, vec!["Electric".to_string()]);
        }
        _ => unreachable!(),
    };
}

#[test]
fn fetch_pokemon_it_should_return_an_unknown_error_when_an_unexpected_error_happens() {
    let repo = InMemoryRepository::new().with_error();
    let req = fetch_pokemon::Request { number: 25 };

    let res = fetch_pokemon::execute(&repo, req);

    match res {
        Err(fetch_pokemon::Error::Unknown) => {}
        _ => unreachable!(),
    };
}

#[test]
fn fetch_pokemon_it_should_return_a_bad_request_error_when_request_is_invalid() {
    let repo = InMemoryRepository::new();
    let req = fetch_pokemon::Request { number: 0 };

    let res = fetch_pokemon::execute(&repo, req);

    match res {
        Err(fetch_pokemon::Error::BadRequest) => {}
        _ => unreachable!(),
    };
}

#[test]
fn it_should_return_a_not_found_error_when_the_repo_does_not_contain_the_pokemon() {
    let repo = InMemoryRepository::new();
    let req = fetch_pokemon::Request { number: 25 };

    let res = fetch_pokemon::execute(&repo, req);

    match res {
        Err(fetch_pokemon::Error::NotFound) => {}
        _ => unreachable!(),
    };
}

#[test]
fn delete_pokemon_it_should_return_a_bad_request_error_when_request_is_invalid() {
    let mut repo = InMemoryRepository::new();
    let req = delete_pokemon::Request { number: 0 };

    let res = delete_pokemon::execute(&mut repo, req);

    match res {
        Err(delete_pokemon::Error::BadRequest) => {}
        _ => unreachable!(),
    };
}

#[test]
fn delete_pokemon_it_should_return_a_not_found_error_when_the_pokemon_is_absent() {
    let mut repo = InMemoryRepository::new();
    let req = delete_pokemon::Request { number: 25 };

    let res = delete_pokemon::execute(&mut repo, req);

    match res {
        Err(delete_pokemon::Error::NotFound) => {}
        _ => unreachable!(),
    };
}

#[test]
fn delete_pokemon_it_should_return_an_unknown_error_when_an_unexpected_error_happens() {
    let mut repo = InMemoryRepository::new().with_error();
    let req = delete_pokemon::Request { number: 25 };

    let res = delete_pokemon::execute(&mut repo, req);

    match res {
        Err(delete_pokemon::Error::Unknown) => {}
        _ => unreachable!(),
    };
}

#[test]
fn delete_pokemon_it_should_remove_the_pokemon_otherwise() {
    let mut repo = InMemoryRepository::new();
    repo.insert(pikachu_number(), pikachu_name(), pikachu_types()).ok();
    let req = delete_pokemon::Request { number: 25 };

    let res = delete_pokemon::execute(&mut repo, req);

    assert!(res.is_ok());
    let fetch = fetch_pokemon::execute(&repo, fetch_pokemon::Request { number: 25 });
    match fetch {
        Err(fetch_pokemon::Error::NotFound) => {}
        _ => unreachable!(),
    };
}

#[test]
fn fetch_pokemon_it_should_return_the_pokemon_otherwise() {
    let mut repo = InMemoryRepository::new();
    repo.insert(pikachu_number(), pikachu_name(), pikachu_types()).ok();
    let req = fetch_pokemon::Request { number: 25 };

    let res = fetch_pokemon::execute(&repo, req);

    match res {
        Ok(res) => {
            assert_eq!(res.number, 25);
            assert_eq!(res.name, "Pikachu".to_string());
            assert_eq!(res.types, vec!["Electric".to_string()]);
        }
        _ => unreachable!(),
    };
}
