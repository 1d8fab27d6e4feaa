//! The use-case orchestrators: the composition layer external collaborators
//! call into. Each use case validates raw primitive input, invokes the
//! matching repository operation, and maps backend errors one-to-one onto its
//! own error vocabulary.

pub mod create_pokemon;
pub mod delete_pokemon;
pub mod fetch_all_pokemons;
pub mod fetch_pokemon;
