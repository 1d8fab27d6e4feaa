//! Use case: create a record from raw primitive input.

use vstd::prelude::*;
use crate::entities::{
    PokemonName, PokemonNumber, PokemonTypes, RecordModel, valid_name, valid_number, valid_tags,
};
use crate::repository::{InsertError, Repository, has_number};

verus! {

/// The raw creation request, in primitive form.
pub struct Request {
    pub number: u16,
    pub name: String,
    pub types: Vec<String>,
}

/// The created record, back in primitive form.
pub struct Response {
    pub number: u16,
    pub name: String,
    pub types: Vec<String>,
}

/// The use-case errors: validation failed, the number is occupied, or the
/// storage medium failed.
#[derive(Clone, Copy, PartialEq, Eq, Structural, Debug)]
pub enum Error {
    BadRequest,
    Conflict,
    Unknown,
}

/// Whether a creation request passes value-object validation.
pub open spec fn valid_request(req: Request) -> bool {
    valid_number(req.number) && valid_name(req.name@) && valid_tags(req.types.deep_view())
}

/// Validates the request, inserts through the repository, and maps the
/// outcome back to primitives. Fails with `BadRequest` exactly on invalid
/// input, without touching the repository; on success the response echoes
/// the request. Where the backend has a model, the outcome mirrors the
/// repository operation one to one: `Conflict` exactly when the number is
/// occupied, else success with the record appended.
pub fn execute<R: Repository>(repo: &mut R, req: Request) -> (r: Result<Response, Error>)
    requires
        old(repo).inv(),
    ensures
        final(repo).inv(),
        (r matches Err(e) && e == Error::BadRequest) <==> !valid_request(req),
        !valid_request(req) ==> *final(repo) == *old(repo),
        r matches Ok(res) ==> res.number == req.number && res.name@ == req.name@
            && res.types.deep_view() == req.types.deep_view(),
        old(repo).model() matches Some(cat) ==> valid_request(req) ==> {
            &&& has_number(cat, req.number) ==> r == Err::<Response, Error>(Error::Conflict)
                && final(repo).model() == old(repo).model()
            &&& !has_number(cat, req.number) ==> r is Ok && final(repo).model() == Some(
                cat.push(
                    (RecordModel { number: req.number, name: req.name@, types: req.types.deep_view() }),
                ),
            )
        },
{
    let number = match PokemonNumber::try_from(req.number) {
        Ok(number) => number,
        Err(()) => {
            return Err(Error::BadRequest);
        },
    };
    let name = match PokemonName::try_from(req.name) {
        Ok(name) => name,
        Err(()) => {
            return Err(Error::BadRequest);
        },
    };
    let types = match PokemonTypes::try_from(req.types) {
        Ok(types) => types,
        Err(()) => {
            return Err(Error::BadRequest);
        },
    };
    match repo.insert(number, name, types) {
        Ok(p) => Ok(
            Response { number: p.number.value(), name: p.name.value(), types: p.types.to_vec() },
        ),
        Err(InsertError::Conflict) => Err(Error::Conflict),
        Err(InsertError::Unknown) => Err(Error::Unknown),
    }
}

} // verus!
