//! Use case: look one record up by its raw number.

use vstd::prelude::*;
use crate::entities::{PokemonNumber, RecordModel, valid_name, valid_number, valid_tags};
use crate::repository::{FetchOneError, Repository, has_number};

verus! {

/// The raw lookup request.
pub struct Request {
    pub number: u16,
}

/// The fetched record, back in primitive form.
pub struct Response {
    pub number: u16,
    pub name: String,
    pub types: Vec<String>,
}

/// The use-case errors: validation failed, the number is absent, or the
/// storage medium failed.
#[derive(Clone, Copy, PartialEq, Eq, Structural, Debug)]
pub enum Error {
    BadRequest,
    NotFound,
    Unknown,
}

/// Validates the number, fetches through the repository, and maps the
/// outcome back to primitives. Fails with `BadRequest` exactly on an invalid
/// number; a successful response carries the requested number and valid
/// parts. Where the backend has a model, the outcome mirrors the lookup one
/// to one: `NotFound` exactly when the number is absent, else a response
/// whose fields are a stored record's own.
pub fn execute<R: Repository>(repo: &R, req: Request) -> (r: Result<Response, Error>)
    requires
        repo.inv(),
    ensures
        (r matches Err(e) && e == Error::BadRequest) <==> !valid_number(req.number),
        r matches Ok(res) ==> res.number == req.number && valid_name(res.name@) && valid_tags(
            res.types.deep_view(),
        ),
        repo.model() matches Some(cat) ==> valid_number(req.number) ==> {
            &&& !has_number(cat, req.number) ==> r == Err::<Response, Error>(Error::NotFound)
            &&& has_number(cat, req.number) ==> (r matches Ok(res) && cat.contains(
                (RecordModel { number: req.number, name: res.name@, types: res.types.deep_view() }),
            ))
        },
{
    let number = match PokemonNumber::try_from(req.number) {
        Ok(number) => number,
        Err(()) => {
            return Err(Error::BadRequest);
        },
    };
    match repo.fetch_one(number) {
        Ok(p) => Ok(
            Response { number: p.number.value(), name: p.name.value(), types: p.types.to_vec() },
        ),
        Err(FetchOneError::NotFound) => Err(Error::NotFound),
        Err(FetchOneError::Unknown) => Err(Error::Unknown),
    }
}

} // verus!
