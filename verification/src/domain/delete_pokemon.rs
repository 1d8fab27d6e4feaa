//! Use case: remove a record by its raw number.

use vstd::prelude::*;
use crate::entities::{PokemonNumber, valid_number};
use crate::repository::{DeleteError, Repository, has_number};

verus! {

/// The raw removal request.
pub struct Request {
    pub number: u16,
}

/// The use-case errors: validation failed, the number is absent, or the
/// storage medium failed.
#[derive(Clone, Copy, PartialEq, Eq, Structural, Debug)]
pub enum Error {
    BadRequest,
    NotFound,
    Unknown,
}

/// Validates the number and deletes through the repository. Fails with
/// `BadRequest` exactly on an invalid number, without touching the
/// repository. Where the backend has a model, the outcome mirrors the
/// removal one to one: `NotFound` exactly when the number is absent, else
/// success with the number no longer occupied.
pub fn execute<R: Repository>(repo: &mut R, req: Request) -> (r: Result<(), Error>)
    requires
        old(repo).inv(),
    ensures
        final(repo).inv(),
        (r matches Err(e) && e == Error::BadRequest) <==> !valid_number(req.number),
        !valid_number(req.number) ==> *final(repo) == *old(repo),
        old(repo).model() matches Some(cat) ==> valid_number(req.number) ==> {
            &&& !has_number(cat, req.number) ==> r == Err::<(), Error>(Error::NotFound)
                && final(repo).model() == old(repo).model()
            &&& has_number(cat, req.number) ==> r == Ok::<(), Error>(())
                && (final(repo).model() matches Some(cat2) && !has_number(cat2, req.number))
        },
{
    let number = match PokemonNumber::try_from(req.number) {
        Ok(number) => number,
        Err(()) => {
            return Err(Error::BadRequest);
        },
    };
    match repo.delete(number) {
        Ok(()) => Ok(()),
        Err(DeleteError::NotFound) => Err(Error::NotFound),
        Err(DeleteError::Unknown) => Err(Error::Unknown),
    }
}

} // verus!
