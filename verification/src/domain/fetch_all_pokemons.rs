//! Use case: list the whole catalog.

use vstd::prelude::*;
use vstd::seq_lib::group_to_multiset_ensures;
use crate::entities::{RecordModel, valid_name, valid_number, valid_tags};
use crate::repository::{FetchAllError, Repository, all_valid, sorted_by_number};

verus! {

/// One listed record, in primitive form.
pub struct Response {
    pub number: u16,
    pub name: String,
    pub types: Vec<String>,
}

/// The use-case errors: only a storage-medium failure.
#[derive(Clone, Copy, PartialEq, Eq, Structural, Debug)]
pub enum Error {
    Unknown,
}

/// The primitive parts a response carries, as a record model.
pub open spec fn response_model(res: Response) -> RecordModel {
    RecordModel { number: res.number, name: res.name@, types: res.types.deep_view() }
}

/// Fetches the catalog through the repository and maps each record back to
/// primitives, element for element, in order. A successful listing is
/// ordered by increasing number and every entry carries valid parts. Where
/// the backend has a model, the listing succeeds and is exactly the catalog:
/// one entry per stored record, strictly ascending.
pub fn execute<R: Repository>(repo: &R) -> (r: Result<Vec<Response>, Error>)
    requires
        repo.inv(),
    ensures
        r matches Ok(v) ==> forall|a: int, b: int|
            0 <= a < b < v@.len() ==> (#[trigger] v@[a]).number <= (#[trigger] v@[b]).number,
        r matches Ok(v) ==> forall|a: int|
            0 <= a < v@.len() ==> valid_number((#[trigger] v@[a]).number) && valid_name(
                v@[a].name@,
            ) && valid_tags(v@[a].types.deep_view()),
        repo.model() matches Some(cat) ==> (r matches Ok(v) && v@.len() == cat.len() && (forall|
            a: int,
            b: int,
        |
            0 <= a < b < v@.len() ==> (#[trigger] v@[a]).number < (#[trigger] v@[b]).number) && (
        forall|i: int|
            0 <= i < v@.len() ==> cat.contains(response_model(#[trigger] v@[i])))),
{
    match repo.fetch_all() {
        Ok(pokemons) => {
            let mut out: Vec<Response> = Vec::new();
            let mut i: usize = 0;
            while i < pokemons.len()
                invariant
                    i <= pokemons.len(),
                    out@.len() == i,
                    sorted_by_number(pokemons.deep_view()),
                    all_valid(pokemons.deep_view()),
                    forall|k: int| 0 <= k < i ==> response_model(#[trigger] out@[k])
                        == pokemons.deep_view()[k],
                decreases pokemons.len() - i,
            {
                let p = &pokemons[i];
                proof {
                    assert(crate::entities::valid_record(pokemons.deep_view()[i as int]));
                }
                out.push(
                    Response {
                        number: p.number.value(),
                        name: p.name.value(),
                        types: p.types.to_vec(),
                    },
                );
                i = i + 1;
            }
            proof {
                broadcast use group_to_multiset_ensures;

                assert forall|a: int| 0 <= a < out@.len() implies valid_number(
                    (#[trigger] out@[a]).number,
                ) && valid_name(out@[a].name@) && valid_tags(out@[a].types.deep_view()) by {
                    assert(response_model(out@[a]) == pokemons.deep_view()[a]);
                    assert(crate::entities::valid_record(pokemons.deep_view()[a]));
                }
                if let Some(cat) = repo.model() {
                    assert(pokemons.deep_view().to_multiset() == cat.to_multiset());
                    vstd::seq_lib::to_multiset_len::<RecordModel>(pokemons.deep_view());
                    vstd::seq_lib::to_multiset_len::<RecordModel>(cat);
                    assert(out@.len() == cat.len());
                    assert forall|a: int, b: int| 0 <= a < b < out@.len() implies (
                    #[trigger] out@[a]).number < (#[trigger] out@[b]).number by {
                        assert(response_model(out@[a]) == pokemons.deep_view()[a]);
                        assert(response_model(out@[b]) == pokemons.deep_view()[b]);
                        assert(pokemons.deep_view()[a].number <= pokemons.deep_view()[b].number);
                        assert(pokemons.deep_view()[a].number != pokemons.deep_view()[b].number);
                    }
                    assert forall|k: int| 0 <= k < out@.len() implies cat.contains(response_model(
                        #[trigger] out@[k],
                    )) by {
                        let m = pokemons.deep_view()[k];
                        assert(response_model(out@[k]) == m);
                        assert(pokemons.deep_view().contains(m));
                        assert(cat.to_multiset().count(m) > 0);
                        assert(cat.contains(m));
                    }
                }
            }
            Ok(out)
        },
        Err(FetchAllError::Unknown) => Err(Error::Unknown),
    }
}

} // verus!
