//! The in-process backend: the reference implementation of the repository
//! contract, an ordered list of records with a full functional model, plus an
//! error-injection mode for failure-path testing.

use vstd::prelude::*;
use crate::entities::{Pokemon, PokemonName, PokemonNumber, PokemonTypes, RecordModel};
use crate::repository::{
    DeleteError, FetchAllError, FetchOneError, InsertError, Repository, has_number,
    sorted_by_number, sort_records, wf_catalog,
};

verus! {

/// A catalog held in an in-process list, in insertion order.
///
/// When `error_mode` is set, every operation fails with `Unknown` regardless
/// of input, which lets failure paths be exercised without a faulty medium.
pub struct InMemoryRepository {
    error: bool,
    pokemons: Vec<Pokemon>,
}

impl InMemoryRepository {
    /// The stored records, in insertion order.
    pub closed spec fn catalog(&self) -> Seq<RecordModel> {
        self.pokemons.deep_view()
    }

    /// Whether every operation is made to fail with `Unknown`.
    pub closed spec fn error_mode(&self) -> bool {
        self.error
    }

    /// The backend's invariant: valid records, one per number.
    pub open spec fn wf(&self) -> bool {
        wf_catalog(self.catalog())
    }

    /// An empty catalog with error injection off.
    pub fn new() -> (r: Self)
        ensures
            r.catalog() == Seq::<RecordModel>::empty(),
            !r.error_mode(),
            r.wf(),
    {
        let pokemons: Vec<Pokemon> = Vec::new();
        proof {
            assert(pokemons.deep_view() =~= Seq::<RecordModel>::empty());
        }
        InMemoryRepository { error: false, pokemons }
    }

    /// The same catalog with error injection switched on.
    pub fn with_error(self) -> (r: Self)
        ensures
            r.error_mode(),
            r.catalog() == self.catalog(),
            r.wf() == self.wf(),
    {
        InMemoryRepository { error: true, pokemons: self.pokemons }
    }
}

impl Repository for InMemoryRepository {
    open spec fn inv(&self) -> bool {
        self.wf()
    }

    open spec fn model(&self) -> Option<Seq<RecordModel>> {
        if self.error_mode() {
            None
        } else {
            Some(self.catalog())
        }
    }

    fn insert(&mut self, number: PokemonNumber, name: PokemonName, types: PokemonTypes) -> (r:
        Result<Pokemon, InsertError>)
        ensures
            final(self).error_mode() == old(self).error_mode(),
            old(self).error_mode() ==> r == Err::<Pokemon, InsertError>(InsertError::Unknown)
                && final(self).catalog() == old(self).catalog(),
            !old(self).error_mode() && has_number(old(self).catalog(), number@) ==> r == Err::<
                Pokemon,
                InsertError,
            >(InsertError::Conflict) && final(self).catalog() == old(self).catalog(),
            !old(self).error_mode() && !has_number(old(self).catalog(), number@) ==> (r matches Ok(p)
                && p@ == (RecordModel { number: number@, name: name@, types: types@ })
                && final(self).catalog() == old(self).catalog().push(
                (RecordModel { number: number@, name: name@, types: types@ }),
            )),
    {
        if self.error {
            return Err(InsertError::Unknown);
        }
        let n = number.value();
        let mut i: usize = 0;
        while i < self.pokemons.len()
            invariant
                i <= self.pokemons.len(),
                *self == *old(self),
                !self.error_mode(),
                self.wf(),
                n == number@,
                forall|k: int| 0 <= k < i ==> (#[trigger] self.catalog()[k]).number != n,
            decreases self.pokemons.len() - i,
        {
            if self.pokemons[i].number.value() == n {
                proof {
                    assert(self.catalog()[i as int].number == n);
                }
                return Err(InsertError::Conflict);
            }
            i = i + 1;
        }
        let pokemon = Pokemon::new(number, name, types);
        let ghost pre = self.catalog();
        self.pokemons.push(pokemon.clone());
        proof {
            let m = RecordModel { number: number@, name: name@, types: types@ };
            assert(self.catalog() =~= pre.push(m));
            assert(pokemon.wf());
            assert forall|a: int, b: int| 0 <= a < b < self.catalog().len() implies (
            #[trigger] self.catalog()[a]).number != (#[trigger] self.catalog()[b]).number by {
                if b < pre.len() {
                    assert(self.catalog()[a] == pre[a] && self.catalog()[b] == pre[b]);
                } else {
                    assert(self.catalog()[a] == pre[a] && self.catalog()[b] == m);
                }
            }
        }
        Ok(pokemon)
    }

    fn fetch_all(&self) -> (r: Result<Vec<Pokemon>, FetchAllError>)
        ensures
            self.error_mode() ==> r == Err::<Vec<Pokemon>, FetchAllError>(FetchAllError::Unknown),
            !self.error_mode() ==> (r matches Ok(v) && sorted_by_number(v.deep_view())
                && crate::repository::unique_numbers(v.deep_view())
                && v.deep_view().to_multiset() == self.catalog().to_multiset()),
    {
        if self.error {
            return Err(FetchAllError::Unknown);
        }
        let sorted = sort_records(&self.pokemons);
        proof {
            crate::repository::lemma_same_records_all_valid(self.catalog(), sorted.deep_view());
            crate::repository::lemma_same_records_unique_numbers(
                self.catalog(),
                sorted.deep_view(),
            );
        }
        Ok(sorted)
    }

    fn fetch_one(&self, number: PokemonNumber) -> (r: Result<Pokemon, FetchOneError>)
        ensures
            self.error_mode() ==> r == Err::<Pokemon, FetchOneError>(FetchOneError::Unknown),
            !self.error_mode() && has_number(self.catalog(), number@) ==> (r matches Ok(p)
                && self.catalog().contains(p@) && p@.number == number@),
            !self.error_mode() && !has_number(self.catalog(), number@) ==> r == Err::<
                Pokemon,
                FetchOneError,
            >(FetchOneError::NotFound),
    {
        if self.error {
            return Err(FetchOneError::Unknown);
        }
        let n = number.value();
        let mut i: usize = 0;
        while i < self.pokemons.len()
            invariant
                i <= self.pokemons.len(),
                !self.error_mode(),
                self.wf(),
                n == number@,
                forall|k: int| 0 <= k < i ==> (#[trigger] self.catalog()[k]).number != n,
            decreases self.pokemons.len() - i,
        {
            if self.pokemons[i].number.value() == n {
                let found = self.pokemons[i].clone();
                proof {
                    assert(found@ == self.catalog()[i as int]);
                    assert(self.catalog()[i as int].number == n);
                    assert(self.catalog().contains(found@));
                    assert(crate::entities::valid_record(self.catalog()[i as int]));
                }
                return Ok(found);
            }
            i = i + 1;
        }
        Err(FetchOneError::NotFound)
    }

    fn delete(&mut self, number: PokemonNumber) -> (r: Result<(), DeleteError>)
        ensures
            final(self).error_mode() == old(self).error_mode(),
            old(self).error_mode() ==> r == Err::<(), DeleteError>(DeleteError::Unknown)
                && final(self).catalog() == old(self).catalog(),
            !old(self).error_mode() && !has_number(old(self).catalog(), number@) ==> r == Err::<
                (),
                DeleteError,
            >(DeleteError::NotFound) && final(self).catalog() == old(self).catalog(),
            !old(self).error_mode() && has_number(old(self).catalog(), number@) ==> (r == Ok::<
                (),
                DeleteError,
            >(()) && !has_number(final(self).catalog(), number@) && exists|i: int|
                0 <= i < old(self).catalog().len() && (#[trigger] old(self).catalog()[i]).number
                    == number@ && final(self).catalog() == old(self).catalog().remove(i)),
    {
        if self.error {
            return Err(DeleteError::Unknown);
        }
        let n = number.value();
        let mut i: usize = 0;
        while i < self.pokemons.len()
            invariant
                i <= self.pokemons.len(),
                *self == *old(self),
                !self.error_mode(),
                n == number@,
                self.wf(),
                forall|k: int| 0 <= k < i ==> (#[trigger] self.catalog()[k]).number != n,
            decreases self.pokemons.len() - i,
        {
            if self.pokemons[i].number.value() == n {
                let ghost pre = self.catalog();
                let ghost idx = i as int;
                self.pokemons.remove(i);
                proof {
                    pre.remove_ensures(idx);
                    assert(self.catalog() =~= pre.remove(idx));
                    assert(pre[idx].number == n);
                    assert forall|k: int| 0 <= k < self.catalog().len() implies (
                    #[trigger] self.catalog()[k]).number != n by {
                        if k < idx {
                            assert(self.catalog()[k] == pre[k]);
                        } else {
                            assert(self.catalog()[k] == pre[k + 1]);
                        }
                    }
                    assert forall|a: int, b: int| 0 <= a < b < self.catalog().len() implies (
                    #[trigger] self.catalog()[a]).number != (#[trigger] self.catalog()[b]).number
                        by {
                        let a0: int = if a < idx { a } else { a + 1 };
                        let b0: int = if b < idx { b } else { b + 1 };
                        assert(self.catalog()[a] == pre[a0] && self.catalog()[b] == pre[b0]);
                    }
                    assert forall|k: int| 0 <= k < self.catalog().len() implies crate::entities::valid_record(
                        #[trigger] self.catalog()[k],
                    ) by {
                        let k0: int = if k < idx { k } else { k + 1 };
                        assert(self.catalog()[k] == pre[k0]);
                    }
                }
                return Ok(());
            }
            i = i + 1;
        }
        Err(DeleteError::NotFound)
    }
}

} // verus!
