//! The repository contract: the capability set every storage backend offers,
//! its error vocabulary, and the catalog-level specifications shared by the
//! backends.

use vstd::prelude::*;
use vstd::seq_lib::group_to_multiset_ensures;
use crate::entities::{Pokemon, PokemonName, PokemonNumber, PokemonTypes, RecordModel, valid_record};

verus! {

/// Failure modes of `insert`: the number is already occupied, or the storage
/// medium itself failed.
#[derive(Clone, Copy, PartialEq, Eq, Structural, Debug)]
pub enum InsertError {
    Conflict,
    Unknown,
}

/// Failure modes of `fetch_all`: only a medium-level failure.
#[derive(Clone, Copy, PartialEq, Eq, Structural, Debug)]
pub enum FetchAllError {
    Unknown,
}

/// Failure modes of `fetch_one`: the number is absent, or the medium failed.
#[derive(Clone, Copy, PartialEq, Eq, Structural, Debug)]
pub enum FetchOneError {
    NotFound,
    Unknown,
}

/// Failure modes of `delete`: the number is absent, or the medium failed.
#[derive(Clone, Copy, PartialEq, Eq, Structural, Debug)]
pub enum DeleteError {
    NotFound,
    Unknown,
}

/// Whether some record of the catalog carries the given number.
pub open spec fn has_number(s: Seq<RecordModel>, n: u16) -> bool {
    exists|i: int| 0 <= i < s.len() && (#[trigger] s[i]).number == n
}

/// No two records of the catalog share a number.
pub open spec fn unique_numbers(s: Seq<RecordModel>) -> bool {
    forall|i: int, j: int|
        0 <= i < j < s.len() ==> (#[trigger] s[i]).number != (#[trigger] s[j]).number
}

/// Every record of the catalog is valid.
pub open spec fn all_valid(s: Seq<RecordModel>) -> bool {
    forall|i: int| 0 <= i < s.len() ==> valid_record(#[trigger] s[i])
}

/// The records appear in ascending order of their numbers.
pub open spec fn sorted_by_number(s: Seq<RecordModel>) -> bool {
    forall|i: int, j: int|
        0 <= i < j < s.len() ==> (#[trigger] s[i]).number <= (#[trigger] s[j]).number
}

/// The invariant of a whole catalog: valid records, one per number.
pub open spec fn wf_catalog(s: Seq<RecordModel>) -> bool {
    unique_numbers(s) && all_valid(s)
}

/// The capability set of a storage backend. Callers reach storage only
/// through these four operations; each backend normalizes its own failure
/// modes to the shared error vocabulary and never panics on them.
///
/// The contract promises what holds of every backend, whatever its medium
/// does: results are made of validated parts, a fetched record carries the
/// requested number, and a listing comes back ordered. Each backend's own
/// implementation may promise more.
pub trait Repository: Sized {
    /// The backend's internal invariant.
    spec fn inv(&self) -> bool;

    /// The catalog a backend exposes to reasoning, where it has one. The
    /// in-process backend models its whole state; a backend whose state
    /// lives outside the process — or one injected with failures — has no
    /// model, and the contract promises nothing beyond the common clauses.
    spec fn model(&self) -> Option<Seq<RecordModel>>;

    /// Stores a record built from the given validated parts under its
    /// number, failing with `Conflict` when the number is occupied.
    fn insert(&mut self, number: PokemonNumber, name: PokemonName, types: PokemonTypes) -> (r:
        Result<Pokemon, InsertError>)
        requires
            old(self).inv(),
            number.wf(),
            name.wf(),
            types.wf(),
        ensures
            final(self).inv(),
            r matches Ok(p) ==> p@ == (RecordModel { number: number@, name: name@, types: types@ })
                && p.wf(),
            old(self).model() matches Some(cat) ==> {
                &&& has_number(cat, number@) ==> r == Err::<Pokemon, InsertError>(
                    InsertError::Conflict,
                ) && final(self).model() == old(self).model()
                &&& !has_number(cat, number@) ==> r is Ok && final(self).model() == Some(
                    cat.push((RecordModel { number: number@, name: name@, types: types@ })),
                )
            },
    ;

    /// Lists the whole catalog, sorted ascending by number regardless of the
    /// backend's storage order, one record per number.
    fn fetch_all(&self) -> (r: Result<Vec<Pokemon>, FetchAllError>)
        requires
            self.inv(),
        ensures
            r matches Ok(v) ==> sorted_by_number(v.deep_view()) && unique_numbers(v.deep_view())
                && all_valid(v.deep_view()),
            self.model() matches Some(cat) ==> (r matches Ok(v) && v.deep_view().to_multiset()
                == cat.to_multiset()),
    ;

    /// Looks one record up by its number.
    fn fetch_one(&self, number: PokemonNumber) -> (r: Result<Pokemon, FetchOneError>)
        requires
            self.inv(),
            number.wf(),
        ensures
            r matches Ok(p) ==> p@.number == number@ && valid_record(p@),
            self.model() matches Some(cat) ==> {
                &&& has_number(cat, number@) ==> (r matches Ok(p) && cat.contains(p@))
                &&& !has_number(cat, number@) ==> r == Err::<Pokemon, FetchOneError>(
                    FetchOneError::NotFound,
                )
            },
    ;

    /// Removes the record carrying the given number.
    fn delete(&mut self, number: PokemonNumber) -> (r: Result<(), DeleteError>)
        requires
            old(self).inv(),
            number.wf(),
        ensures
            final(self).inv(),
            old(self).model() matches Some(cat) ==> {
                &&& !has_number(cat, number@) ==> r == Err::<(), DeleteError>(DeleteError::NotFound)
                    && final(self).model() == old(self).model()
                &&& has_number(cat, number@) ==> r == Ok::<(), DeleteError>(())
                    && (final(self).model() matches Some(cat2) && !has_number(cat2, number@)
                    && exists|i: int|
                    0 <= i < cat.len() && (#[trigger] cat[i]).number == number@ && cat2
                        == cat.remove(i))
            },
    ;
}

/// Inserting the same number twice yields a success and then a conflict:
/// once a record with a number stands in the catalog — in particular right
/// after a successful insert, which appends it — that number is occupied,
/// and `insert`'s contract answers any further insert of it with `Conflict`.
pub proof fn lemma_reinsert_conflicts(s: Seq<RecordModel>, m: RecordModel)
    requires
        !has_number(s, m.number),
    ensures
        has_number(s.push(m), m.number),
{
    assert(s.push(m)[s.len() as int] == m);
}

/// Assembles one raw storage row back into a record, re-validating every
/// part. A backend's read path goes through this gate so that corrupt stored
/// data surfaces as a failure instead of an invalid record.
pub fn record_from_parts(number: u16, name: String, tags: Vec<String>) -> (r: Option<Pokemon>)
    ensures
        r is Some <==> valid_record(
            RecordModel { number: number, name: name@, types: tags.deep_view() },
        ),
        r matches Some(p) ==> p@ == (RecordModel {
            number: number,
            name: name@,
            types: tags.deep_view(),
        }) && p.wf(),
{
    let n = match crate::entities::PokemonNumber::try_from(number) {
        Ok(n) => n,
        Err(()) => {
            return None;
        },
    };
    let nm = match crate::entities::PokemonName::try_from(name) {
        Ok(nm) => nm,
        Err(()) => {
            return None;
        },
    };
    let ts = match crate::entities::PokemonTypes::try_from(tags) {
        Ok(ts) => ts,
        Err(()) => {
            return None;
        },
    };
    Some(Pokemon::new(n, nm, ts))
}

/// Two catalogs holding the same records (as a multiset) are valid together:
/// reordering a listing cannot invalidate any record.
pub proof fn lemma_same_records_all_valid(a: Seq<RecordModel>, b: Seq<RecordModel>)
    requires
        a.to_multiset() == b.to_multiset(),
        all_valid(a),
    ensures
        all_valid(b),
{
    broadcast use group_to_multiset_ensures;

    assert forall|i: int| 0 <= i < b.len() implies valid_record(#[trigger] b[i]) by {
        let x = b[i];
        assert(b.contains(x));
        assert(a.to_multiset().count(x) > 0);
        assert(a.contains(x));
        let j = choose|j: int| 0 <= j < a.len() && a[j] == x;
        assert(valid_record(a[j]));
    }
}

/// Two catalogs holding the same records keep one record per number
/// together: reordering a listing cannot introduce a duplicate number.
pub proof fn lemma_same_records_unique_numbers(a: Seq<RecordModel>, b: Seq<RecordModel>)
    requires
        a.to_multiset() == b.to_multiset(),
        unique_numbers(a),
    ensures
        unique_numbers(b),
{
    broadcast use group_to_multiset_ensures;

    assert(a.no_duplicates()) by {
        assert forall|i: int, j: int| 0 <= i < a.len() && 0 <= j < a.len() && i != j implies a[i]
            != a[j] by {
            if i < j {
                assert(a[i].number != a[j].number);
            } else {
                assert(a[j].number != a[i].number);
            }
        }
    }
    a.lemma_multiset_has_no_duplicates();
    assert forall|i: int, j: int| 0 <= i < j < b.len() implies (#[trigger] b[i]).number != (
    #[trigger] b[j]).number by {
        assert(b.contains(b[i]) && b.contains(b[j]));
        assert(a.to_multiset().count(b[i]) > 0 && a.to_multiset().count(b[j]) > 0);
        assert(a.contains(b[i]) && a.contains(b[j]));
        if b[i] == b[j] {
            b.to_multiset_ensures();
            assert(b.remove(j).to_multiset() =~= b.to_multiset().remove(b[j]));
            assert(b.remove(j)[i] == b[i]);
            assert(b.remove(j).contains(b[i]));
            assert(b.to_multiset().remove(b[j]).count(b[i]) > 0);
            assert(a.to_multiset().count(b[i]) >= 2);
            assert(false);
        } else {
            let k = choose|k: int| 0 <= k < a.len() && a[k] == b[i];
            let l = choose|l: int| 0 <= l < a.len() && a[l] == b[j];
            assert(k != l);
            if k < l {
                assert(a[k].number != a[l].number);
            } else {
                assert(a[l].number != a[k].number);
            }
        }
    }
}

/// Decides whether an already-sorted listing holds one record per number,
/// by comparing neighbours. A backend's read path runs this after sorting so
/// that a store answering with duplicate numbers surfaces as a failure.
pub fn has_unique_numbers(v: &Vec<Pokemon>) -> (r: bool)
    requires
        sorted_by_number(v.deep_view()),
    ensures
        r <==> unique_numbers(v.deep_view()),
{
    if v.len() <= 1 {
        return true;
    }
    let mut i: usize = 1;
    while i < v.len()
        invariant
            1 <= i <= v@.len(),
            sorted_by_number(v.deep_view()),
            forall|k: int| 0 < k < i ==> (#[trigger] v.deep_view()[k - 1]).number
                < v.deep_view()[k].number,
        decreases v.len() - i,
    {
        if v[i - 1].number.value() == v[i].number.value() {
            proof {
                assert(v.deep_view()[i - 1].number == v.deep_view()[i as int].number);
            }
            return false;
        }
        proof {
            assert(v.deep_view()[i - 1].number <= v.deep_view()[i as int].number);
        }
        i = i + 1;
    }
    proof {
        let s = v.deep_view();
        assert forall|a: int, b: int| 0 <= a < b < s.len() implies (#[trigger] s[a]).number != (
        #[trigger] s[b]).number by {
            assert(s[b - 1].number < s[b].number);
            assert(s[a].number <= s[b - 1].number);
        }
    }
    true
}

/// Reorders a list of records ascending by number. The result holds exactly
/// the given records; ties keep their relative order unspecified beyond the
/// multiset equality.
pub fn sort_records(v: &Vec<Pokemon>) -> (r: Vec<Pokemon>)
    ensures
        sorted_by_number(r.deep_view()),
        r.deep_view().to_multiset() == v.deep_view().to_multiset(),
{
    broadcast use group_to_multiset_ensures;

    let mut out: Vec<Pokemon> = Vec::new();
    let mut i: usize = 0;
    while i < v.len()
        invariant
            i <= v.len(),
            sorted_by_number(out.deep_view()),
            out.deep_view().to_multiset() == v.deep_view().take(i as int).to_multiset(),
        decreases v.len() - i,
    {
        let x = v[i].clone();
        let xn = x.number.value();
        let ghost pre = out.deep_view();
        let mut lo: usize = 0;
        loop
            invariant_except_break
                lo <= out.len(),
                out.deep_view() == pre,
                forall|k: int| 0 <= k < lo ==> (#[trigger] pre[k]).number <= xn,
            ensures
                lo <= out.len(),
                out.deep_view() == pre,
                forall|k: int| 0 <= k < lo ==> (#[trigger] pre[k]).number <= xn,
                lo < pre.len() ==> pre[lo as int].number > xn,
            decreases out.len() - lo,
        {
            if lo >= out.len() {
                break;
            }
            if out[lo].number.value() > xn {
                break;
            }
            lo = lo + 1;
        }
        out.insert(lo, x);
        proof {
            let s2 = out.deep_view();
            pre.insert_ensures(lo as int, x@);
            assert(s2 =~= pre.insert(lo as int, x@));
            vstd::seq_lib::to_multiset_insert::<RecordModel>(pre, lo as int, x@);
            assert(v.deep_view().take(i + 1) =~= v.deep_view().take(i as int).push(
                v.deep_view()[i as int],
            ));
            vstd::seq_lib::to_multiset_build::<RecordModel>(
                v.deep_view().take(i as int),
                v.deep_view()[i as int],
            );
            assert(x@ == v.deep_view()[i as int]);
            assert(s2.to_multiset() == v.deep_view().take(i + 1).to_multiset());
            assert forall|a: int, b: int| 0 <= a < b < s2.len() implies (#[trigger] s2[a]).number
                <= (#[trigger] s2[b]).number by {
                if b < lo {
                    assert(s2[a] == pre[a] && s2[b] == pre[b]);
                } else if a == lo && b > lo {
                    assert(s2[a] == x@ && s2[b] == pre[b - 1]);
                    assert(pre[lo as int].number > xn);
                    assert(pre[lo as int].number <= pre[b - 1].number || b - 1 == lo);
                } else if b == lo {
                    assert(s2[a] == pre[a]);
                } else if a > lo {
                    assert(s2[a] == pre[a - 1] && s2[b] == pre[b - 1]);
                } else {
                    assert(a < lo && b > lo);
                    assert(s2[a] == pre[a] && s2[b] == pre[b - 1]);
                }
            }
        }
        i = i + 1;
    }
    proof {
        assert(v.deep_view().take(v.deep_view().len() as int) =~= v.deep_view());
    }
    out
}

} // verus!
