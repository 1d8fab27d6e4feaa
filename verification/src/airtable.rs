//! The remote backend: a third-party HTTP tabular store reached over the
//! network.
//!
//! The remote side offers no native uniqueness constraint, so `insert`
//! first issues a filtered read to simulate one; `fetch_one` and `delete`
//! likewise read first to translate an empty result into `NotFound`. That
//! check-then-act sequence is not atomic: two concurrent inserts of one
//! number can both pass the read and both create a row. The race is inherent
//! to the remote interface and accepted here, not papered over.
//!
//! Network payloads are opaque to the verifier; every field read out of a
//! response is re-validated by verified code before it becomes a record.

use vstd::prelude::*;
use crate::entities::{Pokemon, PokemonName, PokemonNumber, PokemonTypes, RecordModel, valid_record};
use crate::repository::{
    DeleteError, FetchAllError, FetchOneError, InsertError, Repository, has_unique_numbers,
    record_from_parts, sort_records,
};

verus! {

#[verifier::external_type_specification]
#[verifier::external_body]
pub struct ExValue(serde_json::Value);

/// Relies on serde_json::Value::get: looks a key up in a JSON object.
#[verifier::external_body]
fn json_get<'a>(v: &'a serde_json::Value, key: &str) -> (r: Option<&'a serde_json::Value>)
{
    v.get(key)
}

/// Relies on serde_json::Value::as_array: the array behind a JSON value, if
/// it is one.
pub assume_specification[ serde_json::Value::as_array ](v: &serde_json::Value) -> Option<
    &Vec<serde_json::Value>,
>;

/// Relies on serde_json::Value::as_str: the text behind a JSON value, if it
/// is one.
pub assume_specification[ serde_json::Value::as_str ](v: &serde_json::Value) -> Option<&str>;

/// Relies on serde_json::Value::as_u64: the unsigned integer behind a JSON
/// value, if it is one.
pub assume_specification[ serde_json::Value::as_u64 ](v: &serde_json::Value) -> Option<u64>;

/// Relies on format!: joins the workspace identifier into the collection
/// URL.
#[verifier::external_body]
fn make_url(workspace_id: &str) -> (r: String)
{
    format!("https://api.airtable.com/v0/{}/pokemons", workspace_id)
}

/// Relies on format!: turns the key into a bearer authorization header.
#[verifier::external_body]
fn make_auth_header(api_key: &str) -> (r: String)
{
    format!("Bearer {}", api_key)
}

/// Relies on ureq::get: probes the collection, reporting whether the remote
/// side answered at all.
#[verifier::external_body]
fn probe(url: &String, auth: &String) -> (r: bool)
{
    ureq::get(url).set("Authorization", auth).call().is_ok()
}

/// Relies on ureq::get and ureq::Response::into_json: reads the whole
/// collection, asking the remote side to sort it, as one JSON value.
#[verifier::external_body]
fn http_get_rows_sorted(url: &String, auth: &String) -> (r: Result<serde_json::Value, ()>)
{
    let full = format!("{}?sort%5B0%5D%5Bfield%5D=number", url);
    let res = ureq::get(&full).set("Authorization", auth).call().map_err(|_| ())?;
    res.into_json::<serde_json::Value>().map_err(|_| ())
}

/// Relies on ureq::get and ureq::Response::into_json: reads the rows whose
/// number field equals the given one, as one JSON value.
#[verifier::external_body]
fn http_get_rows_filtered(url: &String, auth: &String, number: u16) -> (r: Result<
    serde_json::Value,
    (),
>)
{
    let full = format!("{}?filterByFormula=number%3D{}", url, number);
    let res = ureq::get(&full).set("Authorization", auth).call().map_err(|_| ())?;
    res.into_json::<serde_json::Value>().map_err(|_| ())
}

/// Relies on ureq::post and ureq::Request::send_json: creates one row out
/// of the given plain fields, reporting whether the remote side accepted it.
#[verifier::external_body]
fn http_create_record(url: &String, auth: &String, number: u16, name: &String, tags: &Vec<String>)
    -> (r: bool)
{
    let mut fields = serde_json::Map::new();
    fields.insert("number".to_owned(), serde_json::Value::from(number));
    fields.insert("name".to_owned(), serde_json::Value::from(name.as_str()));
    fields.insert("types".to_owned(), serde_json::Value::from(tags.clone()));
    let mut rec = serde_json::Map::new();
    rec.insert("fields".to_owned(), serde_json::Value::Object(fields));
    let mut root = serde_json::Map::new();
    root.insert("records".to_owned(), serde_json::Value::Array(vec![serde_json::Value::Object(rec)]));
    ureq::post(url).set("Authorization", auth).send_json(serde_json::Value::Object(root)).is_ok()
}

/// Relies on ureq::delete: removes the row with the given remote identifier.
#[verifier::external_body]
fn http_delete_record(url: &String, auth: &String, id: &String) -> (r: bool)
{
    let full = format!("{}/{}", url, id);
    ureq::delete(&full).set("Authorization", auth).call().is_ok()
}

/// One row read back from the remote store, in plain form: the remote row
/// identifier and the record fields, still unvalidated.
struct RemoteRow {
    id: String,
    number: u16,
    name: String,
    types: Vec<String>,
}

/// Walks a listing response and extracts each row's plain fields, failing
/// on any shape the interface does not promise.
fn parse_rows(json: &serde_json::Value) -> (r: Result<Vec<RemoteRow>, ()>) {
    let records = match json_get(json, "records") {
        Some(records) => records,
        None => {
            return Err(());
        },
    };
    let arr = match records.as_array() {
        Some(arr) => arr,
        None => {
            return Err(());
        },
    };
    let mut out: Vec<RemoteRow> = Vec::new();
    let mut i: usize = 0;
    while i < arr.len()
        decreases arr.len() - i,
    {
        let rec = &arr[i];
        let id = match json_get(rec, "id") {
            Some(v) => match v.as_str() {
                Some(s) => s.to_owned(),
                None => {
                    return Err(());
                },
            },
            None => {
                return Err(());
            },
        };
        let fields = match json_get(rec, "fields") {
            Some(fields) => fields,
            None => {
                return Err(());
            },
        };
        let number_raw = match json_get(fields, "number") {
            Some(v) => match v.as_u64() {
                Some(n) => n,
                None => {
                    return Err(());
                },
            },
            None => {
                return Err(());
            },
        };
        if number_raw > u16::MAX as u64 {
            return Err(());
        }
        let number = number_raw as u16;
        let name = match json_get(fields, "name") {
            Some(v) => match v.as_str() {
                Some(s) => s.to_owned(),
                None => {
                    return Err(());
                },
            },
            None => {
                return Err(());
            },
        };
        let types_value = match json_get(fields, "types") {
            Some(v) => v,
            None => {
                return Err(());
            },
        };
        let types_arr = match types_value.as_array() {
            Some(a) => a,
            None => {
                return Err(());
            },
        };
        let mut types: Vec<String> = Vec::new();
        let mut j: usize = 0;
        while j < types_arr.len()
            decreases types_arr.len() - j,
        {
            match types_arr[j].as_str() {
                Some(s) => types.push(s.to_owned()),
                None => {
                    return Err(());
                },
            }
            j = j + 1;
        }
        out.push(RemoteRow { id, number, name, types });
        i = i + 1;
    }
    Ok(out)
}

/// The primitive parts a remote row carries, as a record model.
spec fn row_model(row: RemoteRow) -> RecordModel {
    RecordModel { number: row.number, name: row.name@, types: row.types.deep_view() }
}

/// Copies a list of tag strings, value for value.
fn clone_strings(v: &Vec<String>) -> (r: Vec<String>)
    ensures
        r@ == v@,
{
    let mut out: Vec<String> = Vec::new();
    let mut i: usize = 0;
    while i < v.len()
        invariant
            i <= v.len(),
            out@ =~= v@.take(i as int),
        decreases v.len() - i,
    {
        out.push(v[i].clone());
        i = i + 1;
    }
    proof {
        assert(out@ =~= v@);
    }
    out
}

/// Validates a whole listing of remote rows into records: success exactly
/// when every row's parts pass validation, and then the records mirror the
/// rows one for one, in order.
fn records_from_rows(rows: &Vec<RemoteRow>) -> (r: Result<Vec<Pokemon>, ()>)
    ensures
        r is Ok <==> (forall|i: int|
            0 <= i < rows@.len() ==> valid_record(row_model(#[trigger] rows@[i]))),
        r matches Ok(v) ==> v@.len() == rows@.len() && forall|i: int|
            0 <= i < v@.len() ==> #[trigger] v.deep_view()[i] == row_model(rows@[i]),
{
    let mut out: Vec<Pokemon> = Vec::new();
    let mut i: usize = 0;
    while i < rows.len()
        invariant
            i <= rows.len(),
            out@.len() == i,
            forall|k: int| 0 <= k < i ==> valid_record(row_model(#[trigger] rows@[k])),
            forall|k: int| 0 <= k < i ==> #[trigger] out.deep_view()[k] == row_model(rows@[k]),
        decreases rows.len() - i,
    {
        let row = &rows[i];
        match record_from_parts(row.number, row.name.clone(), clone_strings(&row.types)) {
            Some(p) => {
                let ghost pre = out.deep_view();
                out.push(p);
                proof {
                    assert(out.deep_view() =~= pre.push(p@));
                }
            },
            None => {
                proof {
                    assert(!valid_record(row_model(rows@[i as int])));
                }
                return Err(());
            },
        }
        i = i + 1;
    }
    Ok(out)
}

/// A catalog stored in a remote tabular service, addressed by a collection
/// URL and an authorization header.
pub struct AirtableRepository {
    url: String,
    auth_header: String,
}

impl AirtableRepository {
    /// Builds the collection address and probes it once; a failure here is
    /// fatal at startup, before any operation runs.
    pub fn try_new(api_key: &str, workspace_id: &str) -> (r: Result<AirtableRepository, ()>) {
        let url = make_url(workspace_id);
        let auth_header = make_auth_header(api_key);
        if !probe(&url, &auth_header) {
            return Err(());
        }
        Ok(AirtableRepository { url, auth_header })
    }

    /// Reads the rows carrying the given number, already parsed to plain
    /// fields.
    fn fetch_rows_by_number(&self, number: u16) -> (r: Result<Vec<RemoteRow>, ()>) {
        let json = match http_get_rows_filtered(&self.url, &self.auth_header, number) {
            Ok(json) => json,
            Err(()) => {
                return Err(());
            },
        };
        parse_rows(&json)
    }

    /// Decides an insert from the filtered read that simulates the missing
    /// uniqueness constraint: any row already carrying the number is exactly
    /// a conflict; only then is the create issued, and only an accepted
    /// create yields the record. The read and the create are two separate
    /// remote calls, so the check-then-act race of the module doc lives
    /// between them.
    fn insert_checked(
        &self,
        rows: &Vec<RemoteRow>,
        number: PokemonNumber,
        name: PokemonName,
        types: PokemonTypes,
    ) -> (r: Result<Pokemon, InsertError>)
        requires
            number.wf(),
            name.wf(),
            types.wf(),
        ensures
            rows@.len() > 0 <==> r == Err::<Pokemon, InsertError>(InsertError::Conflict),
            r matches Ok(p) ==> rows@.len() == 0 && p@ == (RecordModel {
                number: number@,
                name: name@,
                types: types@,
            }) && p.wf(),
    {
        if rows.len() > 0 {
            return Err(InsertError::Conflict);
        }
        let accepted = http_create_record(
            &self.url,
            &self.auth_header,
            number.value(),
            &name.value(),
            &types.to_vec(),
        );
        if !accepted {
            return Err(InsertError::Unknown);
        }
        Ok(Pokemon::new(number, name, types))
    }

    /// Decides a lookup from the filtered rows: an empty answer is exactly
    /// `NotFound`; otherwise the first row is the result, provided it
    /// carries the requested number and valid parts, and anything else is a
    /// corrupt answer.
    fn fetch_one_from_rows(number: u16, rows: &Vec<RemoteRow>) -> (r: Result<
        Pokemon,
        FetchOneError,
    >)
        ensures
            rows@.len() == 0 <==> r == Err::<Pokemon, FetchOneError>(FetchOneError::NotFound),
            r is Ok <==> rows@.len() > 0 && rows@[0].number == number && valid_record(
                row_model(rows@[0]),
            ),
            r matches Ok(p) ==> p@ == row_model(rows@[0]),
    {
        if rows.len() == 0 {
            return Err(FetchOneError::NotFound);
        }
        let row = &rows[0];
        if row.number != number {
            return Err(FetchOneError::Unknown);
        }
        match record_from_parts(row.number, row.name.clone(), clone_strings(&row.types)) {
            Some(p) => Ok(p),
            None => Err(FetchOneError::Unknown),
        }
    }

    /// Decides a removal from the filtered rows: an empty answer is exactly
    /// `NotFound`; otherwise the first row's remote identifier is deleted,
    /// and only an accepted deletion is success.
    fn delete_parsed(&self, rows: &Vec<RemoteRow>) -> (r: Result<(), DeleteError>)
        ensures
            rows@.len() == 0 <==> r == Err::<(), DeleteError>(DeleteError::NotFound),
    {
        if rows.len() == 0 {
            return Err(DeleteError::NotFound);
        }
        if http_delete_record(&self.url, &self.auth_header, &rows[0].id) {
            Ok(())
        } else {
            Err(DeleteError::Unknown)
        }
    }
}

impl Repository for AirtableRepository {
    open spec fn inv(&self) -> bool {
        true
    }

    open spec fn model(&self) -> Option<Seq<RecordModel>> {
        None
    }

    fn insert(&mut self, number: PokemonNumber, name: PokemonName, types: PokemonTypes) -> (r:
        Result<Pokemon, InsertError>) {
        let rows = match self.fetch_rows_by_number(number.value()) {
            Ok(rows) => rows,
            Err(()) => {
                return Err(InsertError::Unknown);
            },
        };
        self.insert_checked(&rows, number, name, types)
    }

    fn fetch_all(&self) -> (r: Result<Vec<Pokemon>, FetchAllError>) {
        let json = match http_get_rows_sorted(&self.url, &self.auth_header) {
            Ok(json) => json,
            Err(()) => {
                return Err(FetchAllError::Unknown);
            },
        };
        let rows = match parse_rows(&json) {
            Ok(rows) => rows,
            Err(()) => {
                return Err(FetchAllError::Unknown);
            },
        };
        let pokemons = match records_from_rows(&rows) {
            Ok(pokemons) => pokemons,
            Err(()) => {
                return Err(FetchAllError::Unknown);
            },
        };
        proof {
            assert forall|i: int| 0 <= i < pokemons.deep_view().len() implies valid_record(
                #[trigger] pokemons.deep_view()[i],
            ) by {
                assert(pokemons.deep_view()[i] == row_model(rows@[i]));
                assert(valid_record(row_model(rows@[i])));
            }
        }
        let sorted = sort_records(&pokemons);
        proof {
            crate::repository::lemma_same_records_all_valid(
                pokemons.deep_view(),
                sorted.deep_view(),
            );
        }
        if !has_unique_numbers(&sorted) {
            // Two remote rows with one number: the race of the module doc
            // has left a duplicate, which the catalog cannot show.
            return Err(FetchAllError::Unknown);
        }
        Ok(sorted)
    }

    fn fetch_one(&self, number: PokemonNumber) -> (r: Result<Pokemon, FetchOneError>) {
        let rows = match self.fetch_rows_by_number(number.value()) {
            Ok(rows) => rows,
            Err(()) => {
                return Err(FetchOneError::Unknown);
            },
        };
        AirtableRepository::fetch_one_from_rows(number.value(), &rows)
    }

    fn delete(&mut self, number: PokemonNumber) -> (r: Result<(), DeleteError>) {
        let rows = match self.fetch_rows_by_number(number.value()) {
            Ok(rows) => rows,
            Err(()) => {
                return Err(DeleteError::Unknown);
            },
        };
        self.delete_parsed(&rows)
    }
}

} // verus!
