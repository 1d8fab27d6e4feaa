//! The relational backend: two tables (records, one row per tag) behind a
//! SQLite connection, with a transactional multi-row insert and
//! constraint-derived conflict detection.
//!
//! The storage medium lives outside the process, so nothing can be promised
//! about what a query returns; every row read back goes through the same
//! validation gate as user input, and the decision logic around the calls is
//! verified.

use vstd::prelude::*;
use crate::entities::{Pokemon, PokemonName, PokemonNumber, PokemonTypes};
use crate::entities::{RecordModel, valid_record};
use crate::repository::{
    DeleteError, FetchAllError, FetchOneError, InsertError, Repository, has_unique_numbers,
    record_from_parts, sort_records,
};

verus! {

#[verifier::external_type_specification]
#[verifier::external_body]
pub struct ExConnection(rusqlite::Connection);

/// The outcomes of the key-row insert that the conflict logic tells apart.
enum InsertRowOutcome {
    Inserted,
    DuplicateKey,
    Failed,
}

/// Relies on rusqlite::Connection::open_with_flags: opens an existing
/// database read-write, without creating one.
#[verifier::external_body]
fn open_connection(path: &str) -> (r: Result<rusqlite::Connection, ()>)
{
    rusqlite::Connection::open_with_flags(
        path,
        rusqlite::OpenFlags::SQLITE_OPEN_READ_WRITE,
    ).map_err(|_| ())
}

/// Relies on rusqlite::Connection::execute: turns foreign-key enforcement
/// on, reporting whether the statement ran.
#[verifier::external_body]
fn enable_foreign_keys(conn: &rusqlite::Connection) -> (r: bool)
{
    conn.execute("pragma foreign_keys = 1", []).is_ok()
}

/// Relies on rusqlite::Connection::execute_batch: opens a transaction.
#[verifier::external_body]
fn begin_transaction(conn: &rusqlite::Connection) -> (r: bool)
{
    conn.execute_batch("begin").is_ok()
}

/// Relies on rusqlite::Connection::execute_batch: commits the open
/// transaction.
#[verifier::external_body]
fn commit_transaction(conn: &rusqlite::Connection) -> (r: bool)
{
    conn.execute_batch("commit").is_ok()
}

/// Relies on rusqlite::Connection::execute_batch: rolls the open
/// transaction back.
#[verifier::external_body]
fn rollback_transaction(conn: &rusqlite::Connection) -> (r: bool)
{
    conn.execute_batch("rollback").is_ok()
}

/// Relies on rusqlite::Connection::execute: inserts the key row, telling a
/// constraint violation (the structured error code, not a message match)
/// apart from any other failure.
#[verifier::external_body]
fn insert_record_row(conn: &rusqlite::Connection, number: u16, name: &String) -> (r:
    InsertRowOutcome)
{
    match conn.execute("insert into records (number, name) values (?, ?)", (number, name.as_str())) {
        Ok(_) => InsertRowOutcome::Inserted,
        Err(rusqlite::Error::SqliteFailure(e, _)) => {
            if e.code == rusqlite::ErrorCode::ConstraintViolation {
                InsertRowOutcome::DuplicateKey
            } else {
                InsertRowOutcome::Failed
            }
        },
        Err(_) => InsertRowOutcome::Failed,
    }
}

/// Relies on rusqlite::Connection::execute: inserts one tag row.
#[verifier::external_body]
fn insert_type_row(conn: &rusqlite::Connection, number: u16, tag: &String) -> (r: bool)
{
    conn.execute(
        "insert into types (pokemon_number, name) values (?, ?)",
        (number, tag.as_str()),
    ).is_ok()
}

/// Relies on rusqlite::Connection::prepare and Statement::query_map: reads
/// every key row as a (number, name) pair.
#[verifier::external_body]
fn query_record_rows_all(conn: &rusqlite::Connection) -> (r: Result<Vec<(u16, String)>, ()>)
{
    let mut stmt = conn.prepare("select number, name from records").map_err(|_| ())?;
    let rows = stmt.query_map([], |row| Ok((row.get(0)?, row.get(1)?))).map_err(|_| ())?;
    rows.collect::<Result<Vec<(u16, String)>, _>>().map_err(|_| ())
}

/// Relies on rusqlite::Connection::prepare and Statement::query_map: reads
/// the key rows carrying the given number.
#[verifier::external_body]
fn query_record_rows_by_number(conn: &rusqlite::Connection, number: u16) -> (r: Result<
    Vec<(u16, String)>,
    (),
>)
{
    let mut stmt = conn.prepare("select number, name from records where number = ?").map_err(
        |_| (),
    )?;
    let rows = stmt.query_map((number,), |row| Ok((row.get(0)?, row.get(1)?))).map_err(|_| ())?;
    rows.collect::<Result<Vec<(u16, String)>, _>>().map_err(|_| ())
}

/// Relies on rusqlite::Connection::prepare and Statement::query_map: reads
/// the tag rows of the given record.
#[verifier::external_body]
fn query_type_rows(conn: &rusqlite::Connection, number: u16) -> (r: Result<Vec<String>, ()>)
{
    let mut stmt = conn.prepare("select name from types where pokemon_number = ?").map_err(
        |_| (),
    )?;
    let rows = stmt.query_map((number,), |row| row.get(0)).map_err(|_| ())?;
    rows.collect::<Result<Vec<String>, _>>().map_err(|_| ())
}

/// Relies on rusqlite::Connection::execute: deletes the key row by number
/// and reports how many rows went away; dependent tag rows go with it
/// through the foreign-key cascade.
#[verifier::external_body]
fn delete_record_rows(conn: &rusqlite::Connection, number: u16) -> (r: Result<usize, ()>)
{
    conn.execute("delete from records where number = ?", (number,)).map_err(|_| ())
}

/// A catalog stored in a relational database: a key table and a tag table
/// related by a foreign key with cascading deletes.
pub struct SqliteRepository {
    connection: rusqlite::Connection,
}

impl SqliteRepository {
    /// Opens the database at the given path and turns foreign-key
    /// enforcement on; a failure here is fatal at startup, before any
    /// operation runs.
    pub fn try_new(path: &str) -> (r: Result<SqliteRepository, ()>) {
        let connection = match open_connection(path) {
            Ok(connection) => connection,
            Err(()) => {
                return Err(());
            },
        };
        if enable_foreign_keys(&connection) {
            Ok(SqliteRepository { connection })
        } else {
            Err(())
        }
    }
}

impl SqliteRepository {
    /// Finishes an insert after the key row's outcome is known: a duplicate
    /// key is exactly a conflict, any other failure rolls back as `Unknown`,
    /// and only a fully committed transaction yields the record.
    fn insert_decided(
        &self,
        outcome: InsertRowOutcome,
        number: PokemonNumber,
        name: PokemonName,
        types: PokemonTypes,
    ) -> (r: Result<Pokemon, InsertError>)
        requires
            number.wf(),
            name.wf(),
            types.wf(),
        ensures
            outcome is DuplicateKey <==> r == Err::<Pokemon, InsertError>(InsertError::Conflict),
            outcome is Failed ==> r == Err::<Pokemon, InsertError>(InsertError::Unknown),
            r matches Ok(p) ==> outcome is Inserted && p@ == (RecordModel {
                number: number@,
                name: name@,
                types: types@,
            }) && p.wf(),
    {
        match outcome {
            InsertRowOutcome::DuplicateKey => {
                let _ = rollback_transaction(&self.connection);
                return Err(InsertError::Conflict);
            },
            InsertRowOutcome::Failed => {
                let _ = rollback_transaction(&self.connection);
                return Err(InsertError::Unknown);
            },
            InsertRowOutcome::Inserted => {},
        }
        let tags = types.to_vec();
        let mut i: usize = 0;
        while i < tags.len()
            invariant
                outcome is Inserted,
            decreases tags.len() - i,
        {
            if !insert_type_row(&self.connection, number.value(), &tags[i]) {
                let _ = rollback_transaction(&self.connection);
                return Err(InsertError::Unknown);
            }
            i = i + 1;
        }
        if !commit_transaction(&self.connection) {
            let _ = rollback_transaction(&self.connection);
            return Err(InsertError::Unknown);
        }
        Ok(Pokemon::new(number, name, types))
    }

    /// Assembles the key rows into records, reading each row's tags and
    /// re-validating everything; on success the records mirror the rows one
    /// for one, in order.
    fn assemble_records(&self, rows: &Vec<(u16, String)>) -> (r: Result<Vec<Pokemon>, ()>)
        ensures
            r matches Ok(v) ==> v@.len() == rows@.len() && forall|i: int|
                0 <= i < v@.len() ==> (#[trigger] v.deep_view()[i]).number == rows@[i].0
                    && v.deep_view()[i].name == rows@[i].1@ && valid_record(v.deep_view()[i]),
    {
        let mut out: Vec<Pokemon> = Vec::new();
        let mut i: usize = 0;
        while i < rows.len()
            invariant
                i <= rows.len(),
                out@.len() == i,
                forall|k: int| 0 <= k < i ==> (#[trigger] out.deep_view()[k]).number == rows@[k].0
                    && out.deep_view()[k].name == rows@[k].1@ && valid_record(out.deep_view()[k]),
            decreases rows.len() - i,
        {
            let tags = match query_type_rows(&self.connection, rows[i].0) {
                Ok(tags) => tags,
                Err(()) => {
                    return Err(());
                },
            };
            match record_from_parts(rows[i].0, rows[i].1.clone(), tags) {
                Some(p) => {
                    let ghost pre = out.deep_view();
                    out.push(p);
                    proof {
                        assert(out.deep_view() =~= pre.push(p@));
                    }
                },
                None => {
                    return Err(());
                },
            }
            i = i + 1;
        }
        Ok(out)
    }

    /// Decides a lookup from the filtered key rows: an empty answer is
    /// exactly `NotFound`; a row that contradicts the filter, or one whose
    /// parts fail validation, is corrupt storage and maps to `Unknown`.
    fn fetch_one_from_rows(&self, number: u16, rows: &Vec<(u16, String)>) -> (r: Result<
        Pokemon,
        FetchOneError,
    >)
        ensures
            rows@.len() == 0 <==> r == Err::<Pokemon, FetchOneError>(FetchOneError::NotFound),
            r matches Ok(p) ==> rows@.len() > 0 && rows@[0].0 == number && p@.number == number
                && p@.name == rows@[0].1@ && valid_record(p@),
    {
        if rows.len() == 0 {
            return Err(FetchOneError::NotFound);
        }
        if rows[0].0 != number {
            return Err(FetchOneError::Unknown);
        }
        let tags = match query_type_rows(&self.connection, rows[0].0) {
            Ok(tags) => tags,
            Err(()) => {
                return Err(FetchOneError::Unknown);
            },
        };
        match record_from_parts(rows[0].0, rows[0].1.clone(), tags) {
            Some(p) => Ok(p),
            None => Err(FetchOneError::Unknown),
        }
    }
}

/// Decides a removal from the affected-row count: zero rows gone is exactly
/// `NotFound`, at least one is success, and a failed statement is `Unknown`.
fn decide_delete(count: Result<usize, ()>) -> (r: Result<(), DeleteError>)
    ensures
        (count matches Ok(k) && k > 0) <==> r == Ok::<(), DeleteError>(()),
        count == Ok::<usize, ()>(0) <==> r == Err::<(), DeleteError>(DeleteError::NotFound),
        count is Err <==> r == Err::<(), DeleteError>(DeleteError::Unknown),
{
    match count {
        Ok(0) => Err(DeleteError::NotFound),
        Ok(_) => Ok(()),
        Err(()) => Err(DeleteError::Unknown),
    }
}

impl Repository for SqliteRepository {
    open spec fn inv(&self) -> bool {
        true
    }

    open spec fn model(&self) -> Option<Seq<RecordModel>> {
        None
    }

    fn insert(&mut self, number: PokemonNumber, name: PokemonName, types: PokemonTypes) -> (r:
        Result<Pokemon, InsertError>) {
        if !begin_transaction(&self.connection) {
            return Err(InsertError::Unknown);
        }
        let outcome = insert_record_row(&self.connection, number.value(), &name.value());
        self.insert_decided(outcome, number, name, types)
    }

    fn fetch_all(&self) -> (r: Result<Vec<Pokemon>, FetchAllError>) {
        let rows = match query_record_rows_all(&self.connection) {
            Ok(rows) => rows,
            Err(()) => {
                return Err(FetchAllError::Unknown);
            },
        };
        let pokemons = match self.assemble_records(&rows) {
            Ok(pokemons) => pokemons,
            Err(()) => {
                return Err(FetchAllError::Unknown);
            },
        };
        proof {
            assert forall|i: int| 0 <= i < pokemons.deep_view().len() implies valid_record(
                #[trigger] pokemons.deep_view()[i],
            ) by {}
        }
        let sorted = sort_records(&pokemons);
        proof {
            crate::repository::lemma_same_records_all_valid(
                pokemons.deep_view(),
                sorted.deep_view(),
            );
        }
        if !has_unique_numbers(&sorted) {
            // Two key rows with one number: corrupt storage.
            return Err(FetchAllError::Unknown);
        }
        Ok(sorted)
    }

    fn fetch_one(&self, number: PokemonNumber) -> (r: Result<Pokemon, FetchOneError>) {
        let rows = match query_record_rows_by_number(&self.connection, number.value()) {
            Ok(rows) => rows,
            Err(()) => {
                return Err(FetchOneError::Unknown);
            },
        };
        self.fetch_one_from_rows(number.value(), &rows)
    }

    fn delete(&mut self, number: PokemonNumber) -> (r: Result<(), DeleteError>) {
        decide_delete(delete_record_rows(&self.connection, number.value()))
    }
}

} // verus!
