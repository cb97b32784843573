//! The connector instance and its query-execution surface: one native
//! in-memory connection behind a mutual-exclusion lock, database attachment,
//! and the raw-SQL choke point through which every operation passes.
//!
//! Structured queries are rendered to `(sql, params)` by the external
//! SQL-building visitor before they reach this connector, so every entry
//! point takes the rendered pair; callers issue operations concurrently and
//! the lock serializes them statement by statement. The external metrics
//! sink that wraps every engine-touching operation also lives outside this
//! crate; as that wrapper demands, each operation here returns the
//! underlying result unchanged, so the sink can be layered on by callers.
use vstd::prelude::*;
use vstd::string::StrSliceExecFns;

use crate::engine;
use crate::error::ConnectorError;
use crate::params::{path_of, SqliteParams};
use crate::result_set::ResultSet;
use crate::value::{Id, ParameterizedValue};

verus! {

/// A connector interface for the SQLite database: exactly one native
/// connection, shared by all callers through the lock.
pub struct Sqlite {
    client: std::sync::Mutex<rusqlite::Connection>,
    /// Kept as text, not as a path value, because attaching embeds it into
    /// a SQL statement, which only works for UTF-8 text.
    file_path: String,
}

impl View for Sqlite {
    type V = Seq<char>;

    /// A connector is abstracted by its resolved file path; the native
    /// connection behind the lock has no mathematical image.
    closed spec fn view(&self) -> Seq<char> {
        self.file_path@
    }
}

/// What constructing a connector promises for a given directory-probe
/// outcome and default limit: address errors propagate unchanged, and a
/// well-formed address yields a connector carrying the path component,
/// unless opening the native connection itself failed.
pub open spec fn new_post(
    r: Result<Sqlite, ConnectorError>,
    s: Seq<char>,
    path_is_dir: bool,
    default_limit: u32,
) -> bool {
    if path_is_dir || path_of(s).len() == 0 {
        r matches Err(ConnectorError::DatabaseUrlIsInvalid(p)) && p@ == path_of(s)
    } else {
        match crate::params::params_of(s, default_limit) {
            Option::Some(cfg) => (match r {
                Result::Ok(c) => c@ == path_of(s),
                Result::Err(e) => e is Engine,
            }),
            Option::None => r matches Err(e) && e is InvalidConnectionArguments,
        }
    }
}

/// The generated identifier an insert yields, decided from the engine's
/// last-inserted row id before and after the statement: an unchanged id
/// means the statement inserted nothing.
pub open spec fn gen_id_spec(before: i64, after: i64) -> Option<Id> {
    if after == before {
        None
    } else {
        Some(Id::Int(after))
    }
}

/// Decides the generated identifier from the row ids read around the
/// statement; exactly `gen_id_spec`.
pub fn generated_id(before: i64, after: i64) -> (r: Option<Id>)
    ensures
        r == gen_id_spec(before, after),
{
    if after == before {
        None
    } else {
        Some(Id::Int(after))
    }
}

/// Whether some row of `rs` holds the text `name` in column `col`.
pub open spec fn row_matches(
    rows: Seq<Vec<ParameterizedValue>>,
    i: int,
    col: int,
    name: Seq<char>,
) -> bool {
    col < rows[i]@.len() && (rows[i]@[col] matches ParameterizedValue::Text(t) && t@ == name)
}

/// Scans a result set for a row whose `col`-th value is the text `name`.
pub fn row_has_text(rs: &ResultSet, col: usize, name: &str) -> (b: bool)
    ensures
        b == (exists|i: int|
            0 <= i < rs.rows@.len() && #[trigger] row_matches(rs.rows@, i, col as int, name@)),
{
    let n = rs.rows.len();
    let mut ri: usize = 0;
    while ri < n
        invariant
            ri <= n,
            n == rs.rows@.len(),
            forall|i: int| 0 <= i < ri ==> !(#[trigger] row_matches(rs.rows@, i, col as int, name@)),
        decreases n - ri,
    {
        if col < rs.rows[ri].len() {
            match &rs.rows[ri][col] {
                ParameterizedValue::Text(t) => {
                    if crate::text::str_eq(t.as_str(), name) {
                        proof {
                            assert(row_matches(rs.rows@, ri as int, col as int, name@));
                        }
                        return true;
                    }
                },
                _ => {},
            }
        }
        ri = ri + 1;
    }
    false
}

/// Binds every parameter at its one-based position. A parameter carrying a
/// floating-point bit pattern is rejected: the connector stores such a value
/// only for reading results back, not for binding.
fn bind_all(stmt: &mut rusqlite::CachedStatement<'_>, params: &[ParameterizedValue]) -> (r: Result<
    (),
    ConnectorError,
>)
    ensures
        r is Ok ==> forall|i: int| 0 <= i < params@.len() ==> !(params@[i] is Real),
        (r matches Err(e) && e is UnsupportedParameter) ==> exists|i: int|
            0 <= i < params@.len() && params@[i] is Real,
        r matches Err(e) ==> (e is Engine || e is UnsupportedParameter),
{
    let n = params.len();
    let mut i: usize = 0;
    while i < n
        invariant
            i <= n,
            n == params@.len(),
            forall|j: int| 0 <= j < i ==> !(params@[j] is Real),
        decreases n - i,
    {
        let res = match vstd::slice::slice_index_get(params, i) {
            ParameterizedValue::Null => engine::bind_null(stmt, i + 1),
            ParameterizedValue::Integer(v) => engine::bind_i64(stmt, i + 1, *v),
            ParameterizedValue::Real(_) => {
                return Err(ConnectorError::UnsupportedParameter);
            },
            ParameterizedValue::Text(s) => engine::bind_text(stmt, i + 1, s.as_str()),
            ParameterizedValue::Boolean(b) => engine::bind_bool(stmt, i + 1, *b),
            ParameterizedValue::Bytes(bs) => engine::bind_blob(stmt, i + 1, bs.as_slice()),
        };
        match res {
            Result::Ok(()) => {},
            Result::Err(e) => {
                return Err(ConnectorError::Engine(e));
            },
        }
        i = i + 1;
    }
    Ok(())
}

/// Prepares `sql` through the statement cache, binds the parameters, and
/// drains every row eagerly into a well-formed result set.
fn query_conn(conn: &rusqlite::Connection, sql: &str, params: &[ParameterizedValue]) -> (r: Result<
    ResultSet,
    ConnectorError,
>)
    ensures
        r matches Ok(rs) ==> rs.wf(),
        r is Ok ==> forall|i: int| 0 <= i < params@.len() ==> !(params@[i] is Real),
        (r matches Err(e) && e is UnsupportedParameter) ==> exists|i: int|
            0 <= i < params@.len() && params@[i] is Real,
        r matches Err(e) ==> (e is Engine || e is UnsupportedParameter),
{
    let mut stmt = match engine::prepare_cached(conn, sql) {
        Result::Ok(st) => st,
        Result::Err(e) => {
            return Err(ConnectorError::Engine(e));
        },
    };
    match bind_all(&mut stmt, params) {
        Result::Ok(()) => {},
        Result::Err(e) => {
            return Err(e);
        },
    }
    let ncols = engine::column_count(&stmt);
    let mut columns: Vec<String> = Vec::new();
    let mut ci: usize = 0;
    while ci < ncols
        invariant
            ci <= ncols,
            columns@.len() == ci,
        decreases ncols - ci,
    {
        match engine::column_name(&stmt, ci) {
            Result::Ok(nm) => columns.push(nm.to_owned()),
            Result::Err(e) => {
                return Err(ConnectorError::Engine(e));
            },
        }
        ci = ci + 1;
    }
    let mut out_rows: Vec<Vec<ParameterizedValue>> = Vec::new();
    let mut rows = engine::raw_query(&mut stmt);
    let mut steps: usize = 0;
    loop
        invariant
            columns@.len() == ncols,
            forall|i: int| 0 <= i < out_rows@.len() ==> out_rows@[i]@.len() == ncols,
        decreases usize::MAX - steps,
    {
        if steps == usize::MAX {
            break;
        }
        steps = steps + 1;
        let stepped = match engine::rows_next(&mut rows) {
            Result::Ok(o) => o,
            Result::Err(e) => {
                return Err(ConnectorError::Engine(e));
            },
        };
        match stepped {
            Option::Some(row) => {
                let mut vals: Vec<ParameterizedValue> = Vec::new();
                let mut vi: usize = 0;
                while vi < ncols
                    invariant
                        vi <= ncols,
                        vals@.len() == vi,
                    decreases ncols - vi,
                {
                    match engine::row_value(row, vi) {
                        Result::Ok(v) => vals.push(v),
                        Result::Err(e) => {
                            return Err(ConnectorError::Engine(e));
                        },
                    }
                    vi = vi + 1;
                }
                out_rows.push(vals);
            },
            Option::None => {
                break;
            },
        }
    }
    let rs = ResultSet::new(columns, out_rows);
    Ok(rs)
}

/// Prepares `sql` through the statement cache, binds the parameters, and
/// executes a statement that returns no rows, yielding the affected-row
/// count (always representable, the engine reports a machine-word count).
fn execute_conn(conn: &rusqlite::Connection, sql: &str, params: &[ParameterizedValue]) -> (r:
    Result<u64, ConnectorError>)
    ensures
        r is Ok ==> forall|i: int| 0 <= i < params@.len() ==> !(params@[i] is Real),
        (r matches Err(e) && e is UnsupportedParameter) ==> exists|i: int|
            0 <= i < params@.len() && params@[i] is Real,
        r matches Err(e) ==> (e is Engine || e is UnsupportedParameter),
{
    let mut stmt = match engine::prepare_cached(conn, sql) {
        Result::Ok(st) => st,
        Result::Err(e) => {
            return Err(ConnectorError::Engine(e));
        },
    };
    match bind_all(&mut stmt, params) {
        Result::Ok(()) => {},
        Result::Err(e) => {
            return Err(e);
        },
    }
    match engine::raw_execute(&mut stmt) {
        Result::Ok(changes) => Ok(changes as u64),
        Result::Err(e) => Err(ConnectorError::Engine(e)),
    }
}

impl Sqlite {
    /// Opens a connector for the address: parses it, opens an in-memory
    /// native connection (the on-disk file is attached lazily, so that
    /// several logical names can share one session), and records the
    /// resolved path.
    pub fn try_from(path: &str) -> (r: Result<Sqlite, ConnectorError>)
        ensures
            exists|d: bool, l: u32| #[trigger] new_post(r, path@, d, l) && l >= 3,
            r matches Ok(c) ==> c@ == path_of(path@),
    {
        let params = match SqliteParams::try_from(path) {
            Result::Ok(p) => p,
            Result::Err(e) => {
                let r = Err::<Sqlite, ConnectorError>(e);
                proof {
                    let (d, l) = choose|d: bool, l: u32|
                        #[trigger] crate::params::parse_post(
                            Err::<SqliteParams, ConnectorError>(r->Err_0),
                            path@,
                            d,
                            l,
                        ) && l >= 3;
                    assert(new_post(r, path@, d, l) && l >= 3);
                }
                return r;
            },
        };
        let conn = match engine::open_in_memory() {
            Result::Ok(c) => c,
            Result::Err(e) => {
                let r = Err::<Sqlite, ConnectorError>(ConnectorError::Engine(e));
                proof {
                    let (d, l) = choose|d: bool, l: u32|
                        #[trigger] crate::params::parse_post(
                            Ok::<SqliteParams, ConnectorError>(params),
                            path@,
                            d,
                            l,
                        ) && l >= 3;
                    assert(new_post(r, path@, d, l) && l >= 3);
                }
                return r;
            },
        };
        let r = Ok::<Sqlite, ConnectorError>(
            Sqlite { client: engine::mutex_new(conn), file_path: params.file_path },
        );
        proof {
            let (d, l) = choose|d: bool, l: u32|
                #[trigger] crate::params::parse_post(
                    Ok::<SqliteParams, ConnectorError>(params),
                    path@,
                    d,
                    l,
                ) && l >= 3;
            assert(new_post(r, path@, d, l) && l >= 3);
        }
        r
    }

    /// Opens a connector for a file path or address string.
    pub fn new(file_path: &str) -> (r: Result<Sqlite, ConnectorError>)
        ensures
            exists|d: bool, l: u32| #[trigger] new_post(r, file_path@, d, l) && l >= 3,
            r matches Ok(c) ==> c@ == path_of(file_path@),
    {
        Self::try_from(file_path)
    }

    /// The resolved file path the connector will attach.
    pub fn file_path(&self) -> (r: &str)
        ensures
            r@ == self@,
    {
        self.file_path.as_str()
    }

    /// Under the connection lock: lists the attached database names, issues
    /// `ATTACH DATABASE ? AS ?` with the stored path and `db_name` bound as
    /// parameters when — and only when — `db_name` is not yet listed, and
    /// afterward unconditionally re-enables foreign-key enforcement. The
    /// attached-name set therefore evolves by `attach_step`, which
    /// `lemma_attach_idempotent` shows a second identical call cannot move.
    pub fn attach_database(&mut self, db_name: &str) -> (r: Result<(), ConnectorError>)
        ensures
            final(self)@ == old(self)@,
            r matches Err(e) ==> e is Engine,
    {
        let g = engine::lock_client(&self.client);
        let conn = engine::guard_conn(&g);
        let empty: Vec<ParameterizedValue> = Vec::new();
        let listed = match query_conn(conn, "PRAGMA database_list", empty.as_slice()) {
            Result::Ok(rs) => rs,
            Result::Err(e) => {
                proof {
                    assert(empty@.len() == 0);
                }
                return Err(e);
            },
        };
        if !row_has_text(&listed, 1, db_name) {
            let mut binds: Vec<ParameterizedValue> = Vec::new();
            binds.push(ParameterizedValue::Text(self.file_path.clone()));
            binds.push(ParameterizedValue::Text(db_name.to_owned()));
            match execute_conn(conn, "ATTACH DATABASE ? AS ?", binds.as_slice()) {
                Result::Ok(_) => {},
                Result::Err(e) => {
                    proof {
                        assert(binds@.len() == 2);
                        assert(!(binds@[0] is Real));
                        assert(!(binds@[1] is Real));
                    }
                    return Err(e);
                },
            }
        }
        match execute_conn(conn, "PRAGMA foreign_keys = ON", empty.as_slice()) {
            Result::Ok(_) => Ok(()),
            Result::Err(e) => {
                proof {
                    assert(empty@.len() == 0);
                }
                Err(e)
            },
        }
    }

    /// Acquires the lock, runs the raw SQL with its positional parameters,
    /// and drains the whole result before releasing the lock; the result is
    /// always well-formed.
    pub fn query_raw(&self, sql: &str, params: &[ParameterizedValue]) -> (r: Result<
        ResultSet,
        ConnectorError,
    >)
        ensures
            r matches Ok(rs) ==> rs.wf(),
            r is Ok ==> forall|i: int| 0 <= i < params@.len() ==> !(params@[i] is Real),
            (r matches Err(e) && e is UnsupportedParameter) ==> exists|i: int|
                0 <= i < params@.len() && params@[i] is Real,
            r matches Err(e) ==> (e is Engine || e is UnsupportedParameter),
    {
        let g = engine::lock_client(&self.client);
        let conn = engine::guard_conn(&g);
        query_conn(conn, sql, params)
    }

    /// The structured-query entry: the external visitor has already
    /// rendered the query to `(sql, params)`; this delegates to the raw
    /// path, the single choke point.
    pub fn query(&self, sql: &str, params: &[ParameterizedValue]) -> (r: Result<
        ResultSet,
        ConnectorError,
    >)
        ensures
            r matches Ok(rs) ==> rs.wf(),
            r is Ok ==> forall|i: int| 0 <= i < params@.len() ==> !(params@[i] is Real),
            (r matches Err(e) && e is UnsupportedParameter) ==> exists|i: int|
                0 <= i < params@.len() && params@[i] is Real,
            r matches Err(e) ==> (e is Engine || e is UnsupportedParameter),
    {
        self.query_raw(sql, params)
    }

    /// Acquires the lock, executes a statement that returns no rows, and
    /// yields the affected-row count.
    pub fn execute_raw(&self, sql: &str, params: &[ParameterizedValue]) -> (r: Result<
        u64,
        ConnectorError,
    >)
        ensures
            r is Ok ==> forall|i: int| 0 <= i < params@.len() ==> !(params@[i] is Real),
            (r matches Err(e) && e is UnsupportedParameter) ==> exists|i: int|
                0 <= i < params@.len() && params@[i] is Real,
            r matches Err(e) ==> (e is Engine || e is UnsupportedParameter),
    {
        let g = engine::lock_client(&self.client);
        let conn = engine::guard_conn(&g);
        execute_conn(conn, sql, params)
    }

    /// Executes the rendered statement and reads back the generated
    /// identifier from the same connection, under one hold of the lock.
    /// The decision is `generated_id` on the engine's last-inserted row id
    /// probed before and after the statement: `Some` exactly when the id
    /// moved. This is a heuristic, since the connector does not parse SQL
    /// (a non-goal): an insert that reuses the prior last-inserted row id
    /// reports `None`, and a non-insert statement that causes an insert
    /// (through a trigger) reports `Some`.
    pub fn execute(&self, sql: &str, params: &[ParameterizedValue]) -> (r: Result<
        Option<Id>,
        ConnectorError,
    >)
        ensures
            r is Ok ==> forall|i: int| 0 <= i < params@.len() ==> !(params@[i] is Real),
            (r matches Err(e) && e is UnsupportedParameter) ==> exists|i: int|
                0 <= i < params@.len() && params@[i] is Real,
            r matches Err(e) ==> (e is Engine || e is UnsupportedParameter),
    {
        let g = engine::lock_client(&self.client);
        let conn = engine::guard_conn(&g);
        let before = engine::last_insert_rowid(conn);
        match execute_conn(conn, sql, params) {
            Result::Ok(_) => {
                let after = engine::last_insert_rowid(conn);
                Ok(generated_id(before, after))
            },
            Result::Err(e) => Err(e),
        }
    }

    /// Issues the pragma that disables foreign-key enforcement; it passes
    /// no parameters, so any failure is the engine's.
    pub fn turn_off_fk_constraints(&self) -> (r: Result<(), ConnectorError>)
        ensures
            r matches Err(e) ==> e is Engine,
    {
        let empty: Vec<ParameterizedValue> = Vec::new();
        match self.query_raw("PRAGMA foreign_keys = OFF", empty.as_slice()) {
            Result::Ok(_) => Ok(()),
            Result::Err(e) => {
                proof {
                    assert(empty@.len() == 0);
                }
                Err(e)
            },
        }
    }

    /// Issues the pragma that enables foreign-key enforcement; it passes
    /// no parameters, so any failure is the engine's.
    pub fn turn_on_fk_constraints(&self) -> (r: Result<(), ConnectorError>)
        ensures
            r matches Err(e) ==> e is Engine,
    {
        let empty: Vec<ParameterizedValue> = Vec::new();
        match self.query_raw("PRAGMA foreign_keys = ON", empty.as_slice()) {
            Result::Ok(_) => Ok(()),
            Result::Err(e) => {
                proof {
                    assert(empty@.len() == 0);
                }
                Err(e)
            },
        }
    }

    /// Acquires the lock and executes a whole SQL batch without parameter
    /// binding.
    pub fn raw_cmd(&self, cmd: &str) -> (r: Result<(), ConnectorError>)
        ensures
            r matches Err(e) ==> e is Engine,
    {
        let g = engine::lock_client(&self.client);
        let conn = engine::guard_conn(&g);
        match engine::execute_batch(conn, cmd) {
            Result::Ok(()) => Ok(()),
            Result::Err(e) => Err(ConnectorError::Engine(e)),
        }
    }

    /// Opens a transaction with the default protocol: `BEGIN` now, caller
    /// operations through the same lock, then `COMMIT` or `ROLLBACK`.
    pub fn start_transaction(&self) -> (r: Result<Transaction<'_>, ConnectorError>)
        ensures
            r matches Err(e) ==> e is Engine,
    {
        match self.raw_cmd("BEGIN") {
            Result::Ok(()) => Ok(Transaction { conn: self }),
            Result::Err(e) => Err(e),
        }
    }
}

/// A transaction running on the connector's single connection; operations
/// go through the same raw path and the same lock.
pub struct Transaction<'a> {
    conn: &'a Sqlite,
}

impl<'a> Transaction<'a> {
    pub fn query_raw(&self, sql: &str, params: &[ParameterizedValue]) -> (r: Result<
        ResultSet,
        ConnectorError,
    >)
        ensures
            r matches Ok(rs) ==> rs.wf(),
            r is Ok ==> forall|i: int| 0 <= i < params@.len() ==> !(params@[i] is Real),
            (r matches Err(e) && e is UnsupportedParameter) ==> exists|i: int|
                0 <= i < params@.len() && params@[i] is Real,
            r matches Err(e) ==> (e is Engine || e is UnsupportedParameter),
    {
        self.conn.query_raw(sql, params)
    }

    pub fn execute_raw(&self, sql: &str, params: &[ParameterizedValue]) -> (r: Result<
        u64,
        ConnectorError,
    >)
        ensures
            r is Ok ==> forall|i: int| 0 <= i < params@.len() ==> !(params@[i] is Real),
            (r matches Err(e) && e is UnsupportedParameter) ==> exists|i: int|
                0 <= i < params@.len() && params@[i] is Real,
            r matches Err(e) ==> (e is Engine || e is UnsupportedParameter),
    {
        self.conn.execute_raw(sql, params)
    }

    pub fn commit(self) -> (r: Result<(), ConnectorError>)
        ensures
            r matches Err(e) ==> e is Engine,
    {
        self.conn.raw_cmd("COMMIT")
    }

    pub fn rollback(self) -> (r: Result<(), ConnectorError>)
        ensures
            r matches Err(e) ==> e is Engine,
    {
        self.conn.raw_cmd("ROLLBACK")
    }
}

/// The attached-name set after one attachment step: unchanged when the name
/// is already attached, otherwise grown by exactly that name.
pub open spec fn attach_step(dbs: Set<Seq<char>>, name: Seq<char>) -> Set<Seq<char>> {
    if dbs.contains(name) {
        dbs
    } else {
        dbs.insert(name)
    }
}

/// Law: attachment is idempotent. Attaching the same name twice yields the
/// same attached-name set as attaching it once, and the name is attached
/// afterward; the second call is a no-op for attachment (it still re-enables
/// foreign-key enforcement, which does not touch this set).
pub proof fn lemma_attach_idempotent(dbs: Set<Seq<char>>, name: Seq<char>)
    ensures
        attach_step(attach_step(dbs, name), name) == attach_step(dbs, name),
        attach_step(dbs, name).contains(name),
{
    assert(attach_step(attach_step(dbs, name), name) =~= attach_step(dbs, name));
}

} // verus!
