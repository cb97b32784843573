//! The trusted boundary to the native engine and to the mutual-exclusion
//! primitive around it. Every item here either declares an outside type so
//! that it can stand in signatures, or wraps exactly one outside call; Verus
//! believes the stated contracts without reading the bodies.
use vstd::prelude::*;

use crate::value::ParameterizedValue;

verus! {

#[verifier::external_type_specification]
#[verifier::external_body]
pub struct ExConnection(rusqlite::Connection);

#[verifier::external_type_specification]
#[verifier::external_body]
pub struct ExSqliteError(rusqlite::Error);

#[verifier::external_type_specification]
#[verifier::external_body]
pub struct ExCachedStatement<'conn>(rusqlite::CachedStatement<'conn>);

#[verifier::external_type_specification]
#[verifier::external_body]
pub struct ExRows<'stmt>(rusqlite::Rows<'stmt>);

#[verifier::external_type_specification]
#[verifier::external_body]
pub struct ExRow<'stmt>(rusqlite::Row<'stmt>);

#[verifier::external_type_specification]
#[verifier::external_body]
#[verifier::reject_recursive_types(T)]
pub struct ExMutex<T: ?Sized>(std::sync::Mutex<T>);

#[verifier::external_type_specification]
#[verifier::external_body]
#[verifier::reject_recursive_types(T)]
pub struct ExMutexGuard<'a, T: ?Sized + 'a>(std::sync::MutexGuard<'a, T>);

/// Relies on rusqlite's `Connection::open_in_memory`: opens a fresh private
/// in-memory database, or reports the engine's error.
#[verifier::external_body]
pub(crate) fn open_in_memory() -> (r: Result<rusqlite::Connection, rusqlite::Error>) {
    rusqlite::Connection::open_in_memory()
}

/// Relies on std's `Mutex::new`: wraps the connection in a fresh lock.
#[verifier::external_body]
pub(crate) fn mutex_new(c: rusqlite::Connection) -> (m: std::sync::Mutex<rusqlite::Connection>) {
    std::sync::Mutex::new(c)
}

/// Relies on std's `Mutex::lock`: blocks until the connection is exclusively
/// held. A poisoned lock (a prior caller panicked mid-operation) is a
/// non-recoverable invariant violation and aborts, as the error-handling
/// policy demands, rather than returning a wrong value.
#[verifier::external_body]
pub(crate) fn lock_client<'a>(m: &'a std::sync::Mutex<rusqlite::Connection>) -> (g: std::sync::MutexGuard<
    'a,
    rusqlite::Connection,
>) {
    m.lock().unwrap()
}

/// Relies on std's `MutexGuard` deref: the guarded connection itself.
#[verifier::external_body]
pub(crate) fn guard_conn<'a, 'b>(g: &'a std::sync::MutexGuard<'b, rusqlite::Connection>) -> (c:
    &'a rusqlite::Connection) {
    &**g
}

/// Relies on rusqlite's `Connection::prepare_cached`: prepares `sql` through
/// the per-connection statement cache keyed by the SQL text.
#[verifier::external_body]
pub(crate) fn prepare_cached<'c>(c: &'c rusqlite::Connection, sql: &str) -> (r: Result<
    rusqlite::CachedStatement<'c>,
    rusqlite::Error,
>) {
    c.prepare_cached(sql)
}

/// Relies on rusqlite's `Statement::raw_bind_parameter` with
/// `rusqlite::types::Null`: binds NULL at the one-based index.
#[verifier::external_body]
pub(crate) fn bind_null(st: &mut rusqlite::CachedStatement<'_>, idx: usize) -> (r: Result<
    (),
    rusqlite::Error,
>) {
    st.raw_bind_parameter(idx, rusqlite::types::Null)
}

/// Relies on rusqlite's `Statement::raw_bind_parameter` for `i64`.
#[verifier::external_body]
pub(crate) fn bind_i64(st: &mut rusqlite::CachedStatement<'_>, idx: usize, v: i64) -> (r: Result<
    (),
    rusqlite::Error,
>) {
    st.raw_bind_parameter(idx, v)
}

/// Relies on rusqlite's `Statement::raw_bind_parameter` for `&str`.
#[verifier::external_body]
pub(crate) fn bind_text(st: &mut rusqlite::CachedStatement<'_>, idx: usize, v: &str) -> (r: Result<
    (),
    rusqlite::Error,
>) {
    st.raw_bind_parameter(idx, v)
}

/// Relies on rusqlite's `Statement::raw_bind_parameter` for `bool`.
#[verifier::external_body]
pub(crate) fn bind_bool(st: &mut rusqlite::CachedStatement<'_>, idx: usize, v: bool) -> (r: Result<
    (),
    rusqlite::Error,
>) {
    st.raw_bind_parameter(idx, v)
}

/// Relies on rusqlite's `Statement::raw_bind_parameter` for `&[u8]`.
#[verifier::external_body]
pub(crate) fn bind_blob(st: &mut rusqlite::CachedStatement<'_>, idx: usize, v: &[u8]) -> (r: Result<
    (),
    rusqlite::Error,
>) {
    st.raw_bind_parameter(idx, v)
}

/// Relies on rusqlite's `Statement::raw_execute`: runs the bound statement,
/// which must return no rows, and reports the number of rows changed.
#[verifier::external_body]
pub(crate) fn raw_execute(st: &mut rusqlite::CachedStatement<'_>) -> (r: Result<
    usize,
    rusqlite::Error,
>) {
    st.raw_execute()
}

/// Relies on rusqlite's `Statement::raw_query`: starts iterating the bound
/// statement's rows.
#[verifier::external_body]
pub(crate) fn raw_query<'s>(st: &'s mut rusqlite::CachedStatement<'_>) -> (r: rusqlite::Rows<'s>) {
    st.raw_query()
}

/// Relies on rusqlite's `Rows::next`: steps the statement once, yielding the
/// next row, `None` at the end, or the engine's error.
#[verifier::external_body]
pub(crate) fn rows_next<'s, 'r>(rows: &'r mut rusqlite::Rows<'s>) -> (r: Result<
    Option<&'r rusqlite::Row<'s>>,
    rusqlite::Error,
>) {
    rows.next()
}

/// Relies on rusqlite's `Statement::column_count`: the number of columns the
/// prepared statement reports.
#[verifier::external_body]
pub(crate) fn column_count(st: &rusqlite::CachedStatement<'_>) -> (n: usize) {
    st.column_count()
}

/// Relies on rusqlite's `Statement::column_name`: the engine-reported name of
/// the column at `idx`, or an error when `idx` is out of range.
#[verifier::external_body]
pub(crate) fn column_name<'s>(st: &'s rusqlite::CachedStatement<'_>, idx: usize) -> (r: Result<
    &'s str,
    rusqlite::Error,
>) {
    st.column_name(idx)
}

/// Relies on rusqlite's `Row::get` at type `rusqlite::types::Value`: the cell
/// at `idx` with its native tag, each engine variant carried to the matching
/// library variant (a REAL as its IEEE-754 bit pattern).
#[verifier::external_body]
pub(crate) fn row_value(row: &rusqlite::Row<'_>, idx: usize) -> (r: Result<
    ParameterizedValue,
    rusqlite::Error,
>) {
    match row.get::<usize, rusqlite::types::Value>(idx)? {
        rusqlite::types::Value::Null => Ok(ParameterizedValue::Null),
        rusqlite::types::Value::Integer(i) => Ok(ParameterizedValue::Integer(i)),
        rusqlite::types::Value::Real(x) => Ok(ParameterizedValue::Real(x.to_bits())),
        rusqlite::types::Value::Text(t) => Ok(ParameterizedValue::Text(t)),
        rusqlite::types::Value::Blob(b) => Ok(ParameterizedValue::Bytes(b)),
    }
}

/// Relies on rusqlite's `Connection::execute_batch`: runs a whole SQL batch
/// without parameter binding.
#[verifier::external_body]
pub(crate) fn execute_batch(c: &rusqlite::Connection, sql: &str) -> (r: Result<
    (),
    rusqlite::Error,
>) {
    c.execute_batch(sql)
}

/// Relies on rusqlite's `Connection::last_insert_rowid`: the row id of the
/// most recent successful INSERT on this connection, 0 when there was none.
#[verifier::external_body]
pub(crate) fn last_insert_rowid(c: &rusqlite::Connection) -> (r: i64) {
    c.last_insert_rowid()
}

/// Relies on num_cpus's `get_physical`: the machine's physical core count.
/// The result depends on the machine, so nothing is stated of it.
#[verifier::external_body]
pub(crate) fn physical_core_count() -> (n: usize) {
    num_cpus::get_physical()
}

/// Relies on std's `Path::is_dir`: whether `p` names an existing directory
/// on disk. The result depends on the filesystem, so nothing is stated of it.
#[verifier::external_body]
pub(crate) fn path_is_dir(p: &str) -> (r: bool) {
    std::path::Path::new(p).is_dir()
}

} // verus!
