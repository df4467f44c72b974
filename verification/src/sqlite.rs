//! The trusted boundary to the SQLite engine: the declarations and
//! wrappers through which the library calls rusqlite. Nothing here is
//! verified; every caller is.

use vstd::prelude::*;

use crate::db::CookieRow;

verus! {

#[verifier::external_type_specification]
#[verifier::external_body]
pub struct ExConnection(rusqlite::Connection);

#[verifier::external_type_specification]
#[verifier::external_body]
pub struct ExSqliteError(rusqlite::Error);

/// Relies on rusqlite's `Connection::open_with_flags`: opens the given
/// URI with `SQLITE_OPEN_READ_ONLY | SQLITE_OPEN_URI`, so the database
/// is never written and the `immutable=1` query parameter is honoured.
/// Whether it succeeds depends on what is on disk, so nothing is
/// promised of the outcome.
#[verifier::external_body]
pub(crate) fn open_readonly(uri: &str) -> Result<rusqlite::Connection, rusqlite::Error> {
    rusqlite::Connection::open_with_flags(
        uri,
        rusqlite::OpenFlags::SQLITE_OPEN_READ_ONLY | rusqlite::OpenFlags::SQLITE_OPEN_URI,
    )
}

/// Relies on rusqlite's `Connection::prepare`, `Statement::query`,
/// `Rows::next` and `Row::get`: one read-only query over the cookie
/// table, each row handed out as its eight plain column values, in the
/// engine's own row order. The statement and row cursor are dropped
/// before returning, on every path. What comes back depends on what is
/// on disk, so nothing is promised of the outcome.
#[verifier::external_body]
pub(crate) fn fetch_cookie_rows(conn: &rusqlite::Connection) -> Result<
    Vec<CookieRow>,
    rusqlite::Error,
> {
    let mut stmt = conn.prepare(
        "SELECT host, path, name, value, expiry, isSecure, isHttpOnly, sameSite FROM moz_cookies",
    )?;
    let mut rows = stmt.query([])?;
    let mut out = Vec::new();
    while let Some(row) = rows.next()? {
        let (host, path, name, value) = (row.get(0)?, row.get(1)?, row.get(2)?, row.get(3)?);
        let (expiry, is_secure, is_http_only, same_site) =
            (row.get(4)?, row.get(5)?, row.get(6)?, row.get(7)?);
        out.push(CookieRow { host, path, name, value, expiry, is_secure, is_http_only, same_site });
    }
    Ok(out)
}

/// Relies on rusqlite's `Display` impl for `Error`: the engine's own
/// description of a failure, carried into this library's error values.
#[verifier::external_body]
pub(crate) fn sqlite_error_text(e: &rusqlite::Error) -> String {
    e.to_string()
}

} // verus!
