//! Reading the cookie database: open a read-only connection, fetch the
//! raw rows of the cookie table, and decode each into a [`Cookie`].

use vstd::prelude::*;
use vstd::string::StringExecFns;

use crate::cookie::Cookie;
use crate::cookie::CookieSameSite;
use crate::decimal::i64_to_dec;
use crate::decimal::spec_dec_int;
use crate::sqlite::fetch_cookie_rows;
use crate::sqlite::open_readonly;
use crate::sqlite::sqlite_error_text;
use crate::uri::make_uri;

verus! {

/// One raw row of the cookie table, as the engine hands it out: the
/// four text columns verbatim, the four integer columns undecoded.
#[derive(Debug, Clone)]
pub struct CookieRow {
    pub host: String,
    pub path: String,
    pub name: String,
    pub value: String,
    pub expiry: i64,
    pub is_secure: i64,
    pub is_http_only: i64,
    pub same_site: i64,
}

/// Why a read failed. Every failure is terminal: no partial record list
/// is ever returned alongside one of these.
#[derive(Debug, Clone)]
pub enum CookieDbError {
    /// The database path is not representable as UTF-8 text.
    EncodingError,
    /// The file is missing, unreadable, or not a database of this
    /// format; carries the engine's message.
    DatabaseOpenError(String),
    /// The cookie table or an expected column is absent, or the engine
    /// failed mid-query; carries the engine's message.
    QueryError(String),
    /// A row stores a same-site code outside the known range; carries
    /// the offending code.
    UnknownSameSiteValue(i64),
}

/// The diagnostic text for a failure, naming the offending value or the
/// engine's own message.
pub open spec fn spec_error_message(e: CookieDbError) -> Seq<char> {
    match e {
        CookieDbError::EncodingError => "cannot convert path to UTF-8"@,
        CookieDbError::DatabaseOpenError(m) => "cannot open cookie database: "@ + m@,
        CookieDbError::QueryError(m) => "cookie query failed: "@ + m@,
        CookieDbError::UnknownSameSiteValue(code) => "Unknown same_site value: "@ + spec_dec_int(
            code as int,
        ),
    }
}

impl CookieDbError {
    /// One line of diagnostic text for this failure.
    pub fn message(&self) -> (r: String)
        ensures
            r@ == spec_error_message(*self),
    {
        match self {
            CookieDbError::EncodingError => String::from_str("cannot convert path to UTF-8"),
            CookieDbError::DatabaseOpenError(m) => {
                let mut r = String::from_str("cannot open cookie database: ");
                r.append(m.as_str());
                r
            },
            CookieDbError::QueryError(m) => {
                let mut r = String::from_str("cookie query failed: ");
                r.append(m.as_str());
                r
            },
            CookieDbError::UnknownSameSiteValue(code) => {
                let mut r = String::from_str("Unknown same_site value: ");
                let dec = i64_to_dec(*code);
                r.append(dec.as_str());
                r
            },
        }
    }
}

/// The same-site codes this schema is known to use.
pub open spec fn spec_same_site_code_ok(code: i64) -> bool {
    code == 0 || code == 1 || code == 2
}

/// The decoded form of a known same-site code. Code `0`'s exact meaning
/// is unconfirmed upstream, so it is conservatively read as `Lax`, like
/// the documented code `1`.
pub open spec fn spec_same_site(code: i64) -> CookieSameSite {
    if code == 2 {
        CookieSameSite::Strict
    } else {
        CookieSameSite::Lax
    }
}

/// Decodes a stored same-site code: `0` and `1` give `Lax`, `2` gives
/// `Strict`, and any other code is rejected with its value.
pub fn decode_same_site(code: i64) -> (r: Result<CookieSameSite, CookieDbError>)
    ensures
        spec_same_site_code_ok(code) <==> r is Ok,
        r matches Ok(s) ==> s == spec_same_site(code),
        r matches Err(e) ==> e == CookieDbError::UnknownSameSiteValue(code),
{
    match code {
        0 | 1 => Ok(CookieSameSite::Lax),
        2 => Ok(CookieSameSite::Strict),
        _ => Err(CookieDbError::UnknownSameSiteValue(code)),
    }
}

/// The record a well-formed raw row decodes to: text columns and the
/// expiry pass through unchanged, the flag columns read nonzero as true.
pub open spec fn spec_cookie_of_row(row: CookieRow) -> Cookie {
    Cookie {
        host: row.host,
        path: row.path,
        name: row.name,
        value: row.value,
        expiry: row.expiry,
        is_secure: row.is_secure != 0,
        is_http_only: row.is_http_only != 0,
        same_site: spec_same_site(row.same_site),
    }
}

/// Decodes one raw row, rejecting an unknown same-site code.
pub fn row_to_cookie(row: CookieRow) -> (r: Result<Cookie, CookieDbError>)
    ensures
        spec_same_site_code_ok(row.same_site) <==> r is Ok,
        r matches Ok(c) ==> c == spec_cookie_of_row(row),
        r matches Err(e) ==> e == CookieDbError::UnknownSameSiteValue(row.same_site),
{
    let same_site = match decode_same_site(row.same_site) {
        Ok(s) => s,
        Err(e) => {
            return Err(e);
        },
    };
    Ok(
        Cookie {
            host: row.host,
            path: row.path,
            name: row.name,
            value: row.value,
            expiry: row.expiry,
            is_secure: row.is_secure != 0,
            is_http_only: row.is_http_only != 0,
            same_site,
        },
    )
}

/// Every row of the sequence carries a known same-site code.
pub open spec fn spec_rows_ok(rows: Seq<CookieRow>) -> bool {
    forall|i: int| 0 <= i < rows.len() ==> spec_same_site_code_ok(#[trigger] rows[i].same_site)
}

/// Row `i` is the first with an unknown same-site code, and `e` names
/// that code.
pub open spec fn spec_first_bad_code(rows: Seq<CookieRow>, i: int, e: CookieDbError) -> bool {
    &&& 0 <= i < rows.len()
    &&& !spec_same_site_code_ok(rows[i].same_site)
    &&& e == CookieDbError::UnknownSameSiteValue(rows[i].same_site)
    &&& forall|j: int| 0 <= j < i ==> spec_same_site_code_ok(#[trigger] rows[j].same_site)
}

/// Decodes a whole result set, in order. One bad row fails the whole
/// read: nothing decoded before it is returned.
#[verifier::loop_isolation(false)]
pub fn decode_rows(rows: Vec<CookieRow>) -> (r: Result<Vec<Cookie>, CookieDbError>)
    ensures
        spec_rows_ok(rows@) <==> r is Ok,
        r matches Ok(cookies) ==> cookies@.len() == rows@.len() && forall|i: int|
            0 <= i < rows@.len() ==> cookies@[i] == spec_cookie_of_row(rows@[i]),
        r matches Err(e) ==> exists|i: int| spec_first_bad_code(rows@, i, e),
{
    // The rows are consumed front to back so each row's text columns
    // move into the cookie; the ghost sequence keeps the contract
    // speaking of the whole input.
    let ghost all = rows@;
    let n = rows.len();
    let mut rows = rows;
    let mut cookies: Vec<Cookie> = Vec::new();
    let mut i: usize = 0;
    while rows.len() > 0
        invariant
            i + rows@.len() == n,
            rows@ == all.skip(i as int),
            cookies@.len() == i,
            forall|j: int| 0 <= j < i ==> spec_same_site_code_ok(all[j].same_site),
            forall|j: int| 0 <= j < i ==> cookies@[j] == spec_cookie_of_row(all[j]),
        decreases rows@.len(),
    {
        let row = rows.remove(0);
        let ghost this_row = row;
        proof {
            assert(this_row == all.skip(i as int)[0]);
            assert(this_row == all[i as int]);
            assert(all.skip(i as int).remove(0) =~= all.skip(i as int + 1));
        }
        match row_to_cookie(row) {
            Ok(c) => cookies.push(c),
            Err(e) => {
                proof {
                    assert(spec_first_bad_code(all, i as int, e));
                    assert(!spec_rows_ok(all));
                }
                return Err(e);
            },
        }
        i = i + 1;
    }
    proof {
        assert(all.skip(i as int).len() == 0);
        assert(i == all.len());
    }
    Ok(cookies)
}

/// `cookies` is exactly the decoding of the raw result set `rows`.
pub open spec fn spec_decoded_from(cookies: Seq<Cookie>, rows: Seq<CookieRow>) -> bool {
    &&& spec_rows_ok(rows)
    &&& cookies.len() == rows.len()
    &&& forall|i: int| 0 <= i < rows.len() ==> cookies[i] == spec_cookie_of_row(#[trigger] rows[i])
}

/// Reads the cookie database at `path` and returns its records, fully
/// materialized, in the engine's natural row order. The connection is
/// read-only and immutable; it and its query handle are released before
/// returning, on every path. A failure is terminal: no partial list is
/// ever returned beside an error, and one unknown same-site code fails
/// the whole read.
pub fn read_cookies_db(path: &str) -> (r: Result<Vec<Cookie>, CookieDbError>)
    ensures
        r matches Ok(cookies) ==> exists|rows: Seq<CookieRow>| spec_decoded_from(cookies@, rows),
        r matches Err(e) ==> !(e matches CookieDbError::EncodingError),
        r matches Err(CookieDbError::UnknownSameSiteValue(code)) ==> !spec_same_site_code_ok(code),
{
    let uri = make_uri(path);
    let conn = match open_readonly(uri.as_str()) {
        Ok(conn) => conn,
        Err(e) => {
            return Err(CookieDbError::DatabaseOpenError(sqlite_error_text(&e)));
        },
    };
    let raw = match fetch_cookie_rows(&conn) {
        Ok(raw) => raw,
        Err(e) => {
            return Err(CookieDbError::QueryError(sqlite_error_text(&e)));
        },
    };
    let ghost fetched = raw@;
    match decode_rows(raw) {
        Ok(cookies) => {
            proof {
                assert(spec_decoded_from(cookies@, fetched));
            }
            Ok(cookies)
        },
        Err(e) => Err(e),
    }
}

} // verus!
