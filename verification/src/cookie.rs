//! The in-memory cookie record and its one-line `cookies.txt` rendering.

use vstd::prelude::*;
use vstd::string::StrSliceExecFns;
use vstd::string::StringExecFns;

use crate::decimal::i64_to_dec;
use crate::decimal::spec_dec_int;

verus! {

/// One decoded cookie entry, as read from the browser's database.
///
/// Every field but `same_site` is carried through from storage unchanged;
/// `same_site` is the decoded form of the stored integer code.
#[derive(Debug, Clone)]
pub struct Cookie {
    pub host: String,
    pub path: String,
    pub name: String,
    pub value: String,
    pub expiry: i64,
    pub is_secure: bool,
    pub is_http_only: bool,
    pub same_site: CookieSameSite,
}

/// The cookie's same-site attribute, decoded from the stored integer code.
#[derive(Debug, Clone, Copy, PartialEq, Eq, Structural)]
pub enum CookieSameSite {
    NoRestriction,
    Lax,
    Strict,
}

/// The textual boolean token used in `cookies.txt` columns.
pub open spec fn spec_bool_text(x: bool) -> Seq<char> {
    if x {
        "TRUE"@
    } else {
        "FALSE"@
    }
}

/// `cookies.txt` renders booleans as the fixed tokens `TRUE` / `FALSE`.
pub fn str_bool(x: bool) -> (r: &'static str)
    ensures
        r@ == spec_bool_text(x),
{
    if x {
        "TRUE"
    } else {
        "FALSE"
    }
}

/// The first column of a line: the host, prefixed with `#HttpOnly_` when
/// the cookie is HTTP-only.
pub open spec fn spec_domain_column(c: Cookie) -> Seq<char> {
    if c.is_http_only {
        "#HttpOnly_"@ + c.host@
    } else {
        c.host@
    }
}

/// The host-only flag is recomputed from the host, never read from
/// storage: a host that does not start with `.` must render `FALSE`, or
/// downstream consumers reject the cookie.
pub open spec fn spec_host_only(c: Cookie) -> bool {
    c.host@.len() > 0 && c.host@[0] == '.'
}

/// One `cookies.txt` line for a record: seven tab-separated columns, no
/// trailing newline.
pub open spec fn spec_line(c: Cookie) -> Seq<char> {
    spec_domain_column(c) + "\t"@ + spec_bool_text(spec_host_only(c)) + "\t"@ + c.path@ + "\t"@
        + spec_bool_text(c.is_secure) + "\t"@ + spec_dec_int(c.expiry as int) + "\t"@ + c.name@
        + "\t"@ + c.value@
}

/// `s` begins with the prefix `p`.
pub open spec fn has_prefix(s: Seq<char>, p: Seq<char>) -> bool {
    p.len() <= s.len() && s.subrange(0, p.len() as int) == p
}

impl Cookie {
    /// Renders this record as its `cookies.txt` line (no trailing
    /// newline; the caller appends one).
    pub fn to_line(&self) -> (r: String)
        ensures
            r@ == spec_line(*self),
    {
        let mut r = String::new();
        if self.is_http_only {
            r.append("#HttpOnly_");
        }
        r.append(self.host.as_str());
        r.append("\t");
        let host_only = self.host.as_str().unicode_len() > 0 && self.host.as_str().get_char(0)
            == '.';
        r.append(str_bool(host_only));
        r.append("\t");
        r.append(self.path.as_str());
        r.append("\t");
        r.append(str_bool(self.is_secure));
        r.append("\t");
        let expiry = i64_to_dec(self.expiry);
        r.append(expiry.as_str());
        r.append("\t");
        r.append(self.name.as_str());
        r.append("\t");
        r.append(self.value.as_str());
        proof {
            assert(r@ =~= spec_line(*self));
        }
        r
    }
}

/// A cookie renders with the `#HttpOnly_` marker exactly when it is
/// HTTP-only — provided the host itself does not already carry the
/// marker, which no real domain does.
pub proof fn lemma_http_only_prefix(c: Cookie)
    ensures
        c.is_http_only ==> has_prefix(spec_domain_column(c), "#HttpOnly_"@),
        !c.is_http_only && !has_prefix(c.host@, "#HttpOnly_"@) ==> !has_prefix(
            spec_domain_column(c),
            "#HttpOnly_"@,
        ),
{
    if c.is_http_only {
        assert(spec_domain_column(c).subrange(0, "#HttpOnly_"@.len() as int) =~= "#HttpOnly_"@);
    }
}

/// The host-only column reads `TRUE` exactly when the host starts with
/// `.`, whatever the stored host-only value may have been.
pub proof fn lemma_host_only_column(c: Cookie)
    ensures
        (spec_bool_text(spec_host_only(c)) == "TRUE"@) <==> spec_host_only(c),
{
    reveal_strlit("TRUE");
    reveal_strlit("FALSE");
    assert("TRUE"@.len() == 4);
    assert("FALSE"@.len() == 5);
}

/// The fixed three-comment-line header followed by a blank line; some
/// downstream parsers reject a headerless file.
pub open spec fn spec_header() -> Seq<char> {
    "# Netscape HTTP Cookie File\n# https://curl.haxx.se/rfc/cookie_spec.html\n# This is a generated file! Do not edit.\n\n"@
}

/// The record lines in order, each terminated by a newline.
pub open spec fn spec_lines(cookies: Seq<Cookie>) -> Seq<char>
    decreases cookies.len(),
{
    if cookies.len() == 0 {
        Seq::empty()
    } else {
        spec_lines(cookies.drop_last()) + spec_line(cookies.last()) + "\n"@
    }
}

/// The whole output: the header, then one line per record.
pub open spec fn spec_cookies_txt(cookies: Seq<Cookie>) -> Seq<char> {
    spec_header() + spec_lines(cookies)
}

/// Renders the complete `cookies.txt` text for a sequence of records,
/// in order: the header, then one line per record.
pub fn render_cookies_txt(cookies: &Vec<Cookie>) -> (r: String)
    ensures
        r@ == spec_cookies_txt(cookies@),
{
    let mut r = String::from_str(
        "# Netscape HTTP Cookie File\n# https://curl.haxx.se/rfc/cookie_spec.html\n# This is a generated file! Do not edit.\n\n",
    );
    let mut i: usize = 0;
    while i < cookies.len()
        invariant
            i <= cookies.len(),
            r@ == spec_header() + spec_lines(cookies@.take(i as int)),
        decreases cookies.len() - i,
    {
        let line = cookies[i].to_line();
        r.append(line.as_str());
        r.append("\n");
        proof {
            let taken = cookies@.take(i + 1);
            assert(taken.drop_last() =~= cookies@.take(i as int));
            assert(taken.last() == cookies@[i as int]);
            assert(r@ =~= spec_header() + spec_lines(taken));
        }
        i = i + 1;
    }
    proof {
        assert(cookies@.take(cookies@.len() as int) =~= cookies@);
    }
    r
}

} // verus!
