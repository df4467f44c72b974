use firefox_cookie::decimal::i64_to_dec;
use firefox_cookie::decimal::u64_to_dec;
use firefox_cookie::render_cookies_txt;
use firefox_cookie::str_bool;
use firefox_cookie::Cookie;
use firefox_cookie::CookieSameSite;

fn sample_cookie() -> Cookie {
    Cookie {
        host: String::from("example.com"),
        path: String::from("/"),
        name: String::from("sid"),
        value: String::from("abc123"),
        expiry: 1999999999,
        is_secure: true,
        is_http_only: false,
        same_site: CookieSameSite::Lax,
    }
}

#[test]
fn bool_tokens() {
    assert_eq!(str_bool(true), "TRUE");
    assert_eq!(str_bool(false), "FALSE");
}

#[test]
fn plain_row_line() {
    let c = sample_cookie();
    assert_eq!(c.to_line(), "example.com\tFALSE\t/\tTRUE\t1999999999\tsid\tabc123");
}

#[test]
fn http_only_dotted_host_line() {
    let mut c = sample_cookie();
    c.host = String::from(".example.com");
    c.is_http_only = true;
    assert_eq!(c.to_line(), "#HttpOnly_.example.com\tTRUE\t/\tTRUE\t1999999999\tsid\tabc123");
}

#[test]
fn dotted_host_alone_sets_host_only() {
    let mut c = sample_cookie();
    c.host = String::from(".example.com");
    assert_eq!(c.to_line(), ".example.com\tTRUE\t/\tTRUE\t1999999999\tsid\tabc123");
}

#[test]
fn insecure_cookie_renders_false() {
    let mut c = sample_cookie();
    c.is_secure = false;
    assert_eq!(c.to_line(), "example.com\tFALSE\t/\tFALSE\t1999999999\tsid\tabc123");
}

#[test]
fn decimal_rendering() {
    assert_eq!(u64_to_dec(0), "0");
    assert_eq!(u64_to_dec(12345), "12345");
    assert_eq!(u64_to_dec(u64::MAX), "18446744073709551615");
    assert_eq!(i64_to_dec(0), "0");
    assert_eq!(i64_to_dec(1999999999), "1999999999");
    assert_eq!(i64_to_dec(-5), "-5");
    assert_eq!(i64_to_dec(i64::MAX), "9223372036854775807");
    assert_eq!(i64_to_dec(i64::MIN), "-9223372036854775808");
}

#[test]
fn negative_expiry_line() {
    let mut c = sample_cookie();
    c.expiry = -1;
    assert_eq!(c.to_line(), "example.com\tFALSE\t/\tTRUE\t-1\tsid\tabc123");
}

#[test]
fn empty_list_renders_header_only() {
    let txt = render_cookies_txt(&vec![]);
    assert_eq!(
        txt,
        "# Netscape HTTP Cookie File\n# https://curl.haxx.se/rfc/cookie_spec.html\n# This is a generated file! Do not edit.\n\n"
    );
}

#[test]
fn two_records_render_in_order() {
    let a = sample_cookie();
    let mut b = sample_cookie();
    b.host = String::from(".example.org");
    b.name = String::from("tok");
    b.value = String::from("xyz");
    let txt = render_cookies_txt(&vec![a.clone(), b.clone()]);
    let expected = format!(
        "# Netscape HTTP Cookie File\n# https://curl.haxx.se/rfc/cookie_spec.html\n# This is a generated file! Do not edit.\n\n{}\n{}\n",
        a.to_line(),
        b.to_line()
    );
    assert_eq!(txt, expected);
}
