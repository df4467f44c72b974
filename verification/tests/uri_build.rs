use firefox_cookie::make_uri;

#[test]
fn plain_path_passes_through() {
    assert_eq!(
        make_uri("/home/user/.mozilla/firefox/abc/cookies.sqlite"),
        "file:/home/user/.mozilla/firefox/abc/cookies.sqlite?immutable=1"
    );
}

#[test]
fn hash_and_question_mark_are_escaped() {
    assert_eq!(make_uri("/tmp/a#b?c.sqlite"), "file:/tmp/a%23b%3fc.sqlite?immutable=1");
    assert_eq!(make_uri("##"), "file:%23%23?immutable=1");
    assert_eq!(make_uri("?"), "file:%3f?immutable=1");
}

#[test]
fn empty_path() {
    assert_eq!(make_uri(""), "file:?immutable=1");
}

#[test]
fn other_characters_are_kept() {
    assert_eq!(make_uri("/a b/%41/ü.sqlite"), "file:/a b/%41/ü.sqlite?immutable=1");
}
