use music_manager::change_forbidden_chars;

#[test]
fn passes_ordinary_names_through() {
    assert_eq!(change_forbidden_chars("Discovery"), "Discovery");
    assert_eq!(change_forbidden_chars(""), "");
    assert_eq!(change_forbidden_chars("Daft Punk"), "Daft Punk");
}

#[test]
fn replaces_each_reserved_character() {
    assert_eq!(change_forbidden_chars("a/b"), "a\u{2044}b");
    assert_eq!(change_forbidden_chars("a>b"), "a\u{FF1E}b");
    assert_eq!(change_forbidden_chars("a<b"), "a\u{FF1C}b");
    assert_eq!(change_forbidden_chars("a\\b"), "a\u{FF3C}b");
    assert_eq!(change_forbidden_chars("a|b"), "a\u{FF5C}b");
    assert_eq!(change_forbidden_chars("a?b"), "a\u{FF1F}b");
    assert_eq!(change_forbidden_chars("a*b"), "a\u{FF0A}b");
    assert_eq!(change_forbidden_chars("a:b"), "a\u{A789}b");
}

#[test]
fn replaces_quote_with_plain_apostrophe() {
    assert_eq!(change_forbidden_chars("a\"b\"c"), "a'b'c");
}

#[test]
fn sanitizes_a_full_title() {
    assert_eq!(
        change_forbidden_chars("AC/DC: Back in Black?"),
        "AC\u{2044}DC\u{A789} Back in Black\u{FF1F}"
    );
}

#[test]
fn is_idempotent() {
    let inputs = ["plain", "a/b:c*d", "\"quoted\"", "mixed / <odd> | name?"];
    for input in inputs {
        let once = change_forbidden_chars(input);
        let twice = change_forbidden_chars(&once);
        assert_eq!(twice, once);
    }
}

#[test]
fn is_deterministic_across_calls() {
    let input = "The Dark Side / of: the Moon*";
    assert_eq!(change_forbidden_chars(input), change_forbidden_chars(input));
}
