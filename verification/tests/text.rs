use ebts::text::str_eq;

#[test]
fn str_eq_accepts_equal_strings() {
    assert!(str_eq("", ""));
    assert!(str_eq("/search", "/search"));
    assert!(str_eq("caf\u{e9}", "caf\u{e9}"));
}

#[test]
fn str_eq_rejects_different_strings() {
    assert!(!str_eq("/search", "/searcH"));
    assert!(!str_eq("q", "Q"));
    assert!(!str_eq("e\u{301}", "\u{e9}"));
}

#[test]
fn str_eq_rejects_a_proper_prefix() {
    assert!(!str_eq("/", "/js"));
    assert!(!str_eq("/js", "/"));
    assert!(!str_eq("", "q"));
}
