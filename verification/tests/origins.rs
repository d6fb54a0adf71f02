use rpc_servers::origins::{cross_origin, OriginError, OriginPolicy};

fn origins(list: &[&str]) -> Vec<String> {
    list.iter().map(|origin| origin.to_string()).collect()
}

#[test]
fn no_list_answers_any_origin() {
    let cross = cross_origin(None).unwrap();
    assert!(matches!(cross.policy, OriginPolicy::Any));
    assert!(cross.policy.allows("https://b.example"));
    assert!(cross.policy.allows("null"));
    assert!(cross.policy.allows(""));
}

#[test]
fn explicit_list_answers_listed_origins_only() {
    let list = origins(&["https://a.example"]);
    let cross = cross_origin(Some(&list)).unwrap();
    assert!(cross.policy.allows("https://a.example"));
    assert!(!cross.policy.allows("https://b.example"));
}

#[test]
fn listed_origins_are_compared_as_a_whole() {
    let list = origins(&["https://a.example", "http://localhost:3000"]);
    let cross = cross_origin(Some(&list)).unwrap();
    assert!(cross.policy.allows("http://localhost:3000"));
    assert!(!cross.policy.allows("https://a.example/"));
    assert!(!cross.policy.allows("https://A.example"));
    assert!(!cross.policy.allows("https://a.example:443"));
    assert!(!cross.policy.allows("a.example"));
}

#[test]
fn policy_keeps_the_list_as_given() {
    let list = origins(&["https://b.example", "https://a.example", "https://b.example"]);
    let cross = cross_origin(Some(&list)).unwrap();
    match cross.policy {
        OriginPolicy::Only(listed) => assert_eq!(listed, list),
        OriginPolicy::Any => panic!("an explicit list gives no open policy"),
    }
}

#[test]
fn empty_list_answers_no_origin() {
    let list = origins(&[]);
    let cross = cross_origin(Some(&list)).unwrap();
    assert!(!cross.policy.allows("https://a.example"));
}

#[test]
fn malformed_origin_is_refused() {
    let list = origins(&["https://a.example", "https://b.example\n", "\u{7f}"]);
    match cross_origin(Some(&list)) {
        Err(OriginError::Malformed { index, source }) => {
            assert_eq!(index, 1);
            assert_eq!(source.to_string(), "failed to parse header value");
        },
        _ => panic!("a line feed cannot stand in a header value"),
    }
}

#[test]
fn control_characters_but_tab_are_malformed() {
    for bad in ["\u{0}", "\u{1f}", "\r", "\u{7f}"] {
        let list = origins(&[bad]);
        assert!(matches!(cross_origin(Some(&list)), Err(OriginError::Malformed { index: 0, .. })));
    }
    let list = origins(&["a\tb", " ", "~", "h\u{e9}llo"]);
    assert!(cross_origin(Some(&list)).is_ok());
}

#[test]
fn wildcard_in_a_list_is_refused() {
    let list = origins(&["https://a.example", "*", "*"]);
    assert!(matches!(cross_origin(Some(&list)), Err(OriginError::Wildcard { index: 1 })));
}

#[test]
fn malformed_origin_comes_before_wildcard() {
    let list = origins(&["*", "\n"]);
    assert!(matches!(cross_origin(Some(&list)), Err(OriginError::Malformed { index: 1, .. })));
}

#[test]
fn text_that_holds_an_asterisk_is_no_wildcard() {
    let list = origins(&["https://*.example", "**"]);
    let cross = cross_origin(Some(&list)).unwrap();
    assert!(cross.policy.allows("**"));
    assert!(!cross.policy.allows("*"));
}
