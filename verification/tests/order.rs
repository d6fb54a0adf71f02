use rpc_servers::order::comes_first;
use rpc_servers::text::contains_text;

#[test]
fn equal_texts_come_first_both_ways() {
    assert!(comes_first("", ""));
    assert!(comes_first("chain_getBlock", "chain_getBlock"));
}

#[test]
fn a_prefix_comes_before_its_extension() {
    assert!(comes_first("", "a"));
    assert!(!comes_first("a", ""));
    assert!(comes_first("state", "state_call"));
    assert!(!comes_first("state_call", "state"));
}

#[test]
fn the_first_differing_byte_decides() {
    assert!(comes_first("bar", "baz"));
    assert!(!comes_first("baz", "bar"));
    assert!(comes_first("baz", "foo"));
    assert!(comes_first("az", "b"));
    assert!(!comes_first("b", "az"));
}

#[test]
fn upper_case_comes_before_lower_case() {
    assert!(comes_first("Z", "a"));
    assert!(!comes_first("a", "Z"));
    assert!(comes_first("_", "a"));
    assert!(comes_first("9", "A"));
}

#[test]
fn text_beyond_ascii_is_ordered_by_its_bytes() {
    assert!(comes_first("z", "\u{e9}"));
    assert!(!comes_first("\u{e9}", "z"));
    assert!(comes_first("\u{e9}", "\u{20ac}"));
    assert!(comes_first("\u{ffff}", "\u{10000}"));
}

#[test]
fn order_agrees_with_the_standard_library() {
    let texts = ["", "a", "A", "ab", "b", "rpc_methods", "rpc", "\u{e9}", "~", "0", "a\u{0}"];
    for left in texts {
        for right in texts {
            assert_eq!(comes_first(left, right), left <= right);
        }
    }
}

#[test]
fn text_is_found_only_as_a_whole() {
    let list = vec!["localhost:9944".to_string(), "".to_string()];
    assert!(contains_text(&list, "localhost:9944"));
    assert!(contains_text(&list, ""));
    assert!(!contains_text(&list, "localhost"));
    assert!(!contains_text(&list, "localhost:99445"));
    assert!(!contains_text(&Vec::new(), ""));
}
