use jsonrpsee::RpcModule;
use rpc_servers::listing::sort_names;
use rpc_servers::registry::{build_rpc_api, methods_reply, try_build_rpc_api};

fn registry(names: &[&'static str]) -> RpcModule<()> {
    let mut module = RpcModule::new(());
    for name in names.iter().copied() {
        module.register_method(name, move |_, _| Ok(name)).unwrap();
    }
    module
}

fn call(module: &RpcModule<()>, method: &str) -> serde_json::Value {
    let runtime = tokio::runtime::Builder::new_current_thread().build().unwrap();
    runtime.block_on(module.call(method, jsonrpsee::core::params::ArrayParams::new())).unwrap()
}

fn methods_object(names: &[&str]) -> serde_json::Value {
    let names = names.iter().map(|name| serde_json::Value::from(*name)).collect();
    let mut object = serde_json::Map::new();
    object.insert("methods".to_string(), serde_json::Value::Array(names));
    serde_json::Value::Object(object)
}

#[test]
fn listing_is_sorted_whatever_the_registration_order() {
    let orders: [[&'static str; 3]; 6] = [
        ["foo", "bar", "baz"],
        ["foo", "baz", "bar"],
        ["bar", "foo", "baz"],
        ["bar", "baz", "foo"],
        ["baz", "foo", "bar"],
        ["baz", "bar", "foo"],
    ];
    for order in orders {
        let api = build_rpc_api(registry(&order));
        assert_eq!(call(&api, "rpc_methods"), methods_object(&["bar", "baz", "foo"]));
    }
}

#[test]
fn listing_answer_is_one_object_with_one_field() {
    let api = build_rpc_api(registry(&["foo", "bar", "baz"]));
    let answer = call(&api, "rpc_methods");
    assert_eq!(answer.to_string(), r#"{"methods":["bar","baz","foo"]}"#);
}

#[test]
fn listing_method_is_added_and_others_are_kept() {
    let api = build_rpc_api(registry(&["foo", "bar"]));
    let mut names: Vec<&str> = api.method_names().collect();
    names.sort_unstable();
    assert_eq!(names, vec!["bar", "foo", "rpc_methods"]);
    assert_eq!(call(&api, "foo"), serde_json::Value::from("foo"));
}

#[test]
fn listing_does_not_name_itself() {
    let api = build_rpc_api(registry(&["state_call"]));
    assert_eq!(call(&api, "rpc_methods"), methods_object(&["state_call"]));
}

#[test]
fn listing_is_a_snapshot() {
    let mut api = build_rpc_api(registry(&["foo"]));
    api.register_method("later", |_, _| Ok(1u8)).unwrap();
    assert_eq!(call(&api, "later"), serde_json::Value::from(1u8));
    assert_eq!(call(&api, "rpc_methods"), methods_object(&["foo"]));
}

#[test]
fn empty_registry_lists_nothing() {
    let api = build_rpc_api(registry(&[]));
    assert_eq!(call(&api, "rpc_methods"), methods_object(&[]));
    assert_eq!(call(&api, "rpc_methods").to_string(), r#"{"methods":[]}"#);
}

#[test]
fn taken_listing_name_is_not_overwritten() {
    let module = registry(&["foo", "rpc_methods"]);
    match try_build_rpc_api(module) {
        Err(unchanged) => {
            let mut names: Vec<&str> = unchanged.method_names().collect();
            names.sort_unstable();
            assert_eq!(names, vec!["foo", "rpc_methods"]);
            assert_eq!(call(&unchanged, "rpc_methods"), serde_json::Value::from("rpc_methods"));
        },
        Ok(_) => panic!("the name of the listing method was taken"),
    }
}

#[test]
fn free_listing_name_is_registered() {
    match try_build_rpc_api(registry(&["foo", "bar", "baz"])) {
        Ok(api) => {
            assert_eq!(call(&api, "rpc_methods"), methods_object(&["bar", "baz", "foo"]));
        },
        Err(_) => panic!("the name of the listing method was free"),
    }
}

#[test]
fn names_sort_by_their_bytes() {
    let sorted = sort_names(vec!["b", "a", "B", "aa", "", "a_b", "a1", "\u{e9}", "z", "a"]);
    assert_eq!(sorted, vec!["", "B", "a", "a", "a1", "a_b", "aa", "b", "z", "\u{e9}"]);
}

#[test]
fn sorting_agrees_with_the_standard_library() {
    let names = vec![
        "system_health", "chain_getBlock", "state_call", "author_submitExtrinsic", "system_name",
        "chain_getHeader", "state_getStorage", "rpc", "system", "Chain", "chain", "", "~",
    ];
    let mut expected = names.clone();
    expected.sort_unstable();
    assert_eq!(sort_names(names), expected);
}

#[test]
fn reply_holds_the_listing_under_methods() {
    let reply = methods_reply(&vec!["a", "b"]).unwrap();
    assert_eq!(reply, methods_object(&["a", "b"]));
}
