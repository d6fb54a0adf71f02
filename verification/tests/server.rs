use jsonrpsee::RpcModule;
use rpc_servers::config::Config;
use rpc_servers::middleware::Layer;
use rpc_servers::origins::{OriginError, OriginPolicy};
use rpc_servers::server::{
    prepare_server, select_id_provider, Bootstrap, IdProviderStrategy, SetupError,
    DEFAULT_ID_LENGTH, PING_INTERVAL_SECS,
};

fn no_limits() -> Config {
    Config {
        max_connections: None,
        max_subs_per_conn: None,
        max_payload_in_mb: None,
        max_payload_out_mb: None,
    }
}

fn registry(names: &[&'static str]) -> RpcModule<()> {
    let mut module = RpcModule::new(());
    for name in names.iter().copied() {
        module.register_method(name, move |_, _| Ok(name)).unwrap();
    }
    module
}

fn origins(list: &[&str]) -> Vec<String> {
    list.iter().map(|origin| origin.to_string()).collect()
}

fn handle() -> tokio::runtime::Handle {
    tokio::runtime::Builder::new_current_thread().build().unwrap().handle().clone()
}

fn prepared(
    ports: &[u16],
    cors: Option<&Vec<String>>,
    config: Config,
    names: &[&'static str],
) -> Bootstrap<u8> {
    match prepare_server(ports, cors, config, registry(names), handle(), None) {
        Ok(ready) => ready,
        Err(_) => panic!("the server should have been prepared"),
    }
}

#[test]
fn settings_default_where_nothing_is_configured() {
    let ready = prepared(&[9944, 9945], None, no_limits(), &["foo"]);
    let settings = &ready.settings;
    assert_eq!(settings.max_request_body_size, 15 * 1024 * 1024);
    assert_eq!(settings.max_response_body_size, 15 * 1024 * 1024);
    assert_eq!(settings.max_connections, 100);
    assert_eq!(settings.max_subscriptions_per_connection, 1024);
    assert_eq!(settings.ping_interval_secs, 30);
    assert_eq!(PING_INTERVAL_SECS, 30);
    assert_eq!(
        settings.allowed_hosts.entries,
        vec!["localhost:9944", "127.0.0.1:9944", "localhost:9945", "127.0.0.1:9945"]
    );
}

#[test]
fn settings_carry_the_configured_limits() {
    let config = Config {
        max_connections: Some(5),
        max_subs_per_conn: Some(6),
        max_payload_in_mb: Some(1),
        max_payload_out_mb: Some(5000),
    };
    let ready = prepared(&[1], None, config, &[]);
    assert_eq!(ready.settings.max_request_body_size, 1_048_576);
    assert_eq!(ready.settings.max_response_body_size, u32::MAX);
    assert_eq!(ready.settings.max_connections, 5);
    assert_eq!(ready.settings.max_subscriptions_per_connection, 6);
}

#[test]
fn health_proxy_stands_before_cross_origin_layer() {
    let list = origins(&["https://a.example"]);
    let ready = prepared(&[9944], Some(&list), no_limits(), &[]);
    let layers = &ready.settings.layers;
    assert_eq!(layers.len(), 2);
    match &layers[0] {
        Layer::HealthProxy { path, method } => {
            assert_eq!(*path, "/health");
            assert_eq!(*method, "system_health");
        },
        Layer::CrossOrigin(_) => panic!("the health proxy is the first layer"),
    }
    match &layers[1] {
        Layer::CrossOrigin(OriginPolicy::Only(listed)) => assert_eq!(*listed, list),
        _ => panic!("the cross-origin layer is the second layer"),
    }
}

#[test]
fn open_policy_where_no_origins_are_configured() {
    let ready = prepared(&[9944], None, no_limits(), &[]);
    assert!(matches!(ready.settings.layers[1], Layer::CrossOrigin(OriginPolicy::Any)));
}

#[test]
fn identifiers_default_to_random_strings_of_sixteen() {
    let ready = prepared(&[9944], None, no_limits(), &[]);
    assert!(matches!(ready.id_provider, IdProviderStrategy::RandomString { len: 16 }));
    assert_eq!(DEFAULT_ID_LENGTH, 16);
    assert!(matches!(
        select_id_provider::<u8>(None),
        IdProviderStrategy::RandomString { len: 16 }
    ));
}

#[test]
fn supplied_identifier_strategy_is_kept() {
    assert!(matches!(
        select_id_provider(Some(IdProviderStrategy::Custom(7u8))),
        IdProviderStrategy::Custom(7)
    ));
    assert!(matches!(
        select_id_provider::<u8>(Some(IdProviderStrategy::RandomInteger)),
        IdProviderStrategy::RandomInteger
    ));
    assert!(matches!(
        select_id_provider::<u8>(Some(IdProviderStrategy::RandomString { len: 32 })),
        IdProviderStrategy::RandomString { len: 32 }
    ));
    let supplied = Some(IdProviderStrategy::Custom("mine"));
    match prepare_server(&[9944], None, no_limits(), registry(&[]), handle(), supplied) {
        Ok(ready) => assert!(matches!(ready.id_provider, IdProviderStrategy::Custom("mine"))),
        Err(_) => panic!("the server should have been prepared"),
    }
}

#[test]
fn prepared_registry_lists_the_methods() {
    let ready = prepared(&[9944], None, no_limits(), &["foo", "bar", "baz"]);
    let runtime = tokio::runtime::Builder::new_current_thread().build().unwrap();
    let call = ready.rpc_api.call("rpc_methods", jsonrpsee::core::params::ArrayParams::new());
    let answer: serde_json::Value = runtime.block_on(call).unwrap();
    assert_eq!(answer.to_string(), r#"{"methods":["bar","baz","foo"]}"#);
}

#[test]
fn malformed_origin_stops_the_preparation() {
    let list = origins(&["https://a.example", "bad\norigin"]);
    let outcome = prepare_server::<u8>(&[9944], Some(&list), no_limits(), registry(&[]), handle(), None);
    assert!(matches!(
        outcome,
        Err(SetupError::Origin(OriginError::Malformed { index: 1, .. }))
    ));
}

#[test]
fn wildcard_origin_stops_the_preparation() {
    let list = origins(&["*"]);
    let outcome = prepare_server::<u8>(&[9944], Some(&list), no_limits(), registry(&[]), handle(), None);
    assert!(matches!(outcome, Err(SetupError::Origin(OriginError::Wildcard { index: 0 }))));
}

#[test]
fn taken_listing_name_stops_the_preparation() {
    let module = registry(&["rpc_methods", "foo"]);
    match prepare_server::<u8>(&[9944], None, no_limits(), module, handle(), None) {
        Err(SetupError::ListingNameTaken(unchanged)) => {
            assert_eq!(unchanged.method_names().count(), 2);
        },
        _ => panic!("the name of the listing method was taken"),
    }
}

#[test]
fn refused_origins_are_reported_before_a_taken_name() {
    let list = origins(&["\n"]);
    let module = registry(&["rpc_methods"]);
    let outcome = prepare_server::<u8>(&[9944], Some(&list), no_limits(), module, handle(), None);
    assert!(matches!(outcome, Err(SetupError::Origin(_))));
}

fn shown(ready: &Bootstrap<u8>) -> String {
    format!("{:?}", ready.builder)
}

#[test]
fn builder_holds_the_default_limits_and_the_ping_interval() {
    let ready = prepared(&[9944], None, no_limits(), &[]);
    let builder = shown(&ready);
    assert!(builder.contains("max_request_body_size: 15728640,"));
    assert!(builder.contains("max_response_body_size: 15728640,"));
    assert!(builder.contains("max_connections: 100,"));
    assert!(builder.contains("max_subscriptions_per_connection: 1024,"));
    assert!(builder.contains("ping_interval: 30s,"));
}

#[test]
fn builder_holds_the_configured_limits() {
    let config = Config {
        max_connections: Some(5),
        max_subs_per_conn: Some(6),
        max_payload_in_mb: Some(1),
        max_payload_out_mb: Some(5000),
    };
    let ready = prepared(&[1], None, config, &[]);
    let builder = shown(&ready);
    assert!(builder.contains("max_request_body_size: 1048576,"));
    assert!(builder.contains("max_response_body_size: 4294967295,"));
    assert!(builder.contains("max_connections: 5,"));
    assert!(builder.contains("max_subscriptions_per_connection: 6,"));
    assert!(builder.contains("ping_interval: 30s,"));
}

#[test]
fn builder_filters_hosts_by_the_allow_list() {
    let ready = prepared(&[9944, 9933], None, no_limits(), &[]);
    let builder = shown(&ready);
    assert!(builder.contains("allow_hosts: Only("));
    for entry in &ready.settings.allowed_hosts.entries {
        assert!(builder.contains(&format!("host_with_port: {:?}", entry)));
    }
    assert_eq!(builder.matches("host_with_port: ").count(), 4);
    assert!(!builder.contains("attacker"));
}

#[test]
fn builder_holds_the_health_proxy_before_the_origin_layer() {
    let list = origins(&["https://a.example"]);
    let ready = prepared(&[9944], Some(&list), no_limits(), &[]);
    let builder = shown(&ready);
    let proxy = builder.find(r#"ProxyGetRequestLayer { path: "/health", method: "system_health" }"#);
    let cors = builder.find("CorsLayer {");
    assert!(proxy.is_some());
    assert!(cors.is_some());
    assert!(builder.contains(r#"allow_origin: List(["https://a.example"])"#));
}

#[test]
fn builder_answers_every_origin_without_a_list() {
    let ready = prepared(&[9944], None, no_limits(), &[]);
    assert!(shown(&ready).contains(r#"allow_origin: Const("*")"#));
}

#[test]
fn builder_holds_the_runtime() {
    let ready = prepared(&[9944], None, no_limits(), &[]);
    assert!(shown(&ready).contains("tokio_runtime: Some("));
}
