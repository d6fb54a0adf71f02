//! The bootstrap of a server up to the point where sockets are bound: the
//! settings that the configuration resolves to, and a server builder that
//! carries them.

use vstd::prelude::*;
use jsonrpsee::server::middleware::proxy_get_request::ProxyGetRequestLayer;
use jsonrpsee::server::{AllowHosts, ServerBuilder};
use jsonrpsee::RpcModule;
use std::time::Duration;
use tokio::runtime::Handle;
use tower::layer::util::{Identity, Stack};
use tower_http::cors::CorsLayer;
use crate::config::Config;
use vstd::utf8::encode_utf8;
use crate::hosts::{
    allowed_hosts, decimal_digits, format_allowed_hosts, lemma_foreign_host_rejected,
    localhost_entry, loopback_entry, HostAllowList,
};
use crate::middleware::{
    compose_middleware, health_method, health_path, layer_views, layers_for, stack_origins,
    stack_route, Layer, LayerStack, Middleware,
};
use crate::origins::{
    configured_origins, cross_origin, lemma_text_bytes_contains, origin_bytes, origin_error_fits,
    origins_accepted, OriginError,
};
use crate::registry::{is_enriched, listing_method, method_names, try_build_rpc_api};

verus! {

/// The server builder of `jsonrpsee`, with its layers and its logger.
#[verifier::external_type_specification]
#[verifier::external_body]
#[verifier::reject_recursive_types(B)]
#[verifier::reject_recursive_types(L)]
pub struct ExServerBuilder<B, L>(jsonrpsee::server::ServerBuilder<B, L>);

/// The `Host` header filter of `jsonrpsee`.
#[verifier::external_type_specification]
#[verifier::external_body]
pub struct ExAllowHosts(jsonrpsee::server::AllowHosts);

/// A handle to a runtime of `tokio`.
#[verifier::external_type_specification]
#[verifier::external_body]
pub struct ExRuntimeHandle(tokio::runtime::Handle);

/// The server builder with the two request layers.
pub type LayeredServerBuilder = ServerBuilder<
    Stack<CorsLayer, Stack<ProxyGetRequestLayer, Identity>>,
    (),
>;

/// The ceilings that a builder holds: request bytes, response bytes,
/// connections, subscriptions per connection.
pub uninterp spec fn builder_limits(builder: LayeredServerBuilder) -> (u32, u32, u32, u32);

/// The ping interval that a builder holds: its whole seconds and its
/// further nanoseconds.
pub uninterp spec fn builder_ping(builder: LayeredServerBuilder) -> (u64, u32);

/// The `Host` header filter that a builder holds: what `filter_hosts` says
/// of it.
pub uninterp spec fn builder_hosts(builder: LayeredServerBuilder) -> Option<Seq<Seq<char>>>;

/// The route of the proxy layer in the stack that a builder holds.
pub uninterp spec fn builder_route(builder: LayeredServerBuilder) -> (Seq<char>, Seq<char>);

/// The origins that the cross-origin layer answers in the stack that a
/// builder holds.
pub uninterp spec fn builder_origins(builder: LayeredServerBuilder) -> Option<Seq<Seq<u8>>>;

/// The hosts that a `Host` header filter passes: `None` where it passes
/// every host, else the host patterns that it holds, each as the text that
/// it dereferences to.
pub uninterp spec fn filter_hosts(filter: AllowHosts) -> Option<Seq<Seq<char>>>;

/// The text of the host pattern that `jsonrpsee` parses a text to.
pub uninterp spec fn parsed_host(text: Seq<char>) -> Seq<char>;

/// The whole seconds of a duration, and its further nanoseconds.
pub uninterp spec fn duration_parts(duration: Duration) -> (u64, u32);

/// What a server builder holds of that which this library sets.
pub struct BuilderState {
    /// The ceilings: request bytes, response bytes, connections,
    /// subscriptions per connection.
    pub limits: (u32, u32, u32, u32),
    /// The ping interval: whole seconds, further nanoseconds.
    pub ping: (u64, u32),
    /// The hosts that the `Host` header filter passes; `None` for every
    /// host.
    pub hosts: Option<Seq<Seq<char>>>,
    /// The path and the method of the proxy layer.
    pub route: (Seq<char>, Seq<char>),
    /// The origins that the cross-origin layer answers; `None` for every
    /// origin.
    pub origins: Option<Seq<Seq<u8>>>,
}

/// What `builder` holds.
pub open spec fn builder_state(builder: LayeredServerBuilder) -> BuilderState {
    BuilderState {
        limits: builder_limits(builder),
        ping: builder_ping(builder),
        hosts: builder_hosts(builder),
        route: builder_route(builder),
        origins: builder_origins(builder),
    }
}

/// The host pattern texts that `jsonrpsee` parses the texts to.
pub open spec fn parsed_hosts(list: Seq<Seq<char>>) -> Seq<Seq<char>> {
    Seq::new(list.len(), |i: int| parsed_host(list[i]))
}

/// `ServerBuilder::new` of `jsonrpsee`: a builder with the defaults.
pub assume_specification[ ServerBuilder::<Identity, ()>::new ]() -> ServerBuilder<Identity, ()>;

/// `Duration::from_secs`: a duration of that many whole seconds and
/// nothing more.
pub assume_specification[ Duration::from_secs ](secs: u64) -> (duration: Duration)
    ensures
        duration_parts(duration) == (secs, 0u32),
;

/// `ServerBuilder::set_middleware` of `jsonrpsee`: the builder with the
/// given stack as its request layers.
#[verifier::external_body]
fn with_middleware(builder: ServerBuilder<Identity, ()>, stack: LayerStack) -> (layered:
    LayeredServerBuilder)
    ensures
        builder_route(layered) == stack_route(stack),
        builder_origins(layered) == stack_origins(stack),
{
    builder.set_middleware(stack)
}

/// `ServerBuilder::max_request_body_size` of `jsonrpsee`: the builder with
/// the ceiling on a request body set, and all else as it was.
#[verifier::external_body]
fn with_max_request_body_size(builder: LayeredServerBuilder, size: u32) -> (configured:
    LayeredServerBuilder)
    ensures
        builder_state(configured) == (BuilderState {
            limits: (
                size,
                builder_limits(builder).1,
                builder_limits(builder).2,
                builder_limits(builder).3,
            ),
            ..builder_state(builder)
        }),
{
    builder.max_request_body_size(size)
}

/// `ServerBuilder::max_response_body_size` of `jsonrpsee`: the builder with
/// the ceiling on a response body set, and all else as it was.
#[verifier::external_body]
fn with_max_response_body_size(builder: LayeredServerBuilder, size: u32) -> (configured:
    LayeredServerBuilder)
    ensures
        builder_state(configured) == (BuilderState {
            limits: (
                builder_limits(builder).0,
                size,
                builder_limits(builder).2,
                builder_limits(builder).3,
            ),
            ..builder_state(builder)
        }),
{
    builder.max_response_body_size(size)
}

/// `ServerBuilder::max_connections` of `jsonrpsee`: the builder with the
/// ceiling on open connections set, and all else as it was.
#[verifier::external_body]
fn with_max_connections(builder: LayeredServerBuilder, max: u32) -> (configured:
    LayeredServerBuilder)
    ensures
        builder_state(configured) == (BuilderState {
            limits: (
                builder_limits(builder).0,
                builder_limits(builder).1,
                max,
                builder_limits(builder).3,
            ),
            ..builder_state(builder)
        }),
{
    builder.max_connections(max)
}

/// `ServerBuilder::max_subscriptions_per_connection` of `jsonrpsee`: the
/// builder with the ceiling on the subscriptions of one connection set, and
/// all else as it was.
#[verifier::external_body]
fn with_max_subscriptions_per_connection(builder: LayeredServerBuilder, max: u32) -> (configured:
    LayeredServerBuilder)
    ensures
        builder_state(configured) == (BuilderState {
            limits: (
                builder_limits(builder).0,
                builder_limits(builder).1,
                builder_limits(builder).2,
                max,
            ),
            ..builder_state(builder)
        }),
{
    builder.max_subscriptions_per_connection(max)
}

/// `ServerBuilder::ping_interval` of `jsonrpsee`: the builder with the
/// interval between two pings on a connection set, and all else as it was.
#[verifier::external_body]
fn with_ping_interval(builder: LayeredServerBuilder, interval: Duration) -> (configured:
    LayeredServerBuilder)
    ensures
        builder_ping(configured) == duration_parts(interval),
        builder_state(configured) == (BuilderState {
            ping: duration_parts(interval),
            ..builder_state(builder)
        }),
{
    builder.ping_interval(interval)
}

/// `ServerBuilder::set_host_filtering` of `jsonrpsee`: the builder with the
/// `Host` header filter set, and all else as it was.
#[verifier::external_body]
fn with_host_filtering(builder: LayeredServerBuilder, allow: AllowHosts) -> (configured:
    LayeredServerBuilder)
    ensures
        builder_hosts(configured) == filter_hosts(allow),
        builder_state(configured) == (BuilderState {
            hosts: filter_hosts(allow),
            ..builder_state(builder)
        }),
{
    builder.set_host_filtering(allow)
}

/// `ServerBuilder::custom_tokio_runtime` of `jsonrpsee`: the builder with
/// the runtime set on which the server's tasks will run, and all else as it
/// was.
#[verifier::external_body]
fn with_runtime(builder: LayeredServerBuilder, rt: Handle) -> (configured: LayeredServerBuilder)
    ensures
        builder_state(configured) == builder_state(builder),
{
    builder.custom_tokio_runtime(rt)
}

/// `AllowHosts::Only` of `jsonrpsee`, each entry made the host pattern that
/// `jsonrpsee` parses it to: the filter that passes a request only where
/// its `Host` header matches one of those patterns.
#[verifier::external_body]
fn allow_only(entries: &Vec<String>) -> (filter: AllowHosts)
    ensures
        filter_hosts(filter) == Some(
            Seq::new(entries@.len() as nat, |i: int| parsed_host(entries@[i]@)),
        ),
{
    AllowHosts::Only(entries.iter().map(|entry| entry.as_str().into()).collect())
}

/// The filter of `jsonrpsee` for an allow-list: it holds the host pattern
/// of each entry, in the order of the entries, and passes no other host.
pub fn host_filter(list: &HostAllowList) -> (filter: AllowHosts)
    ensures
        filter_hosts(filter) == Some(parsed_hosts(list@)),
{
    let filter = allow_only(&list.entries);
    assert(filter_hosts(filter)->0 =~= parsed_hosts(list@));
    filter
}

/// Seconds between two pings on an open connection.
pub const PING_INTERVAL_SECS: u64 = 30;

/// Length of the identifiers that the default identifier provider makes.
pub const DEFAULT_ID_LENGTH: usize = 16;

/// How identifiers of subscriptions are made.
#[derive(Debug)]
pub enum IdProviderStrategy<P> {
    /// Random integers.
    RandomInteger,
    /// Random strings of `len` characters.
    RandomString {
        /// The number of characters.
        len: usize,
    },
    /// A provider of the caller's own.
    Custom(P),
}

/// The strategy that the caller supplies, unchanged, or random strings of
/// 16 characters where the caller supplies none.
pub fn select_id_provider<P>(supplied: Option<IdProviderStrategy<P>>) -> (strategy:
    IdProviderStrategy<P>)
    ensures
        strategy == selected_id_provider(supplied),
{
    match supplied {
        Some(strategy) => strategy,
        None => IdProviderStrategy::RandomString { len: DEFAULT_ID_LENGTH },
    }
}

/// The strategy that `select_id_provider` selects.
pub open spec fn selected_id_provider<P>(supplied: Option<IdProviderStrategy<P>>) -> IdProviderStrategy<P> {
    match supplied {
        Some(strategy) => strategy,
        None => IdProviderStrategy::RandomString { len: DEFAULT_ID_LENGTH },
    }
}

/// Everything that a server is started with but its sockets, its runtime,
/// its identifier provider and its observer.
#[derive(Debug, Clone)]
pub struct ServerSettings {
    /// Ceiling on a request body, in bytes.
    pub max_request_body_size: u32,
    /// Ceiling on a response body, in bytes.
    pub max_response_body_size: u32,
    /// Ceiling on open connections.
    pub max_connections: u32,
    /// Ceiling on the subscriptions of one connection.
    pub max_subscriptions_per_connection: u32,
    /// Seconds between two pings on an open connection.
    pub ping_interval_secs: u64,
    /// The `Host` header values that are served.
    pub allowed_hosts: HostAllowList,
    /// The request layers in the order in which a request passes them.
    pub layers: Vec<Layer>,
}

impl ServerSettings {
    /// The ceilings: request bytes, response bytes, connections,
    /// subscriptions per connection.
    pub open spec fn limits(self) -> (u32, u32, u32, u32) {
        (
            self.max_request_body_size,
            self.max_response_body_size,
            self.max_connections,
            self.max_subscriptions_per_connection,
        )
    }

    /// Whether these are the settings of a server that is bound to `ports`
    /// and configured with `config` and the origins `configured`.
    pub open spec fn fits(
        self,
        ports: Seq<u16>,
        configured: Option<Seq<Seq<char>>>,
        config: Config,
    ) -> bool {
        &&& self.limits() == config.resolved()
        &&& self.ping_interval_secs == PING_INTERVAL_SECS
        &&& self.allowed_hosts@ == allowed_hosts(ports)
        &&& layer_views(self.layers@) == layers_for(configured)
    }
}

/// What the builder of a server holds that is bound to `ports` and
/// configured with `config` and the origins `configured`: the resolved
/// limits, a ping every 30 seconds, the host patterns of the allow-list, the
/// health-check route and the configured origins.
pub open spec fn prepared_state(
    ports: Seq<u16>,
    configured: Option<Seq<Seq<char>>>,
    config: Config,
) -> BuilderState {
    BuilderState {
        limits: config.resolved(),
        ping: (PING_INTERVAL_SECS, 0u32),
        hosts: Some(parsed_hosts(allowed_hosts(ports))),
        route: (health_path(), health_method()),
        origins: origin_bytes(configured),
    }
}

/// A server that is ready to be bound.
pub struct Bootstrap<P> {
    /// A record of what the builder was given.
    pub settings: ServerSettings,
    /// The builder that the server is made from. It holds the limits, the
    /// ping interval, the host filter and the request layers, and the
    /// runtime.
    pub builder: LayeredServerBuilder,
    /// How identifiers of subscriptions are made.
    pub id_provider: IdProviderStrategy<P>,
    /// The methods of the server, with the listing method.
    pub rpc_api: RpcModule<()>,
}

/// Why a server is not started.
#[derive(Debug)]
pub enum SetupError {
    /// The configured origins are refused.
    Origin(OriginError),
    /// The registry holds a method with the name of the listing method
    /// already. It comes back as it was.
    ListingNameTaken(RpcModule<()>),
}

/// Prepares a server for the given ports: resolves the limits, builds the
/// `Host` allow-list and the request layers, selects the identifier
/// provider, adds the listing method to the registry and configures a
/// server builder with the limits, the ping interval, the allow-list, the
/// layers and the runtime on which the server is to run.
///
/// The configured origins are looked at first: where they are refused the
/// error says why. Then the registry: where the name of the listing method
/// is taken nothing is added and the registry comes back.
pub fn prepare_server<P>(
    ports: &[u16],
    cors: Option<&Vec<String>>,
    config: Config,
    rpc_api: RpcModule<()>,
    rt: Handle,
    id_provider: Option<IdProviderStrategy<P>>,
) -> (outcome: Result<Bootstrap<P>, SetupError>)
    ensures
        match outcome {
            Ok(ready) => {
                &&& configured_origins(cors) matches Some(list) ==> origins_accepted(list)
                &&& !method_names(rpc_api).contains(listing_method())
                &&& builder_state(ready.builder) == prepared_state(
                    ports@,
                    configured_origins(cors),
                    config,
                )
                &&& ready.settings.fits(ports@, configured_origins(cors), config)
                &&& ready.id_provider == selected_id_provider(id_provider)
                &&& is_enriched(rpc_api, ready.rpc_api)
            },
            Err(SetupError::Origin(error)) => {
                &&& configured_origins(cors) matches Some(list) && origin_error_fits(list, error)
            },
            Err(SetupError::ListingNameTaken(unchanged)) => {
                &&& configured_origins(cors) matches Some(list) ==> origins_accepted(list)
                &&& method_names(rpc_api).contains(listing_method())
                &&& unchanged == rpc_api
            },
        },
{
    let (max_payload_in, max_payload_out, max_connections, max_subs_per_conn) =
        config.deconstruct();

    let cross = match cross_origin(cors) {
        Ok(cross) => cross,
        Err(error) => {
            return Err(SetupError::Origin(error));
        },
    };
    let Middleware { layers, stack } = compose_middleware(cross);

    let allowed = format_allowed_hosts(ports);

    let builder = with_middleware(ServerBuilder::new(), stack);
    let builder = with_max_request_body_size(builder, max_payload_in);
    let builder = with_max_response_body_size(builder, max_payload_out);
    let builder = with_max_connections(builder, max_connections);
    let builder = with_max_subscriptions_per_connection(builder, max_subs_per_conn);
    let builder = with_ping_interval(builder, Duration::from_secs(PING_INTERVAL_SECS));
    let builder = with_host_filtering(builder, host_filter(&allowed));
    let builder = with_runtime(builder, rt);

    let id_provider = select_id_provider(id_provider);

    let rpc_api = match try_build_rpc_api(rpc_api) {
        Ok(api) => api,
        Err(unchanged) => {
            return Err(SetupError::ListingNameTaken(unchanged));
        },
    };

    let settings = ServerSettings {
        max_request_body_size: max_payload_in,
        max_response_body_size: max_payload_out,
        max_connections,
        max_subscriptions_per_connection: max_subs_per_conn,
        ping_interval_secs: PING_INTERVAL_SECS,
        allowed_hosts: allowed,
        layers,
    };
    Ok(Bootstrap { settings, builder, id_provider, rpc_api })
}

/// A server's settings serve no `Host` header that names a host other than
/// `localhost` and `127.0.0.1`, whatever the port in the header, the ports
/// that the server is bound to, its limits and its cross-origin policy.
pub proof fn lemma_settings_reject_foreign_host(
    settings: ServerSettings,
    ports: Seq<u16>,
    configured: Option<Seq<Seq<char>>>,
    config: Config,
    name: Seq<char>,
    port: u16,
)
    requires
        settings.fits(ports, configured, config),
        name != "localhost"@,
        name != "127.0.0.1"@,
    ensures
        !settings.allowed_hosts@.contains(name + seq![':'] + decimal_digits(port as nat)),
{
    lemma_foreign_host_rejected(ports, name, port);
}

/// The builder of a prepared server holds the resolved limits, and a ping
/// interval of 30 seconds whatever is configured.
pub proof fn lemma_builder_holds_limits(
    builder: LayeredServerBuilder,
    ports: Seq<u16>,
    configured: Option<Seq<Seq<char>>>,
    config: Config,
)
    requires
        builder_state(builder) == prepared_state(ports, configured, config),
    ensures
        builder_limits(builder) == config.resolved(),
        builder_ping(builder) == (30u64, 0u32),
{
}

/// The proxy layer in the builder of a prepared server answers `/health`
/// with the result of `system_health`, whatever the origins and the limits
/// that are configured.
pub proof fn lemma_builder_routes_health_check(
    builder: LayeredServerBuilder,
    ports: Seq<u16>,
    configured: Option<Seq<Seq<char>>>,
    config: Config,
)
    requires
        builder_state(builder) == prepared_state(ports, configured, config),
    ensures
        builder_route(builder) == ("/health"@, "system_health"@),
{
}

/// The cross-origin layer in the builder of a prepared server answers
/// every origin exactly where no list is configured, and else holds the
/// bytes of an origin exactly where the origin is listed.
pub proof fn lemma_builder_answers_configured_origins(
    builder: LayeredServerBuilder,
    ports: Seq<u16>,
    configured: Option<Seq<Seq<char>>>,
    config: Config,
    origin: Seq<char>,
)
    requires
        builder_state(builder) == prepared_state(ports, configured, config),
    ensures
        builder_origins(builder) is None <==> configured is None,
        configured matches Some(list) ==> (builder_origins(builder)->0.contains(
            encode_utf8(origin),
        ) <==> list.contains(origin)),
{
    if let Some(list) = configured {
        lemma_text_bytes_contains(list, origin);
    }
}

/// The `Host` filter in the builder of a prepared server passes not every
/// host: it holds the host patterns of `localhost:<port>` and
/// `127.0.0.1:<port>` for each bound port and no other pattern, whatever
/// the origins that are configured.
pub proof fn lemma_builder_filters_hosts(
    builder: LayeredServerBuilder,
    ports: Seq<u16>,
    configured: Option<Seq<Seq<char>>>,
    config: Config,
    pattern: Seq<char>,
)
    requires
        builder_state(builder) == prepared_state(ports, configured, config),
    ensures
        builder_hosts(builder) matches Some(held) && (held.contains(pattern) <==> exists|i: int|
            0 <= i < ports.len() && (pattern == parsed_host(localhost_entry(#[trigger] ports[i]))
                || pattern == parsed_host(loopback_entry(ports[i])))),
{
    let list = allowed_hosts(ports);
    let held = parsed_hosts(list);
    if held.contains(pattern) {
        let k = choose|k: int| 0 <= k < held.len() && held[k] == pattern;
        assert(held[k] == parsed_host(list[k]));
        assert(list[k] == localhost_entry(ports[k / 2]) || list[k] == loopback_entry(
            ports[k / 2],
        ));
    }
    if exists|i: int|
        0 <= i < ports.len() && (pattern == parsed_host(localhost_entry(#[trigger] ports[i]))
            || pattern == parsed_host(loopback_entry(ports[i]))) {
        let i = choose|i: int|
            0 <= i < ports.len() && (pattern == parsed_host(localhost_entry(#[trigger] ports[i]))
                || pattern == parsed_host(loopback_entry(ports[i])));
        assert(held[2 * i] == parsed_host(list[2 * i]));
        assert(held[2 * i + 1] == parsed_host(list[2 * i + 1]));
    }
}

} // verus!
