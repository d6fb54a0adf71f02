//! The request-processing layers and their order: the health-check proxy
//! first, the cross-origin layer behind it.

use vstd::prelude::*;
use jsonrpsee::server::middleware::proxy_get_request::ProxyGetRequestLayer;
use tower::layer::util::{Identity, Stack};
use tower::ServiceBuilder;
use tower_http::cors::CorsLayer;
use crate::origins::{layer_origins, CrossOrigin, OriginPolicy};

verus! {

/// The builder of `tower` that stacks request layers.
#[verifier::external_type_specification]
#[verifier::external_body]
#[verifier::reject_recursive_types(L)]
pub struct ExServiceBuilder<L>(tower::ServiceBuilder<L>);

/// Two stacked layers of `tower`.
#[verifier::external_type_specification]
#[verifier::external_body]
#[verifier::reject_recursive_types(Inner)]
#[verifier::reject_recursive_types(Outer)]
pub struct ExStack<Inner, Outer>(tower::layer::util::Stack<Inner, Outer>);

/// The layer of `tower` that changes nothing.
#[verifier::external_type_specification]
#[verifier::external_body]
pub struct ExIdentity(tower::layer::util::Identity);

/// The layer of `jsonrpsee` that turns a `GET` request into a method call.
#[verifier::external_type_specification]
#[verifier::external_body]
pub struct ExProxyGetRequestLayer(
    jsonrpsee::server::middleware::proxy_get_request::ProxyGetRequestLayer,
);

/// The stack of the server's two layers.
pub type LayerStack = ServiceBuilder<Stack<CorsLayer, Stack<ProxyGetRequestLayer, Identity>>>;

/// The path that a proxy layer answers, and the method with whose result it
/// answers.
pub uninterp spec fn proxy_route(layer: ProxyGetRequestLayer) -> (Seq<char>, Seq<char>);

/// The route of the proxy layer of a stack, which a request passes first.
pub uninterp spec fn stack_route(stack: LayerStack) -> (Seq<char>, Seq<char>);

/// The origins that the cross-origin layer of a stack answers, which a
/// request passes behind the proxy layer.
pub uninterp spec fn stack_origins(stack: LayerStack) -> Option<Seq<Seq<u8>>>;

/// `ServiceBuilder::new` of `tower`: a builder without layers.
pub assume_specification[ ServiceBuilder::<Identity>::new ]() -> ServiceBuilder<Identity>;

/// `ServiceBuilder::layer` of `tower`, for each of the two layers: the
/// builder that holds both as they are given. A request passes the layer
/// that is added first before the one that is added second.
#[verifier::external_body]
fn with_layers(builder: ServiceBuilder<Identity>, first: ProxyGetRequestLayer, second: CorsLayer) -> (stack:
    LayerStack)
    ensures
        stack_route(stack) == proxy_route(first),
        stack_origins(stack) == layer_origins(second),
{
    builder.layer(first).layer(second)
}

/// `ProxyGetRequestLayer::new` of `jsonrpsee`: a layer that answers `GET`
/// requests for `path` with the result of `method`. It is refused exactly
/// where the path does not begin with a slash.
#[verifier::external_body]
fn proxy_get_request_layer(path: &str, method: &str) -> (made: Result<
    ProxyGetRequestLayer,
    jsonrpsee::core::Error,
>)
    ensures
        made is Ok <==> (path@.len() > 0 && path@[0] == '/'),
        made matches Ok(layer) ==> proxy_route(layer) == (path@, method@),
{
    ProxyGetRequestLayer::new(path, method)
}

/// The path of the health check.
pub open spec fn health_path() -> Seq<char> {
    "/health"@
}

/// The method that answers the health check.
pub open spec fn health_method() -> Seq<char> {
    "system_health"@
}

/// What one request layer does.
#[derive(Debug, Clone)]
pub enum Layer {
    /// A `GET` request for `path` is answered with the result of the
    /// method `method`.
    HealthProxy {
        /// The path of the request.
        path: &'static str,
        /// The method that is called.
        method: &'static str,
    },
    /// Requests are held to the cross-origin policy.
    CrossOrigin(OriginPolicy),
}

/// A layer by the texts it holds.
pub enum LayerView {
    /// The proxy of `path` to `method`.
    HealthProxy { path: Seq<char>, method: Seq<char> },
    /// The cross-origin policy: `None` for every origin, else the listed
    /// ones.
    CrossOrigin(Option<Seq<Seq<char>>>),
}

impl View for Layer {
    type V = LayerView;

    open spec fn view(&self) -> LayerView {
        match self {
            Layer::HealthProxy { path, method } => LayerView::HealthProxy {
                path: path@,
                method: method@,
            },
            Layer::CrossOrigin(policy) => LayerView::CrossOrigin(policy@),
        }
    }
}

/// The layers by the texts they hold.
pub open spec fn layer_views(layers: Seq<Layer>) -> Seq<LayerView> {
    Seq::new(layers.len(), |i: int| layers[i]@)
}

/// The layers of the server for a cross-origin policy, in the order in
/// which a request passes them.
pub open spec fn layers_for(policy: Option<Seq<Seq<char>>>) -> Seq<LayerView> {
    seq![
        LayerView::HealthProxy { path: health_path(), method: health_method() },
        LayerView::CrossOrigin(policy),
    ]
}

/// The request layers of a server: what they are, and the stack made of
/// them.
pub struct Middleware {
    /// The layers in the order in which a request passes them.
    pub layers: Vec<Layer>,
    /// The stack of the same layers, stacked in the same order.
    pub stack: LayerStack,
}

/// Stacks the server's layers: first the proxy that answers `GET /health`
/// with the result of `system_health`, behind it the cross-origin layer,
/// so that a health check is rewritten before any origin rule sees it.
///
/// The stack holds a proxy layer for that path and that method, and the
/// cross-origin layer that is given.
pub fn compose_middleware(cross_origin: CrossOrigin) -> (middleware: Middleware)
    ensures
        layer_views(middleware.layers@) == layers_for(cross_origin.policy@),
        stack_route(middleware.stack) == (health_path(), health_method()),
        stack_origins(middleware.stack) == layer_origins(cross_origin.layer),
{
    proof {
        reveal_strlit("/health");
    }
    let CrossOrigin { policy, layer } = cross_origin;
    let proxy = match proxy_get_request_layer("/health", "system_health") {
        Ok(proxy) => proxy,
        Err(_) => unreached(),
    };
    let stack = with_layers(ServiceBuilder::new(), proxy, layer);
    let mut layers: Vec<Layer> = Vec::new();
    layers.push(Layer::HealthProxy { path: "/health", method: "system_health" });
    layers.push(Layer::CrossOrigin(policy));
    assert(layer_views(layers@) =~= layers_for(cross_origin.policy@));
    Middleware { layers, stack }
}

} // verus!
