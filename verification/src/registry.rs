//! The method registry and the one method that the server adds to it: the
//! listing of all the others.

use vstd::prelude::*;
use jsonrpsee::RpcModule;
use crate::listing::{
    is_listing_of, lemma_listing_unique, lemma_sorted_names_are_listing, sort_names,
};
use crate::text::strs;

verus! {

/// A set of registered methods of `jsonrpsee`, with the context that its
/// handlers share.
#[verifier::external_type_specification]
#[verifier::external_body]
#[verifier::reject_recursive_types(Context)]
pub struct ExRpcModule<Context>(jsonrpsee::RpcModule<Context>);

/// The error type of `jsonrpsee`.
#[verifier::external_type_specification]
#[verifier::external_body]
pub struct ExRpcError(jsonrpsee::core::Error);

/// A JSON value of `serde_json`.
#[verifier::external_type_specification]
#[verifier::external_body]
pub struct ExJsonValue(serde_json::Value);

/// The names under which methods are registered on a module.
pub uninterp spec fn method_names(api: RpcModule<()>) -> Set<Seq<char>>;

/// The listing methods of a module, each with the listing that it answers
/// with: a method is among them where its handler answers every call with
/// `methods_reply` of that listing.
pub uninterp spec fn listings(api: RpcModule<()>) -> Map<Seq<char>, Seq<Seq<char>>>;

/// The fields of a JSON object all of whose fields are arrays of strings,
/// each field's name with its strings; `None` for any other JSON value.
pub uninterp spec fn string_arrays(value: serde_json::Value) -> Option<
    Map<Seq<char>, Seq<Seq<char>>>,
>;

/// The name of the method that lists the others.
pub open spec fn listing_method() -> Seq<char> {
    "rpc_methods"@
}

/// `Methods::method_names` of `jsonrpsee`, collected: the registered names,
/// each once, in the order in which the module's table holds them.
#[verifier::external_body]
fn collect_method_names(api: &RpcModule<()>) -> (names: Vec<&'static str>)
    ensures
        strs(names@).no_duplicates(),
        strs(names@).to_set() == method_names(*api),
{
    api.method_names().collect()
}

/// `Methods::method` of `jsonrpsee`: whether a method of this name is
/// registered.
#[verifier::external_body]
fn has_method(api: &RpcModule<()>, name: &str) -> (found: bool)
    ensures
        found == method_names(*api).contains(name@),
{
    api.method(name).is_some()
}

/// `RpcModule::register_method` of `jsonrpsee`, with a handler that answers
/// every call with `methods_reply` of the given listing. The method is
/// added where its name is free; where the name is taken the call fails and
/// the module keeps its methods.
#[verifier::external_body]
fn register_listing(api: &mut RpcModule<()>, name: &'static str, listing: &Vec<&'static str>) -> (done:
    Result<(), jsonrpsee::core::Error>)
    ensures
        done is Ok <==> !method_names(*old(api)).contains(name@),
        done is Ok ==> method_names(*final(api)) == method_names(*old(api)).insert(name@),
        done is Ok ==> listings(*final(api)) == listings(*old(api)).insert(name@, strs(listing@)),
        done is Err ==> method_names(*final(api)) == method_names(*old(api)),
        done is Err ==> listings(*final(api)) == listings(*old(api)),
{
    let listing = listing.clone();
    api.register_method(name, move |_, _| methods_reply(&listing)).map(|_| ())
}

/// A JSON object with one field, which holds the given strings as an array:
/// `serde_json::Map::insert` of the array under the key, into an empty map.
#[verifier::external_body]
fn object_with_array(key: &str, items: &Vec<&'static str>) -> (object: serde_json::Value)
    ensures
        string_arrays(object) == Some(map![key@ => strs(items@)]),
{
    let mut fields = serde_json::Map::new();
    fields.insert(key.to_owned(), serde_json::Value::from(items.clone()));
    serde_json::Value::Object(fields)
}

/// What the listing method answers with: an object with the one field
/// `methods`, which holds the listing.
pub open spec fn reply_fields(listing: Seq<Seq<char>>) -> Map<Seq<char>, Seq<Seq<char>>> {
    map!["methods"@ => listing]
}

/// The answer of the listing method: an object whose one field `methods`
/// holds the listing.
pub fn methods_reply(listing: &Vec<&'static str>) -> (reply: Result<
    serde_json::Value,
    jsonrpsee::core::Error,
>)
    ensures
        reply matches Ok(object) && string_arrays(object) == Some(reply_fields(strs(listing@))),
{
    Ok(object_with_array("methods", listing))
}

/// Whether `after` is `before` with the listing method added: the names are
/// those of `before` and `rpc_methods`, `rpc_methods` answers with the
/// listing of the names of `before`, and every other listing method answers
/// as before.
pub open spec fn is_enriched(before: RpcModule<()>, after: RpcModule<()>) -> bool {
    &&& method_names(after) == method_names(before).insert(listing_method())
    &&& listings(after).contains_key(listing_method())
    &&& is_listing_of(listings(after)[listing_method()], method_names(before))
    &&& listings(after) == listings(before).insert(
        listing_method(),
        listings(after)[listing_method()],
    )
}

/// What `try_build_rpc_api` returns for a registry: the enriched registry
/// where the name of the listing method is free, and the registry itself,
/// as an error, where the name is taken.
pub open spec fn enrichment_outcome(
    rpc_api: RpcModule<()>,
    outcome: Result<RpcModule<()>, RpcModule<()>>,
) -> bool {
    match outcome {
        Ok(enriched) => {
            &&& !method_names(rpc_api).contains(listing_method())
            &&& is_enriched(rpc_api, enriched)
        },
        Err(unchanged) => {
            &&& method_names(rpc_api).contains(listing_method())
            &&& unchanged == rpc_api
        },
    }
}

/// Adds the listing method `rpc_methods` to a registry. The listing is
/// taken once, before the method is added, and holds the names in
/// ascending order.
pub fn build_rpc_api(rpc_api: RpcModule<()>) -> (enriched: RpcModule<()>)
    requires
        !method_names(rpc_api).contains(listing_method()),
    ensures
        is_enriched(rpc_api, enriched),
{
    let mut module = rpc_api;
    let names = collect_method_names(&module);
    let ghost unsorted = strs(names@);
    let available_methods = sort_names(names);
    proof {
        lemma_sorted_names_are_listing(unsorted, strs(available_methods@));
    }
    match register_listing(&mut module, "rpc_methods", &available_methods) {
        Ok(()) => module,
        Err(_) => unreached(),
    }
}

/// Adds the listing method where its name is free, and hands the registry
/// back as it was where the name is taken.
pub fn try_build_rpc_api(rpc_api: RpcModule<()>) -> (outcome: Result<RpcModule<()>, RpcModule<()>>)
    ensures
        enrichment_outcome(rpc_api, outcome),
{
    if has_method(&rpc_api, "rpc_methods") {
        Err(rpc_api)
    } else {
        Ok(build_rpc_api(rpc_api))
    }
}

/// A method that is registered under the name of the listing method is
/// never replaced: for a registry that holds the name, the only outcome is
/// the registry itself, handed back as an error, with the names and the
/// listing methods that it had.
pub proof fn lemma_taken_name_is_never_overwritten(
    rpc_api: RpcModule<()>,
    outcome: Result<RpcModule<()>, RpcModule<()>>,
)
    requires
        method_names(rpc_api).contains(listing_method()),
        enrichment_outcome(rpc_api, outcome),
    ensures
        outcome matches Err(unchanged) && unchanged == rpc_api && method_names(unchanged)
            == method_names(rpc_api) && listings(unchanged) == listings(rpc_api),
{
}

/// Two registries that hold the same names answer with the same listing
/// once the listing method is added, in whatever order their methods were
/// registered.
pub proof fn lemma_listing_ignores_registration_order(
    first: RpcModule<()>,
    first_enriched: RpcModule<()>,
    second: RpcModule<()>,
    second_enriched: RpcModule<()>,
)
    requires
        is_enriched(first, first_enriched),
        is_enriched(second, second_enriched),
        method_names(first) == method_names(second),
    ensures
        listings(first_enriched)[listing_method()] == listings(second_enriched)[listing_method()],
{
    lemma_listing_unique(
        listings(first_enriched)[listing_method()],
        listings(second_enriched)[listing_method()],
        method_names(first),
    );
}

} // verus!
