//! The cross-origin policy: which `Origin` values the server answers, and
//! the request layer that enforces it.

use vstd::prelude::*;
use vstd::utf8::{encode_utf8, is_ascii_chars, is_ascii_chars_encode_utf8};
use http::header::{HeaderValue, InvalidHeaderValue};
use tower_http::cors::{AllowOrigin, CorsLayer};
use crate::text::{contains_text, lemma_texts_push, lemma_utf8_injective, texts};

verus! {

/// A parsed header value of the `http` crate.
#[verifier::external_type_specification]
#[verifier::external_body]
pub struct ExHeaderValue(http::header::HeaderValue);

/// The error with which the `http` crate refuses a header value.
#[verifier::external_type_specification]
#[verifier::external_body]
pub struct ExInvalidHeaderValue(http::header::InvalidHeaderValue);

/// The cross-origin layer of `tower_http`.
#[verifier::external_type_specification]
#[verifier::external_body]
pub struct ExCorsLayer(tower_http::cors::CorsLayer);

/// The origin rule of a cross-origin layer.
#[verifier::external_type_specification]
#[verifier::external_body]
pub struct ExAllowOrigin(tower_http::cors::AllowOrigin);

/// The bytes that a header value holds, as its `as_bytes` gives them.
pub uninterp spec fn header_value_bytes(value: HeaderValue) -> Seq<u8>;

/// The origins that an origin rule answers: `None` where it answers every
/// origin with the wildcard, and the bytes of each value of its list where
/// it is a list. Of a rule of another form nothing is stated.
pub uninterp spec fn rule_origins(rule: AllowOrigin) -> Option<Seq<Seq<u8>>>;

/// The origins that a cross-origin layer answers: those of its origin
/// rule.
pub uninterp spec fn layer_origins(layer: CorsLayer) -> Option<Seq<Seq<u8>>>;

/// The bytes of each of the header values.
pub open spec fn value_bytes(values: Seq<HeaderValue>) -> Seq<Seq<u8>> {
    Seq::new(values.len(), |i: int| header_value_bytes(values[i]))
}

/// The UTF-8 bytes of each of the texts.
pub open spec fn text_bytes(list: Seq<Seq<char>>) -> Seq<Seq<u8>> {
    Seq::new(list.len(), |i: int| encode_utf8(list[i]))
}

/// The origins that a layer for the configured origins answers: every
/// origin without a list, else the bytes of each listed origin.
pub open spec fn origin_bytes(configured: Option<Seq<Seq<char>>>) -> Option<Seq<Seq<u8>>> {
    match configured {
        None => None,
        Some(list) => Some(text_bytes(list)),
    }
}

/// A byte that may stand in a header value: not a control character, or a
/// tab.
pub open spec fn is_header_byte(b: u8) -> bool {
    (b >= 32 && b != 127) || b == 9
}

/// Whether `text` can be a header value: each byte of its UTF-8 form may
/// stand in one.
pub open spec fn is_header_text(text: Seq<char>) -> bool {
    forall|i: int|
        0 <= i < encode_utf8(text).len() ==> is_header_byte(#[trigger] encode_utf8(text)[i])
}

/// A character that may stand in a header value: not a control character,
/// or a tab.
pub open spec fn is_header_char(c: char) -> bool {
    (c >= ' ' && c != '\u{7f}') || c == '\t'
}

/// An ASCII text can be a header value exactly where each of its
/// characters may stand in one.
pub proof fn lemma_ascii_header_text(text: Seq<char>)
    requires
        is_ascii_chars(text),
    ensures
        is_header_text(text) <==> forall|i: int|
            0 <= i < text.len() ==> is_header_char(#[trigger] text[i]),
{
    is_ascii_chars_encode_utf8(text);
    let bytes = encode_utf8(text);
    assert forall|i: int| 0 <= i < text.len() implies is_header_char(text[i]) == is_header_byte(
        bytes[i],
    ) by {
        assert(text[i] as u8 == bytes[i]);
    }
    if is_header_text(text) {
        assert forall|i: int| 0 <= i < text.len() implies is_header_char(#[trigger] text[i]) by {
            assert(is_header_byte(bytes[i]));
        }
    }
}

/// The bytes of the wildcard `*`.
pub open spec fn wildcard_bytes() -> Seq<u8> {
    seq![42u8]
}

/// `HeaderValue::from_str` of the `http` crate. It succeeds exactly where
/// every byte of the string is at least 32 and not 127, or a tab, and the
/// value then holds the string's bytes.
pub assume_specification[ HeaderValue::from_str ](src: &str) -> (parsed: Result<
    HeaderValue,
    InvalidHeaderValue,
>)
    ensures
        parsed is Ok <==> is_header_text(src@),
        parsed matches Ok(value) ==> header_value_bytes(value) == encode_utf8(src@),
;

/// `CorsLayer::new` of `tower_http`: a layer whose origin rule is the empty
/// list, which answers no origin.
pub assume_specification[ CorsLayer::new ]() -> (layer: CorsLayer)
    ensures
        layer_origins(layer) == Some(Seq::<Seq<u8>>::empty()),
;

/// `AllowOrigin::any` of `tower_http`: the rule that answers every origin
/// with the wildcard.
pub assume_specification[ AllowOrigin::any ]() -> (rule: AllowOrigin)
    ensures
        rule_origins(rule) is None,
;

/// `AllowOrigin::list` of `tower_http`: the rule that answers the listed
/// origins, which it keeps as they are given. It panics on a list that
/// holds the wildcard.
#[verifier::external_body]
fn allow_origin_list(origins: Vec<HeaderValue>) -> (rule: AllowOrigin)
    requires
        forall|i: int|
            0 <= i < origins.len() ==> header_value_bytes(#[trigger] origins[i])
                != wildcard_bytes(),
    ensures
        rule_origins(rule) == Some(value_bytes(origins@)),
{
    AllowOrigin::list(origins)
}

/// `CorsLayer::allow_origin` of `tower_http`: the layer with its origin
/// rule replaced by the given one.
#[verifier::external_body]
fn with_allow_origin(layer: CorsLayer, rule: AllowOrigin) -> (configured: CorsLayer)
    ensures
        layer_origins(configured) == rule_origins(rule),
{
    layer.allow_origin(rule)
}

/// Which origins the server answers.
#[derive(Debug, Clone)]
pub enum OriginPolicy {
    /// Every origin.
    Any,
    /// The listed origins, each compared as a whole.
    Only(Vec<String>),
}

impl View for OriginPolicy {
    type V = Option<Seq<Seq<char>>>;

    /// `None` for every origin, else the listed ones.
    open spec fn view(&self) -> Option<Seq<Seq<char>>> {
        match self {
            OriginPolicy::Any => None,
            OriginPolicy::Only(list) => Some(texts(list@)),
        }
    }
}

impl OriginPolicy {
    /// Whether the policy answers a request of this origin.
    pub open spec fn permits(self, origin: Seq<char>) -> bool {
        match self@ {
            None => true,
            Some(list) => list.contains(origin),
        }
    }

    /// Whether a request with this `Origin` header is answered.
    pub fn allows(&self, origin: &str) -> (ok: bool)
        ensures
            ok == self.permits(origin@),
    {
        match self {
            OriginPolicy::Any => true,
            OriginPolicy::Only(list) => contains_text(list, origin),
        }
    }
}

/// The wildcard `*`, which stands for every origin and is itself none.
pub open spec fn wildcard() -> Seq<char> {
    seq!['*']
}

/// Only the wildcard has the wildcard's bytes.
pub proof fn lemma_wildcard_bytes(text: Seq<char>)
    ensures
        encode_utf8(text) == wildcard_bytes() <==> text == wildcard(),
{
    is_ascii_chars_encode_utf8(wildcard());
    assert(encode_utf8(wildcard()) =~= wildcard_bytes());
    if encode_utf8(text) == wildcard_bytes() {
        lemma_utf8_injective(text, wildcard());
    }
}

/// Why a list of origins gives no policy.
#[derive(Debug)]
pub enum OriginError {
    /// The origin at `index` cannot be a header value.
    Malformed {
        /// The place of the origin in the list.
        index: usize,
        /// The error of the header parser.
        source: InvalidHeaderValue,
    },
    /// Every origin can be a header value, and the one at `index` is the
    /// wildcard, which an explicit list cannot hold.
    Wildcard {
        /// The place of the wildcard in the list.
        index: usize,
    },
}

/// A cross-origin policy together with the layer that enforces it.
#[derive(Debug)]
pub struct CrossOrigin {
    /// The origins that are answered.
    pub policy: OriginPolicy,
    /// The request layer made for that policy.
    pub layer: CorsLayer,
}

impl CrossOrigin {
    /// Whether the layer answers exactly the origins of the policy.
    pub open spec fn wf(self) -> bool {
        layer_origins(self.layer) == origin_bytes(self.policy@)
    }
}

/// Whether `index` is the first place in `list` whose text cannot be a
/// header value.
pub open spec fn is_first_malformed(list: Seq<Seq<char>>, index: int) -> bool {
    &&& 0 <= index < list.len()
    &&& !is_header_text(list[index])
    &&& forall|j: int| 0 <= j < index ==> is_header_text(#[trigger] list[j])
}

/// Whether `index` is the first place in `list` that holds the wildcard.
pub open spec fn is_first_wildcard(list: Seq<Seq<char>>, index: int) -> bool {
    &&& 0 <= index < list.len()
    &&& list[index] == wildcard()
    &&& forall|j: int| 0 <= j < index ==> #[trigger] list[j] != wildcard()
}

/// Whether every text of `list` can be a header value.
pub open spec fn all_header_texts(list: Seq<Seq<char>>) -> bool {
    forall|j: int| 0 <= j < list.len() ==> is_header_text(#[trigger] list[j])
}

/// Whether a list of origins gives a policy: each can be a header value
/// and none is the wildcard.
pub open spec fn origins_accepted(list: Seq<Seq<char>>) -> bool {
    &&& all_header_texts(list)
    &&& !list.contains(wildcard())
}

/// Whether `error` is the one that `list` is refused with: the first
/// origin that cannot be a header value, or else the first wildcard.
pub open spec fn origin_error_fits(list: Seq<Seq<char>>, error: OriginError) -> bool {
    match error {
        OriginError::Malformed { index, source } => is_first_malformed(list, index as int),
        OriginError::Wildcard { index } => {
            &&& all_header_texts(list)
            &&& is_first_wildcard(list, index as int)
        },
    }
}

/// What a configured list of origins asks for: `None` where no list is
/// given.
pub open spec fn configured_origins(cors: Option<&Vec<String>>) -> Option<Seq<Seq<char>>> {
    match cors {
        None => None,
        Some(origins) => Some(texts(origins@)),
    }
}

/// What `cross_origin` returns for the configured origins: where there is
/// no list or the list is accepted, the policy that they ask for and a
/// layer that answers the same origins; else the error that fits the list.
pub open spec fn origins_outcome(
    configured: Option<Seq<Seq<char>>>,
    outcome: Result<CrossOrigin, OriginError>,
) -> bool {
    match outcome {
        Ok(cross) => {
            &&& configured matches Some(list) ==> origins_accepted(list)
            &&& cross.policy@ == configured
            &&& layer_origins(cross.layer) == origin_bytes(configured)
        },
        Err(error) => configured matches Some(list) && origin_error_fits(list, error),
    }
}

/// Builds the cross-origin policy and its layer. Without a list every
/// origin is answered. With a list exactly the listed origins are, and the
/// list is refused where an origin cannot be a header value, or else where
/// it holds the wildcard; the error names the first such origin.
pub fn cross_origin(cors: Option<&Vec<String>>) -> (outcome: Result<CrossOrigin, OriginError>)
    ensures
        origins_outcome(configured_origins(cors), outcome),
{
    match cors {
        None => Ok(
            CrossOrigin {
                policy: OriginPolicy::Any,
                layer: with_allow_origin(CorsLayer::new(), AllowOrigin::any()),
            },
        ),
        Some(origins) => {
            let ghost list = texts(origins@);
            let mut values: Vec<HeaderValue> = Vec::new();
            let mut listed: Vec<String> = Vec::new();
            let mut first_wildcard: Option<usize> = None;
            let mut i: usize = 0;
            while i < origins.len()
                invariant
                    i <= origins.len(),
                    cors == Some(origins),
                    list == texts(origins@),
                    values.len() == i,
                    texts(listed@) == list.take(i as int),
                    forall|j: int| 0 <= j < i ==> is_header_text(#[trigger] list[j]),
                    forall|j: int|
                        0 <= j < i ==> header_value_bytes(#[trigger] values[j]) == encode_utf8(
                            list[j],
                        ),
                    match first_wildcard {
                        Some(at) => at < i && is_first_wildcard(list, at as int),
                        None => forall|j: int| 0 <= j < i ==> #[trigger] list[j] != wildcard(),
                    },
                decreases origins.len() - i,
            {
                let origin = origins[i].as_str();
                assert(origin@ == list[i as int]);
                match HeaderValue::from_str(origin) {
                    Ok(value) => {
                        if first_wildcard.is_none() && is_wildcard(origin) {
                            first_wildcard = Some(i);
                        }
                        let ghost before = listed@;
                        values.push(value);
                        listed.push(origin.to_owned());
                        proof {
                            lemma_texts_push(before, listed@.last());
                            assert(list.take(i + 1) =~= list.take(i as int).push(list[i as int]));
                        }
                    },
                    Err(source) => {
                        return Err(OriginError::Malformed { index: i, source });
                    },
                }
                i += 1;
            }
            assert(list.take(i as int) =~= list);
            match first_wildcard {
                Some(index) => Err(OriginError::Wildcard { index }),
                None => {
                    proof {
                        assert forall|j: int| 0 <= j < values.len() implies header_value_bytes(
                            #[trigger] values[j],
                        ) != wildcard_bytes() by {
                            lemma_wildcard_bytes(list[j]);
                        }
                    }
                    assert(value_bytes(values@) =~= text_bytes(list));
                    let layer = with_allow_origin(CorsLayer::new(), allow_origin_list(values));
                    Ok(CrossOrigin { policy: OriginPolicy::Only(listed), layer })
                },
            }
        },
    }
}

/// Whether `text` is the wildcard.
fn is_wildcard(text: &str) -> (yes: bool)
    ensures
        yes == (text@ == wildcard()),
{
    let bytes = text.as_bytes();
    proof {
        lemma_wildcard_bytes(text@);
    }
    let yes = bytes.len() == 1 && bytes[0] == 42;
    assert(yes == (bytes@ =~= wildcard_bytes()));
    yes
}

/// Without a list of origins a request of any origin is answered; with a
/// list exactly the requests whose origin is listed are.
pub proof fn lemma_policy_permits(policy: OriginPolicy, origin: Seq<char>)
    ensures
        policy@ is None ==> policy.permits(origin),
        policy@ matches Some(list) ==> (policy.permits(origin) <==> list.contains(origin)),
{
}

/// The bytes of a text are among the bytes of a list of texts exactly
/// where the text is in the list.
pub proof fn lemma_text_bytes_contains(list: Seq<Seq<char>>, text: Seq<char>)
    ensures
        text_bytes(list).contains(encode_utf8(text)) <==> list.contains(text),
{
    let held = text_bytes(list);
    if held.contains(encode_utf8(text)) {
        let i = choose|i: int| 0 <= i < held.len() && held[i] == encode_utf8(text);
        lemma_utf8_injective(list[i], text);
    }
    if list.contains(text) {
        let i = choose|i: int| 0 <= i < list.len() && list[i] == text;
        assert(held[i] == encode_utf8(text));
    }
}

/// A layer that `cross_origin` made answers every origin exactly where no
/// list is configured, and else holds the bytes of an origin exactly where
/// the policy permits that origin.
pub proof fn lemma_layer_answers_as_policy(cross: CrossOrigin, origin: Seq<char>)
    requires
        cross.wf(),
    ensures
        layer_origins(cross.layer) is None <==> cross.policy@ is None,
        layer_origins(cross.layer) matches Some(held) ==> (held.contains(encode_utf8(origin))
            <==> cross.policy.permits(origin)),
{
    if let Some(list) = cross.policy@ {
        lemma_text_bytes_contains(list, origin);
    }
}

/// No list is accepted and refused at once: an error fits only a list
/// that holds an origin which cannot be a header value or is the wildcard.
pub proof fn lemma_refused_is_not_accepted(list: Seq<Seq<char>>, error: OriginError)
    requires
        origin_error_fits(list, error),
    ensures
        !origins_accepted(list),
{
    match error {
        OriginError::Malformed { index, source } => {},
        OriginError::Wildcard { index } => {
            assert(list.contains(list[index as int]));
        },
    }
}

} // verus!
