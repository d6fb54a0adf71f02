//! The command that replays a runtime upgrade on a state: the runtime call
//! that it makes, and the weights that it reads from the call's answer.

use vstd::prelude::*;

verus! {

/// The decoding error of `parity_scale_codec`.
#[verifier::external_type_specification]
#[verifier::external_body]
pub struct ExCodecError(parity_scale_codec::Error);

/// Configurations of the command, for a source of state `S`.
#[derive(Debug, Clone)]
pub struct OnRuntimeUpgradeCmd<S> {
    /// The state type to use.
    pub state: S,
    /// Execute `try_state`, `pre_upgrade` and `post_upgrade` checks as well.
    ///
    /// This will perform more checks, but it will also makes the reported
    /// PoV/Weight be inaccurate.
    pub checks: bool,
}

/// A call into the runtime: a method and its encoded argument.
#[derive(Debug, Clone)]
pub struct RuntimeCall {
    /// The runtime method.
    pub method: &'static str,
    /// The SCALE encoding of the argument.
    pub data: Vec<u8>,
}

/// A weight: computation time on reference hardware, in picoseconds, and
/// the size of the proof, in bytes.
#[derive(Debug, Clone, Copy, PartialEq, Eq, Structural)]
pub struct Weight {
    /// The computation time.
    pub ref_time: u64,
    /// The proof size.
    pub proof_size: u64,
}

/// What a runtime upgrade consumed, and the total that a block offers.
#[derive(Debug, Clone, Copy, PartialEq, Eq, Structural)]
pub struct UpgradeWeights {
    /// The weight that the upgrade consumed.
    pub consumed: Weight,
    /// The weight that a block may consume.
    pub total: Weight,
}

/// An answer of the runtime that holds no two weights.
#[derive(Debug)]
pub struct WeightDecodeError {
    /// The error of the decoder.
    pub source: parity_scale_codec::Error,
}

/// The two weights that a sequence of bytes begins with in SCALE encoding,
/// each given as reference time and proof size; `None` where the bytes
/// begin with no two weights.
pub uninterp spec fn decoded_weights(bytes: Seq<u8>) -> Option<((u64, u64), (u64, u64))>;

/// The text of a decoder's error in its debug form.
pub uninterp spec fn error_debug_text(error: parity_scale_codec::Error) -> Seq<char>;

/// `Encode::encode` of `parity_scale_codec` on a `bool`: one byte, 0 for
/// `false` and 1 for `true`.
#[verifier::external_body]
fn encode_flag(flag: bool) -> (bytes: Vec<u8>)
    ensures
        bytes@ == seq![flag_byte(flag)],
{
    parity_scale_codec::Encode::encode(&flag)
}

/// `Decode::decode` of `parity_scale_codec` on a pair of `sp_weights`
/// weights: both weights, read from the start of the bytes, or the
/// decoder's error. Bytes that follow the two weights are not looked at.
#[verifier::external_body]
fn decode_weight_pair(bytes: &[u8]) -> (decoded: Result<
    ((u64, u64), (u64, u64)),
    parity_scale_codec::Error,
>)
    ensures
        match decoded {
            Ok(weights) => decoded_weights(bytes@) == Some(weights),
            Err(_) => decoded_weights(bytes@) is None,
        },
{
    let mut input = bytes;
    let pair: Result<(sp_weights::Weight, sp_weights::Weight), _> =
        parity_scale_codec::Decode::decode(&mut input);
    pair.map(
        |(used, total)|
            ((used.ref_time(), used.proof_size()), (total.ref_time(), total.proof_size())),
    )
}

/// `format` of a prefix and, behind it, the decoder's error in its debug
/// form.
#[verifier::external_body]
fn debug_message(prefix: &str, error: &parity_scale_codec::Error) -> (message: String)
    ensures
        message@ == prefix@ + error_debug_text(*error),
{
    format!("{}{:?}", prefix, error)
}

/// The byte that encodes a flag.
pub open spec fn flag_byte(flag: bool) -> u8 {
    if flag {
        1
    } else {
        0
    }
}

/// The runtime method that replays the upgrade.
pub open spec fn upgrade_method() -> Seq<char> {
    "TryRuntime_on_runtime_upgrade"@
}

/// The weights that a decoded pair stands for.
pub open spec fn weights_of(pair: ((u64, u64), (u64, u64))) -> UpgradeWeights {
    UpgradeWeights {
        consumed: Weight { ref_time: pair.0.0, proof_size: pair.0.1 },
        total: Weight { ref_time: pair.1.0, proof_size: pair.1.1 },
    }
}

/// `n`, or 1 where `n` is 0.
pub open spec fn at_least_one(n: u64) -> u64 {
    if n == 0 {
        1
    } else {
        n
    }
}

impl<S> OnRuntimeUpgradeCmd<S> {
    /// The call that the command makes: `TryRuntime_on_runtime_upgrade`
    /// with the encoded `checks` flag as its argument.
    pub fn runtime_call(&self) -> (call: RuntimeCall)
        ensures
            call.method@ == upgrade_method(),
            call.data@ == seq![flag_byte(self.checks)],
    {
        RuntimeCall { method: "TryRuntime_on_runtime_upgrade", data: encode_flag(self.checks) }
    }
}

impl UpgradeWeights {
    /// The two fractions that the command reports as percentages, each as
    /// numerator and denominator: consumed over total, for the reference
    /// time and for the proof size. A total of zero counts as one, so no
    /// denominator is zero.
    pub fn fractions(&self) -> (parts: ((u64, u64), (u64, u64)))
        ensures
            parts.0 == (self.consumed.ref_time, at_least_one(self.total.ref_time)),
            parts.1 == (self.consumed.proof_size, at_least_one(self.total.proof_size)),
    {
        let time_total = if self.total.ref_time == 0 {
            1
        } else {
            self.total.ref_time
        };
        let size_total = if self.total.proof_size == 0 {
            1
        } else {
            self.total.proof_size
        };
        ((self.consumed.ref_time, time_total), (self.consumed.proof_size, size_total))
    }
}

impl WeightDecodeError {
    /// The message with which the command fails: `failed to decode
    /// weight: ` and the decoder's error in its debug form.
    pub fn message(&self) -> (message: String)
        ensures
            message@ == "failed to decode weight: "@ + error_debug_text(self.source),
    {
        debug_message("failed to decode weight: ", &self.source)
    }
}

/// The weights of a decoded answer, or the error that the decoder gave.
pub fn upgrade_weights(
    decoded: Result<((u64, u64), (u64, u64)), parity_scale_codec::Error>,
) -> (weights: Result<UpgradeWeights, WeightDecodeError>)
    ensures
        match decoded {
            Ok(pair) => weights == Ok::<UpgradeWeights, WeightDecodeError>(weights_of(pair)),
            Err(source) => weights == Err::<UpgradeWeights, WeightDecodeError>(
                WeightDecodeError { source },
            ),
        },
{
    match decoded {
        Ok((consumed, total)) => Ok(
            UpgradeWeights {
                consumed: Weight { ref_time: consumed.0, proof_size: consumed.1 },
                total: Weight { ref_time: total.0, proof_size: total.1 },
            },
        ),
        Err(source) => Err(WeightDecodeError { source }),
    }
}

/// Reads the weights that the runtime answered the upgrade call with: the
/// two weights that the answer begins with, or the decoder's error where
/// it begins with none.
pub fn read_upgrade_weights(answer: &[u8]) -> (weights: Result<UpgradeWeights, WeightDecodeError>)
    ensures
        match weights {
            Ok(read) => decoded_weights(answer@) matches Some(pair) && read == weights_of(pair),
            Err(_) => decoded_weights(answer@) is None,
        },
{
    upgrade_weights(decode_weight_pair(answer))
}

} // verus!
