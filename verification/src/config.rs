//! Optional server limits and their resolution into concrete 32-bit values.

use vstd::prelude::*;

verus! {

/// Bytes in one mebibyte.
pub const MEGABYTE: usize = 1024 * 1024;

/// Maximal payload accepted by RPC servers, in bytes.
pub const RPC_MAX_PAYLOAD_DEFAULT: usize = 15 * MEGABYTE;

/// Default maximum number of connections.
pub const WS_MAX_CONNECTIONS: usize = 100;

/// Default maximum number of subscriptions per connection.
pub const WS_MAX_SUBS_PER_CONN: usize = 1024;

/// Server config.
#[derive(Debug, Clone)]
pub struct Config {
    /// Maximum connections.
    pub max_connections: Option<usize>,
    /// Maximum subscriptions per connection.
    pub max_subs_per_conn: Option<usize>,
    /// Maximum rpc request payload size, in mebibytes.
    pub max_payload_in_mb: Option<usize>,
    /// Maximum rpc response payload size, in mebibytes.
    pub max_payload_out_mb: Option<usize>,
}

/// The payload ceiling in bytes that a mebibyte count asks for, before any
/// machine limit applies.
pub open spec fn payload_bytes(size_mb: Option<usize>) -> int {
    match size_mb {
        Some(mb) => mb as int * MEGABYTE as int,
        None => RPC_MAX_PAYLOAD_DEFAULT as int,
    }
}

/// A count, or the default where none was given.
pub open spec fn count_or(value: Option<usize>, default: usize) -> int {
    match value {
        Some(v) => v as int,
        None => default as int,
    }
}

/// `n` clamped to at most `limit`.
pub open spec fn at_most(n: int, limit: int) -> int {
    if n > limit {
        limit
    } else {
        n
    }
}

impl Config {
    /// The four values that the configuration resolves to: inbound payload
    /// bytes, outbound payload bytes, connections, subscriptions per
    /// connection, each clamped to the 32-bit range.
    pub open spec fn resolved(self) -> (u32, u32, u32, u32) {
        (
            at_most(payload_bytes(self.max_payload_in_mb), u32::MAX as int) as u32,
            at_most(payload_bytes(self.max_payload_out_mb), u32::MAX as int) as u32,
            at_most(count_or(self.max_connections, WS_MAX_CONNECTIONS), u32::MAX as int) as u32,
            at_most(count_or(self.max_subs_per_conn, WS_MAX_SUBS_PER_CONN), u32::MAX as int) as u32,
        )
    }

    /// Deconstructs the config to get the finalized inner values.
    ///
    /// A payload size, connection count or subscription count bigger than
    /// `u32::MAX` is clamped to `u32::MAX`.
    pub fn deconstruct(self) -> (limits: (u32, u32, u32, u32))
        ensures
            limits == self.resolved(),
    {
        let max_conns = clamp_to_u32(
            match self.max_connections {
                Some(n) => n,
                None => WS_MAX_CONNECTIONS,
            },
        );
        let max_payload_in = clamp_to_u32(payload_size_or_default(self.max_payload_in_mb));
        let max_payload_out = clamp_to_u32(payload_size_or_default(self.max_payload_out_mb));
        let max_subs_per_conn = clamp_to_u32(
            match self.max_subs_per_conn {
                Some(n) => n,
                None => WS_MAX_SUBS_PER_CONN,
            },
        );

        (max_payload_in, max_payload_out, max_conns, max_subs_per_conn)
    }
}

/// The payload ceiling in bytes: the default where no size is given, else
/// the size in mebibytes times `MEGABYTE`, saturating at `usize::MAX`.
pub fn payload_size_or_default(size_mb: Option<usize>) -> (bytes: usize)
    ensures
        bytes as int == at_most(payload_bytes(size_mb), usize::MAX as int),
{
    match size_mb {
        Some(mb) => match mb.checked_mul(MEGABYTE) {
            Some(bytes) => bytes,
            None => usize::MAX,
        },
        None => RPC_MAX_PAYLOAD_DEFAULT,
    }
}

/// `n` as a `u32`, or `u32::MAX` where it does not fit.
fn clamp_to_u32(n: usize) -> (clamped: u32)
    ensures
        clamped as int == at_most(n as int, u32::MAX as int),
{
    if n > u32::MAX as usize {
        u32::MAX
    } else {
        n as u32
    }
}

/// A configuration that sets no limit resolves to 15 MiB in each direction,
/// 100 connections and 1024 subscriptions per connection.
pub proof fn lemma_absent_limits_resolve_to_defaults(config: Config)
    requires
        config.max_connections is None,
        config.max_subs_per_conn is None,
        config.max_payload_in_mb is None,
        config.max_payload_out_mb is None,
    ensures
        config.resolved() == (15_728_640u32, 15_728_640u32, 100u32, 1024u32),
{
}

/// A payload size whose byte count exceeds `u32::MAX` resolves to
/// `u32::MAX`, in either direction; one that fits resolves to itself.
pub proof fn lemma_payload_saturates(config: Config)
    ensures
        payload_bytes(config.max_payload_in_mb) > u32::MAX ==> config.resolved().0 == u32::MAX,
        payload_bytes(config.max_payload_out_mb) > u32::MAX ==> config.resolved().1 == u32::MAX,
        payload_bytes(config.max_payload_in_mb) <= u32::MAX ==> config.resolved().0
            == payload_bytes(config.max_payload_in_mb),
        payload_bytes(config.max_payload_out_mb) <= u32::MAX ==> config.resolved().1
            == payload_bytes(config.max_payload_out_mb),
{
}

} // verus!
