//! Bootstrap rules of a JSON-RPC server: resolved limits, the `Host` header
//! allow-list, the cross-origin policy, the method listing and the order of
//! the request-processing layers. Beside them, the call and the answer of
//! the command that replays a runtime upgrade.

pub mod config;
pub mod hosts;
pub mod listing;
pub mod middleware;
pub mod order;
pub mod origins;
pub mod registry;
pub mod server;
pub mod text;
pub mod try_runtime;

pub use crate::config::{Config, RPC_MAX_PAYLOAD_DEFAULT};
pub use crate::server::{prepare_server, Bootstrap, IdProviderStrategy, ServerSettings, SetupError};
pub use crate::try_runtime::OnRuntimeUpgradeCmd;
