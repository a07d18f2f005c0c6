//! Read-only lookup of archived transactions and receipts by hash, served
//! over JSON-RPC from a key-value store.
//!
//! The library holds the verified core: the codec between (record kind, hex
//! hash) pairs and physical storage keys, the routing of method names, the
//! dispatch of a request into one batched key lookup, the assembly of the
//! response from what the backend found, and the choice of backend at startup.
pub mod backend;
pub mod codec;
pub mod config;
pub mod error;
pub mod request;
pub mod response;
pub mod router;

pub use backend::{BackendReply, collect_results};
pub use codec::{RecordKind, decode_key, encode_key};
pub use config::{BackendConfig, ConfigError, choose_backend, split_endpoints};
pub use error::ErrorKind;
pub use request::{JsonValue, Lookup, plan_request};
pub use response::{RpcError, RpcResponse, respond};
pub use router::{Arity, route};
