//! Error handling for a JSON-RPC 2.0 client: one taxonomy of failures, the
//! wire-level error object, and the conversions between them.

pub mod decimal;
pub mod outside;
pub mod rpc_error;
pub mod error;

pub use error::Error;
pub use rpc_error::RpcError;
