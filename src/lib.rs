//! Metadata-driven argument marshalling for a command-line RPC client.
pub mod dispatch;
pub mod help;
pub mod json;
pub mod listing;
pub mod normalize;
pub mod payload;
pub mod session;
pub mod signature;
pub mod suggest;
pub mod text;
