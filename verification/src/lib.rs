//! A bidirectional JSON-RPC 2.0 peer: message model, routing and framing.
pub mod json;
pub mod codec;
pub mod errors;
pub mod params;
pub mod request;
pub mod response;
pub mod registry;
pub mod peer;
pub mod transport;
pub mod text;
pub mod server;
pub mod service_methods;
