//! Typed decoding for the responses of a small IP-lookup HTTP service.
//!
//! The service answers a handful of fixed GET endpoints with JSON or plain
//! text.  This crate holds the part of a client that can be reasoned about:
//! the decoding of each response body into a typed value, with a contract
//! stating exactly which bodies are accepted and what comes out of them.
//! Issuing the requests themselves is left to the surrounding application.

pub mod api;
pub mod data;
pub mod json;
pub mod num;
pub mod text;

pub use api::{
    cloudflare_from_json, connection_type_from_json, dual_stack_from_bodies, headers_from_json,
    ip_data_from_json, ip_from_body, ip_from_json, location_from_json, network_from_json,
    parse_connection_type, parse_headers, parse_ip_data, parse_user_agent, user_agent_from_json,
};
pub use data::{Cloudflare, ConnectionTypeData, DualStackData, Error, IpData, Location, Network};
pub use json::JsonValue;
pub use num::parse_i64;
pub use text::trimmed;
