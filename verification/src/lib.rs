//! A small synchronous HTTP framework: request parsing, routing and scope trees, systems
//! whose parameters are resolved from the request, responses and their wire form, layers,
//! url query decoding, and websocket framing and handshake, with proofs.

pub mod action;
pub mod error;
pub mod get_as_slice;
pub mod handler;
pub mod http_checks;
pub mod http_utils;
pub mod layers;
pub mod resolve;
pub mod response;
pub mod routing;
pub mod scope;
pub mod str_map;
pub mod systems;
pub mod tasks;
pub mod text;
pub mod url_decoding;
pub mod websocket;
