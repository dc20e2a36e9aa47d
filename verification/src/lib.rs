//! A small read-only gateway over an Ethereum-style JSON-RPC node.
//!
//! The library holds the verified logic of the gateway: address text
//! validation, decimal rendering of 256-bit chain quantities, the JSON
//! bodies of the two routes, the error taxonomy with its status-code
//! mapping, and the per-request decision functions that the HTTP layer
//! drives. Network I/O itself lives outside the library.

pub mod account;
pub mod address;
pub mod config;
pub mod decimal;
pub mod json;
pub mod models;
pub mod error;
pub mod reply;
pub mod service;
pub mod text;
pub mod token;

pub use error::GatewayError;
