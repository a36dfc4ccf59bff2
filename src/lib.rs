//! An authenticated REST client core for a derivatives exchange: request
//! signing, request description and response-envelope decoding, verified.

pub mod client;
pub mod envelope;
pub mod json;
pub mod sign;
pub mod text;

pub use client::{BybitClient, Method, SignedRequest};
pub use envelope::{cancel_all_orders_outcome, position_list_result, BybitError, Position};
pub use json::Json;
pub use sign::{sign_hmac_sha256, sign_payload};
pub use text::decimal_string;
