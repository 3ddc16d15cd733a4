//! Client-side core of a market-data REST protocol: a tri-state response
//! envelope, cursor-based pagination, and typed decoding of JSON results.
pub mod api;
pub mod json;
