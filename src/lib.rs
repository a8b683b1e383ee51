//! Stateless bearer-token authentication: claim envelopes with an expiry,
//! HS256 signing and verification, bearer-header extraction and one error
//! taxonomy for every failure that reaches a client.

pub mod claim;
pub mod decimal;
pub mod dto;
pub mod envelope;
pub mod errors;
pub mod extractor;
pub mod handlers;
pub mod models;
pub mod password;
pub mod token;
pub mod validation;
