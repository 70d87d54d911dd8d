//! Client-side credential and identity-configuration manager for the
//! Infisical Universal Auth scheme: exchanging a client-id/client-secret
//! pair for a short-lived access token, administering the per-identity
//! auth configuration (trusted IPs, TTLs, use-limits), and managing the
//! rotating client secrets an identity authenticates with.

pub mod api_response;
pub mod error_handling;
pub mod json_fields;
pub mod reqwest_utils;
pub mod secret_guard;
pub mod secrets;
pub mod service_model;
pub mod token_auth;
pub mod universal_auth;
pub mod utils;
