//! The data shapes of the token-auth method: plain records mirroring the
//! service's token endpoints. The operations on them are not part of this
//! library's core; the shapes are here for callers that drive the token
//! endpoints themselves.

use vstd::prelude::*;

verus! {

/// A token-auth configuration of an identity.
pub struct IdentityTokenAuth {
    pub id: String,
    pub access_token_ttl: u128,
    pub access_token_max_ttl: u128,
    pub access_token_num_uses_limit: u128,
    pub access_token_trusted_ips: Vec<crate::utils::AccessTokenTrustedIp>,
    pub client_secret_trusted_ips: Vec<crate::utils::ClientSecretTrustedIp>,
    pub created_at: String,
    pub updated_at: String,
    pub identity_id: String,
}

/// An access token obtained through the token-auth method.
pub struct TokenAuthAccessToken {
    pub access_token: String,
    pub expires_in: u128,
    pub access_token_max_ttl: u128,
    pub token_type: String,
}

/// One issued token's full record.
pub struct Token {
    pub id: String,
    pub access_token_ttl: u128,
    pub access_token_max_ttl: u128,
    pub access_token_num_uses: u128,
    pub access_token_num_uses_limit: u128,
    pub access_token_last_used_at: String,
    pub access_token_last_reused_at: String,
    pub is_access_token_revoked: bool,
    pub identity_ua_client_secret_id: String,
    pub identity_id: String,
    pub created_at: String,
    pub updated_at: String,
    pub name: String,
    pub auth_method: String,
}

/// The service's answer to a token revocation.
pub struct RevokedToken {
    pub message: String,
}

} // verus!
