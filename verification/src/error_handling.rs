//! The errors the library surfaces to callers.
//!
//! Each variant carries enough context (which identity, which operation,
//! which API version, and the classified service answer where there is
//! one) to diagnose a failure without the raw transport error — and never
//! the credential secret itself.

use vstd::prelude::*;

use crate::api_response::ApiResponse;

verus! {

/// Marker trait grouping the error taxonomy for callers.
pub trait UniversalAuthErrorTrait {

}

/// Why an operation failed after reaching the service: either the
/// service rejected the request with one of the known answer shapes, or
/// it accepted the request but its body did not decode to the expected
/// shape. Each operation's error variant carries this, so a decode
/// failure still names the operation it belongs to.
#[derive(Debug)]
pub enum ResponseFailure {
    /// The service rejected the request; the classified answer.
    Rejection { error: ApiResponse },
    /// A success status whose body lacked the expected fields.
    MalformedResponse,
}

/// Everything a Universal Auth operation can fail with.
#[derive(Debug)]
pub enum UniversalAuthError {
    /// The caller supplied an empty client id.
    NoUniversalAuthAPIClientIDSpecified,
    /// The caller supplied an empty client secret.
    NoUniversalAuthAPIClientSecretsSpecified,
    /// The caller supplied an empty identity id.
    NoUniversalAuthApiIdentityIDSpecified,
    /// The caller supplied an empty or unusable API version.
    NoUniversalAuthAPIVersionSpecified { version: String },
    /// The service rejected the credential exchange. Carries the
    /// non-secret credential context, the HTTP status and the classified
    /// answer; the client secret is never part of an error.
    UniversalAuthLoginError {
        client_id: String,
        client_identity_id: String,
        api_version: String,
        status: u16,
        error: ApiResponse,
    },
    /// The service accepted the login but its answer did not carry the
    /// expected token fields. Distinct from `UniversalAuthLoginError` so
    /// that callers can tell bad credentials from contract drift.
    MalformedLoginResponse { api_version: String },
    /// An attach failed: the service refused it — in particular when a
    /// configuration is already attached to the identity — or answered
    /// with a body that did not decode.
    AttachConfigurationError {
        client_identity_id: String,
        version: String,
        error: ResponseFailure,
    },
    /// A retrieve failed: the service refused it, or its answer did not
    /// decode.
    RetrieveIdentityError { identity: String, api_version: String, error: ResponseFailure },
    /// An update failed: the service refused it, or its answer did not
    /// decode.
    UpdateIdentityError { identity: String, api_version: String, error: ResponseFailure },
    /// A revoke failed: the service refused it, or its answer did not
    /// decode. Never raised merely because the configuration was already
    /// revoked.
    RevokeConfigurationError { identity: String, api_version: String, error: ResponseFailure },
    /// A client-secret creation failed: the service refused it, or its
    /// answer did not decode.
    CreateClientSecretError { identity: String, api_version: String, error: ResponseFailure },
    /// A client-secret revocation failed: the service refused it.
    RevokeClientSecretError { identity: String, api_version: String, error: ResponseFailure },
    /// A client-secret metadata read failed: the service refused it, or
    /// its answer did not decode.
    GetClientSecretError { identity: String, api_version: String, error: ResponseFailure },
    /// A stored-secret read failed: the service refused it, or its
    /// answer did not decode.
    RetrieveSecretError { secret: String, api_version: String, error: ResponseFailure },
    /// A rejection whose body matches none of the known answer shapes.
    /// Carries the identity (or secret name) and API version the
    /// operation ran under.
    UnclassifiableResponse { status: u16, identity: String, api_version: String },
    /// The request never produced a service answer: a network or IO
    /// failure reported by the transport, before any classification.
    TransportFailure { message: String },
}

impl UniversalAuthErrorTrait for UniversalAuthError {

}

} // verus!
