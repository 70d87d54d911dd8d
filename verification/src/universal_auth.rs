//! The Universal Auth operations.
//!
//! Each service operation is split into the part this library can decide —
//! validating the inputs, constructing the endpoint URL and request data,
//! and turning the service's status and body into a typed result or a
//! classified error — and the transport call itself, which the caller
//! performs with whatever HTTP client it prefers. The request builders
//! and outcome functions here are verified; they never touch the network.

use vstd::prelude::*;

use crate::api_response::{classifiable, classify_body, classified_correctly, fields_of_body};
use crate::error_handling::{ResponseFailure, UniversalAuthError};
use crate::json_fields::{
    json_bool_field, json_bool_field2, json_bool_of, json_bool2_of, json_ip_list_field2,
    json_ip_list_of, json_str_field, json_str_field2, json_str_of, json_str2_of, json_u64_field,
    json_u64_field2, json_u64_of, json_u64_2_of,
};
use crate::secret_guard::SecretGuard;
use crate::utils::{
    client_secret_url_view, construct_client_secret_url, construct_identity_endpoint_url,
    construct_login_url, default_access_token_trusted_ip_form_data_vectors,
    default_client_secret_trusted_ip_form_data_vectors, default_trusted_ips_view,
    identity_endpoint_url_view, login_url_view, AccessTokenDataView, AccessTokenTrustedIp,
    ClientSecretDataView, ClientSecretTrustedIp, CredentialsView, IdentityConfigView,
    IndentityUniversalAuth, IndentityUniversalAuthData, TrustedIpView, UniversalAuthAccessToken,
    UniversalAuthAccessTokenData, UniversalAuthClientSecret, UniversalAuthClientSecretData,
    UniversalAuthCredentials, INFISICAL_DEFAULT_TIME_TO_LIVE,
};

verus! {

/// No required credential field is empty.
pub open spec fn credentials_complete(c: CredentialsView) -> bool {
    c.client_id.len() > 0 && c.client_secret.len() > 0 && c.identity_id.len() > 0 && c.version.len()
        > 0
}

/// The exact error owed for an incomplete credential set: the first empty
/// field, checked in declaration order, names the variant.
pub open spec fn missing_credential_error(c: CredentialsView, e: UniversalAuthError) -> bool {
    if c.client_id.len() == 0 {
        e is NoUniversalAuthAPIClientIDSpecified
    } else if c.client_secret.len() == 0 {
        e is NoUniversalAuthAPIClientSecretsSpecified
    } else if c.identity_id.len() == 0 {
        e is NoUniversalAuthApiIdentityIDSpecified
    } else if c.version.len() == 0 {
        e matches UniversalAuthError::NoUniversalAuthAPIVersionSpecified { version } && version@
            == c.version
    } else {
        false
    }
}

/// The token fields a successful login body must carry, if it carries
/// them all.
pub open spec fn login_token_of_body(body: Seq<u8>) -> Option<AccessTokenDataView> {
    if json_str_of(body, "accessToken"@) is Some && json_u64_of(body, "accessTokenMaxTTL"@) is Some
        && json_u64_of(body, "expiresIn"@) is Some && json_str_of(body, "tokenType"@) is Some {
        Some(
            AccessTokenDataView {
                access_token: json_str_of(body, "accessToken"@).unwrap(),
                access_token_max_ttl: json_u64_of(body, "accessTokenMaxTTL"@).unwrap(),
                expires_in: json_u64_of(body, "expiresIn"@).unwrap(),
                token_type: json_str_of(body, "tokenType"@).unwrap(),
            },
        )
    } else {
        None
    }
}

/// The error owed when the service rejects a login: the non-secret
/// credential context plus the classified answer. The client secret is
/// never part of it.
pub open spec fn login_rejection_error(
    c: CredentialsView,
    http_status: u16,
    body: Seq<u8>,
    e: UniversalAuthError,
) -> bool {
    e matches UniversalAuthError::UniversalAuthLoginError {
        client_id,
        client_identity_id,
        api_version,
        status,
        error,
    } && client_id@ == c.client_id && client_identity_id@ == c.identity_id && api_version@
        == c.version && status == http_status && classified_correctly(fields_of_body(body), error)
}

/// The error owed when a rejection body matches no known shape: the
/// HTTP status, plus the identity (or secret name) and API version the
/// operation ran under.
pub open spec fn unclassifiable_error(
    status: u16,
    identity: Seq<char>,
    version: Seq<char>,
    e: UniversalAuthError,
) -> bool {
    e matches UniversalAuthError::UnclassifiableResponse { status: st, identity: i, api_version }
        && st == status && i@ == identity && api_version@ == version
}

/// A login request, ready for the transport: the endpoint URL and the two
/// credential halves the body carries (`clientId`, `clientSecret`). The
/// secret stays guarded until the moment it is serialised.
pub struct LoginRequest {
    pub url: String,
    pub client_id: String,
    pub client_secret: SecretGuard,
}

impl UniversalAuthCredentials {
    /// Check the credential set for empty required fields; the first
    /// empty field, in declaration order, decides the error.
    pub fn validate(&self) -> (r: Result<(), UniversalAuthError>)
        ensures
            r is Ok <==> credentials_complete(self@),
            r matches Err(e) ==> missing_credential_error(self@, e),
    {
        if self.client_id.as_str().is_empty() {
            return Err(UniversalAuthError::NoUniversalAuthAPIClientIDSpecified);
        }
        if self.client_secret.expose().as_str().is_empty() {
            return Err(UniversalAuthError::NoUniversalAuthAPIClientSecretsSpecified);
        }
        if self.identity_id.as_str().is_empty() {
            return Err(UniversalAuthError::NoUniversalAuthApiIdentityIDSpecified);
        }
        if self.version.as_str().is_empty() {
            return Err(
                UniversalAuthError::NoUniversalAuthAPIVersionSpecified {
                    version: self.version.clone(),
                },
            );
        }
        Ok(())
    }

    /// Build the login request: `POST {host}/api/{version}/auth/universal-auth/login`
    /// with the client id and secret as the body. An incomplete credential
    /// set is rejected before anything reaches the wire, with the exact
    /// missing-field error — it never panics.
    pub fn login_request(&self, host: &str) -> (r: Result<LoginRequest, UniversalAuthError>)
        ensures
            r is Ok <==> credentials_complete(self@),
            r matches Ok(req) ==> req.url@ == login_url_view(host@, self@.version)
                && req.client_id@ == self@.client_id && req.client_secret@ == self@.client_secret,
            r matches Err(e) ==> missing_credential_error(self@, e),
    {
        match self.validate() {
            Err(e) => Err(e),
            Ok(()) => Ok(
                LoginRequest {
                    url: construct_login_url(host, self.version.as_str()),
                    client_id: self.client_id.clone(),
                    client_secret: self.client_secret.duplicate(),
                },
            ),
        }
    }

    /// Turn the service's answer to a login request into an access-token
    /// session or a classified error. A success status whose body lacks
    /// any of the token fields is reported as a malformed response —
    /// distinct from a rejected login, so callers can tell bad
    /// credentials from contract drift. A rejection is classified by its
    /// body's shape; one matching no known shape is unclassifiable.
    pub fn login_outcome(&self, status: u16, body: &[u8]) -> (r: Result<
        UniversalAuthAccessToken,
        UniversalAuthError,
    >)
        ensures
            r is Ok <==> (status == 200 && login_token_of_body(body@) is Some),
            r matches Ok(t) ==> Some(t.data@) == login_token_of_body(body@) && t.version@
                == self@.version,
            status == 200 && login_token_of_body(body@) is None ==> (r matches Err(e)
                && e matches UniversalAuthError::MalformedLoginResponse { api_version }
                && api_version@ == self@.version),
            status != 200 && classifiable(fields_of_body(body@)) ==> (r matches Err(e)
                && login_rejection_error(self@, status, body@, e)),
            status != 200 && !classifiable(fields_of_body(body@)) ==> (r matches Err(e)
                && unclassifiable_error(status, self@.identity_id, self@.version, e)),
    {
        if status != 200 {
            match classify_body(body) {
                Some(resp) => Err(
                    UniversalAuthError::UniversalAuthLoginError {
                        client_id: self.client_id.clone(),
                        client_identity_id: self.identity_id.clone(),
                        api_version: self.version.clone(),
                        status,
                        error: resp,
                    },
                ),
                None => Err(
                    UniversalAuthError::UnclassifiableResponse {
                        status,
                        identity: self.identity_id.clone(),
                        api_version: self.version.clone(),
                    },
                ),
            }
        } else {
            let access_token = json_str_field(body, "accessToken");
            let max_ttl = json_u64_field(body, "accessTokenMaxTTL");
            let expires_in = json_u64_field(body, "expiresIn");
            let token_type = json_str_field(body, "tokenType");
            match (access_token, max_ttl, expires_in, token_type) {
                (Some(at), Some(mt), Some(ei), Some(tt)) => Ok(
                    UniversalAuthAccessToken {
                        data: UniversalAuthAccessTokenData {
                            access_token: SecretGuard::new(at),
                            access_token_max_ttl: mt,
                            expires_in: ei,
                            token_type: tt,
                        },
                        version: self.version.clone(),
                    },
                ),
                _ => Err(
                    UniversalAuthError::MalformedLoginResponse {
                        api_version: self.version.clone(),
                    },
                ),
            }
        }
    }
}

// ------------------------------------------------------------------
// Decoding an identity-configuration body

/// Every prefix length in a raw trusted-IP list fits a CIDR prefix: at
/// most 128 bits.
pub open spec fn ip_entries_valid(s: Seq<(Seq<char>, u64, Seq<char>)>) -> bool {
    forall|j: int| 0 <= j < s.len() ==> (#[trigger] s[j]).1 <= 128
}

/// The trusted-IP views a raw list decodes to.
pub open spec fn ip_entry_views(s: Seq<(Seq<char>, u64, Seq<char>)>) -> Seq<TrustedIpView> {
    s.map_values(
        |t: (Seq<char>, u64, Seq<char>)| TrustedIpView {
            ip_address: t.0,
            prefix: t.1 as u8,
            type_: t.2,
        },
    )
}

/// The raw views of an extracted trusted-IP list.
pub open spec fn raw_ip_views(s: Seq<(String, u64, String)>) -> Seq<(Seq<char>, u64, Seq<char>)> {
    s.map_values(|t: (String, u64, String)| (t.0@, t.1, t.2@))
}

/// Decode raw access-token trusted-IP entries, rejecting any prefix over
/// 128.
fn convert_access_token_ips(v: &Vec<(String, u64, String)>) -> (r: Option<
    Vec<AccessTokenTrustedIp>,
>)
    ensures
        r is Some <==> ip_entries_valid(raw_ip_views(v@)),
        r matches Some(out) ==> out@.map_values(|ip: AccessTokenTrustedIp| ip@) == ip_entry_views(
            raw_ip_views(v@),
        ),
{
    let mut out: Vec<AccessTokenTrustedIp> = Vec::new();
    let mut i: usize = 0;
    while i < v.len()
        invariant
            0 <= i <= v@.len(),
            out@.len() == i as nat,
            forall|j: int| 0 <= j < i ==> (#[trigger] raw_ip_views(v@)[j]).1 <= 128,
            forall|j: int| 0 <= j < i ==> #[trigger] out@[j]@ == ip_entry_views(raw_ip_views(v@))[j],
        decreases v@.len() - i,
    {
        if v[i].1 > 128 {
            assert(raw_ip_views(v@)[i as int].1 > 128);
            return None;
        }
        let entry = AccessTokenTrustedIp {
            ip_address: v[i].0.clone(),
            prefix: v[i].1 as u8,
            type_: v[i].2.clone(),
        };
        out.push(entry);
        i = i + 1;
    }
    proof {
        assert(out@.map_values(|ip: AccessTokenTrustedIp| ip@) =~= ip_entry_views(raw_ip_views(v@)));
    }
    Some(out)
}

/// Decode raw client-secret trusted-IP entries, rejecting any prefix over
/// 128.
fn convert_client_secret_ips(v: &Vec<(String, u64, String)>) -> (r: Option<
    Vec<ClientSecretTrustedIp>,
>)
    ensures
        r is Some <==> ip_entries_valid(raw_ip_views(v@)),
        r matches Some(out) ==> out@.map_values(|ip: ClientSecretTrustedIp| ip@) == ip_entry_views(
            raw_ip_views(v@),
        ),
{
    let mut out: Vec<ClientSecretTrustedIp> = Vec::new();
    let mut i: usize = 0;
    while i < v.len()
        invariant
            0 <= i <= v@.len(),
            out@.len() == i as nat,
            forall|j: int| 0 <= j < i ==> (#[trigger] raw_ip_views(v@)[j]).1 <= 128,
            forall|j: int| 0 <= j < i ==> #[trigger] out@[j]@ == ip_entry_views(raw_ip_views(v@))[j],
        decreases v@.len() - i,
    {
        if v[i].1 > 128 {
            assert(raw_ip_views(v@)[i as int].1 > 128);
            return None;
        }
        let entry = ClientSecretTrustedIp {
            ip_address: v[i].0.clone(),
            prefix: v[i].1 as u8,
            type_: v[i].2.clone(),
        };
        out.push(entry);
        i = i + 1;
    }
    proof {
        assert(out@.map_values(|ip: ClientSecretTrustedIp| ip@) =~= ip_entry_views(
            raw_ip_views(v@),
        ));
    }
    Some(out)
}

/// The configuration record a success body of the identity endpoints
/// carries, nested under `identityUniversalAuth` — if every field is
/// present and well formed.
pub open spec fn identity_config_of_body(body: Seq<u8>) -> Option<IdentityConfigView> {
    let outer = "identityUniversalAuth"@;
    if json_u64_2_of(body, outer, "accessTokenMaxTTL"@) is Some && json_u64_2_of(
        body,
        outer,
        "accessTokenNumUsesLimit"@,
    ) is Some && json_u64_2_of(body, outer, "accessTokenTTL"@) is Some && json_ip_list_of(
        body,
        outer,
        "accessTokenTrustedIps"@,
    ) is Some && ip_entries_valid(json_ip_list_of(body, outer, "accessTokenTrustedIps"@).unwrap())
        && json_str2_of(body, outer, "clientId"@) is Some && json_ip_list_of(
        body,
        outer,
        "clientSecretTrustedIps"@,
    ) is Some && ip_entries_valid(json_ip_list_of(body, outer, "clientSecretTrustedIps"@).unwrap())
        && json_str2_of(body, outer, "createdAt"@) is Some && json_str2_of(body, outer, "id"@)
        is Some && json_str2_of(body, outer, "identityId"@) is Some && json_str2_of(
        body,
        outer,
        "updatedAt"@,
    ) is Some {
        Some(
            IdentityConfigView {
                access_token_max_ttl: json_u64_2_of(body, outer, "accessTokenMaxTTL"@).unwrap(),
                access_token_num_uses_limit: json_u64_2_of(
                    body,
                    outer,
                    "accessTokenNumUsesLimit"@,
                ).unwrap(),
                access_token_ttl: json_u64_2_of(body, outer, "accessTokenTTL"@).unwrap(),
                access_token_trusted_ips: ip_entry_views(
                    json_ip_list_of(body, outer, "accessTokenTrustedIps"@).unwrap(),
                ),
                client_id: json_str2_of(body, outer, "clientId"@).unwrap(),
                client_secret_trusted_ips: ip_entry_views(
                    json_ip_list_of(body, outer, "clientSecretTrustedIps"@).unwrap(),
                ),
                created_at: json_str2_of(body, outer, "createdAt"@).unwrap(),
                id: json_str2_of(body, outer, "id"@).unwrap(),
                identity_id: json_str2_of(body, outer, "identityId"@).unwrap(),
                updated_at: json_str2_of(body, outer, "updatedAt"@).unwrap(),
            },
        )
    } else {
        None
    }
}

/// Decode the configuration record out of a success body of the identity
/// endpoints.
fn decode_identity_config_body(body: &[u8]) -> (r: Option<IndentityUniversalAuthData>)
    ensures
        r is Some <==> identity_config_of_body(body@) is Some,
        r matches Some(c) ==> Some(c@) == identity_config_of_body(body@),
{
    let max_ttl = json_u64_field2(body, "identityUniversalAuth", "accessTokenMaxTTL");
    let uses_limit = json_u64_field2(body, "identityUniversalAuth", "accessTokenNumUsesLimit");
    let ttl = json_u64_field2(body, "identityUniversalAuth", "accessTokenTTL");
    let at_ips = json_ip_list_field2(body, "identityUniversalAuth", "accessTokenTrustedIps");
    let client_id = json_str_field2(body, "identityUniversalAuth", "clientId");
    let cs_ips = json_ip_list_field2(body, "identityUniversalAuth", "clientSecretTrustedIps");
    let created_at = json_str_field2(body, "identityUniversalAuth", "createdAt");
    let id = json_str_field2(body, "identityUniversalAuth", "id");
    let identity_id = json_str_field2(body, "identityUniversalAuth", "identityId");
    let updated_at = json_str_field2(body, "identityUniversalAuth", "updatedAt");
    match (max_ttl, uses_limit, ttl, at_ips, client_id, cs_ips, created_at, id, identity_id,
        updated_at,
    ) {
        (
            Some(max_ttl),
            Some(uses_limit),
            Some(ttl),
            Some(at_ips),
            Some(client_id),
            Some(cs_ips),
            Some(created_at),
            Some(id),
            Some(identity_id),
            Some(updated_at),
        ) => {
            let at_entries = convert_access_token_ips(&at_ips);
            let cs_entries = convert_client_secret_ips(&cs_ips);
            match (at_entries, cs_entries) {
                (Some(at_entries), Some(cs_entries)) => Some(
                    IndentityUniversalAuthData {
                        access_token_max_ttl: max_ttl,
                        access_token_num_uses_limit: uses_limit,
                        access_token_ttl: ttl,
                        access_token_trusted_ips: at_entries,
                        client_id: SecretGuard::new(client_id),
                        client_secret_trusted_ips: cs_entries,
                        created_at,
                        id,
                        identity_id,
                        updated_at,
                    },
                ),
                _ => None,
            }
        },
        _ => None,
    }
}

// ------------------------------------------------------------------
// Building identity-configuration requests

/// The TTL or max-TTL a request carries: the caller's value, or the
/// platform default when the caller supplies none.
pub open spec fn ttl_or_default(o: Option<u64>) -> u64 {
    match o {
        Some(v) => v,
        None => INFISICAL_DEFAULT_TIME_TO_LIVE,
    }
}

/// The use limit a request carries: the caller's value, or `0` —
/// unlimited uses — when the caller supplies none.
pub open spec fn uses_or_default(o: Option<u64>) -> u64 {
    match o {
        Some(v) => v,
        None => 0,
    }
}

/// The trusted-IP list a request carries: the caller's list, or the two
/// canonical "anywhere" defaults when the caller supplies none.
pub open spec fn substituted_ips(o: Option<Seq<TrustedIpView>>) -> Seq<TrustedIpView> {
    match o {
        Some(s) => s,
        None => default_trusted_ips_view(),
    }
}

/// Copy a caller-supplied client-secret trusted-IP list into the request.
fn copy_client_secret_ips(v: &Vec<ClientSecretTrustedIp>) -> (r: Vec<ClientSecretTrustedIp>)
    ensures
        r@.map_values(|ip: ClientSecretTrustedIp| ip@) == v@.map_values(
            |ip: ClientSecretTrustedIp| ip@,
        ),
{
    let mut out: Vec<ClientSecretTrustedIp> = Vec::new();
    let mut i: usize = 0;
    while i < v.len()
        invariant
            0 <= i <= v@.len(),
            out@.len() == i as nat,
            forall|j: int| 0 <= j < i ==> #[trigger] out@[j]@ == v@[j]@,
        decreases v@.len() - i,
    {
        let entry = ClientSecretTrustedIp {
            ip_address: v[i].ip_address.clone(),
            prefix: v[i].prefix,
            type_: v[i].type_.clone(),
        };
        out.push(entry);
        i = i + 1;
    }
    proof {
        assert(out@.map_values(|ip: ClientSecretTrustedIp| ip@) =~= v@.map_values(
            |ip: ClientSecretTrustedIp| ip@,
        ));
    }
    out
}

/// Copy a caller-supplied access-token trusted-IP list into the request.
fn copy_access_token_ips(v: &Vec<AccessTokenTrustedIp>) -> (r: Vec<AccessTokenTrustedIp>)
    ensures
        r@.map_values(|ip: AccessTokenTrustedIp| ip@) == v@.map_values(
            |ip: AccessTokenTrustedIp| ip@,
        ),
{
    let mut out: Vec<AccessTokenTrustedIp> = Vec::new();
    let mut i: usize = 0;
    while i < v.len()
        invariant
            0 <= i <= v@.len(),
            out@.len() == i as nat,
            forall|j: int| 0 <= j < i ==> #[trigger] out@[j]@ == v@[j]@,
        decreases v@.len() - i,
    {
        let entry = AccessTokenTrustedIp {
            ip_address: v[i].ip_address.clone(),
            prefix: v[i].prefix,
            type_: v[i].type_.clone(),
        };
        out.push(entry);
        i = i + 1;
    }
    proof {
        assert(out@.map_values(|ip: AccessTokenTrustedIp| ip@) =~= v@.map_values(
            |ip: AccessTokenTrustedIp| ip@,
        ));
    }
    out
}

/// The two trusted-IP lists of an identity-configuration request.
pub struct TrustedIpFormData {
    pub client_secret_trusted_ips: Vec<ClientSecretTrustedIp>,
    pub access_token_trusted_ips: Vec<AccessTokenTrustedIp>,
}

/// Assemble the trusted-IP part of an identity-configuration request:
/// each scope carries the caller's list, and each omitted scope is
/// substituted with the two canonical defaults, independently of the
/// other.
pub fn construct_trusted_ip_form_data(
    client_secret_trusted_ips: Option<&Vec<ClientSecretTrustedIp>>,
    access_token_trusted_ips: Option<&Vec<AccessTokenTrustedIp>>,
) -> (r: TrustedIpFormData)
    ensures
        r.client_secret_trusted_ips@.map_values(|ip: ClientSecretTrustedIp| ip@)
            == substituted_ips(
            match client_secret_trusted_ips {
                Some(v) => Some(v@.map_values(|ip: ClientSecretTrustedIp| ip@)),
                None => None,
            },
        ),
        r.access_token_trusted_ips@.map_values(|ip: AccessTokenTrustedIp| ip@) == substituted_ips(
            match access_token_trusted_ips {
                Some(v) => Some(v@.map_values(|ip: AccessTokenTrustedIp| ip@)),
                None => None,
            },
        ),
{
    let client_secret_list = match client_secret_trusted_ips {
        Some(v) => copy_client_secret_ips(v),
        None => default_client_secret_trusted_ip_form_data_vectors(),
    };
    let access_token_list = match access_token_trusted_ips {
        Some(v) => copy_access_token_ips(v),
        None => default_access_token_trusted_ip_form_data_vectors(),
    };
    TrustedIpFormData {
        client_secret_trusted_ips: client_secret_list,
        access_token_trusted_ips: access_token_list,
    }
}

/// The body of an attach or update request: the two trusted-IP lists and
/// the three token limits, after default substitution.
pub struct IdentityConfigRequestData {
    pub client_secret_trusted_ips: Vec<ClientSecretTrustedIp>,
    pub access_token_trusted_ips: Vec<AccessTokenTrustedIp>,
    pub access_token_ttl: u64,
    pub access_token_max_ttl: u64,
    pub access_token_num_uses_limit: u64,
}

/// An attach or update request, ready for the transport: the identity
/// endpoint URL and the request body. Attach posts it; update patches it.
pub struct IdentityConfigRequest {
    pub url: String,
    pub data: IdentityConfigRequestData,
}

/// What a built request owes: every omitted option substituted by its
/// documented default — platform default TTL and max-TTL, unlimited uses,
/// the canonical "anywhere" trusted-IP pair — and every supplied value
/// passed through unchanged.
pub open spec fn config_request_data_correct(
    d: IdentityConfigRequestData,
    client_secret_trusted_ips: Option<Seq<TrustedIpView>>,
    access_token_trusted_ips: Option<Seq<TrustedIpView>>,
    access_token_time_to_live: Option<u64>,
    access_token_max_time_to_live: Option<u64>,
    access_token_num_uses_limit: Option<u64>,
) -> bool {
    &&& d.client_secret_trusted_ips@.map_values(|ip: ClientSecretTrustedIp| ip@)
        == substituted_ips(client_secret_trusted_ips)
    &&& d.access_token_trusted_ips@.map_values(|ip: AccessTokenTrustedIp| ip@) == substituted_ips(
        access_token_trusted_ips,
    )
    &&& d.access_token_ttl == ttl_or_default(access_token_time_to_live)
    &&& d.access_token_max_ttl == ttl_or_default(access_token_max_time_to_live)
    &&& d.access_token_num_uses_limit == uses_or_default(access_token_num_uses_limit)
}

/// Build the body of an attach or update request from the caller's
/// choices, substituting the documented default for every omitted one.
pub fn build_identity_config_request_data(
    client_secret_trusted_ips: Option<&Vec<ClientSecretTrustedIp>>,
    access_token_trusted_ips: Option<&Vec<AccessTokenTrustedIp>>,
    access_token_time_to_live: Option<u64>,
    access_token_max_time_to_live: Option<u64>,
    access_token_num_uses_limit: Option<u64>,
) -> (r: IdentityConfigRequestData)
    ensures
        config_request_data_correct(
            r,
            match client_secret_trusted_ips {
                Some(v) => Some(v@.map_values(|ip: ClientSecretTrustedIp| ip@)),
                None => None,
            },
            match access_token_trusted_ips {
                Some(v) => Some(v@.map_values(|ip: AccessTokenTrustedIp| ip@)),
                None => None,
            },
            access_token_time_to_live,
            access_token_max_time_to_live,
            access_token_num_uses_limit,
        ),
{
    let ips = construct_trusted_ip_form_data(client_secret_trusted_ips, access_token_trusted_ips);
    let ttl = match access_token_time_to_live {
        Some(v) => v,
        None => INFISICAL_DEFAULT_TIME_TO_LIVE,
    };
    let max_ttl = match access_token_max_time_to_live {
        Some(v) => v,
        None => INFISICAL_DEFAULT_TIME_TO_LIVE,
    };
    let uses = match access_token_num_uses_limit {
        Some(v) => v,
        None => 0,
    };
    IdentityConfigRequestData {
        client_secret_trusted_ips: ips.client_secret_trusted_ips,
        access_token_trusted_ips: ips.access_token_trusted_ips,
        access_token_ttl: ttl,
        access_token_max_ttl: max_ttl,
        access_token_num_uses_limit: uses,
    }
}

// ------------------------------------------------------------------
// The errors each operation owes on a failed request
//
// Every failure after the request reached the service stays inside the
// operation's own error variant: a classified rejection where the body
// matched one of the known shapes, and the malformed kind where a
// success status carried a body that did not decode. A caller can
// therefore always read off which operation failed, and how.

/// The failure payload is the classified rejection the body decodes to.
pub open spec fn classified_failure(body: Seq<u8>, f: ResponseFailure) -> bool {
    f matches ResponseFailure::Rejection { error } && classified_correctly(
        fields_of_body(body),
        error,
    )
}

/// The error owed when the service refuses an attach — among else when a
/// configuration is already attached to the identity.
pub open spec fn attach_rejection_error(
    identity: Seq<char>,
    version: Seq<char>,
    body: Seq<u8>,
    e: UniversalAuthError,
) -> bool {
    e matches UniversalAuthError::AttachConfigurationError { client_identity_id, version: v, error }
        && client_identity_id@ == identity && v@ == version && classified_failure(body, error)
}

/// The error owed when an attach's success answer does not decode.
pub open spec fn attach_malformed_error(
    identity: Seq<char>,
    version: Seq<char>,
    e: UniversalAuthError,
) -> bool {
    e matches UniversalAuthError::AttachConfigurationError { client_identity_id, version: v, error }
        && client_identity_id@ == identity && v@ == version && error is MalformedResponse
}

/// The error owed when the service refuses a retrieve.
pub open spec fn retrieve_rejection_error(
    identity: Seq<char>,
    version: Seq<char>,
    body: Seq<u8>,
    e: UniversalAuthError,
) -> bool {
    e matches UniversalAuthError::RetrieveIdentityError { identity: i, api_version, error } && i@
        == identity && api_version@ == version && classified_failure(body, error)
}

/// The error owed when a retrieve's success answer does not decode.
pub open spec fn retrieve_malformed_error(
    identity: Seq<char>,
    version: Seq<char>,
    e: UniversalAuthError,
) -> bool {
    e matches UniversalAuthError::RetrieveIdentityError { identity: i, api_version, error } && i@
        == identity && api_version@ == version && error is MalformedResponse
}

/// The error owed when the service refuses an update.
pub open spec fn update_rejection_error(
    identity: Seq<char>,
    version: Seq<char>,
    body: Seq<u8>,
    e: UniversalAuthError,
) -> bool {
    e matches UniversalAuthError::UpdateIdentityError { identity: i, api_version, error } && i@
        == identity && api_version@ == version && classified_failure(body, error)
}

/// The error owed when an update's success answer does not decode: still
/// the update's own variant, carrying the malformed kind.
pub open spec fn update_malformed_error(
    identity: Seq<char>,
    version: Seq<char>,
    e: UniversalAuthError,
) -> bool {
    e matches UniversalAuthError::UpdateIdentityError { identity: i, api_version, error } && i@
        == identity && api_version@ == version && error is MalformedResponse
}

/// The error owed when the service refuses a revoke — never "already
/// revoked".
pub open spec fn revoke_rejection_error(
    identity: Seq<char>,
    version: Seq<char>,
    body: Seq<u8>,
    e: UniversalAuthError,
) -> bool {
    e matches UniversalAuthError::RevokeConfigurationError { identity: i, api_version, error } && i@
        == identity && api_version@ == version && classified_failure(body, error)
}

/// The error owed when a revoke's success answer does not decode.
pub open spec fn revoke_malformed_error(
    identity: Seq<char>,
    version: Seq<char>,
    e: UniversalAuthError,
) -> bool {
    e matches UniversalAuthError::RevokeConfigurationError { identity: i, api_version, error } && i@
        == identity && api_version@ == version && error is MalformedResponse
}

/// The error owed when the service refuses to create a client secret.
pub open spec fn create_secret_rejection_error(
    identity: Seq<char>,
    version: Seq<char>,
    body: Seq<u8>,
    e: UniversalAuthError,
) -> bool {
    e matches UniversalAuthError::CreateClientSecretError { identity: i, api_version, error } && i@
        == identity && api_version@ == version && classified_failure(body, error)
}

/// The error owed when a creation's success answer does not decode: the
/// creation's own variant, carrying the malformed kind.
pub open spec fn create_secret_malformed_error(
    identity: Seq<char>,
    version: Seq<char>,
    e: UniversalAuthError,
) -> bool {
    e matches UniversalAuthError::CreateClientSecretError { identity: i, api_version, error } && i@
        == identity && api_version@ == version && error is MalformedResponse
}

/// The error owed when the service refuses to revoke a client secret.
pub open spec fn revoke_secret_rejection_error(
    identity: Seq<char>,
    version: Seq<char>,
    body: Seq<u8>,
    e: UniversalAuthError,
) -> bool {
    e matches UniversalAuthError::RevokeClientSecretError { identity: i, api_version, error } && i@
        == identity && api_version@ == version && classified_failure(body, error)
}

/// The error owed when the service refuses to return a client secret's
/// metadata.
pub open spec fn get_secret_rejection_error(
    identity: Seq<char>,
    version: Seq<char>,
    body: Seq<u8>,
    e: UniversalAuthError,
) -> bool {
    e matches UniversalAuthError::GetClientSecretError { identity: i, api_version, error } && i@
        == identity && api_version@ == version && classified_failure(body, error)
}

/// The error owed when a metadata read's success answer does not decode.
pub open spec fn get_secret_malformed_error(
    identity: Seq<char>,
    version: Seq<char>,
    e: UniversalAuthError,
) -> bool {
    e matches UniversalAuthError::GetClientSecretError { identity: i, api_version, error } && i@
        == identity && api_version@ == version && error is MalformedResponse
}

// ------------------------------------------------------------------
// Decoding client-secret bodies

/// The one-time plaintext secret and the metadata record a create answer
/// carries: the top-level `clientSecret` — which must be non-empty — and
/// the `clientSecretData` object.
pub open spec fn created_client_secret_of_body(body: Seq<u8>) -> Option<
    (Seq<char>, ClientSecretDataView),
> {
    let outer = "clientSecretData"@;
    if json_str_of(body, "clientSecret"@) is Some && json_str_of(body, "clientSecret"@).unwrap().len()
        > 0 && json_u64_2_of(body, outer, "clientSecretNumUses"@) is Some && json_u64_2_of(
        body,
        outer,
        "clientSecretNumUsesLimit"@,
    ) is Some && json_str2_of(body, outer, "clientSecretPrefix"@) is Some && json_u64_2_of(
        body,
        outer,
        "clientSecretTTL"@,
    ) is Some && json_str2_of(body, outer, "createdAt"@) is Some && json_str2_of(
        body,
        outer,
        "description"@,
    ) is Some && json_str2_of(body, outer, "id"@) is Some && json_str2_of(
        body,
        outer,
        "identityUAId"@,
    ) is Some && json_bool2_of(body, outer, "isClientSecretRevoked"@) is Some && json_str2_of(
        body,
        outer,
        "updatedAt"@,
    ) is Some {
        Some(
            (
                json_str_of(body, "clientSecret"@).unwrap(),
                ClientSecretDataView {
                    client_secret_num_uses: json_u64_2_of(
                        body,
                        outer,
                        "clientSecretNumUses"@,
                    ).unwrap(),
                    client_secret_num_uses_limit: json_u64_2_of(
                        body,
                        outer,
                        "clientSecretNumUsesLimit"@,
                    ).unwrap(),
                    client_secret_prefix: json_str2_of(body, outer, "clientSecretPrefix"@).unwrap(),
                    client_secret_ttl: json_u64_2_of(body, outer, "clientSecretTTL"@).unwrap(),
                    created_at: json_str2_of(body, outer, "createdAt"@).unwrap(),
                    description: json_str2_of(body, outer, "description"@).unwrap(),
                    id: json_str2_of(body, outer, "id"@).unwrap(),
                    identity_ua_id: json_str2_of(body, outer, "identityUAId"@).unwrap(),
                    is_client_secret_revoked: json_bool2_of(
                        body,
                        outer,
                        "isClientSecretRevoked"@,
                    ).unwrap(),
                    updated_at: json_str2_of(body, outer, "updatedAt"@).unwrap(),
                },
            ),
        )
    } else {
        None
    }
}

/// The metadata record a get-by-id answer carries at its top level. There
/// is no secret-value field: after creation the service only ever returns
/// metadata.
pub open spec fn client_secret_data_of_body(body: Seq<u8>) -> Option<ClientSecretDataView> {
    if json_u64_of(body, "clientSecretNumUses"@) is Some && json_u64_of(
        body,
        "clientSecretNumUsesLimit"@,
    ) is Some && json_str_of(body, "clientSecretPrefix"@) is Some && json_u64_of(
        body,
        "clientSecretTTL"@,
    ) is Some && json_str_of(body, "createdAt"@) is Some && json_str_of(body, "description"@)
        is Some && json_str_of(body, "id"@) is Some && json_str_of(body, "identityUAId"@) is Some
        && json_bool_of(body, "isClientSecretRevoked"@) is Some && json_str_of(body, "updatedAt"@)
        is Some {
        Some(
            ClientSecretDataView {
                client_secret_num_uses: json_u64_of(body, "clientSecretNumUses"@).unwrap(),
                client_secret_num_uses_limit: json_u64_of(
                    body,
                    "clientSecretNumUsesLimit"@,
                ).unwrap(),
                client_secret_prefix: json_str_of(body, "clientSecretPrefix"@).unwrap(),
                client_secret_ttl: json_u64_of(body, "clientSecretTTL"@).unwrap(),
                created_at: json_str_of(body, "createdAt"@).unwrap(),
                description: json_str_of(body, "description"@).unwrap(),
                id: json_str_of(body, "id"@).unwrap(),
                identity_ua_id: json_str_of(body, "identityUAId"@).unwrap(),
                is_client_secret_revoked: json_bool_of(body, "isClientSecretRevoked"@).unwrap(),
                updated_at: json_str_of(body, "updatedAt"@).unwrap(),
            },
        )
    } else {
        None
    }
}

/// Decode the metadata record of a get-by-id answer.
fn decode_client_secret_data_body(body: &[u8]) -> (r: Option<UniversalAuthClientSecretData>)
    ensures
        r is Some <==> client_secret_data_of_body(body@) is Some,
        r matches Some(d) ==> Some(d@) == client_secret_data_of_body(body@),
{
    let num_uses = json_u64_field(body, "clientSecretNumUses");
    let num_uses_limit = json_u64_field(body, "clientSecretNumUsesLimit");
    let prefix = json_str_field(body, "clientSecretPrefix");
    let ttl = json_u64_field(body, "clientSecretTTL");
    let created_at = json_str_field(body, "createdAt");
    let description = json_str_field(body, "description");
    let id = json_str_field(body, "id");
    let identity_ua_id = json_str_field(body, "identityUAId");
    let is_revoked = json_bool_field(body, "isClientSecretRevoked");
    let updated_at = json_str_field(body, "updatedAt");
    match (num_uses, num_uses_limit, prefix, ttl, created_at, description, id, identity_ua_id,
        is_revoked, updated_at,
    ) {
        (
            Some(num_uses),
            Some(num_uses_limit),
            Some(prefix),
            Some(ttl),
            Some(created_at),
            Some(description),
            Some(id),
            Some(identity_ua_id),
            Some(is_revoked),
            Some(updated_at),
        ) => Some(
            UniversalAuthClientSecretData {
                client_secret_num_uses: num_uses,
                client_secret_num_uses_limit: num_uses_limit,
                client_secret_prefix: prefix,
                client_secret_ttl: ttl,
                created_at,
                description,
                id,
                identity_ua_id,
                is_client_secret_revoked: is_revoked,
                updated_at,
            },
        ),
        _ => None,
    }
}

/// Decode the plaintext secret and metadata of a create answer. An empty
/// plaintext counts as malformed: the service owes the secret exactly
/// here, exactly once.
fn decode_created_client_secret_body(body: &[u8]) -> (r: Option<UniversalAuthClientSecret>)
    ensures
        r is Some <==> created_client_secret_of_body(body@) is Some,
        r matches Some(cs) ==> created_client_secret_of_body(body@) matches Some(parts)
            && cs.client_secret@ == parts.0 && cs.client_secret_data@ == parts.1,
{
    let secret = json_str_field(body, "clientSecret");
    let num_uses = json_u64_field2(body, "clientSecretData", "clientSecretNumUses");
    let num_uses_limit = json_u64_field2(body, "clientSecretData", "clientSecretNumUsesLimit");
    let prefix = json_str_field2(body, "clientSecretData", "clientSecretPrefix");
    let ttl = json_u64_field2(body, "clientSecretData", "clientSecretTTL");
    let created_at = json_str_field2(body, "clientSecretData", "createdAt");
    let description = json_str_field2(body, "clientSecretData", "description");
    let id = json_str_field2(body, "clientSecretData", "id");
    let identity_ua_id = json_str_field2(body, "clientSecretData", "identityUAId");
    let is_revoked = json_bool_field2(body, "clientSecretData", "isClientSecretRevoked");
    let updated_at = json_str_field2(body, "clientSecretData", "updatedAt");
    match (secret, num_uses, num_uses_limit, prefix, ttl, created_at, description, id,
        identity_ua_id, is_revoked, updated_at,
    ) {
        (
            Some(secret),
            Some(num_uses),
            Some(num_uses_limit),
            Some(prefix),
            Some(ttl),
            Some(created_at),
            Some(description),
            Some(id),
            Some(identity_ua_id),
            Some(is_revoked),
            Some(updated_at),
        ) => {
            if secret.as_str().is_empty() {
                None
            } else {
                Some(
                    UniversalAuthClientSecret {
                        client_secret: SecretGuard::new(secret),
                        client_secret_data: UniversalAuthClientSecretData {
                            client_secret_num_uses: num_uses,
                            client_secret_num_uses_limit: num_uses_limit,
                            client_secret_prefix: prefix,
                            client_secret_ttl: ttl,
                            created_at,
                            description,
                            id,
                            identity_ua_id,
                            is_client_secret_revoked: is_revoked,
                            updated_at,
                        },
                    },
                )
            }
        },
        _ => None,
    }
}

// ------------------------------------------------------------------
// The identity-configuration and client-secret operations

impl UniversalAuthAccessToken {
    /// The identity endpoint of this session's API version:
    /// `{host}/api/{version}/auth/universal-auth/identities/{identity_id}`.
    /// Attach posts to it, update patches it, retrieve gets it, revoke
    /// deletes it, each bearer-authenticated with the exposed token.
    pub fn construct_universal_auth_identity_endpoint_url(
        &self,
        host: &str,
        identity_id: &str,
    ) -> (r: String)
        ensures
            r@ == identity_endpoint_url_view(host@, self.version@, identity_id@),
    {
        construct_identity_endpoint_url(host, self.version.as_str(), identity_id)
    }

    /// The client-secrets endpoint of an identity, or — with a secret id
    /// — one secret's endpoint.
    pub fn construct_universal_client_secret_url(
        &self,
        host: &str,
        identity_id: &str,
        client_secret_id: Option<&str>,
    ) -> (r: String)
        ensures
            r@ == client_secret_url_view(
                host@,
                self.version@,
                identity_id@,
                match client_secret_id {
                    Some(id) => Some(id@),
                    None => None,
                },
            ),
    {
        construct_client_secret_url(host, self.version.as_str(), identity_id, client_secret_id)
    }

    /// Build the request that attaches a fresh Universal Auth
    /// configuration to an identity: `POST` to the identity endpoint,
    /// with every omitted option substituted by its documented default.
    /// Attaching is not idempotent — the service refuses an identity that
    /// is already configured, and [`Self::attach_outcome`] surfaces that
    /// refusal as a distinct error the caller can branch on.
    pub fn attach_request(
        &self,
        host: &str,
        identity_to_attach_to: &str,
        client_secret_trusted_ips: Option<&Vec<ClientSecretTrustedIp>>,
        access_token_trusted_ips: Option<&Vec<AccessTokenTrustedIp>>,
        access_token_time_to_live: Option<u64>,
        access_token_max_time_to_live: Option<u64>,
        access_token_num_uses_limit: Option<u64>,
    ) -> (r: IdentityConfigRequest)
        ensures
            r.url@ == identity_endpoint_url_view(host@, self.version@, identity_to_attach_to@),
            config_request_data_correct(
                r.data,
                match client_secret_trusted_ips {
                    Some(v) => Some(v@.map_values(|ip: ClientSecretTrustedIp| ip@)),
                    None => None,
                },
                match access_token_trusted_ips {
                    Some(v) => Some(v@.map_values(|ip: AccessTokenTrustedIp| ip@)),
                    None => None,
                },
                access_token_time_to_live,
                access_token_max_time_to_live,
                access_token_num_uses_limit,
            ),
    {
        IdentityConfigRequest {
            url: self.construct_universal_auth_identity_endpoint_url(host, identity_to_attach_to),
            data: build_identity_config_request_data(
                client_secret_trusted_ips,
                access_token_trusted_ips,
                access_token_time_to_live,
                access_token_max_time_to_live,
                access_token_num_uses_limit,
            ),
        }
    }

    /// Build the request that updates an identity's existing
    /// configuration: the same shape as an attach, issued as a `PATCH` —
    /// the mutation path that succeeds even when a configuration is
    /// already attached.
    pub fn update_request(
        &self,
        host: &str,
        identity_to_update: &str,
        client_secret_trusted_ips: Option<&Vec<ClientSecretTrustedIp>>,
        access_token_trusted_ips: Option<&Vec<AccessTokenTrustedIp>>,
        access_token_time_to_live: Option<u64>,
        access_token_max_time_to_live: Option<u64>,
        access_token_num_uses_limit: Option<u64>,
    ) -> (r: IdentityConfigRequest)
        ensures
            r.url@ == identity_endpoint_url_view(host@, self.version@, identity_to_update@),
            config_request_data_correct(
                r.data,
                match client_secret_trusted_ips {
                    Some(v) => Some(v@.map_values(|ip: ClientSecretTrustedIp| ip@)),
                    None => None,
                },
                match access_token_trusted_ips {
                    Some(v) => Some(v@.map_values(|ip: AccessTokenTrustedIp| ip@)),
                    None => None,
                },
                access_token_time_to_live,
                access_token_max_time_to_live,
                access_token_num_uses_limit,
            ),
    {
        IdentityConfigRequest {
            url: self.construct_universal_auth_identity_endpoint_url(host, identity_to_update),
            data: build_identity_config_request_data(
                client_secret_trusted_ips,
                access_token_trusted_ips,
                access_token_time_to_live,
                access_token_max_time_to_live,
                access_token_num_uses_limit,
            ),
        }
    }

    /// Turn the service's answer to an attach into the attached
    /// configuration or a classified error. A refusal — in particular the
    /// expected one when the identity is already configured — becomes an
    /// `AttachConfigurationError` carrying the classified answer.
    pub fn attach_outcome(&self, identity_to_attach_to: &str, status: u16, body: &[u8]) -> (r:
        Result<IndentityUniversalAuth, UniversalAuthError>)
        ensures
            r is Ok <==> (status == 200 && identity_config_of_body(body@) is Some),
            r matches Ok(c) ==> Some(c@) == identity_config_of_body(body@),
            status == 200 && identity_config_of_body(body@) is None ==> (r matches Err(e)
                && attach_malformed_error(identity_to_attach_to@, self.version@, e)),
            status != 200 && classifiable(fields_of_body(body@)) ==> (r matches Err(e)
                && attach_rejection_error(identity_to_attach_to@, self.version@, body@, e)),
            status != 200 && !classifiable(fields_of_body(body@)) ==> (r matches Err(e)
                && unclassifiable_error(status, identity_to_attach_to@, self.version@, e)),
    {
        if status != 200 {
            match classify_body(body) {
                Some(resp) => Err(
                    UniversalAuthError::AttachConfigurationError {
                        client_identity_id: String::from_str(identity_to_attach_to),
                        version: self.version.clone(),
                        error: ResponseFailure::Rejection { error: resp },
                    },
                ),
                None => Err(
                    UniversalAuthError::UnclassifiableResponse {
                        status,
                        identity: String::from_str(identity_to_attach_to),
                        api_version: self.version.clone(),
                    },
                ),
            }
        } else {
            match decode_identity_config_body(body) {
                Some(data) => Ok(IndentityUniversalAuth { identity_universal_auth: data }),
                None => Err(
                    UniversalAuthError::AttachConfigurationError {
                        client_identity_id: String::from_str(identity_to_attach_to),
                        version: self.version.clone(),
                        error: ResponseFailure::MalformedResponse,
                    },
                ),
            }
        }
    }

    /// Turn the service's answer to a retrieve into the identity's
    /// configuration or a classified error. Retrieval never mutates; on a
    /// revoked identity the service answers with the missing-resource
    /// shape.
    pub fn retrieve_outcome(&self, identity_to_retrieve: &str, status: u16, body: &[u8]) -> (r:
        Result<IndentityUniversalAuth, UniversalAuthError>)
        ensures
            r is Ok <==> (status == 200 && identity_config_of_body(body@) is Some),
            r matches Ok(c) ==> Some(c@) == identity_config_of_body(body@),
            status == 200 && identity_config_of_body(body@) is None ==> (r matches Err(e)
                && retrieve_malformed_error(identity_to_retrieve@, self.version@, e)),
            status != 200 && classifiable(fields_of_body(body@)) ==> (r matches Err(e)
                && retrieve_rejection_error(identity_to_retrieve@, self.version@, body@, e)),
            status != 200 && !classifiable(fields_of_body(body@)) ==> (r matches Err(e)
                && unclassifiable_error(status, identity_to_retrieve@, self.version@, e)),
    {
        if status != 200 {
            match classify_body(body) {
                Some(resp) => Err(
                    UniversalAuthError::RetrieveIdentityError {
                        identity: String::from_str(identity_to_retrieve),
                        api_version: self.version.clone(),
                        error: ResponseFailure::Rejection { error: resp },
                    },
                ),
                None => Err(
                    UniversalAuthError::UnclassifiableResponse {
                        status,
                        identity: String::from_str(identity_to_retrieve),
                        api_version: self.version.clone(),
                    },
                ),
            }
        } else {
            match decode_identity_config_body(body) {
                Some(data) => Ok(IndentityUniversalAuth { identity_universal_auth: data }),
                None => Err(
                    UniversalAuthError::RetrieveIdentityError {
                        identity: String::from_str(identity_to_retrieve),
                        api_version: self.version.clone(),
                        error: ResponseFailure::MalformedResponse,
                    },
                ),
            }
        }
    }

    /// Turn the service's answer to an update into the updated
    /// configuration or a classified error.
    pub fn update_outcome(&self, identity_to_update: &str, status: u16, body: &[u8]) -> (r: Result<
        IndentityUniversalAuth,
        UniversalAuthError,
    >)
        ensures
            r is Ok <==> (status == 200 && identity_config_of_body(body@) is Some),
            r matches Ok(c) ==> Some(c@) == identity_config_of_body(body@),
            status == 200 && identity_config_of_body(body@) is None ==> (r matches Err(e)
                && update_malformed_error(identity_to_update@, self.version@, e)),
            status != 200 && classifiable(fields_of_body(body@)) ==> (r matches Err(e)
                && update_rejection_error(identity_to_update@, self.version@, body@, e)),
            status != 200 && !classifiable(fields_of_body(body@)) ==> (r matches Err(e)
                && unclassifiable_error(status, identity_to_update@, self.version@, e)),
    {
        if status != 200 {
            match classify_body(body) {
                Some(resp) => Err(
                    UniversalAuthError::UpdateIdentityError {
                        identity: String::from_str(identity_to_update),
                        api_version: self.version.clone(),
                        error: ResponseFailure::Rejection { error: resp },
                    },
                ),
                None => Err(
                    UniversalAuthError::UnclassifiableResponse {
                        status,
                        identity: String::from_str(identity_to_update),
                        api_version: self.version.clone(),
                    },
                ),
            }
        } else {
            match decode_identity_config_body(body) {
                Some(data) => Ok(IndentityUniversalAuth { identity_universal_auth: data }),
                None => Err(
                    UniversalAuthError::UpdateIdentityError {
                        identity: String::from_str(identity_to_update),
                        api_version: self.version.clone(),
                        error: ResponseFailure::MalformedResponse,
                    },
                ),
            }
        }
    }

    /// Turn the service's answer to a revoke into the final configuration
    /// snapshot or a classified error. The service treats revoking an
    /// already-revoked identity as a success, so a second revoke is a
    /// no-op, not an error; an error here means transport or decode
    /// failure.
    pub fn revoke_outcome(&self, identity_to_revoke: &str, status: u16, body: &[u8]) -> (r: Result<
        IndentityUniversalAuth,
        UniversalAuthError,
    >)
        ensures
            r is Ok <==> (status == 200 && identity_config_of_body(body@) is Some),
            r matches Ok(c) ==> Some(c@) == identity_config_of_body(body@),
            status == 200 && identity_config_of_body(body@) is None ==> (r matches Err(e)
                && revoke_malformed_error(identity_to_revoke@, self.version@, e)),
            status != 200 && classifiable(fields_of_body(body@)) ==> (r matches Err(e)
                && revoke_rejection_error(identity_to_revoke@, self.version@, body@, e)),
            status != 200 && !classifiable(fields_of_body(body@)) ==> (r matches Err(e)
                && unclassifiable_error(status, identity_to_revoke@, self.version@, e)),
    {
        if status != 200 {
            match classify_body(body) {
                Some(resp) => Err(
                    UniversalAuthError::RevokeConfigurationError {
                        identity: String::from_str(identity_to_revoke),
                        api_version: self.version.clone(),
                        error: ResponseFailure::Rejection { error: resp },
                    },
                ),
                None => Err(
                    UniversalAuthError::UnclassifiableResponse {
                        status,
                        identity: String::from_str(identity_to_revoke),
                        api_version: self.version.clone(),
                    },
                ),
            }
        } else {
            match decode_identity_config_body(body) {
                Some(data) => Ok(IndentityUniversalAuth { identity_universal_auth: data }),
                None => Err(
                    UniversalAuthError::RevokeConfigurationError {
                        identity: String::from_str(identity_to_revoke),
                        api_version: self.version.clone(),
                        error: ResponseFailure::MalformedResponse,
                    },
                ),
            }
        }
    }

    /// Build the request that creates a rotating client secret for an
    /// identity: `POST` to the client-secrets collection endpoint with
    /// the description, use limit and TTL (`0` meaning unlimited / no
    /// expiry).
    pub fn create_client_secret_request(
        &self,
        host: &str,
        identity_id: &str,
        client_secret_description: &str,
        client_secret_num_uses_limit: u64,
        client_secret_time_to_live: u64,
    ) -> (r: CreateClientSecretRequest)
        ensures
            r.url@ == client_secret_url_view(host@, self.version@, identity_id@, None),
            r.description@ == client_secret_description@,
            r.num_uses_limit == client_secret_num_uses_limit,
            r.ttl == client_secret_time_to_live,
    {
        CreateClientSecretRequest {
            url: self.construct_universal_client_secret_url(host, identity_id, None),
            description: String::from_str(client_secret_description),
            num_uses_limit: client_secret_num_uses_limit,
            ttl: client_secret_time_to_live,
        }
    }

    /// Turn the service's answer to a create into the fresh client secret
    /// or a classified error. The answer carries the plaintext secret
    /// exactly once, here; the caller must persist or use it immediately,
    /// as no later read can recover it.
    pub fn create_client_secret_outcome(&self, identity_id: &str, status: u16, body: &[u8]) -> (r:
        Result<UniversalAuthClientSecret, UniversalAuthError>)
        ensures
            r is Ok <==> (status == 200 && created_client_secret_of_body(body@) is Some),
            r matches Ok(cs) ==> created_client_secret_of_body(body@) matches Some(parts)
                && cs.client_secret@ == parts.0 && cs.client_secret_data@ == parts.1,
            r matches Ok(cs) ==> cs.client_secret@.len() > 0,
            status == 200 && created_client_secret_of_body(body@) is None ==> (r matches Err(e)
                && create_secret_malformed_error(identity_id@, self.version@, e)),
            status != 200 && classifiable(fields_of_body(body@)) ==> (r matches Err(e)
                && create_secret_rejection_error(identity_id@, self.version@, body@, e)),
            status != 200 && !classifiable(fields_of_body(body@)) ==> (r matches Err(e)
                && unclassifiable_error(status, identity_id@, self.version@, e)),
    {
        if status != 200 {
            match classify_body(body) {
                Some(resp) => Err(
                    UniversalAuthError::CreateClientSecretError {
                        identity: String::from_str(identity_id),
                        api_version: self.version.clone(),
                        error: ResponseFailure::Rejection { error: resp },
                    },
                ),
                None => Err(
                    UniversalAuthError::UnclassifiableResponse {
                        status,
                        identity: String::from_str(identity_id),
                        api_version: self.version.clone(),
                    },
                ),
            }
        } else {
            match decode_created_client_secret_body(body) {
                Some(cs) => Ok(cs),
                None => Err(
                    UniversalAuthError::CreateClientSecretError {
                        identity: String::from_str(identity_id),
                        api_version: self.version.clone(),
                        error: ResponseFailure::MalformedResponse,
                    },
                ),
            }
        }
    }

    /// The endpoint a client-secret revocation posts to:
    /// `{client-secrets}/{id}/revoke`.
    pub fn revoke_client_secret_request(
        &self,
        host: &str,
        identity_id: &str,
        client_secret_to_revoke: &str,
    ) -> (r: String)
        ensures
            r@ == client_secret_url_view(
                host@,
                self.version@,
                identity_id@,
                Some(client_secret_to_revoke@),
            ) + "/revoke"@,
    {
        let mut url = self.construct_universal_client_secret_url(
            host,
            identity_id,
            Some(client_secret_to_revoke),
        );
        url.append("/revoke");
        url
    }

    /// Turn the service's answer to a client-secret revocation into a
    /// success or a classified error. Revoking an already-revoked secret
    /// is a success, the same no-op contract as revoking an identity's
    /// configuration.
    pub fn revoke_client_secret_outcome(&self, identity_id: &str, status: u16, body: &[u8]) -> (r:
        Result<(), UniversalAuthError>)
        ensures
            r is Ok <==> status == 200,
            status != 200 && classifiable(fields_of_body(body@)) ==> (r matches Err(e)
                && revoke_secret_rejection_error(identity_id@, self.version@, body@, e)),
            status != 200 && !classifiable(fields_of_body(body@)) ==> (r matches Err(e)
                && unclassifiable_error(status, identity_id@, self.version@, e)),
    {
        if status != 200 {
            match classify_body(body) {
                Some(resp) => Err(
                    UniversalAuthError::RevokeClientSecretError {
                        identity: String::from_str(identity_id),
                        api_version: self.version.clone(),
                        error: ResponseFailure::Rejection { error: resp },
                    },
                ),
                None => Err(
                    UniversalAuthError::UnclassifiableResponse {
                        status,
                        identity: String::from_str(identity_id),
                        api_version: self.version.clone(),
                    },
                ),
            }
        } else {
            Ok(())
        }
    }

    /// The endpoint a client-secret metadata read gets:
    /// `{client-secrets}/{id}`.
    pub fn get_client_secret_by_id_request(
        &self,
        host: &str,
        identity_id: &str,
        client_secret_id: &str,
    ) -> (r: String)
        ensures
            r@ == client_secret_url_view(
                host@,
                self.version@,
                identity_id@,
                Some(client_secret_id@),
            ),
    {
        self.construct_universal_client_secret_url(host, identity_id, Some(client_secret_id))
    }

    /// Turn the service's answer to a metadata read into the secret's
    /// metadata or a classified error. The answer never carries the
    /// plaintext secret value — only creation does, once.
    pub fn get_client_secret_by_id_outcome(&self, identity_id: &str, status: u16, body: &[u8]) -> (r:
        Result<UniversalAuthClientSecretData, UniversalAuthError>)
        ensures
            r is Ok <==> (status == 200 && client_secret_data_of_body(body@) is Some),
            r matches Ok(d) ==> Some(d@) == client_secret_data_of_body(body@),
            status == 200 && client_secret_data_of_body(body@) is None ==> (r matches Err(e)
                && get_secret_malformed_error(identity_id@, self.version@, e)),
            status != 200 && classifiable(fields_of_body(body@)) ==> (r matches Err(e)
                && get_secret_rejection_error(identity_id@, self.version@, body@, e)),
            status != 200 && !classifiable(fields_of_body(body@)) ==> (r matches Err(e)
                && unclassifiable_error(status, identity_id@, self.version@, e)),
    {
        if status != 200 {
            match classify_body(body) {
                Some(resp) => Err(
                    UniversalAuthError::GetClientSecretError {
                        identity: String::from_str(identity_id),
                        api_version: self.version.clone(),
                        error: ResponseFailure::Rejection { error: resp },
                    },
                ),
                None => Err(
                    UniversalAuthError::UnclassifiableResponse {
                        status,
                        identity: String::from_str(identity_id),
                        api_version: self.version.clone(),
                    },
                ),
            }
        } else {
            match decode_client_secret_data_body(body) {
                Some(d) => Ok(d),
                None => Err(
                    UniversalAuthError::GetClientSecretError {
                        identity: String::from_str(identity_id),
                        api_version: self.version.clone(),
                        error: ResponseFailure::MalformedResponse,
                    },
                ),
            }
        }
    }
}

/// A create-client-secret request, ready for the transport: the
/// collection endpoint URL and the body fields (`description`,
/// `numUsesLimit`, `ttl`).
pub struct CreateClientSecretRequest {
    pub url: String,
    pub description: String,
    pub num_uses_limit: u64,
    pub ttl: u64,
}

// ------------------------------------------------------------------
// Redacting renderings
//
// No type that embeds a guarded secret converts to a string through an
// ordinary formatting path; each offers one rendering method whose
// contract pins the result to a specification function that does not
// take the secret at all. A fixed marker stands where the secret would.

/// What a credential set renders as: every field but the client secret,
/// which a fixed marker replaces.
pub open spec fn credentials_rendering(
    client_id: Seq<char>,
    identity_id: Seq<char>,
    version: Seq<char>,
) -> Seq<char> {
    "Client ID: "@ + client_id + "\nClient Secret: **************\nClient Identity ID: "@
        + identity_id + "\nUniversal Auth API Version: "@ + version
}

/// What an access-token session renders as: the token's metadata, with a
/// fixed marker in place of the token string.
pub open spec fn access_token_rendering(
    expires_in: u64,
    access_token_max_ttl: u64,
    token_type: Seq<char>,
) -> Seq<char> {
    "access token: ********************\nAccess Token Time To Live: "@ + crate::utils::dec_str(
        expires_in as nat,
    ) + "\nAccess Token Max Time To Live: "@ + crate::utils::dec_str(access_token_max_ttl as nat)
        + "\nAccess Token Type: "@ + token_type
}

/// What a freshly created client secret renders as: its id and
/// description, with a fixed marker in place of the plaintext value.
pub open spec fn client_secret_rendering(id: Seq<char>, description: Seq<char>) -> Seq<char> {
    "client secret: ********************\nClient Secret ID: "@ + id + "\nDescription: "@
        + description
}

impl UniversalAuthCredentials {
    /// Render the credential set for people: the client secret never
    /// appears, a fixed marker stands in its place. The result is pinned
    /// to a function of the non-secret fields alone.
    pub fn display_string(&self) -> (r: String)
        ensures
            r@ == credentials_rendering(self@.client_id, self@.identity_id, self@.version),
    {
        let mut s = String::from_str("Client ID: ");
        s.append(self.client_id.as_str());
        s.append("\nClient Secret: **************\nClient Identity ID: ");
        s.append(self.identity_id.as_str());
        s.append("\nUniversal Auth API Version: ");
        s.append(self.version.as_str());
        s
    }
}

impl UniversalAuthAccessToken {
    /// Render the session for people: the token string never appears, a
    /// fixed marker stands in its place.
    pub fn display_string(&self) -> (r: String)
        ensures
            r@ == access_token_rendering(
                self.data@.expires_in,
                self.data@.access_token_max_ttl,
                self.data@.token_type,
            ),
    {
        let mut s = String::from_str("access token: ********************\nAccess Token Time To Live: ");
        s.append(crate::utils::u64_to_string(self.data.expires_in).as_str());
        s.append("\nAccess Token Max Time To Live: ");
        s.append(crate::utils::u64_to_string(self.data.access_token_max_ttl).as_str());
        s.append("\nAccess Token Type: ");
        s.append(self.data.token_type.as_str());
        s
    }
}

impl UniversalAuthClientSecret {
    /// Render a freshly created client secret for people: the one-time
    /// plaintext value never appears, a fixed marker stands in its place.
    pub fn display_string(&self) -> (r: String)
        ensures
            r@ == client_secret_rendering(
                self.client_secret_data@.id,
                self.client_secret_data@.description,
            ),
    {
        let mut s = String::from_str("client secret: ********************\nClient Secret ID: ");
        s.append(self.client_secret_data.id.as_str());
        s.append("\nDescription: ");
        s.append(self.client_secret_data.description.as_str());
        s
    }
}

/// The renderings hide the guarded secrets: each is a function of the
/// non-secret fields alone, so two values that agree on those fields
/// render identically, whatever secrets they hold. Together with the
/// `display_string` contracts above, no rendering of an entity that
/// embeds a guarded secret can depend on — let alone reveal — the
/// secret's contents.
pub proof fn lemma_renderings_hide_secrets(
    a: UniversalAuthCredentials,
    b: UniversalAuthCredentials,
    t: UniversalAuthAccessTokenData,
    u: UniversalAuthAccessTokenData,
)
    requires
        a@.client_id == b@.client_id,
        a@.identity_id == b@.identity_id,
        a@.version == b@.version,
        t@.expires_in == u@.expires_in,
        t@.access_token_max_ttl == u@.access_token_max_ttl,
        t@.token_type == u@.token_type,
    ensures
        credentials_rendering(a@.client_id, a@.identity_id, a@.version) == credentials_rendering(
            b@.client_id,
            b@.identity_id,
            b@.version,
        ),
        access_token_rendering(t@.expires_in, t@.access_token_max_ttl, t@.token_type)
            == access_token_rendering(u@.expires_in, u@.access_token_max_ttl, u@.token_type),
{
}

} // verus!
