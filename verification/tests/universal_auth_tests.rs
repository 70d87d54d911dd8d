use infisical_rs::api_response::{classify_body, classify_response_fields, ApiResponse, ResponseFields};
use infisical_rs::error_handling::{ResponseFailure, UniversalAuthError};
use infisical_rs::secret_guard::SecretGuard;
use infisical_rs::utils::{
    construct_universal_auth_token_endpoint_url, u64_to_string, UniversalAuthCredentials,
    INFISICAL_DEFAULT_TIME_TO_LIVE,
};

fn credentials(client_id: &str, secret: &str, identity: &str, version: &str) -> UniversalAuthCredentials {
    UniversalAuthCredentials {
        client_id: client_id.to_string(),
        client_secret: SecretGuard::new(secret.to_string()),
        identity_id: identity.to_string(),
        version: version.to_string(),
    }
}

const LOGIN_BODY: &str = "{\"accessToken\":\"tok-123\",\"accessTokenMaxTTL\":2592000,\"expiresIn\":2592000,\"tokenType\":\"Bearer\"}";

fn mock_access_token() -> infisical_rs::utils::UniversalAuthAccessToken {
    credentials("cid", "cs", "iid", "v1")
        .login_outcome(200, LOGIN_BODY.as_bytes())
        .unwrap()
}

#[test]
fn login() {
    let creds = credentials("cid", "cs", "iid", "v1");
    let access_token = creds.login_outcome(200, LOGIN_BODY.as_bytes()).unwrap();
    assert!(!access_token.access_token().is_empty());
    assert_eq!(access_token.access_token(), "tok-123");
    assert!(*access_token.access_token_max_ttl() >= INFISICAL_DEFAULT_TIME_TO_LIVE);
    assert_eq!(*access_token.expires_in(), INFISICAL_DEFAULT_TIME_TO_LIVE);
    assert_eq!(access_token.token_type(), "Bearer");
    assert!(!access_token.version.is_empty());
}

#[test]
fn login_request_empty_client_id_is_rejected() {
    let creds = credentials("", "cs", "iid", "v1");
    let r = creds.login_request("https://example.test");
    assert!(matches!(
        r,
        Err(UniversalAuthError::NoUniversalAuthAPIClientIDSpecified)
    ));
}

#[test]
fn login_request_empty_client_secret_is_rejected() {
    let creds = credentials("cid", "", "iid", "v1");
    let r = creds.login_request("https://example.test");
    assert!(matches!(
        r,
        Err(UniversalAuthError::NoUniversalAuthAPIClientSecretsSpecified)
    ));
}

#[test]
fn login_request_empty_identity_id_is_rejected() {
    let creds = credentials("cid", "cs", "", "v1");
    let r = creds.login_request("https://example.test");
    assert!(matches!(
        r,
        Err(UniversalAuthError::NoUniversalAuthApiIdentityIDSpecified)
    ));
}

#[test]
fn login_request_empty_version_is_rejected() {
    let creds = credentials("cid", "cs", "iid", "");
    let r = creds.login_request("https://example.test");
    match r {
        Err(UniversalAuthError::NoUniversalAuthAPIVersionSpecified { version }) => {
            assert_eq!(version, "");
        }
        _ => panic!("expected the missing-version error"),
    }
}

#[test]
fn login_request_all_empty_never_panics() {
    let creds = credentials("", "", "", "");
    let r = creds.login_request("https://example.test");
    assert!(r.is_err());
}

#[test]
fn login_request_builds_url_and_body() {
    let creds = credentials("cid", "hunter2", "iid", "v1");
    let req = creds.login_request("https://us.infisical.com").unwrap();
    assert_eq!(req.url, "https://us.infisical.com/api/v1/auth/universal-auth/login");
    assert_eq!(req.client_id, "cid");
    assert_eq!(req.client_secret.expose(), "hunter2");
}

#[test]
fn login_outcome_malformed_success_body() {
    let creds = credentials("cid", "cs", "iid", "v1");
    let r = creds.login_outcome(200, b"{\"accessToken\":\"tok\"}");
    match r {
        Err(UniversalAuthError::MalformedLoginResponse { api_version }) => {
            assert_eq!(api_version, "v1");
        }
        _ => panic!("expected the malformed-login error"),
    }
}

#[test]
fn login_outcome_classified_rejection() {
    let creds = credentials("cid", "cs", "iid", "v1");
    let body = "{\"reqId\":\"r1\",\"statusCode\":401,\"message\":\"bad\",\"error\":\"unauthorized\"}";
    let r = creds.login_outcome(401, body.as_bytes());
    match r {
        Err(UniversalAuthError::UniversalAuthLoginError {
            client_id,
            client_identity_id,
            api_version,
            status,
            error,
        }) => {
            assert_eq!(client_id, "cid");
            assert_eq!(client_identity_id, "iid");
            assert_eq!(api_version, "v1");
            assert_eq!(status, 401);
            assert!(matches!(error, ApiResponse::Unauthorized { .. }));
        }
        _ => panic!("expected the classified login rejection"),
    }
}

#[test]
fn login_outcome_unclassifiable_rejection() {
    let creds = credentials("cid", "cs", "iid", "v1");
    let r = creds.login_outcome(502, b"<html>bad gateway</html>");
    match r {
        Err(UniversalAuthError::UnclassifiableResponse { status, identity, api_version }) => {
            assert_eq!(status, 502);
            assert_eq!(identity, "iid");
            assert_eq!(api_version, "v1");
        }
        _ => panic!("expected the unclassifiable error"),
    }
}

#[test]
fn classifier_triple_without_req_id_is_not_found() {
    let body = "{\"error\":\"oops\",\"message\":\"gone\",\"statusCode\":404}";
    let r = classify_body(body.as_bytes()).unwrap();
    match r {
        ApiResponse::NotFound { error, message, status_code } => {
            assert_eq!(error, "oops");
            assert_eq!(message, "gone");
            assert_eq!(status_code, 404);
        }
        _ => panic!("a triple without reqId must classify as NotFound"),
    }
}

#[test]
fn classifier_triple_without_req_id_is_not_found_even_at_other_codes() {
    let body = "{\"error\":\"oops\",\"message\":\"gone\",\"statusCode\":400}";
    let r = classify_body(body.as_bytes()).unwrap();
    assert!(matches!(r, ApiResponse::NotFound { .. }));
}

#[test]
fn classifier_selects_by_status_code() {
    let bad = "{\"reqId\":\"r\",\"error\":\"e\",\"message\":\"m\",\"statusCode\":400}";
    assert!(matches!(
        classify_body(bad.as_bytes()).unwrap(),
        ApiResponse::BadRequest { .. }
    ));
    let unauthorized = "{\"reqId\":\"r\",\"error\":\"e\",\"message\":\"m\",\"statusCode\":401}";
    assert!(matches!(
        classify_body(unauthorized.as_bytes()).unwrap(),
        ApiResponse::Unauthorized { .. }
    ));
    let unprocessable = "{\"reqId\":\"r\",\"error\":\"e\",\"message\":\"m\",\"statusCode\":422}";
    assert!(matches!(
        classify_body(unprocessable.as_bytes()).unwrap(),
        ApiResponse::UnprocessableContent { .. }
    ));
    let internal = "{\"reqId\":\"r\",\"error\":\"e\",\"message\":\"m\",\"statusCode\":500}";
    assert!(matches!(
        classify_body(internal.as_bytes()).unwrap(),
        ApiResponse::InternalServerError { .. }
    ));
}

#[test]
fn classifier_details_field_selects_forbidden() {
    let body =
        "{\"reqId\":\"r\",\"error\":\"e\",\"message\":\"m\",\"statusCode\":403,\"details\":\"d\"}";
    match classify_body(body.as_bytes()).unwrap() {
        ApiResponse::Forbidden { req_id, status_code, details, message, error } => {
            assert_eq!(req_id, "r");
            assert_eq!(status_code, 403);
            assert_eq!(details, "d");
            assert_eq!(message, "m");
            assert_eq!(error, "e");
        }
        _ => panic!("a body with details must classify as Forbidden"),
    }
}

#[test]
fn classifier_unknown_shape_is_rejected() {
    assert!(classify_body(b"{\"unrelated\":true}").is_none());
    let unknown_code = "{\"reqId\":\"r\",\"error\":\"e\",\"message\":\"m\",\"statusCode\":418}";
    assert!(classify_body(unknown_code.as_bytes()).is_none());
    let oversized_code = "{\"reqId\":\"r\",\"error\":\"e\",\"message\":\"m\",\"statusCode\":70000}";
    assert!(classify_body(oversized_code.as_bytes()).is_none());
}

#[test]
fn classifier_fields_direct() {
    let fields = ResponseFields {
        req_id: None,
        status_code: Some(404),
        message: Some("m".to_string()),
        error: Some("e".to_string()),
        details: None,
    };
    assert!(matches!(
        classify_response_fields(fields),
        Some(ApiResponse::NotFound { .. })
    ));
    let incomplete = ResponseFields {
        req_id: Some("r".to_string()),
        status_code: Some(400),
        message: None,
        error: Some("e".to_string()),
        details: None,
    };
    assert!(classify_response_fields(incomplete).is_none());
}

#[test]
fn attach_request_substitutes_defaults() {
    let token = mock_access_token();
    let req = token.attach_request("https://h", "id-1", None, None, None, None, None);
    assert_eq!(
        req.url,
        "https://h/api/v1/auth/universal-auth/identities/id-1"
    );
    assert_eq!(req.data.access_token_ttl, INFISICAL_DEFAULT_TIME_TO_LIVE);
    assert_eq!(req.data.access_token_max_ttl, INFISICAL_DEFAULT_TIME_TO_LIVE);
    assert_eq!(req.data.access_token_num_uses_limit, 0);
    let cs = &req.data.client_secret_trusted_ips;
    assert_eq!(cs.len(), 2);
    assert_eq!(cs[0].ip_address, "0.0.0.0");
    assert_eq!(cs[0].type_, "ipv4");
    assert_eq!(cs[1].ip_address, "::");
    assert_eq!(cs[1].type_, "ipv6");
    let at = &req.data.access_token_trusted_ips;
    assert_eq!(at.len(), 2);
    assert_eq!(at[0].ip_address, "0.0.0.0");
    assert_eq!(at[1].ip_address, "::");
}

#[test]
fn attach_request_keeps_explicit_values() {
    let token = mock_access_token();
    let req = token.attach_request(
        "https://h",
        "id-1",
        None,
        None,
        Some(3600),
        Some(7200),
        Some(5),
    );
    assert_eq!(req.data.access_token_ttl, 3600);
    assert_eq!(req.data.access_token_max_ttl, 7200);
    assert_eq!(req.data.access_token_num_uses_limit, 5);
}

const CONFIG_BODY: &str = "{\"identityUniversalAuth\":{\"accessTokenMaxTTL\":7200,\
\"accessTokenNumUsesLimit\":5,\"accessTokenTTL\":3600,\
\"accessTokenTrustedIps\":[{\"ipAddress\":\"0.0.0.0\",\"prefix\":0,\"type\":\"ipv4\"},\
{\"ipAddress\":\"::\",\"prefix\":0,\"type\":\"ipv6\"}],\
\"clientId\":\"cid-9\",\
\"clientSecretTrustedIps\":[{\"ipAddress\":\"0.0.0.0\",\"prefix\":0,\"type\":\"ipv4\"},\
{\"ipAddress\":\"::\",\"prefix\":0,\"type\":\"ipv6\"}],\
\"createdAt\":\"2024-01-01\",\"id\":\"ua-7\",\"identityId\":\"id-1\",\"updatedAt\":\"2024-01-02\"}}";

#[test]
fn attach_outcome_decodes_configuration() {
    let token = mock_access_token();
    let config = token.attach_outcome("id-1", 200, CONFIG_BODY.as_bytes()).unwrap();
    assert_eq!(*config.access_token_ttl(), 3600);
    assert_eq!(*config.access_token_max_ttl(), 7200);
    assert_eq!(*config.access_token_num_uses_limit(), 5);
    assert_eq!(config.client_id(), "cid-9");
    assert_eq!(config.id(), "ua-7");
    assert_eq!(config.identity_id(), "id-1");
    assert_eq!(config.created_at(), "2024-01-01");
    assert_eq!(config.updated_at(), "2024-01-02");
    let ips = config.access_token_trusted_ips();
    assert_eq!(ips.len(), 2);
    assert_eq!(ips[0].ip_address, "0.0.0.0");
    assert_eq!(ips[1].ip_address, "::");
    assert_eq!(config.client_secret_trusted_ips().len(), 2);
}

#[test]
fn attach_outcome_conflict_is_classified() {
    let token = mock_access_token();
    let body = "{\"reqId\":\"r\",\"error\":\"e\",\"message\":\"already attached\",\"statusCode\":400}";
    match token.attach_outcome("id-1", 400, body.as_bytes()) {
        Err(UniversalAuthError::AttachConfigurationError { client_identity_id, version, error }) => {
            assert_eq!(client_identity_id, "id-1");
            assert_eq!(version, "v1");
            assert!(matches!(
                error,
                ResponseFailure::Rejection { error: ApiResponse::BadRequest { .. } }
            ));
        }
        _ => panic!("expected the attach rejection"),
    }
}

#[test]
fn attach_outcome_bad_prefix_is_malformed() {
    let token = mock_access_token();
    let body = "{\"identityUniversalAuth\":{\"accessTokenMaxTTL\":1,\
\"accessTokenNumUsesLimit\":0,\"accessTokenTTL\":1,\
\"accessTokenTrustedIps\":[{\"ipAddress\":\"0.0.0.0\",\"prefix\":200,\"type\":\"ipv4\"}],\
\"clientId\":\"c\",\"clientSecretTrustedIps\":[],\
\"createdAt\":\"t\",\"id\":\"i\",\"identityId\":\"id-1\",\"updatedAt\":\"t\"}}";
    assert!(matches!(
        token.attach_outcome("id-1", 200, body.as_bytes()),
        Err(UniversalAuthError::AttachConfigurationError {
            error: ResponseFailure::MalformedResponse,
            ..
        })
    ));
}

#[test]
fn retrieve_outcome_not_found_after_revoke_shape() {
    let token = mock_access_token();
    let body = "{\"error\":\"e\",\"message\":\"no configuration\",\"statusCode\":404}";
    match token.retrieve_outcome("id-1", 404, body.as_bytes()) {
        Err(UniversalAuthError::RetrieveIdentityError { identity, api_version, error }) => {
            assert_eq!(identity, "id-1");
            assert_eq!(api_version, "v1");
            assert!(matches!(
                error,
                ResponseFailure::Rejection { error: ApiResponse::NotFound { .. } }
            ));
        }
        _ => panic!("expected the retrieve rejection"),
    }
}

#[test]
fn update_and_revoke_outcomes_decode_configuration() {
    let token = mock_access_token();
    let updated = token.update_outcome("id-1", 200, CONFIG_BODY.as_bytes()).unwrap();
    assert_eq!(*updated.access_token_ttl(), 3600);
    let revoked = token.revoke_outcome("id-1", 200, CONFIG_BODY.as_bytes()).unwrap();
    assert_eq!(*revoked.access_token_max_ttl(), 7200);
    match token.update_outcome("id-1", 500, b"{\"reqId\":\"r\",\"error\":\"e\",\"message\":\"m\",\"statusCode\":500}") {
        Err(UniversalAuthError::UpdateIdentityError { .. }) => {}
        _ => panic!("expected the update rejection"),
    }
    match token.revoke_outcome("id-1", 500, b"{\"reqId\":\"r\",\"error\":\"e\",\"message\":\"m\",\"statusCode\":500}") {
        Err(UniversalAuthError::RevokeConfigurationError { .. }) => {}
        _ => panic!("expected the revoke rejection"),
    }
}

const CREATED_SECRET_BODY: &str = "{\"clientSecret\":\"plain-xyz\",\"clientSecretData\":{\
\"clientSecretNumUses\":0,\"clientSecretNumUsesLimit\":5,\"clientSecretPrefix\":\"pl\",\
\"clientSecretTTL\":3600,\"createdAt\":\"t1\",\"description\":\"test secret\",\"id\":\"cs-1\",\
\"identityUAId\":\"ua-7\",\"isClientSecretRevoked\":false,\"updatedAt\":\"t1\"}}";

#[test]
fn create_client_secret_outcome_returns_plaintext_once() {
    let token = mock_access_token();
    let cs = token
        .create_client_secret_outcome("id-1", 200, CREATED_SECRET_BODY.as_bytes())
        .unwrap();
    assert!(!cs.client_secret.expose().is_empty());
    assert_eq!(cs.client_secret.expose(), "plain-xyz");
    assert_eq!(cs.client_secret_data.id, "cs-1");
    assert_eq!(cs.client_secret_data.description, "test secret");
    assert!(!cs.client_secret_data.is_client_secret_revoked);
}

#[test]
fn create_client_secret_outcome_rejects_empty_plaintext() {
    let token = mock_access_token();
    let body = "{\"clientSecret\":\"\",\"clientSecretData\":{\
\"clientSecretNumUses\":0,\"clientSecretNumUsesLimit\":5,\"clientSecretPrefix\":\"pl\",\
\"clientSecretTTL\":3600,\"createdAt\":\"t1\",\"description\":\"d\",\"id\":\"cs-1\",\
\"identityUAId\":\"ua-7\",\"isClientSecretRevoked\":false,\"updatedAt\":\"t1\"}}";
    assert!(matches!(
        token.create_client_secret_outcome("id-1", 200, body.as_bytes()),
        Err(UniversalAuthError::CreateClientSecretError {
            error: ResponseFailure::MalformedResponse,
            ..
        })
    ));
}

#[test]
fn create_client_secret_request_carries_fields() {
    let token = mock_access_token();
    let req = token.create_client_secret_request("https://h", "id-1", "a secret", 5, 3600);
    assert_eq!(
        req.url,
        "https://h/api/v1/auth/universal-auth/identities/id-1/client-secrets"
    );
    assert_eq!(req.description, "a secret");
    assert_eq!(req.num_uses_limit, 5);
    assert_eq!(req.ttl, 3600);
}

#[test]
fn get_client_secret_by_id_outcome_returns_metadata_only() {
    let token = mock_access_token();
    let body = "{\"clientSecretNumUses\":2,\"clientSecretNumUsesLimit\":5,\
\"clientSecretPrefix\":\"pl\",\"clientSecretTTL\":3600,\"createdAt\":\"t1\",\
\"description\":\"d\",\"id\":\"cs-1\",\"identityUAId\":\"ua-7\",\
\"isClientSecretRevoked\":false,\"updatedAt\":\"t2\"}";
    let data = token
        .get_client_secret_by_id_outcome("id-1", 200, body.as_bytes())
        .unwrap();
    assert_eq!(data.client_secret_num_uses, 2);
    assert_eq!(data.client_secret_num_uses_limit, 5);
    assert_eq!(data.id, "cs-1");
    assert_eq!(data.identity_ua_id, "ua-7");
    assert!(!data.is_client_secret_revoked);
}

#[test]
fn create_client_secret_outcome_rejection_is_classified() {
    let token = mock_access_token();
    let body = "{\"reqId\":\"r\",\"error\":\"e\",\"message\":\"m\",\"statusCode\":400}";
    match token.create_client_secret_outcome("id-1", 400, body.as_bytes()) {
        Err(UniversalAuthError::CreateClientSecretError { identity, api_version, error }) => {
            assert_eq!(identity, "id-1");
            assert_eq!(api_version, "v1");
            assert!(matches!(
                error,
                ResponseFailure::Rejection { error: ApiResponse::BadRequest { .. } }
            ));
        }
        _ => panic!("expected the create rejection"),
    }
}

#[test]
fn get_client_secret_by_id_outcome_rejection_is_classified() {
    let token = mock_access_token();
    let body = "{\"error\":\"e\",\"message\":\"m\",\"statusCode\":404}";
    match token.get_client_secret_by_id_outcome("id-1", 404, body.as_bytes()) {
        Err(UniversalAuthError::GetClientSecretError { identity, api_version, error }) => {
            assert_eq!(identity, "id-1");
            assert_eq!(api_version, "v1");
            assert!(matches!(
                error,
                ResponseFailure::Rejection { error: ApiResponse::NotFound { .. } }
            ));
        }
        _ => panic!("expected the metadata-read rejection"),
    }
}

#[test]
fn revoke_client_secret_outcome_and_urls() {
    let token = mock_access_token();
    assert!(token.revoke_client_secret_outcome("id-1", 200, b"{}").is_ok());
    let url = token.revoke_client_secret_request("https://h", "id-1", "cs-1");
    assert_eq!(
        url,
        "https://h/api/v1/auth/universal-auth/identities/id-1/client-secrets/cs-1/revoke"
    );
    let get_url = token.get_client_secret_by_id_request("https://h", "id-1", "cs-1");
    assert_eq!(
        get_url,
        "https://h/api/v1/auth/universal-auth/identities/id-1/client-secrets/cs-1"
    );
    match token.revoke_client_secret_outcome("id-1", 500, b"{\"reqId\":\"r\",\"error\":\"e\",\"message\":\"m\",\"statusCode\":500}") {
        Err(UniversalAuthError::RevokeClientSecretError { .. }) => {}
        _ => panic!("expected the client-secret revoke rejection"),
    }
}

#[test]
fn token_endpoint_url_is_exact() {
    let url = construct_universal_auth_token_endpoint_url("https://h", "v1", "renew");
    assert_eq!(url, "https://h/api/v1/auth/token/renew");
}

#[test]
fn u64_rendering_is_exact() {
    assert_eq!(u64_to_string(0), "0");
    assert_eq!(u64_to_string(7), "7");
    assert_eq!(u64_to_string(42), "42");
    assert_eq!(u64_to_string(2592000), "2592000");
    assert_eq!(u64_to_string(u64::MAX), "18446744073709551615");
}

#[test]
fn renderings_redact_secrets() {
    let creds = credentials("cid", "hunter2-secret", "iid", "v1");
    let shown = creds.display_string();
    assert!(!shown.contains("hunter2-secret"));
    assert!(shown.contains("cid"));
    assert!(shown.contains("**"));

    let token = mock_access_token();
    let shown = token.display_string();
    assert!(!shown.contains("tok-123"));
    assert!(shown.contains("2592000"));
    assert!(shown.contains("Bearer"));

    let cs = token
        .create_client_secret_outcome("id-1", 200, CREATED_SECRET_BODY.as_bytes())
        .unwrap();
    let shown = cs.display_string();
    assert!(!shown.contains("plain-xyz"));
    assert!(shown.contains("cs-1"));
}

#[test]
fn api_response_rendering_is_exact() {
    let body = "{\"reqId\":\"r1\",\"error\":\"e\",\"message\":\"m\",\"statusCode\":400}";
    let resp = classify_body(body.as_bytes()).unwrap();
    assert_eq!(
        resp.display_string(),
        "req_id: r1\nstatus_code: 400\nmessage: m\nerror: e"
    );
    let nf = "{\"error\":\"e\",\"message\":\"m\",\"statusCode\":404}";
    let resp = classify_body(nf.as_bytes()).unwrap();
    assert_eq!(resp.display_string(), "status_code: 404\nmessage: m\nerror: e");
    assert_eq!(ApiResponse::Success.display_string(), "ok");
}

#[test]
fn access_token_data_default_is_zeroed() {
    let d = infisical_rs::utils::UniversalAuthAccessTokenData::default();
    assert!(d.access_token.expose().is_empty());
    assert_eq!(d.access_token_max_ttl, 0);
    assert_eq!(d.expires_in, 0);
    assert!(d.token_type.is_empty());
}

#[test]
fn secret_guard_round_trip() {
    let g = SecretGuard::new("abc".to_string());
    assert_eq!(g.expose(), "abc");
    let d = g.duplicate();
    assert_eq!(d.expose(), "abc");
}
