use infisical_rs::error_handling::UniversalAuthError;
use infisical_rs::secret_guard::SecretGuard;
use infisical_rs::service_model::MockAuthService;
use infisical_rs::universal_auth::build_identity_config_request_data;
use infisical_rs::utils::{UniversalAuthCredentials, INFISICAL_DEFAULT_TIME_TO_LIVE};

fn service() -> MockAuthService {
    MockAuthService::new()
}

fn mock_token() -> infisical_rs::utils::UniversalAuthAccessToken {
    let creds = UniversalAuthCredentials {
        client_id: "cid".to_string(),
        client_secret: SecretGuard::new("cs".to_string()),
        identity_id: "iid".to_string(),
        version: "v1".to_string(),
    };
    let body = "{\"accessToken\":\"tok\",\"accessTokenMaxTTL\":2592000,\"expiresIn\":2592000,\"tokenType\":\"Bearer\"}";
    creds.login_outcome(200, body.as_bytes()).unwrap()
}

#[test]
fn test_attach_default() {
    let mut service = service();
    let data = build_identity_config_request_data(None, None, None, None, None);
    let configured = service.attach("id-1", &data).unwrap();
    assert!(!configured.id().is_empty());
    assert!(!configured.client_id().is_empty());
    assert_eq!(*configured.access_token_ttl(), INFISICAL_DEFAULT_TIME_TO_LIVE);
    assert_eq!(*configured.access_token_max_ttl(), INFISICAL_DEFAULT_TIME_TO_LIVE);
    assert_eq!(*configured.access_token_num_uses_limit(), 0);
    assert!(!configured.created_at().is_empty());
    assert!(!configured.updated_at().is_empty());
    assert!(!configured.identity_id().is_empty());
}

#[test]
fn test_already_attached_config() {
    let mut service = service();
    let data = build_identity_config_request_data(None, None, None, None, None);
    assert!(service.attach("id-1", &data).is_ok());
    let second = service.attach("id-1", &data);
    assert!(second.is_err());
}

#[test]
fn test_default_retrieve() {
    let mut service = service();
    let data = build_identity_config_request_data(None, None, None, None, None);
    service.attach("id-1", &data).unwrap();
    let retrieved = service.retrieve("id-1").unwrap();
    assert_eq!(*retrieved.access_token_max_ttl(), INFISICAL_DEFAULT_TIME_TO_LIVE);
    assert_eq!(*retrieved.access_token_num_uses_limit(), 0);
    assert_eq!(*retrieved.access_token_ttl(), INFISICAL_DEFAULT_TIME_TO_LIVE);
}

#[test]
fn test_retrieve_config() {
    let mut service = service();
    let data = build_identity_config_request_data(None, None, None, None, None);
    service.attach("id-1", &data).unwrap();
    let retrieved = service.retrieve("id-1").unwrap();
    assert_eq!(*retrieved.access_token_max_ttl(), INFISICAL_DEFAULT_TIME_TO_LIVE);
    assert_eq!(*retrieved.access_token_ttl(), INFISICAL_DEFAULT_TIME_TO_LIVE);
    assert_eq!(*retrieved.access_token_num_uses_limit(), 0);
    assert!(!retrieved.client_id().is_empty());
}

#[test]
fn revoke_identity_config() {
    let mut service = service();
    let data = build_identity_config_request_data(None, None, None, None, None);
    service.attach("id-1", &data).unwrap();
    let revoked = service.revoke("id-1").unwrap();
    assert!(revoked.is_some());
}

#[test]
fn revoke_clent_secret() {
    let mut service = service();
    let data = build_identity_config_request_data(None, None, None, None, None);
    service.attach("id-1", &data).unwrap();
    let created = service.create_client_secret("id-1", "d", 5, 3600).unwrap();
    let id = created.client_secret_data.id.clone();
    assert!(service.revoke_client_secret(&id).is_ok());
    assert!(service.revoke_client_secret(&id).is_ok());
    let metadata = service.get_client_secret_by_id(&id).unwrap();
    assert!(metadata.is_client_secret_revoked);
}

#[test]
fn round_trip_explicit_limits() {
    let mut service = service();
    let data = build_identity_config_request_data(None, None, Some(3600), Some(7200), Some(5));
    service.attach("id-9", &data).unwrap();
    let retrieved = service.retrieve("id-9").unwrap();
    assert_eq!(*retrieved.access_token_ttl(), 3600);
    assert_eq!(*retrieved.access_token_max_ttl(), 7200);
    assert_eq!(*retrieved.access_token_num_uses_limit(), 5);
}

#[test]
fn revoke_twice_succeeds_both_times() {
    let mut service = service();
    let data = build_identity_config_request_data(None, None, None, None, None);
    service.attach("id-1", &data).unwrap();
    let first = service.revoke("id-1");
    assert!(first.is_ok());
    assert!(first.unwrap().is_some());
    let second = service.revoke("id-1");
    assert!(second.is_ok());
    assert!(second.unwrap().is_none());
    assert!(service.retrieve("id-1").is_err());
}

#[test]
fn attach_twice_fails_without_revoke() {
    let mut service = service();
    let data = build_identity_config_request_data(None, None, Some(1), Some(2), Some(3));
    assert!(service.attach("id-1", &data).is_ok());
    assert!(service.attach("id-1", &data).is_err());
    service.revoke("id-1").unwrap();
    assert!(service.attach("id-1", &data).is_ok());
}

#[test]
fn default_trusted_ips_substituted() {
    let mut service = service();
    let data = build_identity_config_request_data(None, None, None, None, None);
    service.attach("id-1", &data).unwrap();
    let retrieved = service.retrieve("id-1").unwrap();
    let at = retrieved.access_token_trusted_ips();
    assert_eq!(at.len(), 2);
    assert_eq!(at[0].ip_address, "0.0.0.0");
    assert_eq!(at[0].type_, "ipv4");
    assert_eq!(at[1].ip_address, "::");
    assert_eq!(at[1].type_, "ipv6");
    let cs = retrieved.client_secret_trusted_ips();
    assert_eq!(cs.len(), 2);
    assert_eq!(cs[0].ip_address, "0.0.0.0");
    assert_eq!(cs[1].ip_address, "::");
}

#[test]
fn created_secret_plaintext_is_returned_exactly_once() {
    let mut service = service();
    let data = build_identity_config_request_data(None, None, None, None, None);
    service.attach("id-1", &data).unwrap();
    let created = service.create_client_secret("id-1", "rotating", 5, 3600).unwrap();
    assert!(!created.client_secret.expose().is_empty());
    assert_eq!(created.client_secret_data.description, "rotating");
    assert_eq!(created.client_secret_data.client_secret_num_uses_limit, 5);
    assert_eq!(created.client_secret_data.client_secret_ttl, 3600);
    let id = created.client_secret_data.id.clone();
    let metadata = service.get_client_secret_by_id(&id).unwrap();
    assert_eq!(metadata.id, id);
    assert_eq!(metadata.description, "rotating");
    assert!(!metadata.is_client_secret_revoked);
}

#[test]
fn revoked_secret_stays_revoked_after_later_create() {
    let mut service = service();
    let data = build_identity_config_request_data(None, None, None, None, None);
    service.attach("id-1", &data).unwrap();
    let first = service.create_client_secret("id-1", "one", 1, 10).unwrap();
    let first_id = first.client_secret_data.id.clone();
    service.revoke_client_secret(&first_id).unwrap();
    let second = service.create_client_secret("id-1", "two", 2, 20).unwrap();
    assert_ne!(second.client_secret_data.id, first_id);
    let old = service.get_client_secret_by_id(&first_id).unwrap();
    assert!(old.is_client_secret_revoked);
    assert_eq!(old.description, "one");
    let fresh = service.get_client_secret_by_id(&second.client_secret_data.id).unwrap();
    assert!(!fresh.is_client_secret_revoked);
}

#[test]
fn create_secret_requires_configuration() {
    let mut service = service();
    assert!(service.create_client_secret("id-none", "d", 1, 1).is_err());
}

#[test]
fn update_replaces_limits() {
    let mut service = service();
    let data = build_identity_config_request_data(None, None, Some(100), Some(200), Some(3));
    service.attach("id-1", &data).unwrap();
    let new_data = build_identity_config_request_data(None, None, Some(111), Some(222), Some(9));
    let updated = service.update("id-1", &new_data).unwrap();
    assert_eq!(*updated.access_token_ttl(), 111);
    let retrieved = service.retrieve("id-1").unwrap();
    assert_eq!(*retrieved.access_token_ttl(), 111);
    assert_eq!(*retrieved.access_token_max_ttl(), 222);
    assert_eq!(*retrieved.access_token_num_uses_limit(), 9);
    let absent = service.update("id-2", &new_data);
    assert!(absent.is_err());
}

#[test]
fn login_outcome_of_empty_credentials_never_panics() {
    let creds = UniversalAuthCredentials {
        client_id: String::new(),
        client_secret: SecretGuard::new(String::new()),
        identity_id: String::new(),
        version: String::new(),
    };
    let r = creds.validate();
    assert!(matches!(
        r,
        Err(UniversalAuthError::NoUniversalAuthAPIClientIDSpecified)
    ));
    let _token = mock_token();
}
