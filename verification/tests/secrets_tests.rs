use infisical_rs::reqwest_utils::reqwest_bytes_to_unescaped_string;
use infisical_rs::secrets::{construct_secret_raw_url, get_secret_outcome};
use infisical_rs::error_handling::{ResponseFailure, UniversalAuthError};

const SECRET_BODY: &str = "{\"secret\":{\"_id\":\"u-1\",\"createdAt\":\"t1\",\
\"environment\":\"dev\",\"id\":\"s-1\",\"secretComment\":\"c\",\"secretKey\":\"DB_URL\",\
\"secretMetadata\":[{\"key\":\"team\",\"value\":\"core\"},{\"key\":\"team\",\"value\":\"infra\"},\
{\"key\":\"tier\",\"value\":\"gold\"}],\
\"secretReminderNote\":\"\",\"secretReminderRepeatDays\":0,\"secretValue\":\"postgres://u:p@h/db\",\
\"tags\":[{\"color\":\"red\",\"id\":\"tag-1\",\"name\":\"prod\",\"slug\":\"prod\"},\
{\"color\":\"blue\",\"id\":\"tag-2\",\"name\":\"db\",\"slug\":\"db\"}],\
\"type\":\"shared\",\"updatedAt\":\"t2\",\"version\":3,\"workspace\":\"ws-1\"}}";

#[test]
fn get_secret_outcome_decodes_record() {
    let secret = get_secret_outcome("DB_URL", 200, SECRET_BODY.as_bytes()).unwrap();
    assert_eq!(secret.data.secret_key, "DB_URL");
    assert_eq!(secret.data.secret_value.expose(), "postgres://u:p@h/db");
    assert_eq!(secret.data.environment, "dev");
    assert_eq!(secret.data.version, 3);
    assert_eq!(secret.data.secret_metadata.len(), 3);
    assert_eq!(secret.data.tags.len(), 2);
    assert_eq!(secret.data.skip_multiline_encoding, None);
}

#[test]
fn get_secret_outcome_malformed_and_rejected() {
    assert!(matches!(
        get_secret_outcome("DB_URL", 200, b"{\"secret\":{\"id\":\"s-1\"}}"),
        Err(UniversalAuthError::RetrieveSecretError {
            error: ResponseFailure::MalformedResponse,
            ..
        })
    ));
    let rejection = "{\"error\":\"e\",\"message\":\"m\",\"statusCode\":404}";
    assert!(matches!(
        get_secret_outcome("DB_URL", 404, rejection.as_bytes()),
        Err(UniversalAuthError::RetrieveSecretError { .. })
    ));
    assert!(matches!(
        get_secret_outcome("DB_URL", 503, b"oops"),
        Err(UniversalAuthError::UnclassifiableResponse { status: 503, .. })
    ));
}

#[test]
fn get_secret_metadata_filters_by_key() {
    let secret = get_secret_outcome("DB_URL", 200, SECRET_BODY.as_bytes()).unwrap();
    let team = secret.get_secret_metadata("team");
    assert_eq!(team.len(), 2);
    assert_eq!(team[0].value, "core");
    assert_eq!(team[1].value, "infra");
    let none = secret.get_secret_metadata("absent");
    assert_eq!(none.len(), 0);
}

#[test]
fn search_tags_by_id_and_fields() {
    let secret = get_secret_outcome("DB_URL", 200, SECRET_BODY.as_bytes()).unwrap();
    let by_id = secret.search_tags(Some("tag-2"), None, None, None);
    assert_eq!(by_id.len(), 1);
    assert_eq!(by_id[0].name, "db");
    let by_color = secret.search_tags(None, Some("red"), None, None);
    assert_eq!(by_color.len(), 1);
    assert_eq!(by_color[0].id, "tag-1");
    let by_name_or_slug = secret.search_tags(None, None, Some("prod"), Some("db"));
    assert_eq!(by_name_or_slug.len(), 2);
    let nothing = secret.search_tags(None, None, None, None);
    assert_eq!(nothing.len(), 0);
}

#[test]
fn secret_raw_url_is_exact() {
    let url = construct_secret_raw_url("https://h", "DB_URL", "ws-1", Some("dev"), Some("/app"));
    assert_eq!(
        url,
        "https://h/api/v3/secrets/raw/DB_URL?workspaceId=ws-1&environment=dev&secretPath=/app"
    );
    let defaults = construct_secret_raw_url("https://h", "DB_URL", "ws-1", None, None);
    assert_eq!(
        defaults,
        "https://h/api/v3/secrets/raw/DB_URL?workspaceId=ws-1&environment=&secretPath=/"
    );
}

#[test]
fn unescaped_body_round_trips() {
    let bytes = b"{\"a\": \"b\"}";
    let out = reqwest_bytes_to_unescaped_string(bytes).unwrap();
    assert_eq!(out, "{\"a\": \"b\"}");
    let with_newline = b"line1\nline2";
    let out = reqwest_bytes_to_unescaped_string(with_newline).unwrap();
    assert_eq!(out, "line1\nline2");
}
