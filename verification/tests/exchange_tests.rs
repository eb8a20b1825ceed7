use crosswatch_auth::document::CredentialDocument;
use crosswatch_auth::error::AuthError;
use crosswatch_auth::exchange::{
    client_credentials, expires_at, grant_from_json, grant_from_reply, record_grant, token_request,
    TokenGrant,
};
use crosswatch_auth::http::{HttpReply, Method};
use crosswatch_auth::json::{parse, Json};

fn answer(status: u16, body: &str) -> HttpReply {
    HttpReply::Answer { status, body: body.to_string() }
}

fn grant(expires_in: i64) -> TokenGrant {
    TokenGrant {
        access_token: "access".to_string(),
        refresh_token: "refresh".to_string(),
        expires_in,
    }
}

fn registered() -> CredentialDocument {
    let mut doc = CredentialDocument::new();
    doc.simkl.client_id = "client".to_string();
    doc.simkl.client_secret = "secret".to_string();
    doc
}

#[test]
fn credentials_need_both_parts() {
    assert_eq!(
        client_credentials(&registered()),
        Ok(("client".to_string(), "secret".to_string()))
    );
    let mut no_id = registered();
    no_id.simkl.client_id = String::new();
    assert_eq!(client_credentials(&no_id), Err(AuthError::MissingClientCredentials));
    let mut no_secret = registered();
    no_secret.simkl.client_secret = String::new();
    assert_eq!(client_credentials(&no_secret), Err(AuthError::MissingClientCredentials));
    assert_eq!(
        client_credentials(&CredentialDocument::new()),
        Err(AuthError::MissingClientCredentials)
    );
}

#[test]
fn token_request_carries_the_payload() {
    let request = token_request("client", "se\"cret", "abc123");
    assert_eq!(request.method, Method::Post);
    assert_eq!(request.url, "https://api.simkl.com/oauth/token");
    assert_eq!(
        request.headers,
        vec![("Content-Type".to_string(), "application/json".to_string())]
    );
    let body = parse(&request.body.unwrap()).unwrap();
    let expected = Json::Object(vec![
        ("client_id".to_string(), Json::Text("client".to_string())),
        ("client_secret".to_string(), Json::Text("se\"cret".to_string())),
        ("code".to_string(), Json::Text("abc123".to_string())),
        ("grant_type".to_string(), Json::Text("authorization_code".to_string())),
        (
            "redirect_uri".to_string(),
            Json::Text("http://127.0.0.1:8787/callback".to_string()),
        ),
    ]);
    assert_eq!(body, expected);
}

#[test]
fn grant_needs_all_three_fields() {
    let full = "{\"access_token\": \"a\", \"refresh_token\": \"r\", \"expires_in\": 3600, \"x\": 1}";
    assert_eq!(
        grant_from_reply(&answer(200, full)),
        Ok(TokenGrant {
            access_token: "a".to_string(),
            refresh_token: "r".to_string(),
            expires_in: 3600
        })
    );
    let bodies = [
        "{\"refresh_token\": \"r\", \"expires_in\": 3600}",
        "{\"access_token\": \"a\", \"expires_in\": 3600}",
        "{\"access_token\": \"a\", \"refresh_token\": \"r\"}",
        "{\"access_token\": \"a\", \"refresh_token\": \"r\", \"expires_in\": \"3600\"}",
        "{\"access_token\": \"a\", \"refresh_token\": null, \"expires_in\": 3600}",
        "{\"access_token\": 1, \"refresh_token\": \"r\", \"expires_in\": 3600}",
        "{\"access_token\": \"a\", \"refresh_token\": \"r\", \"expires_in\": 1.5}",
        "{}",
        "[]",
        "no json",
    ];
    for body in bodies {
        assert_eq!(grant_from_reply(&answer(200, body)), Err(AuthError::TokenExchange(None)));
    }
}

#[test]
fn grant_failures() {
    let full = "{\"access_token\": \"a\", \"refresh_token\": \"r\", \"expires_in\": 3600}";
    assert_eq!(grant_from_reply(&answer(400, full)), Err(AuthError::TokenExchange(Some(400))));
    assert_eq!(grant_from_reply(&answer(500, full)), Err(AuthError::TokenExchange(Some(500))));
    assert_eq!(grant_from_reply(&HttpReply::Unreachable), Err(AuthError::Network));
    assert_eq!(grant_from_json(&Json::Null), None);
    assert!(grant_from_json(&parse(full).unwrap()).is_some());
}

#[test]
fn expiry_is_now_plus_lifetime() {
    assert_eq!(expires_at(1_700_000_000, 3600), Some(1_700_003_600));
    assert_eq!(expires_at(0, 3600), Some(3600));
    assert_eq!(expires_at(0, 0), Some(0));
    assert_eq!(expires_at(10, -10), Some(0));
    assert_eq!(expires_at(i64::MAX - 3600, 3600), Some(i64::MAX));
}

#[test]
fn expiry_that_cannot_be_told() {
    assert_eq!(expires_at(i64::MAX, 1), None);
    assert_eq!(expires_at(i64::MAX - 3599, 3600), None);
    assert_eq!(expires_at(10, -11), None);
    assert_eq!(expires_at(-1, 0), None);
    assert_eq!(expires_at(i64::MIN, i64::MIN), None);
}

#[test]
fn record_grant_puts_tokens_and_expiry_on_record() {
    let mut doc = registered();
    doc.set_plex_token("plex".to_string());
    assert_eq!(record_grant(&mut doc, grant(3600), 1_700_000_000), Ok(()));
    let mut expected = registered();
    expected.set_plex_token("plex".to_string());
    expected.simkl.access_token = Some("access".to_string());
    expected.simkl.refresh_token = Some("refresh".to_string());
    expected.simkl.token_expires_at = Some(1_700_003_600);
    assert_eq!(doc, expected);
}

#[test]
fn record_grant_leaves_the_document_alone_on_failure() {
    let mut doc = registered();
    assert_eq!(record_grant(&mut doc, grant(1), i64::MAX), Err(AuthError::TokenExchange(None)));
    assert_eq!(doc, registered());
    assert_eq!(record_grant(&mut doc, grant(-5), 4), Err(AuthError::TokenExchange(None)));
    assert_eq!(doc, registered());
}
