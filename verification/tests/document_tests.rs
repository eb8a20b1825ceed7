use crosswatch_auth::document::{CredentialDocument, PlexAccount, SimklAccount};
use crosswatch_auth::error::AuthError;
use crosswatch_auth::json::{parse, Json};

fn sample() -> CredentialDocument {
    CredentialDocument {
        plex: PlexAccount { account_token: Some("plex-token".to_string()) },
        simkl: SimklAccount {
            client_id: "id-1".to_string(),
            client_secret: "secret-1".to_string(),
            access_token: Some("access".to_string()),
            refresh_token: None,
            token_expires_at: Some(1_700_003_600),
        },
        sync: Some(Json::Object(vec![
            ("enable_add".to_string(), Json::Bool(true)),
            (
                "unknown_to_us".to_string(),
                Json::Array(vec![Json::Int(1), Json::Real("2.5".to_string()), Json::Null]),
            ),
        ])),
        runtime: Some(Json::Object(vec![("debug".to_string(), Json::Bool(false))])),
    }
}

#[test]
fn new_document_has_nothing_on_record() {
    let doc = CredentialDocument::new();
    assert_eq!(doc.plex.account_token, None);
    assert_eq!(doc.simkl.client_id, "");
    assert_eq!(doc.simkl.client_secret, "");
    assert_eq!(doc.simkl.access_token, None);
    assert_eq!(doc.simkl.refresh_token, None);
    assert_eq!(doc.simkl.token_expires_at, None);
    assert_eq!(doc.sync, None);
    assert_eq!(doc.runtime, None);
    assert_eq!(CredentialDocument::default(), doc);
}

#[test]
fn empty_object_reads_as_the_default_document() {
    assert_eq!(CredentialDocument::from_text("{}"), Ok(CredentialDocument::new()));
    assert_eq!(
        CredentialDocument::from_text("{\"plex\": null, \"simkl\": null}"),
        Ok(CredentialDocument::new())
    );
}

#[test]
fn document_round_trips_through_json() {
    let doc = sample();
    assert_eq!(CredentialDocument::from_json(&doc.to_json()), Ok(doc));
}

#[test]
fn document_round_trips_through_text() {
    let doc = sample();
    let written = doc.to_text().unwrap();
    assert_eq!(CredentialDocument::from_text(&written), Ok(doc));
}

#[test]
fn default_document_round_trips_through_text() {
    let doc = CredentialDocument::new();
    let written = doc.to_text().unwrap();
    assert_eq!(CredentialDocument::from_text(&written), Ok(doc));
}

#[test]
fn to_json_writes_the_members_in_order() {
    let doc = CredentialDocument::new();
    let expected = Json::Object(vec![
        (
            "plex".to_string(),
            Json::Object(vec![("account_token".to_string(), Json::Null)]),
        ),
        (
            "simkl".to_string(),
            Json::Object(vec![
                ("client_id".to_string(), Json::Text(String::new())),
                ("client_secret".to_string(), Json::Text(String::new())),
                ("access_token".to_string(), Json::Null),
                ("refresh_token".to_string(), Json::Null),
                ("token_expires_at".to_string(), Json::Null),
            ]),
        ),
    ]);
    assert_eq!(doc.to_json(), expected);
}

#[test]
fn from_text_reads_every_field() {
    let text = "{\"plex\": {\"account_token\": \"t\"}, \"simkl\": {\"client_id\": \"i\", \
        \"client_secret\": \"s\", \"access_token\": \"a\", \"refresh_token\": \"r\", \
        \"token_expires_at\": 12}, \"sync\": {\"x\": 1}, \"runtime\": null, \"other\": 5}";
    let doc = CredentialDocument::from_text(text).unwrap();
    assert_eq!(doc.plex.account_token, Some("t".to_string()));
    assert_eq!(doc.simkl.client_id, "i");
    assert_eq!(doc.simkl.client_secret, "s");
    assert_eq!(doc.simkl.access_token, Some("a".to_string()));
    assert_eq!(doc.simkl.refresh_token, Some("r".to_string()));
    assert_eq!(doc.simkl.token_expires_at, Some(12));
    assert_eq!(doc.sync, Some(Json::Object(vec![("x".to_string(), Json::Int(1))])));
    assert_eq!(doc.runtime, Some(Json::Null));
}

#[test]
fn from_text_fails_on_what_is_no_document() {
    assert_eq!(CredentialDocument::from_text("not json"), Err(AuthError::Storage));
    assert_eq!(CredentialDocument::from_text("[]"), Err(AuthError::Storage));
    assert_eq!(CredentialDocument::from_text("{\"plex\": 5}"), Err(AuthError::Storage));
    assert_eq!(CredentialDocument::from_text("{\"simkl\": []}"), Err(AuthError::Storage));
    assert_eq!(
        CredentialDocument::from_text("{\"plex\": {\"account_token\": 5}}"),
        Err(AuthError::Storage)
    );
    assert_eq!(
        CredentialDocument::from_text("{\"simkl\": {\"client_id\": null}}"),
        Err(AuthError::Storage)
    );
    assert_eq!(
        CredentialDocument::from_text("{\"simkl\": {\"token_expires_at\": \"soon\"}}"),
        Err(AuthError::Storage)
    );
    assert_eq!(
        CredentialDocument::from_text("{\"simkl\": {\"token_expires_at\": 1.5}}"),
        Err(AuthError::Storage)
    );
}

#[test]
fn from_text_takes_any_expiry_that_is_an_integer() {
    assert_eq!(
        CredentialDocument::from_text("{\"simkl\": {\"token_expires_at\": -1}}")
            .unwrap()
            .simkl
            .token_expires_at,
        Some(-1)
    );
    assert_eq!(
        CredentialDocument::from_text(
            "{\"simkl\": {\"token_expires_at\": 9223372036854775808}}"
        ),
        Err(AuthError::Storage)
    );
    assert_eq!(
        CredentialDocument::from_text("{\"simkl\": {\"token_expires_at\": 0}}")
            .unwrap()
            .simkl
            .token_expires_at,
        Some(0)
    );
}

#[test]
fn negative_expiry_round_trips() {
    let mut doc = sample();
    doc.simkl.token_expires_at = Some(-5);
    assert_eq!(CredentialDocument::from_json(&doc.to_json()), Ok(doc));
}

#[test]
fn to_text_fails_only_on_a_block_that_cannot_be_written() {
    let mut doc = CredentialDocument::new();
    doc.sync = Some(Json::Real("not a number".to_string()));
    assert_eq!(doc.to_text(), None);
}

#[test]
fn set_plex_token_changes_the_token_alone() {
    let mut doc = sample();
    doc.set_plex_token("tok-1".to_string());
    let mut expected = sample();
    expected.plex.account_token = Some("tok-1".to_string());
    assert_eq!(doc, expected);
}

#[test]
fn set_simkl_tokens_keeps_the_client_registration() {
    let mut doc = sample();
    doc.set_simkl_tokens("new-access".to_string(), "new-refresh".to_string(), 99);
    let mut expected = sample();
    expected.simkl.access_token = Some("new-access".to_string());
    expected.simkl.refresh_token = Some("new-refresh".to_string());
    expected.simkl.token_expires_at = Some(99);
    assert_eq!(doc, expected);
    assert_eq!(doc.simkl.client_id, "id-1");
    assert_eq!(doc.simkl.client_secret, "secret-1");
}

#[test]
fn account_members_read_alone() {
    let plex = parse("{\"account_token\": \"p\"}").unwrap();
    assert_eq!(
        PlexAccount::from_json(Some(&plex)),
        Ok(PlexAccount { account_token: Some("p".to_string()) })
    );
    assert_eq!(PlexAccount::from_json(None), Ok(PlexAccount::new()));
    assert_eq!(PlexAccount::from_json(Some(&Json::Int(1))), Err(AuthError::Storage));
    assert_eq!(SimklAccount::from_json(None), Ok(SimklAccount::new()));
    assert_eq!(SimklAccount::from_json(Some(&Json::Bool(true))), Err(AuthError::Storage));
    let simkl = SimklAccount::new();
    assert_eq!(SimklAccount::from_json(Some(&simkl.to_json())), Ok(simkl));
}
