use crosswatch_auth::document::CredentialDocument;
use crosswatch_auth::error::AuthError;
use crosswatch_auth::exchange::{token_request, TokenGrant};
use crosswatch_auth::http::HttpReply;
use crosswatch_auth::listener::{
    callback_code, code_from_parts, CallbackAction, CallbackFlow, ListenerState, Page,
    CALLBACK_PORT,
};

fn pairs(items: &[(&str, &str)]) -> Vec<(String, String)> {
    items.iter().map(|(k, v)| (k.to_string(), v.to_string())).collect()
}

fn registered() -> CredentialDocument {
    let mut doc = CredentialDocument::new();
    doc.simkl.client_id = "client".to_string();
    doc.simkl.client_secret = "secret".to_string();
    doc
}

fn answer(status: u16, body: &str) -> HttpReply {
    HttpReply::Answer { status, body: body.to_string() }
}

fn exchanging() -> CallbackFlow {
    let mut flow = CallbackFlow::start(true).unwrap();
    assert_eq!(flow.on_request("/callback?code=abc123"), CallbackAction::Load);
    assert_eq!(flow.on_document(Some(&registered())), CallbackAction::Exchange);
    flow
}

#[test]
fn port_is_fixed() {
    assert_eq!(CALLBACK_PORT, 8787);
}

#[test]
fn callback_code_reads_the_code() {
    assert_eq!(callback_code("/callback?code=abc123"), Some("abc123".to_string()));
    assert_eq!(callback_code("/callback?state=s&code=abc123&x=1"), Some("abc123".to_string()));
    assert_eq!(callback_code("/callback?code=a%20b%2Bc"), Some("a b+c".to_string()));
    assert_eq!(callback_code("/callback?code=first&code=second"), Some("first".to_string()));
    assert_eq!(callback_code("/callback?code="), Some(String::new()));
    assert_eq!(callback_code("/callback?code=abc#fragment"), Some("abc".to_string()));
}

#[test]
fn callback_code_ignores_noise() {
    assert_eq!(callback_code("/callback"), None);
    assert_eq!(callback_code("/callback?state=s"), None);
    assert_eq!(callback_code("/callback?Code=abc"), None);
    assert_eq!(callback_code("/favicon.ico"), None);
    assert_eq!(callback_code("/other?code=abc123"), None);
    assert_eq!(callback_code("/callback/?code=abc123"), None);
    assert_eq!(callback_code("/"), None);
    assert_eq!(callback_code(""), None);
    assert_eq!(callback_code(":bad"), None);
}

#[test]
fn code_from_parts_wants_the_callback_path() {
    let query = pairs(&[("state", "1"), ("code", "abc123"), ("code", "later")]);
    assert_eq!(code_from_parts("/callback", &query), Some("abc123".to_string()));
    assert_eq!(code_from_parts("/elsewhere", &query), None);
    assert_eq!(code_from_parts("/callback", &pairs(&[("state", "1")])), None);
    assert_eq!(code_from_parts("/callback", &vec![]), None);
}

#[test]
fn start_fails_when_the_port_is_taken() {
    assert_eq!(CallbackFlow::start(false), Err(AuthError::PortBind));
    assert_eq!(CallbackFlow::start(true), Ok(CallbackFlow { state: ListenerState::Waiting }));
}

#[test]
fn request_without_code_keeps_listening_then_code_ends_it() {
    let mut flow = CallbackFlow::start(true).unwrap();
    assert_eq!(flow.on_request("/callback"), CallbackAction::Acknowledge(Page::Waiting));
    assert_eq!(flow.state, ListenerState::Waiting);
    assert_eq!(flow.on_request("/favicon.ico"), CallbackAction::Acknowledge(Page::Waiting));
    assert_eq!(flow.state, ListenerState::Waiting);
    assert_eq!(flow.token_request(), None);
    assert_eq!(flow.on_request("/callback?code=abc123"), CallbackAction::Load);
    assert_eq!(flow.state, ListenerState::Loading { code: "abc123".to_string() });
    assert_eq!(flow.on_request("/callback?code=again"), CallbackAction::Nothing);
    assert_eq!(flow.state, ListenerState::Loading { code: "abc123".to_string() });
    assert_eq!(flow.on_document(Some(&registered())), CallbackAction::Exchange);
    let expected = token_request("client", "secret", "abc123");
    assert_eq!(flow.state, ListenerState::Exchanging { request: expected.clone() });
    assert_eq!(flow.token_request(), Some(&expected));
    assert_eq!(flow.on_request("/callback?code=again"), CallbackAction::Nothing);
    assert_eq!(flow.on_document(Some(&registered())), CallbackAction::Nothing);
    assert_eq!(flow.token_request(), Some(&expected));
}

#[test]
fn document_is_not_asked_for_before_a_code() {
    let mut flow = CallbackFlow::start(true).unwrap();
    assert_eq!(flow.on_document(Some(&registered())), CallbackAction::Nothing);
    assert_eq!(flow.on_document(None), CallbackAction::Nothing);
    assert_eq!(flow.state, ListenerState::Waiting);
    assert_eq!(flow.on_callback(None), CallbackAction::Acknowledge(Page::Waiting));
    assert_eq!(flow.state, ListenerState::Waiting);
}

#[test]
fn code_without_client_credentials_sends_nothing() {
    let mut flow = CallbackFlow::start(true).unwrap();
    assert_eq!(flow.on_request("/callback?code=abc123"), CallbackAction::Load);
    let doc = CredentialDocument::new();
    assert_eq!(
        flow.on_document(Some(&doc)),
        CallbackAction::Finish { page: Page::Failed(AuthError::MissingClientCredentials), save: false }
    );
    assert_eq!(flow.state, ListenerState::Done);
    assert_eq!(flow.token_request(), None);
}

#[test]
fn code_with_an_unreadable_document_fails() {
    let mut flow = CallbackFlow::start(true).unwrap();
    assert_eq!(flow.on_callback(Some("abc123".to_string())), CallbackAction::Load);
    assert_eq!(
        flow.on_document(None),
        CallbackAction::Finish { page: Page::Failed(AuthError::Storage), save: false }
    );
    assert_eq!(flow.state, ListenerState::Done);
    assert_eq!(flow.on_request("/callback?code=abc123"), CallbackAction::Nothing);
}

#[test]
fn grant_is_recorded_and_saved() {
    let mut flow = exchanging();
    let mut doc = registered();
    let reply = answer(
        200,
        "{\"access_token\": \"a\", \"refresh_token\": \"r\", \"expires_in\": 3600}",
    );
    assert_eq!(
        flow.on_reply(&reply, 1_700_000_000, &mut doc),
        CallbackAction::Finish { page: Page::Linked, save: true }
    );
    assert_eq!(flow.state, ListenerState::Done);
    let mut expected = registered();
    expected.simkl.access_token = Some("a".to_string());
    expected.simkl.refresh_token = Some("r".to_string());
    expected.simkl.token_expires_at = Some(1_700_003_600);
    assert_eq!(doc, expected);
    assert_eq!(flow.on_reply(&reply, 1_700_000_001, &mut doc), CallbackAction::Nothing);
    assert_eq!(doc, expected);
}

#[test]
fn failed_exchange_saves_nothing() {
    let cases = [
        (answer(400, "{}"), AuthError::TokenExchange(Some(400))),
        (answer(200, "{\"access_token\": \"a\"}"), AuthError::TokenExchange(None)),
        (HttpReply::Unreachable, AuthError::Network),
    ];
    for (reply, error) in cases {
        let mut flow = exchanging();
        let mut doc = registered();
        assert_eq!(
            flow.on_reply(&reply, 5, &mut doc),
            CallbackAction::Finish { page: Page::Failed(error), save: false }
        );
        assert_eq!(flow.state, ListenerState::Done);
        assert_eq!(doc, registered());
    }
}

#[test]
fn grant_with_an_expiry_out_of_range_fails() {
    let mut flow = exchanging();
    let mut doc = registered();
    let grant = TokenGrant {
        access_token: "a".to_string(),
        refresh_token: "r".to_string(),
        expires_in: i64::MAX,
    };
    assert_eq!(
        flow.on_grant(Ok(grant), 1, &mut doc),
        CallbackAction::Finish { page: Page::Failed(AuthError::TokenExchange(None)), save: false }
    );
    assert_eq!(doc, registered());
}

#[test]
fn reply_before_the_callback_is_ignored() {
    let mut flow = CallbackFlow::start(true).unwrap();
    let mut doc = registered();
    let reply = answer(
        200,
        "{\"access_token\": \"a\", \"refresh_token\": \"r\", \"expires_in\": 3600}",
    );
    assert_eq!(flow.on_reply(&reply, 5, &mut doc), CallbackAction::Nothing);
    assert_eq!(flow.state, ListenerState::Waiting);
    assert_eq!(doc, registered());
}

#[test]
fn pages() {
    assert_eq!(Page::Waiting.status(), 200);
    assert_eq!(
        Page::Waiting.html(),
        "<html><body><h3>Waiting for the authorization callback.</h3></body></html>"
    );
    assert_eq!(Page::Linked.status(), 200);
    assert_eq!(
        Page::Linked.html(),
        "<html><body><h3>SIMKL linked. You can close this window.</h3></body></html>"
    );
    assert_eq!(Page::Failed(AuthError::MissingClientCredentials).status(), 400);
    assert_eq!(
        Page::Failed(AuthError::MissingClientCredentials).html(),
        "<html><body><h3>SIMKL client_id/secret missing.</h3></body></html>"
    );
    assert_eq!(Page::Failed(AuthError::TokenExchange(Some(403))).status(), 400);
    assert_eq!(
        Page::Failed(AuthError::TokenExchange(Some(403))).html(),
        "<html><body><h3>SIMKL token exchange failed.</h3></body></html>"
    );
    assert_eq!(Page::Failed(AuthError::TokenExchange(None)).status(), 500);
    assert_eq!(
        Page::Failed(AuthError::TokenExchange(None)).html(),
        "<html><body><h3>SIMKL token parse failed.</h3></body></html>"
    );
    assert_eq!(Page::Failed(AuthError::Network).status(), 500);
    assert_eq!(
        Page::Failed(AuthError::Network).html(),
        "<html><body><h3>SIMKL token request failed.</h3></body></html>"
    );
    assert_eq!(Page::Failed(AuthError::Storage).status(), 500);
    assert_eq!(
        Page::Failed(AuthError::Storage).html(),
        "<html><body><h3>Config read failed.</h3></body></html>"
    );
    assert_eq!(Page::Failed(AuthError::Timeout).status(), 500);
    assert_eq!(
        Page::Failed(AuthError::Timeout).html(),
        "<html><body><h3>SIMKL linking failed.</h3></body></html>"
    );
}

#[test]
fn page_outcomes() {
    assert_eq!(Page::Waiting.outcome(), None);
    assert_eq!(Page::Linked.outcome(), Some(Ok(())));
    assert_eq!(Page::Failed(AuthError::Network).outcome(), Some(Err(AuthError::Network)));
}

#[test]
fn page_after_a_save() {
    assert_eq!(Page::Linked.if_saved(true), Page::Linked);
    assert_eq!(Page::Linked.if_saved(false), Page::Failed(AuthError::Storage));
}
