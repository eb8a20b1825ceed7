use crosswatch_auth::error::AuthError;

#[test]
fn every_failure_has_its_notice() {
    assert_eq!(AuthError::Storage.message(), "Config read failed");
    assert_eq!(AuthError::PortBind.message(), "Bind 127.0.0.1:8787 failed");
    assert_eq!(AuthError::MissingClientCredentials.message(), "SIMKL client_id/secret missing");
    assert_eq!(AuthError::Timeout.message(), "Timed out waiting for approval");
    assert_eq!(AuthError::Expired.message(), "PIN expired before it was approved");
    assert_eq!(AuthError::Network.message(), "Request failed");
}

#[test]
fn a_refusal_names_the_status() {
    assert_eq!(AuthError::CreatePin(Some(500)).message(), "Plex PIN create failed: 500");
    assert_eq!(AuthError::Poll(Some(404)).message(), "Plex PIN poll failed: 404");
    assert_eq!(AuthError::TokenExchange(Some(401)).message(), "SIMKL token exchange failed: 401");
    assert_eq!(AuthError::TokenExchange(Some(0)).message(), "SIMKL token exchange failed: 0");
    assert_eq!(
        AuthError::TokenExchange(Some(u16::MAX)).message(),
        "SIMKL token exchange failed: 65535"
    );
}

#[test]
fn a_failure_without_a_status_says_what_was_wrong() {
    assert_eq!(
        AuthError::CreatePin(None).message(),
        "Plex PIN create failed: incomplete response"
    );
    assert_eq!(AuthError::Poll(None).message(), "Plex PIN poll failed: unreadable response");
    assert_eq!(AuthError::TokenExchange(None).message(), "SIMKL token parse failed");
}
