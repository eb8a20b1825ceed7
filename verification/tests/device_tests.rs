use crosswatch_auth::device::{
    create_device_pin_request, device_pin_from_json, device_pin_from_reply, device_token_from_json,
    device_token_from_reply, pin_page, poll_device_pin_request, DevicePin, DeviceToken,
};
use crosswatch_auth::error::AuthError;
use crosswatch_auth::http::{HttpReply, HttpRequest, Method};
use crosswatch_auth::json::parse;

fn answer(status: u16, body: &str) -> HttpReply {
    HttpReply::Answer { status, body: body.to_string() }
}

fn get(url: &str) -> HttpRequest {
    HttpRequest {
        method: Method::Get,
        url: url.to_string(),
        headers: vec![("Accept".to_string(), "application/json".to_string())],
        body: None,
    }
}

fn empty_pin() -> DevicePin {
    DevicePin {
        code: String::new(),
        user_code: String::new(),
        authorize_url: String::new(),
        verification_url: String::new(),
        expires_in: 0,
    }
}

#[test]
fn create_request_encodes_its_parameters() {
    assert_eq!(
        create_device_pin_request("abc-123_x.y~z", None),
        get("https://api.simkl.com/oauth/pin?client_id=abc-123_x.y~z")
    );
    assert_eq!(
        create_device_pin_request("my id/1", Some("http://127.0.0.1:8787/callback?a=b&c")),
        get(
            "https://api.simkl.com/oauth/pin?client_id=my%20id%2F1&redirect=\
             http%3A%2F%2F127.0.0.1%3A8787%2Fcallback%3Fa%3Db%26c"
        )
    );
    assert_eq!(
        create_device_pin_request("caf\u{e9}+", Some("")),
        get("https://api.simkl.com/oauth/pin?client_id=caf%C3%A9%2B&redirect=")
    );
}

#[test]
fn poll_request_encodes_its_parameters() {
    assert_eq!(
        poll_device_pin_request("AB CD", "id&1"),
        get("https://api.simkl.com/oauth/pin/AB%20CD?client_id=id%261")
    );
    assert_eq!(
        poll_device_pin_request("ABCDE", "client"),
        get("https://api.simkl.com/oauth/pin/ABCDE?client_id=client")
    );
}

#[test]
fn pin_page_is_where_the_code_is_entered() {
    assert_eq!(pin_page(), "https://simkl.com/pin");
}

#[test]
fn device_pin_reads_every_field() {
    let reply = answer(
        200,
        "{\"code\": \"DEV\", \"user_code\": \"USER\", \"authorize_url\": \"https://simkl.com/pin/USER\", \
         \"verification_url\": \"https://simkl.com/pin\", \"expires_in\": 900, \"extra\": [1]}",
    );
    assert_eq!(
        device_pin_from_reply(&reply),
        Ok(DevicePin {
            code: "DEV".to_string(),
            user_code: "USER".to_string(),
            authorize_url: "https://simkl.com/pin/USER".to_string(),
            verification_url: "https://simkl.com/pin".to_string(),
            expires_in: 900,
        })
    );
}

#[test]
fn device_pin_code_falls_back_to_the_user_code() {
    let expected = DevicePin {
        code: "USER".to_string(),
        user_code: "USER".to_string(),
        authorize_url: String::new(),
        verification_url: String::new(),
        expires_in: 900,
    };
    let absent = answer(200, "{\"user_code\": \"USER\", \"expires_in\": 900}");
    assert_eq!(device_pin_from_reply(&absent), Ok(expected.clone()));
    let null = answer(
        200,
        "{\"code\": null, \"user_code\": \"USER\", \"verification_url\": null, \"expires_in\": 900}",
    );
    assert_eq!(device_pin_from_reply(&null), Ok(expected));
}

#[test]
fn device_pin_takes_missing_fields_as_their_defaults() {
    assert_eq!(
        device_pin_from_reply(&answer(200, "{\"code\": \"DEV\"}")),
        Ok(DevicePin {
            code: "DEV".to_string(),
            user_code: String::new(),
            authorize_url: String::new(),
            verification_url: String::new(),
            expires_in: 0,
        })
    );
}

#[test]
fn device_pin_defaults_every_field_when_one_is_of_the_wrong_kind() {
    let bodies = [
        "{\"code\": 5, \"user_code\": \"USER\", \"expires_in\": 900}",
        "{\"code\": \"DEV\", \"user_code\": \"USER\", \"expires_in\": \"900\"}",
        "{\"code\": \"DEV\", \"user_code\": [\"USER\"]}",
        "{\"code\": \"DEV\", \"authorize_url\": false}",
        "{\"code\": \"DEV\", \"verification_url\": {}}",
        "{\"code\": \"DEV\", \"expires_in\": 1.5}",
    ];
    for body in bodies {
        assert_eq!(device_pin_from_reply(&answer(200, body)), Ok(empty_pin()));
    }
}

#[test]
fn device_pin_defaults_on_a_malformed_body() {
    assert_eq!(device_pin_from_reply(&answer(200, "{}")), Ok(empty_pin()));
    assert_eq!(device_pin_from_reply(&answer(200, "<html>")), Ok(empty_pin()));
    assert_eq!(device_pin_from_reply(&answer(500, "[1, 2]")), Ok(empty_pin()));
    assert_eq!(device_pin_from_json(&None), empty_pin());
    assert_eq!(device_pin_from_json(&parse("7")), empty_pin());
}

#[test]
fn device_pin_fails_only_when_unreachable() {
    assert_eq!(device_pin_from_reply(&HttpReply::Unreachable), Err(AuthError::Network));
}

#[test]
fn empty_object_is_still_pending() {
    assert_eq!(device_token_from_reply(&answer(200, "{}")), Ok(None));
}

#[test]
fn malformed_status_is_still_pending() {
    let bodies = [
        "",
        "<html>",
        "[]",
        "\"token\"",
        "{\"result\": \"KO\"}",
        "{\"access_token\": null}",
        "{\"access_token\": \"\"}",
        "{\"access_token\": 5}",
    ];
    for body in bodies {
        assert_eq!(device_token_from_reply(&answer(200, body)), Ok(None));
    }
    assert_eq!(device_token_from_json(&None), None);
}

#[test]
fn a_field_of_the_wrong_kind_voids_the_tokens() {
    let bodies = [
        "{\"access_token\": \"a\", \"expires_in\": \"x\"}",
        "{\"access_token\": \"a\", \"expires_in\": 1.5}",
        "{\"access_token\": \"a\", \"refresh_token\": 7}",
        "{\"access_token\": \"a\", \"token_type\": []}",
        "{\"access_token\": \"a\", \"result\": true}",
    ];
    for body in bodies {
        assert_eq!(device_token_from_reply(&answer(200, body)), Ok(None));
    }
}

#[test]
fn device_token_is_handed_out() {
    let reply = answer(
        200,
        "{\"result\": \"OK\", \"access_token\": \"a\", \"refresh_token\": \"r\", \
         \"expires_in\": 10, \"token_type\": \"bearer\", \"unknown\": 1}",
    );
    assert_eq!(
        device_token_from_reply(&reply),
        Ok(Some(DeviceToken {
            access_token: "a".to_string(),
            refresh_token: Some("r".to_string()),
            expires_in: Some(10),
            token_type: Some("bearer".to_string()),
            result: Some("OK".to_string()),
        }))
    );
    assert_eq!(
        device_token_from_reply(&answer(200, "{\"access_token\": \"a\", \"expires_in\": null}")),
        Ok(Some(DeviceToken {
            access_token: "a".to_string(),
            refresh_token: None,
            expires_in: None,
            token_type: None,
            result: None,
        }))
    );
}

#[test]
fn device_token_fails_only_when_unreachable() {
    assert_eq!(device_token_from_reply(&HttpReply::Unreachable), Err(AuthError::Network));
}
