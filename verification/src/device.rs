//! Linking by device PIN: the other way to the OAuth service, without a
//! local listener. A PIN is created and shown, and its status is asked
//! for as often as the caller sees fit.
//!
//! What the service answers here is shown to the user rather than
//! trusted, so it is read leniently: a body that is not of the expected
//! shape gives the defaults, or no tokens, and fails nothing. A body is
//! of the expected shape where it is an object in which each known
//! member is absent, `null` or of its own kind. Nothing is put on record
//! by this flow; the caller records a token that it was handed.

use vstd::prelude::*;
use vstd::string::*;
use crate::error::AuthError;
use crate::http::{HttpReply, HttpReplyView, HttpRequest, HttpRequestView, Method};
use crate::json::{parse, parsed, view_of, Json, JsonView};
use crate::text::{owned, url_encode, url_encoded};

verus! {

/// The headers of the device-PIN requests.
pub open spec fn accept_json() -> Seq<(Seq<char>, Seq<char>)> {
    seq![("Accept"@, "application/json"@)]
}

/// The address that creates a device PIN.
pub open spec fn create_url(client_id: Seq<char>, redirect: Option<Seq<char>>) -> Seq<char> {
    let base = "https://api.simkl.com/oauth/pin?client_id="@ + url_encoded(client_id);
    match redirect {
        Some(r) => base + "&redirect="@ + url_encoded(r),
        None => base,
    }
}

/// The address that tells the status of a device PIN.
pub open spec fn poll_url(code: Seq<char>, client_id: Seq<char>) -> Seq<char> {
    "https://api.simkl.com/oauth/pin/"@ + url_encoded(code) + "?client_id="@ + url_encoded(
        client_id,
    )
}

fn accept_headers() -> (r: Vec<(String, String)>)
    ensures
        r.deep_view() == accept_json(),
{
    let mut headers: Vec<(String, String)> = Vec::new();
    headers.push(("Accept".to_string(), "application/json".to_string()));
    assert(headers.deep_view() =~= accept_json());
    headers
}

/// The request that creates a device PIN for the client, with the
/// address to send the user back to where one is given.
pub fn create_device_pin_request(client_id: &str, redirect: Option<&str>) -> (r: HttpRequest)
    ensures
        r@ == (HttpRequestView {
            method: Method::Get,
            url: create_url(client_id@, redirect.deep_view()),
            headers: accept_json(),
            body: None,
        }),
{
    let mut url = "https://api.simkl.com/oauth/pin?client_id=".to_string();
    url.append(url_encode(client_id).as_str());
    match redirect {
        Some(r) => {
            url.append("&redirect=");
            url.append(url_encode(r).as_str());
        },
        None => {},
    }
    HttpRequest { method: Method::Get, url, headers: accept_headers(), body: None }
}

/// The request that asks for the status of a device PIN.
pub fn poll_device_pin_request(code: &str, client_id: &str) -> (r: HttpRequest)
    ensures
        r@ == (HttpRequestView {
            method: Method::Get,
            url: poll_url(code@, client_id@),
            headers: accept_json(),
            body: None,
        }),
{
    let mut url = "https://api.simkl.com/oauth/pin/".to_string();
    url.append(url_encode(code).as_str());
    url.append("?client_id=");
    url.append(url_encode(client_id).as_str());
    HttpRequest { method: Method::Get, url, headers: accept_headers(), body: None }
}

/// The page on which the user enters the code.
pub fn pin_page() -> (r: String)
    ensures
        r@ == "https://simkl.com/pin"@,
{
    "https://simkl.com/pin".to_string()
}

/// A device PIN, as far as the service told of it.
#[derive(Debug, Clone, PartialEq, Eq)]
pub struct DevicePin {
    /// The code to ask the status with.
    pub code: String,
    /// The code that the user enters.
    pub user_code: String,
    /// Where the user approves, with the code filled in.
    pub authorize_url: String,
    /// Where the user enters the code.
    pub verification_url: String,
    /// The lifetime of the PIN in seconds.
    pub expires_in: i64,
}

pub struct DevicePinView {
    pub code: Seq<char>,
    pub user_code: Seq<char>,
    pub authorize_url: Seq<char>,
    pub verification_url: Seq<char>,
    pub expires_in: i64,
}

impl View for DevicePin {
    type V = DevicePinView;

    open spec fn view(&self) -> DevicePinView {
        DevicePinView {
            code: self.code@,
            user_code: self.user_code@,
            authorize_url: self.authorize_url@,
            verification_url: self.verification_url@,
            expires_in: self.expires_in,
        }
    }
}

impl DevicePinView {
    /// The PIN of which nothing was told: every text empty, the lifetime
    /// zero.
    pub open spec fn empty() -> DevicePinView {
        DevicePinView {
            code: Seq::empty(),
            user_code: Seq::empty(),
            authorize_url: Seq::empty(),
            verification_url: Seq::empty(),
            expires_in: 0,
        }
    }
}

/// A text that may be missing, empty where it is.
pub open spec fn or_empty(t: Option<Seq<char>>) -> Seq<char> {
    match t {
        Some(s) => s,
        None => Seq::empty(),
    }
}

/// The device PIN that a response describes. Where the body is an
/// object in which each of `code`, `user_code`, `authorize_url`,
/// `verification_url` and `expires_in` is absent, `null` or of its own
/// kind, the members are taken, a missing text as empty and a missing
/// lifetime as zero, and the code is the user's code where no other is
/// given. Any other body, and one that is no JSON, gives the defaults
/// for every field.
pub open spec fn device_pin_of(v: Option<JsonView>) -> DevicePinView {
    match v {
        Some(JsonView::Object(m)) => {
            let j = JsonView::Object(m);
            match (
                j.optional_text_at("code"@),
                j.optional_text_at("user_code"@),
                j.optional_text_at("authorize_url"@),
                j.optional_text_at("verification_url"@),
                j.optional_integer_at("expires_in"@),
            ) {
                (
                    Some(code),
                    Some(user_code),
                    Some(authorize_url),
                    Some(verification_url),
                    Some(expires_in),
                ) => DevicePinView {
                    code: match code {
                        Some(c) => c,
                        None => or_empty(user_code),
                    },
                    user_code: or_empty(user_code),
                    authorize_url: or_empty(authorize_url),
                    verification_url: or_empty(verification_url),
                    expires_in: match expires_in {
                        Some(n) => n,
                        None => 0,
                    },
                },
                _ => DevicePinView::empty(),
            }
        },
        _ => DevicePinView::empty(),
    }
}

fn owned_or_empty(t: Option<&str>) -> (r: String)
    ensures
        r@ == or_empty(t.deep_view()),
{
    match t {
        Some(s) => owned(s),
        None => String::new(),
    }
}

fn empty_pin() -> (r: DevicePin)
    ensures
        r@ == DevicePinView::empty(),
{
    DevicePin {
        code: String::new(),
        user_code: String::new(),
        authorize_url: String::new(),
        verification_url: String::new(),
        expires_in: 0,
    }
}

/// Reads a device PIN from what was parsed of a response, `None`
/// standing for a body that is no JSON. Every input gives a PIN; one
/// that is not of the expected shape gives the defaults throughout.
pub fn device_pin_from_json(v: &Option<Json>) -> (r: DevicePin)
    ensures
        r@ == device_pin_of(view_of(*v)),
{
    let j = match v {
        Some(Json::Object(_)) => v.as_ref().unwrap(),
        _ => { return empty_pin(); },
    };
    match (
        j.optional_str_at("code"),
        j.optional_str_at("user_code"),
        j.optional_str_at("authorize_url"),
        j.optional_str_at("verification_url"),
        j.optional_i64_at("expires_in"),
    ) {
        (
            Some(code),
            Some(user_code),
            Some(authorize_url),
            Some(verification_url),
            Some(expires_in),
        ) => DevicePin {
            code: match code {
                Some(c) => owned(c),
                None => owned_or_empty(user_code),
            },
            user_code: owned_or_empty(user_code),
            authorize_url: owned_or_empty(authorize_url),
            verification_url: owned_or_empty(verification_url),
            expires_in: match expires_in {
                Some(n) => n,
                None => 0,
            },
        },
        _ => empty_pin(),
    }
}

/// Reads a device PIN from the reply to the create request. Only a
/// reply that never came is a failure, [`AuthError::Network`]; whatever
/// the service answered gives a PIN.
pub fn device_pin_from_reply(reply: &HttpReply) -> (r: Result<DevicePin, AuthError>)
    ensures
        match reply@ {
            HttpReplyView::Unreachable => r == Err::<DevicePin, AuthError>(AuthError::Network),
            HttpReplyView::Answer { status, body } => r matches Ok(pin) && pin@ == device_pin_of(
                parsed(body),
            ),
        },
{
    match reply {
        HttpReply::Unreachable => Err(AuthError::Network),
        HttpReply::Answer { status, body } => {
            let v = parse(body.as_str());
            Ok(device_pin_from_json(&v))
        },
    }
}

/// The tokens that an approved device PIN hands out.
#[derive(Debug, Clone, PartialEq, Eq)]
pub struct DeviceToken {
    pub access_token: String,
    pub refresh_token: Option<String>,
    /// The lifetime of the access token in seconds, where it was told.
    pub expires_in: Option<i64>,
    pub token_type: Option<String>,
    /// What the service said of the PIN, where it said anything.
    pub result: Option<String>,
}

pub struct DeviceTokenView {
    pub access_token: Seq<char>,
    pub refresh_token: Option<Seq<char>>,
    pub expires_in: Option<i64>,
    pub token_type: Option<Seq<char>>,
    pub result: Option<Seq<char>>,
}

impl View for DeviceToken {
    type V = DeviceTokenView;

    open spec fn view(&self) -> DeviceTokenView {
        DeviceTokenView {
            access_token: self.access_token@,
            refresh_token: self.refresh_token.deep_view(),
            expires_in: self.expires_in,
            token_type: self.token_type.deep_view(),
            result: self.result.deep_view(),
        }
    }
}

/// The tokens that a status response hands out. There are some exactly
/// where the body is an object in which each of `access_token`,
/// `refresh_token`, `expires_in`, `token_type` and `result` is absent,
/// `null` or of its own kind, and `access_token` is a text that is not
/// empty. No tokens means that the PIN is still pending.
pub open spec fn device_token_of(v: Option<JsonView>) -> Option<DeviceTokenView> {
    match v {
        Some(JsonView::Object(m)) => {
            let j = JsonView::Object(m);
            match (
                j.optional_text_at("access_token"@),
                j.optional_text_at("refresh_token"@),
                j.optional_integer_at("expires_in"@),
                j.optional_text_at("token_type"@),
                j.optional_text_at("result"@),
            ) {
                (
                    Some(Some(access_token)),
                    Some(refresh_token),
                    Some(expires_in),
                    Some(token_type),
                    Some(result),
                ) => if access_token.len() > 0 {
                    Some(
                        DeviceTokenView {
                            access_token,
                            refresh_token,
                            expires_in,
                            token_type,
                            result,
                        },
                    )
                } else {
                    None
                },
                _ => None,
            }
        },
        _ => None,
    }
}

/// The view of optional tokens.
pub open spec fn token_view(t: Option<DeviceToken>) -> Option<DeviceTokenView> {
    match t {
        Some(d) => Some(d@),
        None => None,
    }
}

fn owned_text(t: Option<&str>) -> (r: Option<String>)
    ensures
        r.deep_view() == t.deep_view(),
{
    match t {
        Some(s) => Some(owned(s)),
        None => None,
    }
}

/// Reads the tokens from what was parsed of a status response, `None`
/// standing for a body that is no JSON. A response without a token,
/// such as `{}`, and one that is not of the expected shape give none,
/// which is no error.
pub fn device_token_from_json(v: &Option<Json>) -> (r: Option<DeviceToken>)
    ensures
        token_view(r) == device_token_of(view_of(*v)),
{
    let j = match v {
        Some(Json::Object(_)) => v.as_ref().unwrap(),
        _ => { return None; },
    };
    match (
        j.optional_str_at("access_token"),
        j.optional_str_at("refresh_token"),
        j.optional_i64_at("expires_in"),
        j.optional_str_at("token_type"),
        j.optional_str_at("result"),
    ) {
        (
            Some(Some(access_token)),
            Some(refresh_token),
            Some(expires_in),
            Some(token_type),
            Some(result),
        ) => {
            if access_token.is_empty() {
                None
            } else {
                Some(
                    DeviceToken {
                        access_token: owned(access_token),
                        refresh_token: owned_text(refresh_token),
                        expires_in,
                        token_type: owned_text(token_type),
                        result: owned_text(result),
                    },
                )
            }
        },
        _ => None,
    }
}

/// Reads the tokens from the reply to a status request. Only a reply
/// that never came is a failure, [`AuthError::Network`]; whatever the
/// service answered gives tokens or none.
pub fn device_token_from_reply(reply: &HttpReply) -> (r: Result<Option<DeviceToken>, AuthError>)
    ensures
        match reply@ {
            HttpReplyView::Unreachable => r == Err::<Option<DeviceToken>, AuthError>(
                AuthError::Network,
            ),
            HttpReplyView::Answer { status, body } => r matches Ok(t) && token_view(t)
                == device_token_of(parsed(body)),
        },
{
    match reply {
        HttpReply::Unreachable => Err(AuthError::Network),
        HttpReply::Answer { status, body } => {
            let v = parse(body.as_str());
            Ok(device_token_from_json(&v))
        },
    }
}

/// A status response that is an empty object hands out no tokens.
pub proof fn lemma_empty_object_is_pending()
    ensures
        device_token_of(Some(JsonView::Object(Seq::empty()))) is None,
{
}

/// A known member of the wrong kind leaves nothing of a response: no
/// tokens are handed out, and the PIN takes its defaults throughout.
pub proof fn lemma_wrong_kind_voids_the_body(v: JsonView)
    requires
        v.optional_integer_at("expires_in"@) is None,
    ensures
        device_token_of(Some(v)) is None,
        device_pin_of(Some(v)) == DevicePinView::empty(),
{
}

} // verus!
