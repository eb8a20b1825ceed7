//! Linking by PIN: a PIN is created under a fresh client identifier, the
//! user approves it in a browser, and the status of the PIN is polled
//! until it carries the account token.
//!
//! The caller sends the requests. It creates the PIN with
//! [`create_pin_request`] and [`pin_from_reply`], begins a [`PinFlow`],
//! and from then on does what each [`PollAction`] says, handing every
//! reply to [`PinFlow::on_reply`] together with the freshly loaded
//! credential document.

use rand::SeedableRng;
use vstd::prelude::*;
use vstd::string::*;
use crate::clock::{epoch_of_rfc3339, rfc3339_epoch};
use crate::document::{CredentialDocument, CredentialDocumentView, PlexAccountView};
use crate::error::AuthError;
use crate::http::{
    header_text, is_header_value, is_success, success, HttpReply, HttpReplyView, HttpRequest,
    HttpRequestView, Method,
};
use crate::json::{parse, parsed, Json, JsonView};
use crate::text::{alphanumeric, decimal, decimal_text, owned};

verus! {

/// How many characters a client identifier has.
pub const CLIENT_IDENTIFIER_LEN: usize = 12;

/// How many status requests a bounded poll makes before it gives up.
pub const POLL_ATTEMPTS: u32 = 60;

/// The pause before each status request, in milliseconds.
pub const POLL_DELAY_MS: u64 = 1500;

/// A byte as a character, an upper-case ASCII letter as its lower-case
/// one.
pub open spec fn lowered(b: u8) -> char {
    if 65 <= b <= 90 {
        (b + 32) as char
    } else {
        b as char
    }
}

/// Whether a character is a lower-case ASCII letter or a digit.
pub open spec fn lower_alphanumeric(c: char) -> bool {
    (48 <= c as u32 <= 57) || (97 <= c as u32 <= 122)
}

/// Whether a text can serve as a client identifier: at least ten
/// characters, each a lower-case letter or a digit.
pub open spec fn is_client_identifier(s: Seq<char>) -> bool {
    s.len() >= 10 && forall|i: int| 0 <= i < s.len() ==> lower_alphanumeric(#[trigger] s[i])
}

/// Seeds a `rand::rngs::StdRng` from `rand::rngs::OsRng` with
/// `SeedableRng::from_rng` and draws `len` bytes from
/// `rand::distributions::Alphanumeric`: each is an ASCII letter or
/// digit, and which ones come is left to chance. `None` where the
/// system has no randomness to seed the generator with.
#[verifier::external_body]
fn rand_alphanumeric(len: usize) -> (r: Option<Vec<u8>>)
    ensures
        r matches Some(v) ==> v@.len() == len && forall|i: int|
            0 <= i < v@.len() ==> alphanumeric(#[trigger] v@[i]),
{
    match rand::rngs::StdRng::from_rng(rand::rngs::OsRng) {
        Ok(rng) => Some(
            rand::Rng::sample_iter(rng, &rand::distributions::Alphanumeric).take(len).collect(),
        ),
        Err(_) => None,
    }
}

/// The text of the given bytes, each upper-case ASCII letter turned into
/// its lower-case one.
pub fn identifier_from(raw: &Vec<u8>) -> (r: String)
    ensures
        r@ == Seq::new(raw@.len(), |i: int| lowered(raw@[i])),
{
    let mut r = String::new();
    let mut i: usize = 0;
    while i < raw.len()
        invariant
            i <= raw.len(),
            r@ == Seq::new(i as nat, |k: int| lowered(raw@[k])),
        decreases raw.len() - i,
    {
        let b = raw[i];
        let c = if 65 <= b && b <= 90 {
            (b + 32) as char
        } else {
            b as char
        };
        r.push(c);
        assert(r@ =~= Seq::new((i + 1) as nat, |k: int| lowered(raw@[k])));
        i += 1;
    }
    r
}

/// A fresh client identifier: a handle that ties the status requests to
/// the request that created the PIN. It is no secret. `None` where the
/// system has no randomness to draw it from.
pub fn client_identifier() -> (r: Option<String>)
    ensures
        r matches Some(id) ==> is_client_identifier(id@) && id@.len() == CLIENT_IDENTIFIER_LEN
            && header_text(id@),
{
    match rand_alphanumeric(CLIENT_IDENTIFIER_LEN) {
        Some(raw) => {
            let r = identifier_from(&raw);
            assert forall|i: int| 0 <= i < r@.len() implies lower_alphanumeric(
                #[trigger] r@[i],
            ) by {
                assert(alphanumeric(raw@[i]));
            }
            assert(header_text(r@)) by {
                assert forall|i: int| 0 <= i < r@.len() implies crate::http::header_char(
                    #[trigger] r@[i],
                ) by {
                    assert(lower_alphanumeric(r@[i]));
                }
            }
            Some(r)
        },
        None => None,
    }
}

/// The headers that a request to the PIN service carries under the
/// given client identifier.
pub open spec fn headers_with(client_identifier: Seq<char>) -> Seq<(Seq<char>, Seq<char>)> {
    seq![
        ("Accept"@, "application/json"@),
        ("User-Agent"@, "CrossWatch/0.3.0 (+https://example.local)"@),
        ("X-Plex-Product"@, "CrossWatch"@),
        ("X-Plex-Version"@, "0.3.0"@),
        ("X-Plex-Client-Identifier"@, client_identifier),
        ("X-Plex-Device"@, "Desktop"@),
        ("X-Plex-Device-Name"@, "CrossWatch"@),
        ("X-Plex-Platform"@, "Tauri"@),
    ]
}

/// The headers that every request to the PIN service carries. There
/// are none for an identifier that cannot stand in a header: no other
/// identifier is ever sent in its place.
pub open spec fn headers_of(client_identifier: Seq<char>) -> Option<Seq<(Seq<char>, Seq<char>)>> {
    if header_text(client_identifier) {
        Some(headers_with(client_identifier))
    } else {
        None
    }
}

/// The headers that every request to the PIN service carries, with the
/// client identifier as it was given. `None` exactly where the
/// identifier cannot stand in a header.
pub fn plex_headers(client_identifier: &str) -> (r: Option<Vec<(String, String)>>)
    ensures
        r.deep_view() == headers_of(client_identifier@),
{
    if !is_header_value(client_identifier) {
        return None;
    }
    let identifier = owned(client_identifier);
    let mut r: Vec<(String, String)> = Vec::new();
    r.push(("Accept".to_string(), "application/json".to_string()));
    r.push(("User-Agent".to_string(), "CrossWatch/0.3.0 (+https://example.local)".to_string()));
    r.push(("X-Plex-Product".to_string(), "CrossWatch".to_string()));
    r.push(("X-Plex-Version".to_string(), "0.3.0".to_string()));
    r.push(("X-Plex-Client-Identifier".to_string(), identifier));
    r.push(("X-Plex-Device".to_string(), "Desktop".to_string()));
    r.push(("X-Plex-Device-Name".to_string(), "CrossWatch".to_string()));
    r.push(("X-Plex-Platform".to_string(), "Tauri".to_string()));
    assert(r.deep_view() =~= headers_with(client_identifier@));
    Some(r)
}

/// The request that creates a PIN; an identifier that cannot be sent
/// fails the creation.
pub open spec fn create_pin_request_of(client_identifier: Seq<char>) -> Result<
    HttpRequestView,
    AuthError,
> {
    match headers_of(client_identifier) {
        Some(headers) => Ok(
            HttpRequestView {
                method: Method::Post,
                url: "https://plex.tv/pins.json"@,
                headers: headers.push(("Content-Type"@, "application/x-www-form-urlencoded"@)),
                body: Some("strong=true"@),
            },
        ),
        None => Err(AuthError::CreatePin(None)),
    }
}

/// The request that asks for the status of PIN `id`; an identifier that
/// cannot be sent fails the status request.
pub open spec fn poll_request_of(id: i64, client_identifier: Seq<char>) -> Result<
    HttpRequestView,
    AuthError,
> {
    match headers_of(client_identifier) {
        Some(headers) => Ok(
            HttpRequestView {
                method: Method::Get,
                url: "https://plex.tv/pins/"@ + decimal_text(id as int) + ".json"@,
                headers,
                body: None,
            },
        ),
        None => Err(AuthError::Poll(None)),
    }
}

/// The view of a request that may have failed.
pub open spec fn request_view(r: Result<HttpRequest, AuthError>) -> Result<
    HttpRequestView,
    AuthError,
> {
    match r {
        Ok(q) => Ok(q@),
        Err(e) => Err(e),
    }
}

/// The request that creates a PIN under the given client identifier.
/// Fails with [`AuthError::CreatePin`] exactly where the identifier
/// cannot stand in a header.
pub fn create_pin_request(client_identifier: &str) -> (r: Result<HttpRequest, AuthError>)
    ensures
        request_view(r) == create_pin_request_of(client_identifier@),
{
    let mut headers = match plex_headers(client_identifier) {
        Some(h) => h,
        None => { return Err(AuthError::CreatePin(None)); },
    };
    let ghost before = headers.deep_view();
    headers.push(("Content-Type".to_string(), "application/x-www-form-urlencoded".to_string()));
    assert(headers.deep_view() =~= before.push(
        ("Content-Type"@, "application/x-www-form-urlencoded"@),
    ));
    Ok(
        HttpRequest {
            method: Method::Post,
            url: "https://plex.tv/pins.json".to_string(),
            headers,
            body: Some("strong=true".to_string()),
        },
    )
}

/// The request that asks for the status of PIN `id`. It carries the
/// client identifier that created the PIN: the identifier travels with
/// the PIN and is never taken from anywhere else. Fails with
/// [`AuthError::Poll`] exactly where the identifier cannot stand in a
/// header.
pub fn poll_request(id: i64, client_identifier: &str) -> (r: Result<HttpRequest, AuthError>)
    ensures
        request_view(r) == poll_request_of(id, client_identifier@),
{
    let headers = match plex_headers(client_identifier) {
        Some(h) => h,
        None => { return Err(AuthError::Poll(None)); },
    };
    let mut url = "https://plex.tv/pins/".to_string();
    let number = decimal(id);
    url.append(number.as_str());
    url.append(".json");
    Ok(HttpRequest { method: Method::Get, url, headers, body: None })
}

/// The object that describes the PIN: the member `pin` where the
/// response has one, and the response itself where it has none.
pub open spec fn unwrapped(v: JsonView) -> JsonView {
    match v.member("pin"@) {
        Some(pin) => pin,
        None => v,
    }
}

/// The object that describes the PIN.
pub fn unwrap_pin(v: &Json) -> (r: &Json)
    ensures
        r@ == unwrapped(v@),
{
    match v.get("pin") {
        Some(pin) => pin,
        None => v,
    }
}

/// Where a linking attempt stands.
#[derive(Debug, Clone, Copy, PartialEq, Eq, Structural)]
pub enum PinState {
    /// The PIN exists; nothing has been asked of it yet.
    Created,
    /// The status of the PIN is being polled.
    Polling,
    /// The PIN was approved and its token recorded.
    Linked,
    /// The PIN passed its expiry unapproved.
    Expired,
    /// The attempt was given up.
    Failed,
}

/// One linking attempt in flight. It lives in memory only.
#[derive(Debug, Clone, PartialEq, Eq)]
pub struct PendingAuthorization {
    pub id: i64,
    /// The code that the user enters.
    pub code: String,
    /// The identifier under which the PIN was created, to be sent with
    /// every status request.
    pub client_identifier: String,
    /// When the PIN was created, in seconds since the epoch.
    pub created_at: i64,
    /// When the PIN expires, in seconds since the epoch.
    pub expires_at: i64,
    pub state: PinState,
}

pub struct PendingAuthorizationView {
    pub id: i64,
    pub code: Seq<char>,
    pub client_identifier: Seq<char>,
    pub created_at: i64,
    pub expires_at: i64,
    pub state: PinState,
}

impl View for PendingAuthorization {
    type V = PendingAuthorizationView;

    open spec fn view(&self) -> PendingAuthorizationView {
        PendingAuthorizationView {
            id: self.id,
            code: self.code@,
            client_identifier: self.client_identifier@,
            created_at: self.created_at,
            expires_at: self.expires_at,
            state: self.state,
        }
    }
}

/// The attempt that the parts of a create-PIN response give: all three
/// of the id, the code and the expiry are needed.
pub open spec fn pending_of(
    id: Option<i64>,
    code: Option<Seq<char>>,
    expires_at: Option<i64>,
    client_identifier: Seq<char>,
    created_at: i64,
) -> Option<PendingAuthorizationView> {
    match (id, code, expires_at) {
        (Some(id), Some(code), Some(expires_at)) => Some(
            PendingAuthorizationView {
                id,
                code,
                client_identifier,
                created_at,
                expires_at,
                state: PinState::Created,
            },
        ),
        _ => None,
    }
}

/// The expiry that a PIN object announces: the instant that its member
/// `expires_at` names.
pub open spec fn expiry_of(pin: JsonView) -> Option<i64> {
    match pin.text_at("expires_at"@) {
        Some(t) => rfc3339_epoch(t),
        None => None,
    }
}

/// The attempt that the JSON of a create-PIN response describes.
pub open spec fn pin_of_json(v: JsonView, client_identifier: Seq<char>, created_at: i64) -> Option<
    PendingAuthorizationView,
> {
    let pin = unwrapped(v);
    pending_of(
        pin.integer_at("id"@),
        pin.text_at("code"@),
        expiry_of(pin),
        client_identifier,
        created_at,
    )
}

/// The attempt that a reply to the create-PIN request gives.
pub open spec fn pin_of_reply(reply: HttpReplyView, client_identifier: Seq<char>, created_at: i64) -> Result<
    PendingAuthorizationView,
    AuthError,
> {
    match reply {
        HttpReplyView::Unreachable => Err(AuthError::Network),
        HttpReplyView::Answer { status, body } => {
            if !success(status) {
                Err(AuthError::CreatePin(Some(status)))
            } else {
                match parsed(body) {
                    Some(v) => match pin_of_json(v, client_identifier, created_at) {
                        Some(p) => Ok(p),
                        None => Err(AuthError::CreatePin(None)),
                    },
                    None => Err(AuthError::CreatePin(None)),
                }
            }
        },
    }
}

/// Puts an attempt together from what was read of a create-PIN
/// response. Fails with [`AuthError::CreatePin`] exactly where one of
/// the id, the code and the expiry is missing.
pub fn pending_from_parts(
    id: Option<i64>,
    code: Option<&str>,
    expires_at: Option<i64>,
    client_identifier: &str,
    created_at: i64,
) -> (r: Result<PendingAuthorization, AuthError>)
    ensures
        match r {
            Ok(p) => pending_of(id, code.deep_view(), expires_at, client_identifier@, created_at)
                == Some(p@),
            Err(e) => e == AuthError::CreatePin(None) && pending_of(
                id,
                code.deep_view(),
                expires_at,
                client_identifier@,
                created_at,
            ) is None,
        },
{
    match (id, code, expires_at) {
        (Some(id), Some(code), Some(expires_at)) => Ok(
            PendingAuthorization {
                id,
                code: owned(code),
                client_identifier: owned(client_identifier),
                created_at,
                expires_at,
                state: PinState::Created,
            },
        ),
        _ => Err(AuthError::CreatePin(None)),
    }
}

/// Reads the attempt from the JSON of a create-PIN response: the numeric
/// `id`, the `code` and the RFC 3339 `expires_at` of the PIN object,
/// the expiry turned into seconds since the epoch.
pub fn pin_from_json(v: &Json, client_identifier: &str, created_at: i64) -> (r: Result<
    PendingAuthorization,
    AuthError,
>)
    ensures
        match r {
            Ok(p) => pin_of_json(v@, client_identifier@, created_at) == Some(p@),
            Err(e) => e == AuthError::CreatePin(None) && pin_of_json(
                v@,
                client_identifier@,
                created_at,
            ) is None,
        },
{
    let pin = unwrap_pin(v);
    let expires_at = match pin.str_at("expires_at") {
        Some(t) => epoch_of_rfc3339(t),
        None => None,
    };
    pending_from_parts(pin.i64_at("id"), pin.str_at("code"), expires_at, client_identifier, created_at)
}

/// Reads the attempt from the reply to the create-PIN request. A reply
/// that never came is [`AuthError::Network`]; a status other than
/// success is [`AuthError::CreatePin`] with that status; a body that is
/// no JSON and a PIN without one of its fields are
/// [`AuthError::CreatePin`] without one.
pub fn pin_from_reply(reply: &HttpReply, client_identifier: &str, created_at: i64) -> (r: Result<
    PendingAuthorization,
    AuthError,
>)
    ensures
        match r {
            Ok(p) => pin_of_reply(reply@, client_identifier@, created_at) == Ok::<
                PendingAuthorizationView,
                AuthError,
            >(p@),
            Err(e) => pin_of_reply(reply@, client_identifier@, created_at) == Err::<
                PendingAuthorizationView,
                AuthError,
            >(e),
        },
{
    match reply {
        HttpReply::Unreachable => Err(AuthError::Network),
        HttpReply::Answer { status, body } => {
            if !is_success(*status) {
                return Err(AuthError::CreatePin(Some(*status)));
            }
            match parse(body.as_str()) {
                Some(v) => pin_from_json(&v, client_identifier, created_at),
                None => Err(AuthError::CreatePin(None)),
            }
        },
    }
}

/// The token that a status response carries: the text under
/// `auth_token`, or else under `authToken`, of the PIN object. No text
/// there, or an empty one, means that the PIN is not approved yet.
pub open spec fn token_of_json(v: JsonView) -> Option<Seq<char>> {
    let pin = unwrapped(v);
    let found = match pin.text_at("auth_token"@) {
        Some(t) => Some(t),
        None => pin.text_at("authToken"@),
    };
    match found {
        Some(t) => if t.len() > 0 {
            Some(t)
        } else {
            None
        },
        None => None,
    }
}

/// What one reply to a status request tells: the token, nothing yet, or
/// why the attempt cannot go on.
pub open spec fn token_of_reply(reply: HttpReplyView) -> Result<Option<Seq<char>>, AuthError> {
    match reply {
        HttpReplyView::Unreachable => Err(AuthError::Network),
        HttpReplyView::Answer { status, body } => {
            if !success(status) {
                Err(AuthError::Poll(Some(status)))
            } else {
                match parsed(body) {
                    Some(v) => Ok(token_of_json(v)),
                    None => Err(AuthError::Poll(None)),
                }
            }
        },
    }
}

/// Reads the token from the JSON of a status response. Both names of
/// the member are looked at, `auth_token` first. That there is no token
/// is no error.
pub fn token_from_json(v: &Json) -> (r: Option<String>)
    ensures
        r.deep_view() == token_of_json(v@),
{
    let pin = unwrap_pin(v);
    let found = match pin.str_at("auth_token") {
        Some(t) => Some(t),
        None => pin.str_at("authToken"),
    };
    match found {
        Some(t) => {
            if !t.is_empty() {
                Some(owned(t))
            } else {
                None
            }
        },
        None => None,
    }
}

/// Reads one reply to a status request. A reply that never came is
/// [`AuthError::Network`]; a status other than success is
/// [`AuthError::Poll`] with that status; a body that is no JSON is
/// [`AuthError::Poll`] without one.
pub fn token_from_reply(reply: &HttpReply) -> (r: Result<Option<String>, AuthError>)
    ensures
        match r {
            Ok(t) => token_of_reply(reply@) == Ok::<Option<Seq<char>>, AuthError>(t.deep_view()),
            Err(e) => token_of_reply(reply@) == Err::<Option<Seq<char>>, AuthError>(e),
        },
{
    match reply {
        HttpReply::Unreachable => Err(AuthError::Network),
        HttpReply::Answer { status, body } => {
            if !is_success(*status) {
                return Err(AuthError::Poll(Some(*status)));
            }
            match parse(body.as_str()) {
                Some(v) => Ok(token_from_json(&v)),
                None => Err(AuthError::Poll(None)),
            }
        },
    }
}

/// A status response that carries a value under `auth_token` alone and
/// one that carries the same value under `authToken` alone give the
/// same token.
pub proof fn lemma_token_names_agree(a: JsonView, b: JsonView, token: JsonView)
    requires
        unwrapped(a).member("auth_token"@) == Some(token),
        unwrapped(a).member("authToken"@) is None,
        unwrapped(b).member("authToken"@) == Some(token),
        unwrapped(b).member("auth_token"@) is None,
    ensures
        token_of_json(a) == token_of_json(b),
{
}

/// When a poll gives up.
#[derive(Debug, Clone, Copy, PartialEq, Eq, Structural)]
pub enum Discipline {
    /// After `limit` status requests without a token, with
    /// [`AuthError::Timeout`].
    Attempts { limit: u32 },
    /// Once a reply without a token is read after the PIN's own expiry,
    /// with [`AuthError::Expired`].
    UntilExpiry,
}

/// What the caller does next.
#[derive(Debug, Clone, Copy, PartialEq, Eq)]
pub enum PollAction {
    /// Wait this long, send the status request, and hand in the reply.
    Poll { delay_ms: u64 },
    /// The token is in the document that was handed in: save the
    /// document now, then report success. No request follows.
    Save,
    /// Report the failure. No request follows.
    Fail(AuthError),
    /// The attempt has ended, or has not begun: there is nothing to do.
    Nothing,
}

/// The polling of one PIN.
#[derive(Debug, Clone, PartialEq, Eq)]
pub struct PinFlow {
    pub pending: PendingAuthorization,
    pub discipline: Discipline,
    /// The pause before each status request, in milliseconds.
    pub delay_ms: u64,
    /// How many replies without a token have been read.
    pub attempts: u32,
}

pub struct PinFlowView {
    pub pending: PendingAuthorizationView,
    pub discipline: Discipline,
    pub delay_ms: u64,
    pub attempts: u32,
}

impl View for PinFlow {
    type V = PinFlowView;

    open spec fn view(&self) -> PinFlowView {
        PinFlowView {
            pending: self.pending@,
            discipline: self.discipline,
            delay_ms: self.delay_ms,
            attempts: self.attempts,
        }
    }
}

/// One more than `attempts`, as far as the counter goes.
pub open spec fn counted(attempts: u32) -> u32 {
    if attempts < u32::MAX {
        (attempts + 1) as u32
    } else {
        attempts
    }
}

impl PinFlowView {
    /// The flow in another state, all else unchanged.
    pub open spec fn in_state(self, state: PinState) -> PinFlowView {
        PinFlowView { pending: PendingAuthorizationView { state, ..self.pending }, ..self }
    }

    /// The flow and the action after polling begins at time `now`.
    pub open spec fn begun(self, now: i64) -> (PinFlowView, PollAction) {
        if self.pending.state != PinState::Created {
            (self, PollAction::Nothing)
        } else if !header_text(self.pending.client_identifier) {
            (self.in_state(PinState::Failed), PollAction::Fail(AuthError::Poll(None)))
        } else {
            match self.discipline {
                Discipline::Attempts { limit } => if self.attempts >= limit {
                    (self.in_state(PinState::Failed), PollAction::Fail(AuthError::Timeout))
                } else {
                    (self.in_state(PinState::Polling), PollAction::Poll { delay_ms: self.delay_ms })
                },
                Discipline::UntilExpiry => if now > self.pending.expires_at {
                    (self.in_state(PinState::Expired), PollAction::Fail(AuthError::Expired))
                } else {
                    (self.in_state(PinState::Polling), PollAction::Poll { delay_ms: self.delay_ms })
                },
            }
        }
    }

    /// The flow and the action after a reply was read at time `now`, and
    /// the token to record, if the reply brought one.
    pub open spec fn stepped(self, outcome: Result<Option<Seq<char>>, AuthError>, now: i64) -> (
        PinFlowView,
        PollAction,
        Option<Seq<char>>,
    ) {
        if self.pending.state != PinState::Polling {
            (self, PollAction::Nothing, None)
        } else {
            match outcome {
                Err(e) => (self.in_state(PinState::Failed), PollAction::Fail(e), None),
                Ok(Some(token)) => (self.in_state(PinState::Linked), PollAction::Save, Some(token)),
                Ok(None) => {
                    let next = PinFlowView { attempts: counted(self.attempts), ..self };
                    match self.discipline {
                        Discipline::Attempts { limit } => if next.attempts >= limit {
                            (
                                next.in_state(PinState::Failed),
                                PollAction::Fail(AuthError::Timeout),
                                None,
                            )
                        } else {
                            (next, PollAction::Poll { delay_ms: self.delay_ms }, None)
                        },
                        Discipline::UntilExpiry => if now > self.pending.expires_at {
                            (
                                next.in_state(PinState::Expired),
                                PollAction::Fail(AuthError::Expired),
                                None,
                            )
                        } else {
                            (next, PollAction::Poll { delay_ms: self.delay_ms }, None)
                        },
                    }
                },
            }
        }
    }
}

/// The document after a step: with the token on record where the step
/// brought one, and as it was where it did not.
pub open spec fn recorded(doc: CredentialDocumentView, token: Option<Seq<char>>) -> CredentialDocumentView {
    match token {
        Some(t) => CredentialDocumentView { plex: PlexAccountView { account_token: Some(t) }, ..doc },
        None => doc,
    }
}

impl PinFlow {
    /// A flow for a PIN that was just created, which gives up after
    /// [`POLL_ATTEMPTS`] status requests, [`POLL_DELAY_MS`] apart.
    pub fn new(pending: PendingAuthorization) -> (r: PinFlow)
        ensures
            r@ == (PinFlowView {
                pending: pending@,
                discipline: Discipline::Attempts { limit: POLL_ATTEMPTS },
                delay_ms: POLL_DELAY_MS,
                attempts: 0,
            }),
    {
        PinFlow {
            pending,
            discipline: Discipline::Attempts { limit: POLL_ATTEMPTS },
            delay_ms: POLL_DELAY_MS,
            attempts: 0,
        }
    }

    /// A flow for a PIN that was just created, which polls until the PIN
    /// expires.
    pub fn until_expiry(pending: PendingAuthorization) -> (r: PinFlow)
        ensures
            r@ == (PinFlowView {
                pending: pending@,
                discipline: Discipline::UntilExpiry,
                delay_ms: POLL_DELAY_MS,
                attempts: 0,
            }),
    {
        PinFlow { pending, discipline: Discipline::UntilExpiry, delay_ms: POLL_DELAY_MS, attempts: 0 }
    }

    /// The status request of this flow. It fails only for a client
    /// identifier that cannot be sent, with which no flow begins.
    pub fn request(&self) -> (r: Result<HttpRequest, AuthError>)
        ensures
            request_view(r) == poll_request_of(self@.pending.id, self@.pending.client_identifier),
    {
        poll_request(self.pending.id, self.pending.client_identifier.as_str())
    }

    /// Begins polling at time `now`. A flow that is past its beginning
    /// stays as it is. A flow whose client identifier cannot be sent
    /// fails at once: the status is asked for under the identifier
    /// that created the PIN or not at all.
    pub fn begin(&mut self, now: i64) -> (r: PollAction)
        ensures
            (final(self)@, r) == old(self)@.begun(now),
    {
        if self.pending.state != PinState::Created {
            return PollAction::Nothing;
        }
        if !is_header_value(self.pending.client_identifier.as_str()) {
            self.pending.state = PinState::Failed;
            return PollAction::Fail(AuthError::Poll(None));
        }
        let give_up = match self.discipline {
            Discipline::Attempts { limit } => if self.attempts >= limit {
                Some((PinState::Failed, AuthError::Timeout))
            } else {
                None
            },
            Discipline::UntilExpiry => if now > self.pending.expires_at {
                Some((PinState::Expired, AuthError::Expired))
            } else {
                None
            },
        };
        match give_up {
            Some((state, error)) => {
                self.pending.state = state;
                PollAction::Fail(error)
            },
            None => {
                self.pending.state = PinState::Polling;
                PollAction::Poll { delay_ms: self.delay_ms }
            },
        }
    }

    /// Takes in what one status reply told, read at time `now`, with the
    /// credential document as it was just loaded.
    ///
    /// A token ends the flow as linked and is put on record in `doc` in
    /// the same step, for the caller to save at once. A failure ends the
    /// flow. A reply without a token counts as one attempt, after which
    /// the flow either goes on or gives up as its discipline says. A
    /// flow that is not polling ignores the reply: once a flow has ended
    /// it asks for no further request.
    pub fn on_outcome(
        &mut self,
        outcome: Result<Option<String>, AuthError>,
        now: i64,
        doc: &mut CredentialDocument,
    ) -> (r: PollAction)
        ensures
            (final(self)@, r) == (
                old(self)@.stepped(outcome_view(outcome), now).0,
                old(self)@.stepped(outcome_view(outcome), now).1,
            ),
            final(doc)@ == recorded(old(doc)@, old(self)@.stepped(outcome_view(outcome), now).2),
    {
        if self.pending.state != PinState::Polling {
            return PollAction::Nothing;
        }
        match outcome {
            Err(e) => {
                self.pending.state = PinState::Failed;
                PollAction::Fail(e)
            },
            Ok(Some(token)) => {
                self.pending.state = PinState::Linked;
                doc.set_plex_token(token);
                PollAction::Save
            },
            Ok(None) => {
                if self.attempts < u32::MAX {
                    self.attempts = self.attempts + 1;
                }
                let give_up = match self.discipline {
                    Discipline::Attempts { limit } => if self.attempts >= limit {
                        Some((PinState::Failed, AuthError::Timeout))
                    } else {
                        None
                    },
                    Discipline::UntilExpiry => if now > self.pending.expires_at {
                        Some((PinState::Expired, AuthError::Expired))
                    } else {
                        None
                    },
                };
                match give_up {
                    Some((state, error)) => {
                        self.pending.state = state;
                        PollAction::Fail(error)
                    },
                    None => PollAction::Poll { delay_ms: self.delay_ms },
                }
            },
        }
    }

    /// Takes in one reply to the status request: reads it with
    /// [`token_from_reply`] and goes on as [`PinFlow::on_outcome`] says.
    pub fn on_reply(&mut self, reply: &HttpReply, now: i64, doc: &mut CredentialDocument) -> (r:
        PollAction)
        ensures
            (final(self)@, r) == (
                old(self)@.stepped(token_of_reply(reply@), now).0,
                old(self)@.stepped(token_of_reply(reply@), now).1,
            ),
            final(doc)@ == recorded(old(doc)@, old(self)@.stepped(token_of_reply(reply@), now).2),
    {
        let outcome = token_from_reply(reply);
        self.on_outcome(outcome, now, doc)
    }
}

/// The view of what a status reply told.
pub open spec fn outcome_view(outcome: Result<Option<String>, AuthError>) -> Result<
    Option<Seq<char>>,
    AuthError,
> {
    match outcome {
        Ok(t) => Ok(t.deep_view()),
        Err(e) => Err(e),
    }
}

/// Once a flow has ended, whatever is handed in changes nothing and asks
/// for nothing: after the token was found no request follows.
pub proof fn lemma_ended_flow_is_still(
    flow: PinFlowView,
    outcome: Result<Option<Seq<char>>, AuthError>,
    now: i64,
)
    requires
        flow.pending.state == PinState::Linked || flow.pending.state == PinState::Expired
            || flow.pending.state == PinState::Failed,
    ensures
        flow.stepped(outcome, now) == (flow, PollAction::Nothing, None::<Seq<char>>),
        flow.begun(now) == (flow, PollAction::Nothing),
{
}

/// A step that asks for another request leaves the flow polling, and a
/// step that asks to save or to fail ends it.
pub proof fn lemma_action_matches_state(
    flow: PinFlowView,
    outcome: Result<Option<Seq<char>>, AuthError>,
    now: i64,
)
    requires
        flow.pending.state == PinState::Polling,
    ensures
        ({
            let (next, action, token) = flow.stepped(outcome, now);
            &&& action is Poll <==> next.pending.state == PinState::Polling
            &&& action is Save <==> next.pending.state == PinState::Linked
            &&& action is Save <==> token is Some
            &&& action !is Nothing
        }),
{
}

/// Whether an attempt may pass from one state to another in one step:
/// from created to polling, from polling on to linked, and from either
/// to expired or failed. Staying is always allowed.
pub open spec fn may_follow(from: PinState, to: PinState) -> bool {
    from == to || match from {
        PinState::Created => to == PinState::Polling || to == PinState::Expired || to
            == PinState::Failed,
        PinState::Polling => to == PinState::Linked || to == PinState::Expired || to
            == PinState::Failed,
        _ => false,
    }
}

/// Every step moves an attempt along the allowed transitions, changes
/// nothing of the PIN but its state, and keeps the discipline.
pub proof fn lemma_steps_follow_the_states(
    flow: PinFlowView,
    outcome: Result<Option<Seq<char>>, AuthError>,
    now: i64,
)
    ensures
        may_follow(flow.pending.state, flow.begun(now).0.pending.state),
        may_follow(flow.pending.state, flow.stepped(outcome, now).0.pending.state),
        flow.begun(now).0.in_state(flow.pending.state) == flow,
        flow.stepped(outcome, now).0.in_state(flow.pending.state) == (PinFlowView {
            attempts: flow.stepped(outcome, now).0.attempts,
            ..flow
        }),
{
}

} // verus!
