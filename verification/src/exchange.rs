//! Exchanging an authorization code for tokens, and putting the tokens
//! on record.

use vstd::prelude::*;
use crate::document::{CredentialDocument, CredentialDocumentView, SimklAccountView};
use crate::error::AuthError;
use crate::http::{is_success, success, HttpReply, HttpReplyView, HttpRequest, HttpRequestView, Method};
use crate::json::{members_view, parse, parsed, render, rendered, Json, JsonView};
use crate::text::owned;

verus! {

/// The address that the browser is sent back to. It is registered with
/// the service and has to match to the letter.
pub open spec fn redirect_uri() -> Seq<char> {
    "http://127.0.0.1:8787/callback"@
}

/// The JSON that asks for tokens.
pub open spec fn token_payload(client_id: Seq<char>, client_secret: Seq<char>, code: Seq<char>) -> JsonView {
    JsonView::Object(
        seq![
            ("client_id"@, JsonView::Text(client_id)),
            ("client_secret"@, JsonView::Text(client_secret)),
            ("grant_type"@, JsonView::Text("authorization_code"@)),
            ("redirect_uri"@, JsonView::Text(redirect_uri())),
            ("code"@, JsonView::Text(code)),
        ],
    )
}

/// The request that asks for tokens.
pub open spec fn token_request_of(client_id: Seq<char>, client_secret: Seq<char>, code: Seq<char>) -> HttpRequestView {
    HttpRequestView {
        method: Method::Post,
        url: "https://api.simkl.com/oauth/token"@,
        headers: seq![("Content-Type"@, "application/json"@)],
        body: rendered(token_payload(client_id, client_secret, code)),
    }
}

/// The client registration on record, which an exchange needs: both
/// parts, neither of them empty.
pub open spec fn credentials_of(doc: CredentialDocumentView) -> Option<(Seq<char>, Seq<char>)> {
    if doc.simkl.client_id.len() == 0 || doc.simkl.client_secret.len() == 0 {
        None
    } else {
        Some((doc.simkl.client_id, doc.simkl.client_secret))
    }
}

/// The client id and the client secret on record. Fails with
/// [`AuthError::MissingClientCredentials`] exactly where one of them is
/// empty; a caller that meets this sends nothing.
pub fn client_credentials(doc: &CredentialDocument) -> (r: Result<(String, String), AuthError>)
    ensures
        match r {
            Ok(pair) => credentials_of(doc@) == Some((pair.0@, pair.1@)),
            Err(e) => e == AuthError::MissingClientCredentials && credentials_of(doc@) is None,
        },
{
    if doc.simkl.client_id.as_str().is_empty() || doc.simkl.client_secret.as_str().is_empty() {
        Err(AuthError::MissingClientCredentials)
    } else {
        Ok((doc.simkl.client_id.clone(), doc.simkl.client_secret.clone()))
    }
}

/// The request that exchanges `code` for tokens: a JSON body with the
/// client registration, the grant type, the redirect address and the
/// code.
pub fn token_request(client_id: &str, client_secret: &str, code: &str) -> (r: HttpRequest)
    ensures
        r@ == token_request_of(client_id@, client_secret@, code@),
        r@.body is Some,
{
    let mut members: Vec<(String, Json)> = Vec::new();
    members.push(("client_id".to_string(), Json::Text(owned(client_id))));
    members.push(("client_secret".to_string(), Json::Text(owned(client_secret))));
    members.push(("grant_type".to_string(), Json::Text("authorization_code".to_string())));
    members.push(
        ("redirect_uri".to_string(), Json::Text("http://127.0.0.1:8787/callback".to_string())),
    );
    members.push(("code".to_string(), Json::Text(owned(code))));
    assert(members_view(members@) =~= seq![
        ("client_id"@, JsonView::Text(client_id@)),
        ("client_secret"@, JsonView::Text(client_secret@)),
        ("grant_type"@, JsonView::Text("authorization_code"@)),
        ("redirect_uri"@, JsonView::Text(redirect_uri())),
        ("code"@, JsonView::Text(code@)),
    ]);
    let payload = Json::Object(members);
    assert(payload@.integral()) by {
        reveal_with_fuel(JsonView::integral, 2);
    }
    let body = render(&payload);
    let mut headers: Vec<(String, String)> = Vec::new();
    headers.push(("Content-Type".to_string(), "application/json".to_string()));
    assert(headers.deep_view() =~= seq![("Content-Type"@, "application/json"@)]);
    HttpRequest {
        method: Method::Post,
        url: "https://api.simkl.com/oauth/token".to_string(),
        headers,
        body,
    }
}

/// What a successful exchange grants.
#[derive(Debug, Clone, PartialEq, Eq)]
pub struct TokenGrant {
    pub access_token: String,
    pub refresh_token: String,
    /// The lifetime of the access token in seconds, from the time of the
    /// exchange.
    pub expires_in: i64,
}

pub struct TokenGrantView {
    pub access_token: Seq<char>,
    pub refresh_token: Seq<char>,
    pub expires_in: i64,
}

impl View for TokenGrant {
    type V = TokenGrantView;

    open spec fn view(&self) -> TokenGrantView {
        TokenGrantView {
            access_token: self.access_token@,
            refresh_token: self.refresh_token@,
            expires_in: self.expires_in,
        }
    }
}

/// The grant that a token response holds: all of `access_token`,
/// `refresh_token` and `expires_in` are needed, the first two as texts
/// and the last as an integer.
pub open spec fn grant_of_json(v: JsonView) -> Option<TokenGrantView> {
    match (v.text_at("access_token"@), v.text_at("refresh_token"@), v.integer_at("expires_in"@)) {
        (Some(access_token), Some(refresh_token), Some(expires_in)) => Some(
            TokenGrantView { access_token, refresh_token, expires_in },
        ),
        _ => None,
    }
}

/// What a reply of the token endpoint grants.
pub open spec fn grant_of_reply(reply: HttpReplyView) -> Result<TokenGrantView, AuthError> {
    match reply {
        HttpReplyView::Unreachable => Err(AuthError::Network),
        HttpReplyView::Answer { status, body } => {
            if !success(status) {
                Err(AuthError::TokenExchange(Some(status)))
            } else {
                match parsed(body) {
                    Some(v) => match grant_of_json(v) {
                        Some(g) => Ok(g),
                        None => Err(AuthError::TokenExchange(None)),
                    },
                    None => Err(AuthError::TokenExchange(None)),
                }
            }
        },
    }
}

/// Reads the grant from the JSON of a token response. A response that
/// lacks one of the three fields grants nothing: there is no partial
/// success.
pub fn grant_from_json(v: &Json) -> (r: Option<TokenGrant>)
    ensures
        match r {
            Some(g) => grant_of_json(v@) == Some(g@),
            None => grant_of_json(v@) is None,
        },
{
    match (v.str_at("access_token"), v.str_at("refresh_token"), v.i64_at("expires_in")) {
        (Some(access_token), Some(refresh_token), Some(expires_in)) => Some(
            TokenGrant {
                access_token: owned(access_token),
                refresh_token: owned(refresh_token),
                expires_in,
            },
        ),
        _ => None,
    }
}

/// Reads the grant from a reply of the token endpoint. A reply that
/// never came is [`AuthError::Network`]; a status other than success
/// is [`AuthError::TokenExchange`] with that status; a body that does
/// not hold all three fields is [`AuthError::TokenExchange`] without
/// one.
pub fn grant_from_reply(reply: &HttpReply) -> (r: Result<TokenGrant, AuthError>)
    ensures
        match r {
            Ok(g) => grant_of_reply(reply@) == Ok::<TokenGrantView, AuthError>(g@),
            Err(e) => grant_of_reply(reply@) == Err::<TokenGrantView, AuthError>(e),
        },
{
    match reply {
        HttpReply::Unreachable => Err(AuthError::Network),
        HttpReply::Answer { status, body } => {
            if !is_success(*status) {
                return Err(AuthError::TokenExchange(Some(*status)));
            }
            match parse(body.as_str()) {
                Some(v) => match grant_from_json(&v) {
                    Some(g) => Ok(g),
                    None => Err(AuthError::TokenExchange(None)),
                },
                None => Err(AuthError::TokenExchange(None)),
            }
        },
    }
}

/// When a token expires that was granted at `now` for `expires_in`
/// seconds: `now + expires_in`, where that is an instant at or after
/// the epoch that fits 64 signed bits.
pub open spec fn expiry(now: i64, expires_in: i64) -> Option<i64> {
    if 0 <= now + expires_in <= i64::MAX {
        Some((now + expires_in) as i64)
    } else {
        None
    }
}

/// The absolute expiry of a token granted at `now` for `expires_in`
/// seconds.
pub fn expires_at(now: i64, expires_in: i64) -> (r: Option<i64>)
    ensures
        r == expiry(now, expires_in),
{
    match now.checked_add(expires_in) {
        Some(t) => if t >= 0 {
            Some(t)
        } else {
            None
        },
        None => None,
    }
}

/// The document with a grant of time `now` on record: the tokens and
/// their expiry are replaced, the client registration and all else
/// stay. `None` where the expiry cannot be told.
pub open spec fn granted(doc: CredentialDocumentView, grant: TokenGrantView, now: i64) -> Option<
    CredentialDocumentView,
> {
    match expiry(now, grant.expires_in) {
        Some(t) => Some(
            CredentialDocumentView {
                simkl: SimklAccountView {
                    access_token: Some(grant.access_token),
                    refresh_token: Some(grant.refresh_token),
                    token_expires_at: Some(t),
                    ..doc.simkl
                },
                ..doc
            },
        ),
        None => None,
    }
}

/// Puts a grant of time `now` on record. Fails with
/// [`AuthError::TokenExchange`], and leaves the document as it is,
/// exactly where the expiry cannot be told.
pub fn record_grant(doc: &mut CredentialDocument, grant: TokenGrant, now: i64) -> (r: Result<
    (),
    AuthError,
>)
    ensures
        match r {
            Ok(_) => granted(old(doc)@, grant@, now) == Some(final(doc)@) && final(doc)@.wf(),
            Err(e) => e == AuthError::TokenExchange(None) && granted(old(doc)@, grant@, now)
                is None && final(doc)@ == old(doc)@,
        },
{
    match expires_at(now, grant.expires_in) {
        Some(t) => {
            doc.set_simkl_tokens(grant.access_token, grant.refresh_token, t);
            Ok(())
        },
        None => Err(AuthError::TokenExchange(None)),
    }
}

/// The expiry on record is the time of the exchange plus the granted
/// lifetime, to the second: a grant of 3600 seconds at time `t` is on
/// record as `t + 3600`.
pub proof fn lemma_expiry_is_sum(doc: CredentialDocumentView, grant: TokenGrantView, now: i64)
    requires
        0 <= now + grant.expires_in <= i64::MAX,
    ensures
        granted(doc, grant, now) matches Some(d) && d.simkl.token_expires_at == Some(
            (now + grant.expires_in) as i64,
        ) && d.simkl.client_id == doc.simkl.client_id && d.simkl.client_secret
            == doc.simkl.client_secret && d.plex == doc.plex,
        grant.expires_in == 3600 ==> granted(doc, grant, now).unwrap().simkl.token_expires_at
            == Some((now + 3600) as i64),
{
}

} // verus!
