//! The credential document: what is kept between runs, how it is read from
//! and written to JSON, and how a flow records what it obtained.

use vstd::prelude::*;
use crate::error::AuthError;
use crate::json::{
    lemma_lookup_at, lemma_lookup_none, members_view, parse, parsed, render, rendered, view_of,
    view_of_ref, Json, JsonView,
};

verus! {

/// What is on record for the PIN-linked service.
#[derive(Debug, Clone, PartialEq, Eq)]
pub struct PlexAccount {
    pub account_token: Option<String>,
}

/// What is on record for the OAuth service: the client registration, and
/// the tokens of the last exchange.
#[derive(Debug, Clone, PartialEq, Eq)]
pub struct SimklAccount {
    pub client_id: String,
    pub client_secret: String,
    pub access_token: Option<String>,
    pub refresh_token: Option<String>,
    /// Absolute expiry of the access token, in seconds since the epoch.
    pub token_expires_at: Option<i64>,
}

/// The persisted root object. `sync` and `runtime` belong to collaborators
/// and are carried through untouched.
#[derive(Debug, Clone, PartialEq, Eq)]
pub struct CredentialDocument {
    pub plex: PlexAccount,
    pub simkl: SimklAccount,
    pub sync: Option<Json>,
    pub runtime: Option<Json>,
}

pub struct PlexAccountView {
    pub account_token: Option<Seq<char>>,
}

pub struct SimklAccountView {
    pub client_id: Seq<char>,
    pub client_secret: Seq<char>,
    pub access_token: Option<Seq<char>>,
    pub refresh_token: Option<Seq<char>>,
    pub token_expires_at: Option<i64>,
}

pub struct CredentialDocumentView {
    pub plex: PlexAccountView,
    pub simkl: SimklAccountView,
    pub sync: Option<JsonView>,
    pub runtime: Option<JsonView>,
}

impl View for PlexAccount {
    type V = PlexAccountView;

    open spec fn view(&self) -> PlexAccountView {
        PlexAccountView { account_token: self.account_token.deep_view() }
    }
}

impl View for SimklAccount {
    type V = SimklAccountView;

    open spec fn view(&self) -> SimklAccountView {
        SimklAccountView {
            client_id: self.client_id@,
            client_secret: self.client_secret@,
            access_token: self.access_token.deep_view(),
            refresh_token: self.refresh_token.deep_view(),
            token_expires_at: self.token_expires_at,
        }
    }
}

impl View for CredentialDocument {
    type V = CredentialDocumentView;

    open spec fn view(&self) -> CredentialDocumentView {
        CredentialDocumentView {
            plex: self.plex@,
            simkl: self.simkl@,
            sync: view_of(self.sync),
            runtime: view_of(self.runtime),
        }
    }
}

impl PlexAccountView {
    /// Nothing on record.
    pub open spec fn empty() -> PlexAccountView {
        PlexAccountView { account_token: None }
    }
}

impl SimklAccountView {
    /// Nothing on record.
    pub open spec fn empty() -> SimklAccountView {
        SimklAccountView {
            client_id: Seq::empty(),
            client_secret: Seq::empty(),
            access_token: None,
            refresh_token: None,
            token_expires_at: None,
        }
    }

    /// Whether the expiry on record, if there is one, is not negative:
    /// so is every expiry that an exchange puts on record.
    pub open spec fn wf(self) -> bool {
        self.token_expires_at matches Some(t) ==> t >= 0
    }
}

impl CredentialDocumentView {
    /// The document that stands for a missing file.
    pub open spec fn empty() -> CredentialDocumentView {
        CredentialDocumentView {
            plex: PlexAccountView::empty(),
            simkl: SimklAccountView::empty(),
            sync: None,
            runtime: None,
        }
    }

    /// Whether the expiry on record, if there is one, is not negative:
    /// so is every expiry that an exchange puts on record.
    pub open spec fn wf(self) -> bool {
        self.simkl.wf()
    }
}

/// A text filed under `key`, empty where the key is absent. `None` marks a
/// member that is no text.
pub open spec fn text_member(obj: JsonView, key: Seq<char>) -> Option<Seq<char>> {
    match obj.member(key) {
        None => Some(Seq::empty()),
        Some(JsonView::Text(t)) => Some(t),
        Some(_) => None,
    }
}

/// What the `plex` member of a document stands for.
pub open spec fn decode_plex(v: Option<JsonView>) -> Option<PlexAccountView> {
    match v {
        None => Some(PlexAccountView::empty()),
        Some(JsonView::Null) => Some(PlexAccountView::empty()),
        Some(JsonView::Object(m)) => match JsonView::Object(m).optional_text_at("account_token"@) {
            Some(t) => Some(PlexAccountView { account_token: t }),
            None => None,
        },
        Some(_) => None,
    }
}

/// What the `simkl` member of a document stands for.
pub open spec fn decode_simkl(v: Option<JsonView>) -> Option<SimklAccountView> {
    match v {
        None => Some(SimklAccountView::empty()),
        Some(JsonView::Null) => Some(SimklAccountView::empty()),
        Some(JsonView::Object(m)) => {
            let obj = JsonView::Object(m);
            match (
                text_member(obj, "client_id"@),
                text_member(obj, "client_secret"@),
                obj.optional_text_at("access_token"@),
                obj.optional_text_at("refresh_token"@),
                obj.optional_integer_at("token_expires_at"@),
            ) {
                (Some(id), Some(secret), Some(access), Some(refresh), Some(expires)) => Some(
                    SimklAccountView {
                        client_id: id,
                        client_secret: secret,
                        access_token: access,
                        refresh_token: refresh,
                        token_expires_at: expires,
                    },
                ),
                _ => None,
            }
        },
        Some(_) => None,
    }
}

/// What a JSON value stands for as a credential document: `None` where it
/// is no object, or where a known member is of the wrong kind. Members
/// that the document does not know are ignored; a missing member reads as
/// its default; `sync` and `runtime` are taken as they are.
pub open spec fn decode_document(v: JsonView) -> Option<CredentialDocumentView> {
    match v {
        JsonView::Object(_) => match (decode_plex(v.member("plex"@)), decode_simkl(
            v.member("simkl"@),
        )) {
            (Some(plex), Some(simkl)) => Some(
                CredentialDocumentView {
                    plex,
                    simkl,
                    sync: v.member("sync"@),
                    runtime: v.member("runtime"@),
                },
            ),
            _ => None,
        },
        _ => None,
    }
}

/// The JSON written for an optional text.
pub open spec fn encode_opt_text(t: Option<Seq<char>>) -> JsonView {
    match t {
        Some(s) => JsonView::Text(s),
        None => JsonView::Null,
    }
}

/// The JSON written for an optional epoch.
pub open spec fn encode_opt_epoch(t: Option<i64>) -> JsonView {
    match t {
        Some(i) => JsonView::Int(i),
        None => JsonView::Null,
    }
}

/// The member written for a block that is carried through: none where
/// there is no block.
pub open spec fn encode_block(key: Seq<char>, v: Option<JsonView>) -> Seq<(Seq<char>, JsonView)> {
    match v {
        Some(j) => seq![(key, j)],
        None => Seq::empty(),
    }
}

/// The JSON written for the `plex` member.
pub open spec fn encode_plex(p: PlexAccountView) -> JsonView {
    JsonView::Object(seq![("account_token"@, encode_opt_text(p.account_token))])
}

/// The JSON written for the `simkl` member.
pub open spec fn encode_simkl(s: SimklAccountView) -> JsonView {
    JsonView::Object(
        seq![
            ("client_id"@, JsonView::Text(s.client_id)),
            ("client_secret"@, JsonView::Text(s.client_secret)),
            ("access_token"@, encode_opt_text(s.access_token)),
            ("refresh_token"@, encode_opt_text(s.refresh_token)),
            ("token_expires_at"@, encode_opt_epoch(s.token_expires_at)),
        ],
    )
}

/// The JSON written for a credential document.
pub open spec fn encode_document(d: CredentialDocumentView) -> JsonView {
    JsonView::Object(
        seq![("plex"@, encode_plex(d.plex)), ("simkl"@, encode_simkl(d.simkl))] + encode_block(
            "sync"@,
            d.sync,
        ) + encode_block("runtime"@, d.runtime),
    )
}

/// The keys of the document's members differ from one another.
proof fn lemma_document_keys()
    ensures
        "plex"@ != "simkl"@,
        "plex"@ != "sync"@,
        "plex"@ != "runtime"@,
        "simkl"@ != "sync"@,
        "simkl"@ != "runtime"@,
        "sync"@ != "runtime"@,
{
    reveal_strlit("plex");
    reveal_strlit("simkl");
    reveal_strlit("sync");
    reveal_strlit("runtime");
    assert("plex"@.len() == 4 && "simkl"@.len() == 5 && "sync"@.len() == 4 && "runtime"@.len() == 7);
    assert("plex"@[0] != "sync"@[0]);
}

/// The keys of the `simkl` member differ from one another.
proof fn lemma_simkl_keys()
    ensures
        "client_id"@ != "client_secret"@,
        "client_id"@ != "access_token"@,
        "client_id"@ != "refresh_token"@,
        "client_id"@ != "token_expires_at"@,
        "client_secret"@ != "access_token"@,
        "client_secret"@ != "refresh_token"@,
        "client_secret"@ != "token_expires_at"@,
        "access_token"@ != "refresh_token"@,
        "access_token"@ != "token_expires_at"@,
        "refresh_token"@ != "token_expires_at"@,
{
    reveal_strlit("client_id");
    reveal_strlit("client_secret");
    reveal_strlit("access_token");
    reveal_strlit("refresh_token");
    reveal_strlit("token_expires_at");
    assert("client_id"@.len() == 9 && "client_secret"@.len() == 13 && "access_token"@.len() == 12);
    assert("refresh_token"@.len() == 13 && "token_expires_at"@.len() == 16);
    assert("client_secret"@[0] != "refresh_token"@[0]);
}

/// Reading back what was written for the `plex` member gives the member.
pub proof fn lemma_plex_round_trip(p: PlexAccountView)
    ensures
        decode_plex(Some(encode_plex(p))) == Some(p),
{
    let m = seq![("account_token"@, encode_opt_text(p.account_token))];
    lemma_lookup_at(m, "account_token"@, 0);
}

/// Reading back what was written for the `simkl` member gives the member.
pub proof fn lemma_simkl_round_trip(s: SimklAccountView)
    ensures
        decode_simkl(Some(encode_simkl(s))) == Some(s),
{
    lemma_simkl_keys();
    let m = seq![
        ("client_id"@, JsonView::Text(s.client_id)),
        ("client_secret"@, JsonView::Text(s.client_secret)),
        ("access_token"@, encode_opt_text(s.access_token)),
        ("refresh_token"@, encode_opt_text(s.refresh_token)),
        ("token_expires_at"@, encode_opt_epoch(s.token_expires_at)),
    ];
    lemma_lookup_at(m, "client_id"@, 0);
    lemma_lookup_at(m, "client_secret"@, 1);
    lemma_lookup_at(m, "access_token"@, 2);
    lemma_lookup_at(m, "refresh_token"@, 3);
    lemma_lookup_at(m, "token_expires_at"@, 4);
}

/// Round trip: a document that is written to JSON and read back is the
/// document that was written, the blocks that are carried through
/// included.
pub proof fn lemma_document_round_trip(d: CredentialDocumentView)
    ensures
        decode_document(encode_document(d)) == Some(d),
{
    lemma_document_keys();
    lemma_plex_round_trip(d.plex);
    lemma_simkl_round_trip(d.simkl);
    let m = seq![("plex"@, encode_plex(d.plex)), ("simkl"@, encode_simkl(d.simkl))] + encode_block(
        "sync"@,
        d.sync,
    ) + encode_block("runtime"@, d.runtime);
    lemma_lookup_at(m, "plex"@, 0);
    lemma_lookup_at(m, "simkl"@, 1);
    match d.sync {
        Some(_) => {
            lemma_lookup_at(m, "sync"@, 2);
            match d.runtime {
                Some(_) => lemma_lookup_at(m, "runtime"@, 3),
                None => lemma_lookup_none(m, "runtime"@),
            }
        },
        None => {
            lemma_lookup_none(m, "sync"@);
            match d.runtime {
                Some(_) => lemma_lookup_at(m, "runtime"@, 2),
                None => lemma_lookup_none(m, "runtime"@),
            }
        },
    }
}

fn read_opt_text(obj: &Json, key: &str) -> (r: Result<Option<String>, AuthError>)
    ensures
        match r {
            Ok(t) => obj@.optional_text_at(key@) == Some(t.deep_view()),
            Err(e) => e == AuthError::Storage && obj@.optional_text_at(key@) is None,
        },
{
    match obj.optional_str_at(key) {
        Some(Some(t)) => Ok(Some(t.to_owned())),
        Some(None) => Ok(None),
        None => Err(AuthError::Storage),
    }
}

fn read_text(obj: &Json, key: &str) -> (r: Result<String, AuthError>)
    ensures
        match r {
            Ok(t) => text_member(obj@, key@) == Some(t@),
            Err(e) => e == AuthError::Storage && text_member(obj@, key@) is None,
        },
{
    match obj.get(key) {
        None => Ok(String::new()),
        Some(Json::Text(t)) => Ok(t.clone()),
        Some(_) => Err(AuthError::Storage),
    }
}

fn read_opt_epoch(obj: &Json, key: &str) -> (r: Result<Option<i64>, AuthError>)
    ensures
        match r {
            Ok(t) => obj@.optional_integer_at(key@) == Some(t),
            Err(e) => e == AuthError::Storage && obj@.optional_integer_at(key@) is None,
        },
{
    match obj.optional_i64_at(key) {
        Some(t) => Ok(t),
        None => Err(AuthError::Storage),
    }
}

fn write_opt_text(t: &Option<String>) -> (r: Json)
    ensures
        r@ == encode_opt_text(t.deep_view()),
{
    match t {
        Some(s) => Json::Text(s.clone()),
        None => Json::Null,
    }
}

impl PlexAccount {
    /// Nothing on record.
    pub fn new() -> (r: PlexAccount)
        ensures
            r@ == PlexAccountView::empty(),
    {
        PlexAccount { account_token: None }
    }

    /// Reads the `plex` member of a document.
    pub fn from_json(v: Option<&Json>) -> (r: Result<PlexAccount, AuthError>)
        ensures
            match r {
                Ok(p) => decode_plex(view_of_ref(v)) == Some(p@),
                Err(e) => e == AuthError::Storage && decode_plex(view_of_ref(v)) is None,
            },
    {
        match v {
            None => Ok(PlexAccount::new()),
            Some(Json::Null) => Ok(PlexAccount::new()),
            Some(Json::Object(_)) => {
                let obj = v.unwrap();
                match read_opt_text(obj, "account_token") {
                    Ok(t) => Ok(PlexAccount { account_token: t }),
                    Err(e) => Err(e),
                }
            },
            Some(_) => Err(AuthError::Storage),
        }
    }

    /// Writes the `plex` member of a document.
    pub fn to_json(&self) -> (r: Json)
        ensures
            r@ == encode_plex(self@),
    {
        let mut members: Vec<(String, Json)> = Vec::new();
        members.push(("account_token".to_string(), write_opt_text(&self.account_token)));
        assert(members_view(members@) =~= seq![
            ("account_token"@, encode_opt_text(self@.account_token)),
        ]);
        Json::Object(members)
    }
}

impl SimklAccount {
    /// Nothing on record.
    pub fn new() -> (r: SimklAccount)
        ensures
            r@ == SimklAccountView::empty(),
    {
        SimklAccount {
            client_id: String::new(),
            client_secret: String::new(),
            access_token: None,
            refresh_token: None,
            token_expires_at: None,
        }
    }

    /// Reads the `simkl` member of a document.
    pub fn from_json(v: Option<&Json>) -> (r: Result<SimklAccount, AuthError>)
        ensures
            match r {
                Ok(s) => decode_simkl(view_of_ref(v)) == Some(s@),
                Err(e) => e == AuthError::Storage && decode_simkl(view_of_ref(v)) is None,
            },
    {
        match v {
            None => Ok(SimklAccount::new()),
            Some(Json::Null) => Ok(SimklAccount::new()),
            Some(Json::Object(_)) => {
                let obj = v.unwrap();
                let client_id = match read_text(obj, "client_id") {
                    Ok(t) => t,
                    Err(e) => { return Err(e); },
                };
                let client_secret = match read_text(obj, "client_secret") {
                    Ok(t) => t,
                    Err(e) => { return Err(e); },
                };
                let access_token = match read_opt_text(obj, "access_token") {
                    Ok(t) => t,
                    Err(e) => { return Err(e); },
                };
                let refresh_token = match read_opt_text(obj, "refresh_token") {
                    Ok(t) => t,
                    Err(e) => { return Err(e); },
                };
                let token_expires_at = match read_opt_epoch(obj, "token_expires_at") {
                    Ok(t) => t,
                    Err(e) => { return Err(e); },
                };
                Ok(
                    SimklAccount {
                        client_id,
                        client_secret,
                        access_token,
                        refresh_token,
                        token_expires_at,
                    },
                )
            },
            Some(_) => Err(AuthError::Storage),
        }
    }

    /// Writes the `simkl` member of a document.
    pub fn to_json(&self) -> (r: Json)
        ensures
            r@ == encode_simkl(self@),
    {
        let mut members: Vec<(String, Json)> = Vec::new();
        members.push(("client_id".to_string(), Json::Text(self.client_id.clone())));
        members.push(("client_secret".to_string(), Json::Text(self.client_secret.clone())));
        members.push(("access_token".to_string(), write_opt_text(&self.access_token)));
        members.push(("refresh_token".to_string(), write_opt_text(&self.refresh_token)));
        let expires = match self.token_expires_at {
            Some(i) => Json::Int(i),
            None => Json::Null,
        };
        members.push(("token_expires_at".to_string(), expires));
        assert(members_view(members@) =~= seq![
            ("client_id"@, JsonView::Text(self@.client_id)),
            ("client_secret"@, JsonView::Text(self@.client_secret)),
            ("access_token"@, encode_opt_text(self@.access_token)),
            ("refresh_token"@, encode_opt_text(self@.refresh_token)),
            ("token_expires_at"@, encode_opt_epoch(self@.token_expires_at)),
        ]);
        Json::Object(members)
    }
}

impl CredentialDocument {
    /// The document that stands for a missing file: nothing on record.
    pub fn new() -> (r: CredentialDocument)
        ensures
            r@ == CredentialDocumentView::empty(),
            r@.wf(),
    {
        CredentialDocument {
            plex: PlexAccount::new(),
            simkl: SimklAccount::new(),
            sync: None,
            runtime: None,
        }
    }

    /// Reads a document from a JSON value. Fails with
    /// [`AuthError::Storage`] exactly where the value is no object or a
    /// known member is of the wrong kind.
    pub fn from_json(v: &Json) -> (r: Result<CredentialDocument, AuthError>)
        ensures
            match r {
                Ok(d) => decode_document(v@) == Some(d@),
                Err(e) => e == AuthError::Storage && decode_document(v@) is None,
            },
    {
        match v {
            Json::Object(_) => {
                let plex = match PlexAccount::from_json(v.get("plex")) {
                    Ok(p) => p,
                    Err(e) => { return Err(e); },
                };
                let simkl = match SimklAccount::from_json(v.get("simkl")) {
                    Ok(s) => s,
                    Err(e) => { return Err(e); },
                };
                let sync = match v.get("sync") {
                    Some(j) => Some(j.duplicate()),
                    None => None,
                };
                let runtime = match v.get("runtime") {
                    Some(j) => Some(j.duplicate()),
                    None => None,
                };
                Ok(CredentialDocument { plex, simkl, sync, runtime })
            },
            _ => Err(AuthError::Storage),
        }
    }

    /// Writes the document as a JSON value.
    pub fn to_json(&self) -> (r: Json)
        ensures
            r@ == encode_document(self@),
    {
        let mut members: Vec<(String, Json)> = Vec::new();
        members.push(("plex".to_string(), self.plex.to_json()));
        members.push(("simkl".to_string(), self.simkl.to_json()));
        match &self.sync {
            Some(j) => {
                members.push(("sync".to_string(), j.duplicate()));
            },
            None => {},
        }
        match &self.runtime {
            Some(j) => {
                members.push(("runtime".to_string(), j.duplicate()));
            },
            None => {},
        }
        assert(members_view(members@) =~= seq![
            ("plex"@, encode_plex(self@.plex)),
            ("simkl"@, encode_simkl(self@.simkl)),
        ] + encode_block("sync"@, self@.sync) + encode_block("runtime"@, self@.runtime));
        Json::Object(members)
    }

    /// Reads a document from the text of its file. Fails with
    /// [`AuthError::Storage`] exactly where the text is no JSON or the
    /// JSON is no document.
    pub fn from_text(text: &str) -> (r: Result<CredentialDocument, AuthError>)
        ensures
            match r {
                Ok(d) => parsed(text@) matches Some(j) && decode_document(j) == Some(d@),
                Err(e) => e == AuthError::Storage && (parsed(text@) matches Some(j)
                    ==> decode_document(j) is None),
            },
    {
        match parse(text) {
            Some(j) => CredentialDocument::from_json(&j),
            None => Err(AuthError::Storage),
        }
    }

    /// The text to write to the document's file, indented for reading.
    /// There is one wherever the blocks that are carried through hold
    /// no number that is kept as text; `None` only where such a number
    /// cannot be written.
    pub fn to_text(&self) -> (r: Option<String>)
        ensures
            r.deep_view() == rendered(encode_document(self@)),
            encode_document(self@).integral() ==> r is Some,
    {
        let j = self.to_json();
        render(&j)
    }

    /// Records the account token of the PIN-linked service. Nothing else
    /// changes.
    pub fn set_plex_token(&mut self, token: String)
        ensures
            final(self)@ == (CredentialDocumentView {
                plex: PlexAccountView { account_token: Some(token@) },
                ..old(self)@
            }),
    {
        self.plex.account_token = Some(token);
    }

    /// Records the tokens of an exchange. The client registration and
    /// everything else stay as they are.
    pub fn set_simkl_tokens(&mut self, access_token: String, refresh_token: String, expires_at: i64)
        requires
            expires_at >= 0,
        ensures
            final(self)@ == (CredentialDocumentView {
                simkl: SimklAccountView {
                    access_token: Some(access_token@),
                    refresh_token: Some(refresh_token@),
                    token_expires_at: Some(expires_at),
                    ..old(self)@.simkl
                },
                ..old(self)@
            }),
            final(self)@.wf(),
    {
        self.simkl.access_token = Some(access_token);
        self.simkl.refresh_token = Some(refresh_token);
        self.simkl.token_expires_at = Some(expires_at);
    }
}

impl Default for CredentialDocument {
    fn default() -> (r: CredentialDocument)
        ensures
            r@ == CredentialDocumentView::empty(),
    {
        CredentialDocument::new()
    }
}

} // verus!
