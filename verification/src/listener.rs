//! The loopback listener of the authorization-code flow: one local
//! endpoint that waits for the browser to come back with a code, and the
//! exchange that follows.
//!
//! The caller binds the port and accepts the connections. It hands each
//! request to [`CallbackFlow::on_request`], the credential document to
//! [`CallbackFlow::on_document`] once it is asked for, and the reply of
//! the token endpoint to [`CallbackFlow::on_reply`], and does what the
//! returned [`CallbackAction`] says. The document is not touched before
//! a code has come. A flow is used for one callback and then dropped,
//! together with the port.

use vstd::prelude::*;
use vstd::string::*;
use crate::document::{CredentialDocument, CredentialDocumentView};
use crate::error::AuthError;
use crate::exchange::{
    client_credentials, credentials_of, grant_from_reply, grant_of_reply, granted, record_grant,
    token_request, token_request_of, TokenGrant, TokenGrantView,
};
use crate::http::{HttpReply, HttpRequest, HttpRequestView};
use crate::text::same_text;

verus! {

/// The local port that the listener binds. It is fixed, as the redirect
/// address registered with the service names it.
pub const CALLBACK_PORT: u16 = 8787;

/// What `url` reads from an absolute URL: its path, and the pairs of
/// names and values in its query, decoded, in order. Nothing where the
/// text is no absolute URL.
pub uninterp spec fn url_parts(url: Seq<char>) -> Option<(Seq<char>, Seq<(Seq<char>, Seq<char>)>)>;

/// Calls `url::Url::parse` and, on success, `Url::path` and
/// `Url::query_pairs`, whose pairs are copied out in order.
#[verifier::external_body]
fn url_read(url: &str) -> (r: Option<(String, Vec<(String, String)>)>)
    ensures
        r.deep_view() == url_parts(url@),
{
    match url::Url::parse(url) {
        Ok(u) => Some(
            (
                u.path().to_string(),
                u.query_pairs().map(|(k, v)| (k.into_owned(), v.into_owned())).collect(),
            ),
        ),
        Err(_) => None,
    }
}

/// The value of the first pair named `key`.
pub open spec fn first_value(pairs: Seq<(Seq<char>, Seq<char>)>, key: Seq<char>) -> Option<Seq<char>>
    decreases pairs.len(),
{
    if pairs.len() == 0 {
        None
    } else if pairs[0].0 == key {
        Some(pairs[0].1)
    } else {
        first_value(pairs.drop_first(), key)
    }
}

/// The code that a request brings: the value of its first `code`
/// parameter, where the request is for the callback path.
pub open spec fn code_of_parts(path: Seq<char>, query: Seq<(Seq<char>, Seq<char>)>) -> Option<Seq<char>> {
    if path == "/callback"@ {
        first_value(query, "code"@)
    } else {
        None
    }
}

/// The code that a request target brings, the target read as a URL on
/// this host.
pub open spec fn code_of_target(target: Seq<char>) -> Option<Seq<char>> {
    match url_parts("http://localhost"@ + target) {
        Some((path, query)) => code_of_parts(path, query),
        None => None,
    }
}

/// The code that a request brings, given its path and the pairs of its
/// query: the value of the first `code` parameter of a request for
/// `/callback`, and none for any other request.
pub fn code_from_parts(path: &str, query: &Vec<(String, String)>) -> (r: Option<String>)
    ensures
        r.deep_view() == code_of_parts(path@, query.deep_view()),
{
    if !same_text(path, "/callback") {
        return None;
    }
    let mut i: usize = 0;
    assert(query.deep_view().skip(0) =~= query.deep_view());
    while i < query.len()
        invariant
            i <= query.len(),
            path@ == "/callback"@,
            first_value(query.deep_view(), "code"@) == first_value(
                query.deep_view().skip(i as int),
                "code"@,
            ),
        decreases query.len() - i,
    {
        let ghost rest = query.deep_view().skip(i as int);
        assert(rest[0] == (query@[i as int].0@, query@[i as int].1@));
        assert(rest.drop_first() =~= query.deep_view().skip(i + 1));
        if same_text(query[i].0.as_str(), "code") {
            return Some(query[i].1.clone());
        }
        i += 1;
    }
    None
}

/// The code that a request target such as `/callback?code=abc` brings.
pub fn callback_code(target: &str) -> (r: Option<String>)
    ensures
        r.deep_view() == code_of_target(target@),
{
    let mut url = "http://localhost".to_string();
    url.append(target);
    match url_read(url.as_str()) {
        Some((path, query)) => code_from_parts(path.as_str(), &query),
        None => None,
    }
}

/// A page for the browser.
#[derive(Debug, Clone, Copy, PartialEq, Eq)]
pub enum Page {
    /// The request was not the callback: the listener goes on waiting.
    Waiting,
    /// The account is linked.
    Linked,
    /// The flow failed.
    Failed(AuthError),
}

impl Page {
    /// The status that the page is sent with.
    pub open spec fn status_of(self) -> u16 {
        match self {
            Page::Waiting => 200,
            Page::Linked => 200,
            Page::Failed(AuthError::MissingClientCredentials) => 400,
            Page::Failed(AuthError::TokenExchange(Some(_))) => 400,
            Page::Failed(_) => 500,
        }
    }

    /// The sentence that the page shows.
    pub open spec fn sentence_of(self) -> Seq<char> {
        match self {
            Page::Waiting => "Waiting for the authorization callback."@,
            Page::Linked => "SIMKL linked. You can close this window."@,
            Page::Failed(AuthError::MissingClientCredentials) => "SIMKL client_id/secret missing."@,
            Page::Failed(AuthError::TokenExchange(Some(_))) => "SIMKL token exchange failed."@,
            Page::Failed(AuthError::TokenExchange(None)) => "SIMKL token parse failed."@,
            Page::Failed(AuthError::Network) => "SIMKL token request failed."@,
            Page::Failed(AuthError::Storage) => "Config read failed."@,
            Page::Failed(_) => "SIMKL linking failed."@,
        }
    }

    /// The HTML of the page.
    pub open spec fn html_of(self) -> Seq<char> {
        "<html><body><h3>"@ + self.sentence_of() + "</h3></body></html>"@
    }

    /// The status that the page is sent with.
    pub fn status(&self) -> (r: u16)
        ensures
            r == self.status_of(),
    {
        match self {
            Page::Waiting => 200,
            Page::Linked => 200,
            Page::Failed(AuthError::MissingClientCredentials) => 400,
            Page::Failed(AuthError::TokenExchange(Some(_))) => 400,
            Page::Failed(_) => 500,
        }
    }

    /// The HTML of the page.
    pub fn html(&self) -> (r: String)
        ensures
            r@ == self.html_of(),
    {
        let sentence = match self {
            Page::Waiting => "Waiting for the authorization callback.",
            Page::Linked => "SIMKL linked. You can close this window.",
            Page::Failed(AuthError::MissingClientCredentials) => "SIMKL client_id/secret missing.",
            Page::Failed(AuthError::TokenExchange(Some(_))) => "SIMKL token exchange failed.",
            Page::Failed(AuthError::TokenExchange(None)) => "SIMKL token parse failed.",
            Page::Failed(AuthError::Network) => "SIMKL token request failed.",
            Page::Failed(AuthError::Storage) => "Config read failed.",
            Page::Failed(_) => "SIMKL linking failed.",
        };
        let mut r = "<html><body><h3>".to_string();
        r.append(sentence);
        r.append("</h3></body></html>");
        r
    }

    /// The page to answer with once the document was to be saved: the
    /// page itself where the save went well, and the page of a storage
    /// failure where it did not.
    pub fn if_saved(self, saved: bool) -> (r: Page)
        ensures
            r == if saved {
                self
            } else {
                Page::Failed(AuthError::Storage)
            },
    {
        if saved {
            self
        } else {
            Page::Failed(AuthError::Storage)
        }
    }

    /// What the page tells of the flow: success, a failure, or nothing
    /// yet.
    pub open spec fn outcome_of(self) -> Option<Result<(), AuthError>> {
        match self {
            Page::Waiting => None,
            Page::Linked => Some(Ok(())),
            Page::Failed(e) => Some(Err(e)),
        }
    }

    /// What the page tells of the flow, for the completion notice.
    pub fn outcome(&self) -> (r: Option<Result<(), AuthError>>)
        ensures
            r == self.outcome_of(),
    {
        match self {
            Page::Waiting => None,
            Page::Linked => Some(Ok(())),
            Page::Failed(e) => Some(Err(*e)),
        }
    }
}

/// Where the listener stands.
#[derive(Debug, Clone, PartialEq, Eq)]
pub enum ListenerState {
    /// Bound, and waiting for the callback.
    Waiting,
    /// The callback came with this code; the credential document is
    /// being loaded.
    Loading { code: String },
    /// This token request is under way, and the browser is kept waiting
    /// for its page.
    Exchanging { request: HttpRequest },
    /// Over. The port is to be released.
    Done,
}

pub enum ListenerStateView {
    Waiting,
    Loading { code: Seq<char> },
    Exchanging { request: HttpRequestView },
    Done,
}

impl View for ListenerState {
    type V = ListenerStateView;

    open spec fn view(&self) -> ListenerStateView {
        match self {
            ListenerState::Waiting => ListenerStateView::Waiting,
            ListenerState::Loading { code } => ListenerStateView::Loading { code: code@ },
            ListenerState::Exchanging { request } => ListenerStateView::Exchanging {
                request: request@,
            },
            ListenerState::Done => ListenerStateView::Done,
        }
    }
}

/// What the caller does next.
#[derive(Debug, Clone, Copy, PartialEq, Eq)]
pub enum CallbackAction {
    /// Answer the browser with the page and go on listening.
    Acknowledge(Page),
    /// Keep the browser waiting, load the credential document, and hand
    /// it in.
    Load,
    /// Send the flow's token request and hand in the reply, together
    /// with the credential document loaded anew.
    Exchange,
    /// Save the document that was handed in where `save` says so, answer
    /// the browser with the page, or with [`Page::if_saved`] of it after
    /// a save, release the port, and give notice of the outcome of the
    /// page that was sent, once.
    Finish { page: Page, save: bool },
    /// The flow is not at a point where this can be taken in.
    Nothing,
}

/// One run of the listener.
#[derive(Debug, Clone, PartialEq, Eq)]
pub struct CallbackFlow {
    pub state: ListenerState,
}

pub struct CallbackFlowView {
    pub state: ListenerStateView,
}

impl View for CallbackFlow {
    type V = CallbackFlowView;

    open spec fn view(&self) -> CallbackFlowView {
        CallbackFlowView { state: self.state@ }
    }
}

/// The view of a document that may have failed to load.
pub open spec fn opt_document(doc: Option<&CredentialDocument>) -> Option<CredentialDocumentView> {
    match doc {
        Some(d) => Some(d@),
        None => None,
    }
}

/// The view of what the token endpoint granted.
pub open spec fn grant_view(outcome: Result<TokenGrant, AuthError>) -> Result<TokenGrantView, AuthError> {
    match outcome {
        Ok(g) => Ok(g@),
        Err(e) => Err(e),
    }
}

/// The view of a borrowed request that may be missing.
pub open spec fn opt_request(r: Option<&HttpRequest>) -> Option<HttpRequestView> {
    match r {
        Some(q) => Some(q@),
        None => None,
    }
}

/// The flow that is over, and the page it ends with.
pub open spec fn finished(page: Page, save: bool) -> (CallbackFlowView, CallbackAction) {
    (CallbackFlowView { state: ListenerStateView::Done }, CallbackAction::Finish { page, save })
}

impl CallbackFlowView {
    /// The token request that is under way, if one is.
    pub open spec fn request(self) -> Option<HttpRequestView> {
        match self.state {
            ListenerStateView::Exchanging { request } => Some(request),
            _ => None,
        }
    }

    /// The flow and the action after a request that brought `code`.
    pub open spec fn heard(self, code: Option<Seq<char>>) -> (CallbackFlowView, CallbackAction) {
        match self.state {
            ListenerStateView::Waiting => match code {
                None => (self, CallbackAction::Acknowledge(Page::Waiting)),
                Some(c) => (
                    CallbackFlowView { state: ListenerStateView::Loading { code: c } },
                    CallbackAction::Load,
                ),
            },
            _ => (self, CallbackAction::Nothing),
        }
    }

    /// The flow and the action after the document was loaded, `None`
    /// standing for one that could not be read.
    pub open spec fn loaded(self, doc: Option<CredentialDocumentView>) -> (
        CallbackFlowView,
        CallbackAction,
    ) {
        match self.state {
            ListenerStateView::Loading { code } => match doc {
                None => finished(Page::Failed(AuthError::Storage), false),
                Some(d) => match credentials_of(d) {
                    None => finished(Page::Failed(AuthError::MissingClientCredentials), false),
                    Some((id, secret)) => (
                        CallbackFlowView {
                            state: ListenerStateView::Exchanging {
                                request: token_request_of(id, secret, code),
                            },
                        },
                        CallbackAction::Exchange,
                    ),
                },
            },
            _ => (self, CallbackAction::Nothing),
        }
    }

    /// The flow, the action and the document after the token endpoint
    /// answered at time `now`.
    pub open spec fn answered(
        self,
        outcome: Result<TokenGrantView, AuthError>,
        now: i64,
        doc: CredentialDocumentView,
    ) -> (CallbackFlowView, CallbackAction, CredentialDocumentView) {
        match self.state {
            ListenerStateView::Exchanging { request } => {
                let done = CallbackFlowView { state: ListenerStateView::Done };
                match outcome {
                    Err(e) => (
                        done,
                        CallbackAction::Finish { page: Page::Failed(e), save: false },
                        doc,
                    ),
                    Ok(g) => match granted(doc, g, now) {
                        Some(d) => (
                            done,
                            CallbackAction::Finish { page: Page::Linked, save: true },
                            d,
                        ),
                        None => (
                            done,
                            CallbackAction::Finish {
                                page: Page::Failed(AuthError::TokenExchange(None)),
                                save: false,
                            },
                            doc,
                        ),
                    },
                }
            },
            _ => (self, CallbackAction::Nothing, doc),
        }
    }
}

impl CallbackFlow {
    /// Begins a run, given whether the port could be bound. A port that
    /// is taken is [`AuthError::PortBind`]: no other port is tried.
    pub fn start(bound: bool) -> (r: Result<CallbackFlow, AuthError>)
        ensures
            match r {
                Ok(flow) => bound && flow@.state == ListenerStateView::Waiting,
                Err(e) => !bound && e == AuthError::PortBind,
            },
    {
        if bound {
            Ok(CallbackFlow { state: ListenerState::Waiting })
        } else {
            Err(AuthError::PortBind)
        }
    }

    /// The token request that is under way, if one is.
    pub fn token_request(&self) -> (r: Option<&HttpRequest>)
        ensures
            opt_request(r) == self@.request(),
    {
        match &self.state {
            ListenerState::Exchanging { request } => Some(request),
            _ => None,
        }
    }

    /// Takes in a request of which `code` was read. A request without a
    /// code is acknowledged and the listener goes on waiting, with
    /// nothing else touched. A request with a code ends the waiting and
    /// asks for the credential document.
    pub fn on_callback(&mut self, code: Option<String>) -> (r: CallbackAction)
        ensures
            (final(self)@, r) == old(self)@.heard(code.deep_view()),
    {
        match &self.state {
            ListenerState::Waiting => {},
            _ => { return CallbackAction::Nothing; },
        }
        match code {
            Some(c) => {
                self.state = ListenerState::Loading { code: c };
                CallbackAction::Load
            },
            None => CallbackAction::Acknowledge(Page::Waiting),
        }
    }

    /// Takes in a request by its target, such as `/callback?code=abc`:
    /// reads the code with [`callback_code`] and goes on as
    /// [`CallbackFlow::on_callback`] says.
    pub fn on_request(&mut self, target: &str) -> (r: CallbackAction)
        ensures
            (final(self)@, r) == old(self)@.heard(code_of_target(target@)),
    {
        let code = callback_code(target);
        self.on_callback(code)
    }

    /// Takes in the credential document as it was just loaded, or `None`
    /// where it could not be read. Where the client registration is on
    /// record the token request is made ready; where it is not, or the
    /// document could not be read, the flow fails before anything is
    /// sent.
    pub fn on_document(&mut self, doc: Option<&CredentialDocument>) -> (r: CallbackAction)
        ensures
            (final(self)@, r) == old(self)@.loaded(opt_document(doc)),
    {
        let code = match &self.state {
            ListenerState::Loading { code } => code.clone(),
            _ => { return CallbackAction::Nothing; },
        };
        let doc = match doc {
            Some(d) => d,
            None => {
                self.state = ListenerState::Done;
                return CallbackAction::Finish { page: Page::Failed(AuthError::Storage), save: false };
            },
        };
        match client_credentials(doc) {
            Ok((id, secret)) => {
                let request = token_request(id.as_str(), secret.as_str(), code.as_str());
                self.state = ListenerState::Exchanging { request };
                CallbackAction::Exchange
            },
            Err(e) => {
                self.state = ListenerState::Done;
                CallbackAction::Finish { page: Page::Failed(e), save: false }
            },
        }
    }

    /// Takes in what the token endpoint granted at time `now`, with the
    /// credential document loaded anew. A grant is put on record in
    /// `doc`, for the caller to save; a failure leaves `doc` as it is.
    /// Either way the flow is over.
    pub fn on_grant(
        &mut self,
        outcome: Result<TokenGrant, AuthError>,
        now: i64,
        doc: &mut CredentialDocument,
    ) -> (r: CallbackAction)
        ensures
            (final(self)@, r, final(doc)@) == old(self)@.answered(grant_view(outcome), now, old(doc)@),
    {
        match &self.state {
            ListenerState::Exchanging { request } => {},
            _ => { return CallbackAction::Nothing; },
        }
        self.state = ListenerState::Done;
        match outcome {
            Err(e) => CallbackAction::Finish { page: Page::Failed(e), save: false },
            Ok(g) => match record_grant(doc, g, now) {
                Ok(_) => CallbackAction::Finish { page: Page::Linked, save: true },
                Err(e) => CallbackAction::Finish { page: Page::Failed(e), save: false },
            },
        }
    }

    /// Takes in the reply of the token endpoint: reads it with
    /// [`grant_from_reply`] and goes on as [`CallbackFlow::on_grant`]
    /// says.
    pub fn on_reply(&mut self, reply: &HttpReply, now: i64, doc: &mut CredentialDocument) -> (r:
        CallbackAction)
        ensures
            (final(self)@, r, final(doc)@) == old(self)@.answered(grant_of_reply(reply@), now, old(doc)@),
    {
        let outcome = grant_from_reply(reply);
        self.on_grant(outcome, now, doc)
    }
}

/// A request that brings no code leaves the listener waiting, and a
/// request that brings one ends the waiting and asks for the document
/// with that code in hand.
pub proof fn lemma_only_a_code_ends_waiting(flow: CallbackFlowView, code: Seq<char>)
    requires
        flow.state == ListenerStateView::Waiting,
    ensures
        flow.heard(None) == (flow, CallbackAction::Acknowledge(Page::Waiting)),
        flow.heard(Some(code)) == (
            CallbackFlowView { state: ListenerStateView::Loading { code } },
            CallbackAction::Load,
        ),
{
}

/// Without the client registration on record nothing is sent: the flow
/// is over at once, with no token request made ready.
pub proof fn lemma_no_request_without_credentials(
    flow: CallbackFlowView,
    code: Seq<char>,
    doc: CredentialDocumentView,
)
    requires
        flow.state == (ListenerStateView::Loading { code }),
        credentials_of(doc) is None,
    ensures
        flow.loaded(Some(doc)) == finished(Page::Failed(AuthError::MissingClientCredentials), false),
        flow.loaded(Some(doc)).0.request() is None,
{
}

/// With the client registration on record the token request carries the
/// registration and the code that the callback brought.
pub proof fn lemma_request_carries_the_code(
    flow: CallbackFlowView,
    code: Seq<char>,
    doc: CredentialDocumentView,
)
    requires
        flow.state == (ListenerStateView::Loading { code }),
        credentials_of(doc) is Some,
    ensures
        flow.loaded(Some(doc)).1 == CallbackAction::Exchange,
        flow.loaded(Some(doc)).0.request() == Some(
            token_request_of(doc.simkl.client_id, doc.simkl.client_secret, code),
        ),
{
}

/// A flow that is over stays over: it takes nothing in and asks for
/// nothing, so that the end is told once and the flow is not used
/// again.
pub proof fn lemma_done_is_final(
    flow: CallbackFlowView,
    code: Option<Seq<char>>,
    loaded: Option<CredentialDocumentView>,
    outcome: Result<TokenGrantView, AuthError>,
    now: i64,
    doc: CredentialDocumentView,
)
    requires
        flow.state == ListenerStateView::Done,
    ensures
        flow.heard(code) == (flow, CallbackAction::Nothing),
        flow.loaded(loaded) == (flow, CallbackAction::Nothing),
        flow.answered(outcome, now, doc) == (flow, CallbackAction::Nothing, doc),
{
}

/// The flow is over exactly when its step says to finish, and only a
/// step that says to save changes the document.
pub proof fn lemma_finish_ends_the_flow(
    flow: CallbackFlowView,
    code: Option<Seq<char>>,
    loaded: Option<CredentialDocumentView>,
    outcome: Result<TokenGrantView, AuthError>,
    now: i64,
    doc: CredentialDocumentView,
)
    requires
        flow.state != ListenerStateView::Done,
    ensures
        flow.heard(code).1 !is Finish && flow.heard(code).0.state != ListenerStateView::Done,
        flow.loaded(loaded).1 is Finish <==> flow.loaded(loaded).0.state == ListenerStateView::Done,
        flow.answered(outcome, now, doc).1 is Finish <==> flow.answered(outcome, now, doc).0.state
            == ListenerStateView::Done,
        !(flow.answered(outcome, now, doc).1 matches CallbackAction::Finish { save: true, .. })
            ==> flow.answered(outcome, now, doc).2 == doc,
        !(flow.loaded(loaded).1 matches CallbackAction::Finish { save: true, .. }),
{
}

} // verus!
