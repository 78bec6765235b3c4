//! The login flow: which request a submit sends, and what a completed
//! request does to the token cell.
//!
//! The flow never performs a request itself. `submit` hands out the request
//! together with its number; whoever sent it reports the outcome under that
//! number to `on_response`. Only the outcome of the latest request that is
//! still outstanding is applied. Every other outcome is dropped, so an
//! answer that arrives late cannot undo what a later login has set.

use vstd::prelude::*;
use crate::api::HttpRequest;
use crate::api::LoginResponse;
use crate::api::NextAPIClient;
use crate::api::ResponseView;
use crate::api::json_object_text;
use crate::api::login_members;
use crate::api::login_post;
use crate::token::TokenCell;
use crate::token::written;

verus! {

/// How one login request ended.
#[derive(Debug, Clone, PartialEq, Eq)]
pub enum LoginOutcome {
    /// The server answered and the body of its answer was a login response.
    Answered(LoginResponse),
    /// No answer came: the connection failed or timed out. Holds the
    /// transport's description.
    TransportError(String),
    /// An answer came, but its body was not a login response. Holds the
    /// decoder's description.
    DecodeError(String),
}

/// What a `LoginOutcome` holds, as values of specifications.
pub enum OutcomeView {
    Answered(ResponseView),
    TransportError(Seq<char>),
    DecodeError(Seq<char>),
}

impl View for LoginOutcome {
    type V = OutcomeView;

    open spec fn view(&self) -> OutcomeView {
        match self {
            LoginOutcome::Answered(response) => OutcomeView::Answered(response@),
            LoginOutcome::TransportError(message) => OutcomeView::TransportError(message@),
            LoginOutcome::DecodeError(message) => OutcomeView::DecodeError(message@),
        }
    }
}

/// Why the last login that completed did not succeed.
#[derive(Debug, Clone, PartialEq, Eq)]
pub enum LoginError {
    /// No answer came. Holds the transport's description.
    Transport(String),
    /// The answer could not be decoded. Holds the decoder's description.
    Decode(String),
    /// The server answered without a token. Holds the server's message, if
    /// it sent one.
    Auth(Option<String>),
}

/// What a `LoginError` holds, as values of specifications.
pub enum ErrorView {
    Transport(Seq<char>),
    Decode(Seq<char>),
    Auth(Option<Seq<char>>),
}

impl View for LoginError {
    type V = ErrorView;

    open spec fn view(&self) -> ErrorView {
        match self {
            LoginError::Transport(message) => ErrorView::Transport(message@),
            LoginError::Decode(message) => ErrorView::Decode(message@),
            LoginError::Auth(message) => ErrorView::Auth(message.deep_view()),
        }
    }
}

impl DeepView for LoginError {
    type V = ErrorView;

    open spec fn deep_view(&self) -> ErrorView {
        self@
    }
}

/// The state of a login flow, as values of specifications.
pub struct FlowView {
    /// The token in the cell.
    pub token: Seq<char>,
    /// The number of the latest request; 0 before the first submit.
    pub latest: nat,
    /// Whether the latest request is still outstanding.
    pub pending: bool,
    /// Why the last request that completed failed, if it did.
    pub error: Option<ErrorView>,
}

/// The state before the first submit: no token, no request, no error.
pub open spec fn initial() -> FlowView {
    FlowView { token: Seq::empty(), latest: 0, pending: false, error: None }
}

/// The state after a submit: a new request, numbered one above the latest,
/// is outstanding. Token and error stay.
pub open spec fn submitted(state: FlowView) -> FlowView {
    FlowView { latest: state.latest + 1, pending: true, ..state }
}

/// Whether the outcome of request `request` is applied in `state`: only if
/// it is the latest request and still outstanding.
pub open spec fn commits(state: FlowView, request: nat) -> bool {
    state.pending && request == state.latest
}

/// The state after the outcome of the outstanding request was applied.
///
/// An answer with a token stores the token and clears the error. An answer
/// without one empties the cell and keeps the server's message. A failure of
/// the transport or of the decoder leaves the cell alone.
pub open spec fn applied(state: FlowView, outcome: OutcomeView) -> FlowView {
    match outcome {
        OutcomeView::Answered(response) => match response.token {
            Some(token) => FlowView {
                token: written(state.token, token),
                pending: false,
                error: None,
                ..state
            },
            None => FlowView {
                token: written(state.token, Seq::empty()),
                pending: false,
                error: Some(ErrorView::Auth(response.error)),
                ..state
            },
        },
        OutcomeView::TransportError(message) => FlowView {
            pending: false,
            error: Some(ErrorView::Transport(message)),
            ..state
        },
        OutcomeView::DecodeError(message) => FlowView {
            pending: false,
            error: Some(ErrorView::Decode(message)),
            ..state
        },
    }
}

/// The state after request `request` completed with `outcome`: the outcome
/// applied if it commits, the state unchanged if not.
pub open spec fn completed(state: FlowView, request: nat, outcome: OutcomeView) -> FlowView {
    if commits(state, request) {
        applied(state, outcome)
    } else {
        state
    }
}

/// A request that `submit` handed out, with the number under which its
/// outcome is to be reported.
#[derive(Debug)]
pub struct Submission {
    pub id: u64,
    pub request: HttpRequest,
}

/// The login flow: the token cell, the number of the latest request, and
/// the error of the last request that completed.
#[derive(Debug)]
pub struct LoginFlow {
    cell: TokenCell,
    latest: u64,
    pending: bool,
    error: Option<LoginError>,
}

impl View for LoginFlow {
    type V = FlowView;

    closed spec fn view(&self) -> FlowView {
        FlowView {
            token: self.cell@,
            latest: self.latest as nat,
            pending: self.pending,
            error: self.error.deep_view(),
        }
    }
}

/// What the caller of a login is told: the server's answer as it came, or,
/// where no answer could be had, the failure's description as the error and
/// no token.
pub open spec fn reported(outcome: OutcomeView) -> ResponseView {
    match outcome {
        OutcomeView::Answered(response) => response,
        OutcomeView::TransportError(message) => ResponseView {
            error: Some(message),
            token: None,
        },
        OutcomeView::DecodeError(message) => ResponseView { error: Some(message), token: None },
    }
}

impl LoginOutcome {
    /// The outcome in the shape of a login response: a failure of the
    /// transport or of the decoder becomes a response with the failure's
    /// description as its error and without a token.
    pub fn into_response(self) -> (response: LoginResponse)
        ensures
            response@ == reported(self@),
    {
        match self {
            LoginOutcome::Answered(response) => response,
            LoginOutcome::TransportError(message) => LoginResponse {
                error: Some(message),
                token: None,
            },
            LoginOutcome::DecodeError(message) => LoginResponse {
                error: Some(message),
                token: None,
            },
        }
    }
}

impl LoginFlow {
    /// A flow in its initial state: the cell empty, no request sent.
    pub fn new() -> (flow: LoginFlow)
        ensures
            flow@ == initial(),
    {
        LoginFlow { cell: TokenCell::new(), latest: 0, pending: false, error: None }
    }

    /// Starts a login with `email` and `password` at `client`'s server.
    ///
    /// Returns the request to send and the number under which to report its
    /// outcome. A request that is still outstanding is superseded: its
    /// outcome will be dropped. Token and error stay as they are until an
    /// outcome is applied.
    ///
    /// Returns `None`, and changes nothing, only when the request numbers
    /// are used up.
    pub fn submit(&mut self, client: &NextAPIClient, email: &str, password: &str) -> (submission:
        Option<Submission>)
        ensures
            old(self)@.latest < u64::MAX ==> {
                &&& final(self)@ == submitted(old(self)@)
                &&& submission is Some
                &&& submission->0.id == final(self)@.latest
                &&& submission->0.request@ == login_post(
                    client.url@,
                    json_object_text(login_members(email@, password@)),
                )
            },
            old(self)@.latest >= u64::MAX ==> submission is None && final(self)@ == old(self)@,
    {
        if self.latest == u64::MAX {
            return None;
        }
        let request = client.login(email, password);
        self.latest = self.latest + 1;
        self.pending = true;
        Some(Submission { id: self.latest, request })
    }

    /// Reports that request `request` ended with `outcome`.
    ///
    /// The outcome is applied if `request` is the latest request and still
    /// outstanding; the result is then `true`. Any other outcome, such as
    /// the late answer to a superseded request, is dropped: the flow stays
    /// as it is and the result is `false`.
    pub fn on_response(&mut self, request: u64, outcome: LoginOutcome) -> (committed: bool)
        ensures
            committed == commits(old(self)@, request as nat),
            final(self)@ == completed(old(self)@, request as nat, outcome@),
    {
        if !self.pending || request != self.latest {
            return false;
        }
        self.pending = false;
        match outcome {
            LoginOutcome::Answered(response) => match response.token {
                Some(token) => {
                    self.cell.write(token);
                    self.error = None;
                },
                None => {
                    self.cell.write(String::new());
                    self.error = Some(LoginError::Auth(response.error));
                },
            },
            LoginOutcome::TransportError(message) => {
                self.error = Some(LoginError::Transport(message));
            },
            LoginOutcome::DecodeError(message) => {
                self.error = Some(LoginError::Decode(message));
            },
        }
        true
    }

    /// The cell that holds the token.
    pub fn cell(&self) -> (cell: &TokenCell)
        ensures
            cell@ == self@.token,
    {
        &self.cell
    }

    /// A copy of the token in the cell.
    pub fn token(&self) -> (token: String)
        ensures
            token@ == self@.token,
    {
        self.cell.read()
    }

    /// Whether the cell holds a session.
    pub fn is_authenticated(&self) -> (authenticated: bool)
        ensures
            authenticated == (self@.token.len() > 0),
    {
        self.cell.is_authenticated()
    }

    /// Whether the latest request is still outstanding.
    pub fn is_pending(&self) -> (pending: bool)
        ensures
            pending == self@.pending,
    {
        self.pending
    }

    /// The number of the latest request; 0 before the first submit.
    pub fn latest_request(&self) -> (latest: u64)
        ensures
            latest == self@.latest,
    {
        self.latest
    }

    /// Why the last request that completed failed; `None` if it succeeded
    /// or none has completed yet.
    pub fn error(&self) -> (error: &Option<LoginError>)
        ensures
            error.deep_view() == self@.error,
    {
        &self.error
    }
}

/// A submit followed by an answer to it that carries a token leaves that
/// token in the cell, whatever the state was before and whatever else the
/// answer holds.
pub proof fn lemma_answer_with_token_is_stored(
    state: FlowView,
    token: Seq<char>,
    error: Option<Seq<char>>,
)
    ensures
        completed(
            submitted(state),
            submitted(state).latest,
            OutcomeView::Answered(ResponseView { error, token: Some(token) }),
        ).token == token,
{
}

/// A submit followed by an answer to it that carries no token leaves the
/// cell empty, whatever the state was before and whatever error the answer
/// names.
pub proof fn lemma_answer_without_token_empties_cell(state: FlowView, error: Option<Seq<char>>)
    ensures
        completed(
            submitted(state),
            submitted(state).latest,
            OutcomeView::Answered(ResponseView { error, token: None }),
        ).token == Seq::<char>::empty(),
{
}

/// A request that failed before an answer could be read, in the transport
/// or in the decoder, leaves the token as it was and is kept as the error.
pub proof fn lemma_failure_keeps_token(state: FlowView, request: nat, message: Seq<char>)
    ensures
        completed(state, request, OutcomeView::TransportError(message)).token == state.token,
        completed(state, request, OutcomeView::DecodeError(message)).token == state.token,
        commits(state, request) ==> completed(
            state,
            request,
            OutcomeView::TransportError(message),
        ).error == Some(ErrorView::Transport(message)),
        commits(state, request) ==> completed(
            state,
            request,
            OutcomeView::DecodeError(message),
        ).error == Some(ErrorView::Decode(message)),
{
}

/// An outcome reported under any number but that of the latest outstanding
/// request changes nothing.
pub proof fn lemma_stale_outcome_is_dropped(state: FlowView, request: nat, outcome: OutcomeView)
    requires
        !state.pending || request != state.latest,
    ensures
        completed(state, request, outcome) == state,
{
}

/// The late answer to a superseded request does not overwrite the token
/// that a more recent request has set: after two submits, once the second
/// request has stored its token, no outcome of the first changes the state.
pub proof fn lemma_late_answer_keeps_newer_token(
    state: FlowView,
    token: Seq<char>,
    error: Option<Seq<char>>,
    late: OutcomeView,
)
    ensures
        ({
            let first = submitted(state);
            let second = submitted(first);
            let done = completed(
                second,
                second.latest,
                OutcomeView::Answered(ResponseView { error, token: Some(token) }),
            );
            &&& done.token == token
            &&& completed(done, first.latest, late) == done
            &&& completed(second, first.latest, late) == second
        }),
{
}

} // verus!
