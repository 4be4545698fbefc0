//! The steps of scoring one e-mail: sign in to the account's IMAP server,
//! open the inbox, fetch the message, have its text analysed, sign out, and
//! answer with the message's id and body.
//!
//! The caller performs each action that `InboxFlow` hands out and reports
//! back what came of it as an `InboxEvent`; the flow decides the next action.

use vstd::prelude::*;
use vstd::utf8::*;
use crate::model::User;
use crate::oauth::GmailOAuth2;
use crate::text::{analysis_bytes, analysis_text, cuts_cleanly, decimal_usize, decode_text, parse_usize};

verus! {

broadcast use vstd::utf8::group_utf8_lib;

/// Where a flow stands: which report it waits for, or that it is over.
#[derive(PartialEq, Eq, Structural, Clone, Copy)]
pub enum Stage {
    AwaitLogin,
    AwaitSelect,
    AwaitFetch,
    AwaitAnalysis,
    AwaitLogout,
    Finished,
}

/// Why a flow gave up.
#[derive(PartialEq, Eq, Structural, Clone, Copy)]
pub enum InboxFailure {
    /// No user is stored, so there is no access token to sign in with.
    NoUser,
    /// The IMAP server refused the sign-in.
    LoginRefused,
    /// The server sent no body for the message.
    NoBody,
    /// The body is not UTF-8.
    NotUtf8,
    /// The byte budget of the analysis falls inside a character.
    SplitsCharacter,
    /// The analysis came back without a complete score.
    NoSentiment,
    /// Signing out failed.
    LogoutFailed,
    /// The message id is not a decimal number that fits a `usize`.
    BadMessageId,
    /// A report came that the flow was not waiting for.
    OutOfOrder,
}

/// What the caller reports after performing an action.
pub enum InboxEvent {
    /// Whether the sign-in succeeded.
    LoggedIn(bool),
    /// The mailbox was selected (whatever the server answered).
    Selected,
    /// The body of the fetched message, if the server sent one.
    Fetched(Option<Vec<u8>>),
    /// Whether the analysis returned a complete sentiment score.
    Analyzed(bool),
    /// Whether signing out succeeded.
    LoggedOut(bool),
}

/// What the flow asks the caller to do next.
pub enum InboxAction {
    /// Open a session and authenticate with these XOAUTH2 credentials.
    Login(GmailOAuth2),
    /// Select the mailbox of this name.
    Select(&'static str),
    /// Fetch the messages `sequence` with the data items `query`.
    Fetch { sequence: String, query: &'static str },
    /// Have this text analysed for sentiment.
    Analyze(String),
    /// Sign out of the session.
    Logout,
    /// Answer with the message id `id` and the message body `body`.
    Reply { id: usize, body: String },
    /// Give up.
    Abort(InboxFailure),
}

/// The flow of one request: the account, the id of the message to score,
/// the stage, and the message body once it has been fetched.
pub struct InboxFlow {
    email: String,
    message_id: String,
    stage: Stage,
    body: String,
}

/// An `InboxFlow` as plain values.
pub struct InboxFlowView {
    pub email: Seq<char>,
    pub message_id: Seq<char>,
    pub stage: Stage,
    pub body: Seq<char>,
}

/// An `InboxEvent` as plain values.
pub enum InboxEventView {
    LoggedIn(bool),
    Selected,
    Fetched(Option<Seq<u8>>),
    Analyzed(bool),
    LoggedOut(bool),
}

/// An `InboxAction` as plain values.
pub enum InboxActionView {
    Login { user: Seq<char>, token: Seq<char> },
    Select(Seq<char>),
    Fetch { sequence: Seq<char>, query: Seq<char> },
    Analyze(Seq<char>),
    Logout,
    Reply { id: usize, body: Seq<char> },
    Abort(InboxFailure),
}

impl View for InboxFlow {
    type V = InboxFlowView;

    closed spec fn view(&self) -> InboxFlowView {
        InboxFlowView {
            email: self.email@,
            message_id: self.message_id@,
            stage: self.stage,
            body: self.body@,
        }
    }
}

impl View for InboxEvent {
    type V = InboxEventView;

    open spec fn view(&self) -> InboxEventView {
        match self {
            InboxEvent::LoggedIn(ok) => InboxEventView::LoggedIn(*ok),
            InboxEvent::Selected => InboxEventView::Selected,
            InboxEvent::Fetched(body) => InboxEventView::Fetched(
                match body {
                    Some(b) => Some(b@),
                    None => None,
                },
            ),
            InboxEvent::Analyzed(ok) => InboxEventView::Analyzed(*ok),
            InboxEvent::LoggedOut(ok) => InboxEventView::LoggedOut(*ok),
        }
    }
}

impl View for InboxAction {
    type V = InboxActionView;

    open spec fn view(&self) -> InboxActionView {
        match self {
            InboxAction::Login(auth) => InboxActionView::Login {
                user: auth.user@,
                token: auth.access_token@,
            },
            InboxAction::Select(mailbox) => InboxActionView::Select(mailbox@),
            InboxAction::Fetch { sequence, query } => InboxActionView::Fetch {
                sequence: sequence@,
                query: query@,
            },
            InboxAction::Analyze(text) => InboxActionView::Analyze(text@),
            InboxAction::Logout => InboxActionView::Logout,
            InboxAction::Reply { id, body } => InboxActionView::Reply { id: *id, body: body@ },
            InboxAction::Abort(why) => InboxActionView::Abort(*why),
        }
    }
}

/// The mailbox the message is looked up in.
pub open spec fn inbox_name() -> Seq<char> {
    "INBOX"@
}

/// The IMAP data item that fetches a whole message.
pub open spec fn fetch_query() -> Seq<char> {
    "RFC822"@
}

/// `f` in stage `stage`, and otherwise unchanged.
pub open spec fn at_stage(f: InboxFlowView, stage: Stage) -> InboxFlowView {
    InboxFlowView { stage, ..f }
}

/// `f` given up for the reason `why`.
pub open spec fn give_up(f: InboxFlowView, why: InboxFailure) -> (InboxFlowView, InboxActionView) {
    (at_stage(f, Stage::Finished), InboxActionView::Abort(why))
}

/// How a flow for the account `email` and the message `message_id` starts,
/// given the access token of the first stored user, if there is one.
pub open spec fn start_spec(email: Seq<char>, message_id: Seq<char>, token: Option<Seq<char>>) -> (
    InboxFlowView,
    InboxActionView,
) {
    let f = InboxFlowView { email, message_id, stage: Stage::AwaitLogin, body: Seq::empty() };
    match token {
        Some(t) => (f, InboxActionView::Login { user: email, token: t }),
        None => give_up(f, InboxFailure::NoUser),
    }
}

/// How a flow `f` moves on when the caller reports `e`.
pub open spec fn step_spec(f: InboxFlowView, e: InboxEventView) -> (InboxFlowView, InboxActionView) {
    match (f.stage, e) {
        (Stage::AwaitLogin, InboxEventView::LoggedIn(ok)) => if ok {
            (at_stage(f, Stage::AwaitSelect), InboxActionView::Select(inbox_name()))
        } else {
            give_up(f, InboxFailure::LoginRefused)
        },
        (Stage::AwaitSelect, InboxEventView::Selected) => (
            at_stage(f, Stage::AwaitFetch),
            InboxActionView::Fetch { sequence: f.message_id, query: fetch_query() },
        ),
        (Stage::AwaitFetch, InboxEventView::Fetched(body)) => match body {
            None => give_up(f, InboxFailure::NoBody),
            Some(raw) => if !valid_utf8(raw) {
                give_up(f, InboxFailure::NotUtf8)
            } else if !cuts_cleanly(raw) {
                give_up(f, InboxFailure::SplitsCharacter)
            } else {
                (
                    InboxFlowView { stage: Stage::AwaitAnalysis, body: decode_utf8(raw), ..f },
                    InboxActionView::Analyze(decode_utf8(analysis_bytes(raw))),
                )
            },
        },
        (Stage::AwaitAnalysis, InboxEventView::Analyzed(ok)) => if ok {
            (at_stage(f, Stage::AwaitLogout), InboxActionView::Logout)
        } else {
            give_up(f, InboxFailure::NoSentiment)
        },
        (Stage::AwaitLogout, InboxEventView::LoggedOut(ok)) => if !ok {
            give_up(f, InboxFailure::LogoutFailed)
        } else {
            match decimal_usize(encode_utf8(f.message_id)) {
                Some(id) => (
                    at_stage(f, Stage::Finished),
                    InboxActionView::Reply { id, body: f.body },
                ),
                None => give_up(f, InboxFailure::BadMessageId),
            }
        },
        _ => give_up(f, InboxFailure::OutOfOrder),
    }
}

impl InboxFlow {
    /// Starts scoring the message `message_id` of the account `email`, signing
    /// in with the access token of the first of the stored `users`.
    pub fn start(email: String, message_id: String, users: &Vec<User>) -> (res: (InboxFlow, InboxAction))
        ensures
            (res.0@, res.1@) == start_spec(
                email@,
                message_id@,
                if users@.len() > 0 { Some(users@[0].access_token@) } else { None },
            ),
    {
        let has_user = users.len() > 0;
        let login = if has_user {
            InboxAction::Login(
                GmailOAuth2 { user: email.clone(), access_token: users[0].access_token.clone() },
            )
        } else {
            InboxAction::Abort(InboxFailure::NoUser)
        };
        let flow = InboxFlow {
            email,
            message_id,
            stage: if has_user { Stage::AwaitLogin } else { Stage::Finished },
            body: String::new(),
        };
        (flow, login)
    }

    /// The stage the flow is in.
    pub fn stage(&self) -> (stage: Stage)
        ensures
            stage == self@.stage,
    {
        self.stage
    }

    fn give_up(&mut self, why: InboxFailure) -> (act: InboxAction)
        ensures
            (final(self)@, act@) == give_up(old(self)@, why),
    {
        self.stage = Stage::Finished;
        InboxAction::Abort(why)
    }

    /// Takes in the caller's report `event` and hands out the next action.
    pub fn step(&mut self, event: InboxEvent) -> (act: InboxAction)
        ensures
            (final(self)@, act@) == step_spec(old(self)@, event@),
    {
        match (self.stage, event) {
            (Stage::AwaitLogin, InboxEvent::LoggedIn(ok)) => {
                if ok {
                    self.stage = Stage::AwaitSelect;
                    InboxAction::Select("INBOX")
                } else {
                    self.give_up(InboxFailure::LoginRefused)
                }
            },
            (Stage::AwaitSelect, InboxEvent::Selected) => {
                self.stage = Stage::AwaitFetch;
                InboxAction::Fetch { sequence: self.message_id.clone(), query: "RFC822" }
            },
            (Stage::AwaitFetch, InboxEvent::Fetched(body)) => {
                match body {
                    None => self.give_up(InboxFailure::NoBody),
                    Some(raw) => {
                        match decode_text(raw.as_slice()) {
                            None => self.give_up(InboxFailure::NotUtf8),
                            Some(text) => {
                                proof {
                                    assert(encode_utf8(decode_utf8(raw@)) == raw@);
                                }
                                match analysis_text(text.as_str()) {
                                    None => self.give_up(InboxFailure::SplitsCharacter),
                                    Some(part) => {
                                        let part = part.to_owned();
                                        self.stage = Stage::AwaitAnalysis;
                                        self.body = text;
                                        InboxAction::Analyze(part)
                                    },
                                }
                            },
                        }
                    },
                }
            },
            (Stage::AwaitAnalysis, InboxEvent::Analyzed(ok)) => {
                if ok {
                    self.stage = Stage::AwaitLogout;
                    InboxAction::Logout
                } else {
                    self.give_up(InboxFailure::NoSentiment)
                }
            },
            (Stage::AwaitLogout, InboxEvent::LoggedOut(ok)) => {
                if !ok {
                    self.give_up(InboxFailure::LogoutFailed)
                } else {
                    match parse_usize(self.message_id.as_str()) {
                        Some(id) => {
                            self.stage = Stage::Finished;
                            InboxAction::Reply { id, body: self.body.clone() }
                        },
                        None => self.give_up(InboxFailure::BadMessageId),
                    }
                }
            },
            _ => self.give_up(InboxFailure::OutOfOrder),
        }
    }
}

/// How far along a stage is: every report moves a flow that is not over
/// to a stage further along.
pub open spec fn progress(stage: Stage) -> nat {
    match stage {
        Stage::AwaitLogin => 0,
        Stage::AwaitSelect => 1,
        Stage::AwaitFetch => 2,
        Stage::AwaitAnalysis => 3,
        Stage::AwaitLogout => 4,
        Stage::Finished => 5,
    }
}

/// A flow that is not over moves strictly forward on every report, so a
/// flow hands out at most six actions before it is over.
pub proof fn law_every_report_moves_forward(f: InboxFlowView, e: InboxEventView)
    requires
        f.stage != Stage::Finished,
    ensures
        progress(step_spec(f, e).0.stage) > progress(f.stage),
{
}

/// A flow that is over stays over, and answers every report by giving up
/// with `OutOfOrder`.
pub proof fn law_finished_is_final(f: InboxFlowView, e: InboxEventView)
    requires
        f.stage == Stage::Finished,
    ensures
        step_spec(f, e).0 == f,
        step_spec(f, e).1 == InboxActionView::Abort(InboxFailure::OutOfOrder),
{
}

/// Giving up and answering both end the flow, and nothing else does.
pub proof fn law_only_abort_or_reply_ends(f: InboxFlowView, e: InboxEventView)
    ensures
        step_spec(f, e).0.stage == Stage::Finished <==> (step_spec(f, e).1 is Abort
            || step_spec(f, e).1 is Reply),
{
}

/// A step never changes the account or the message id the flow was started with.
pub proof fn law_request_is_kept(f: InboxFlowView, e: InboxEventView)
    ensures
        step_spec(f, e).0.email == f.email,
        step_spec(f, e).0.message_id == f.message_id,
{
}

/// The text sent for analysis is the start of the message: its UTF-8 bytes
/// are a prefix of the body's, at most `ANALYSIS_BYTES` long, and all of the
/// body when the body is shorter than that.
pub proof fn law_analysis_is_a_bounded_prefix(f: InboxFlowView, raw: Seq<u8>)
    requires
        f.stage == Stage::AwaitFetch,
        step_spec(f, InboxEventView::Fetched(Some(raw))).1 is Analyze,
    ensures
        ({
            let text = step_spec(f, InboxEventView::Fetched(Some(raw))).1->Analyze_0;
            let body = step_spec(f, InboxEventView::Fetched(Some(raw))).0.body;
            &&& encode_utf8(text).len() <= crate::text::ANALYSIS_BYTES
            &&& encode_utf8(body) == raw
            &&& encode_utf8(text) == raw.take(encode_utf8(text).len() as int)
            &&& raw.len() < crate::text::ANALYSIS_BYTES ==> text == body
        }),
{
    let b = analysis_bytes(raw);
    if raw.len() >= crate::text::ANALYSIS_BYTES {
        vstd::utf8::valid_utf8_split(raw, crate::text::ANALYSIS_BYTES as int);
        assert(raw.subrange(0, crate::text::ANALYSIS_BYTES as int) =~= b);
    }
    assert(raw.take(b.len() as int) =~= b);
}

/// A fetched UTF-8 body of 5000 bytes or more whose byte 5000 starts a
/// character is analysed on exactly its first 5000 bytes; a shorter one is
/// analysed whole; and the flow keeps the whole body for its answer.
pub proof fn law_fetch_analyses_the_first_5000_bytes(f: InboxFlowView, raw: Seq<u8>)
    requires
        f.stage == Stage::AwaitFetch,
        valid_utf8(raw),
    ensures
        ({
            let (g, a) = step_spec(f, InboxEventView::Fetched(Some(raw)));
            &&& raw.len() < 5000 ==> a == InboxActionView::Analyze(decode_utf8(raw))
            &&& raw.len() >= 5000 && is_char_boundary(raw, 5000) ==> a == InboxActionView::Analyze(
                decode_utf8(raw.take(5000)),
            ) && encode_utf8(a->Analyze_0) == raw.take(5000)
            &&& raw.len() >= 5000 && !is_char_boundary(raw, 5000) ==> a == InboxActionView::Abort(
                InboxFailure::SplitsCharacter,
            )
            &&& (a is Analyze ==> g.body == decode_utf8(raw) && g.stage == Stage::AwaitAnalysis)
        }),
{
    if raw.len() >= 5000 && is_char_boundary(raw, 5000) {
        vstd::utf8::valid_utf8_split(raw, 5000);
        assert(raw.subrange(0, 5000) =~= raw.take(5000));
    }
}

/// When sign-in, fetching, analysis and sign-out all succeed, the body is
/// UTF-8 that the byte budget cuts cleanly and the message id is a decimal
/// number, a flow hands out exactly: sign in as `email` with the first
/// user's `token`, select the inbox, fetch the message whole, analyse the
/// start of its text, sign out, and answer with the parsed id and the whole
/// body; and then it is over.
pub proof fn law_successful_run(
    email: Seq<char>,
    message_id: Seq<char>,
    token: Seq<char>,
    raw: Seq<u8>,
    id: usize,
)
    requires
        valid_utf8(raw),
        raw.len() < 5000 || is_char_boundary(raw, 5000),
        decimal_usize(encode_utf8(message_id)) == Some(id),
    ensures
        ({
            let (f0, a0) = start_spec(email, message_id, Some(token));
            let (f1, a1) = step_spec(f0, InboxEventView::LoggedIn(true));
            let (f2, a2) = step_spec(f1, InboxEventView::Selected);
            let (f3, a3) = step_spec(f2, InboxEventView::Fetched(Some(raw)));
            let (f4, a4) = step_spec(f3, InboxEventView::Analyzed(true));
            let (f5, a5) = step_spec(f4, InboxEventView::LoggedOut(true));
            &&& a0 == InboxActionView::Login { user: email, token }
            &&& a1 == InboxActionView::Select(inbox_name())
            &&& a2 == InboxActionView::Fetch { sequence: message_id, query: fetch_query() }
            &&& a3 == InboxActionView::Analyze(
                decode_utf8(if raw.len() < 5000 { raw } else { raw.take(5000) }),
            )
            &&& a4 == InboxActionView::Logout
            &&& a5 == InboxActionView::Reply { id, body: decode_utf8(raw) }
            &&& f5.stage == Stage::Finished
        }),
{
}

} // verus!
