//! The course of a chat request through the proxy: choose an account, make
//! sure that its token is fresh, pass the request on, and once, where the
//! account is refused, refresh the token and try again.
//!
//! The proxy performs the actions and reports the events; the decisions
//! between them are taken here.

use vstd::prelude::*;
use vstd::string::*;

use crate::json::{tree_in, Json, JsonView};
use crate::model::{parse_model, parsed_model};
use crate::reply::{is_success, openai_error, openai_reply, Reply, ReplyView};
use crate::text::joined;
use crate::upstream::{chat_address, chat_request, headers_for, UpstreamRequest};
use crate::variant::{variant_of, WbVariant};

verus! {

/// The header in which a client names the session that a request belongs to.
pub const SESSION_HEADER: &'static str = "X-Conversation-ID";

/// What a chat request waits for.
pub enum ChatState {
    /// An account for the request.
    Selecting { body: Json },
    /// The account with a token that is fresh.
    Freshening { body: Json },
    /// The upstream answer.
    Sending { account: Json, body: Json },
    /// The account with a new token, after the upstream site refused the old one.
    Refreshing { account: Json, body: Json, status: u16 },
    /// The upstream answer to the second try.
    Resending { account: Json },
    /// Nothing: the client has its answer.
    Done,
}

/// What happened to an action.
pub enum ChatEvent {
    /// The account that was chosen, if there is one.
    Selected(Option<Json>),
    /// The account after its token was checked.
    Fresh(Json),
    /// The upstream site answered.
    Answered(u16),
    /// The request did not reach the upstream site, or the answer was lost.
    Failed(String),
    /// The account after the attempt to give it a new token.
    Refreshed(Json),
}

/// What is to be done for a chat request.
pub enum ChatAction {
    /// Choose an account of the site, the same one for the same session.
    Select { site: Option<WbVariant>, session_key: Option<String> },
    /// Renew the token of the account if it is about to expire.
    Freshen { account: Json },
    /// Send the request to the upstream site.
    Send { request: UpstreamRequest, body: Json },
    /// Renew the token of the account.
    Refresh { account: Json },
    /// Answer the client.
    Answer { reply: Reply },
    /// Note the result for the account, if there is one to note, and pass the
    /// last upstream answer on to the client.
    Forward { record: Option<Record> },
}

/// The result of a request for the account in whose name it went out.
pub struct Record {
    pub account: Json,
    pub failed: bool,
}

pub enum ChatStateView {
    Selecting { body: JsonView },
    Freshening { body: JsonView },
    Sending { account: JsonView, body: JsonView },
    Refreshing { account: JsonView, body: JsonView, status: u16 },
    Resending { account: JsonView },
    Done,
}

pub enum ChatEventView {
    Selected(Option<JsonView>),
    Fresh(JsonView),
    Answered(u16),
    Failed(Seq<char>),
    Refreshed(JsonView),
}

pub enum ChatActionView {
    Select { site: Option<WbVariant>, session_key: Option<Seq<char>> },
    Freshen { account: JsonView },
    Send { url: Seq<char>, headers: Map<Seq<char>, Seq<char>>, body: JsonView },
    Refresh { account: JsonView },
    Answer { reply: ReplyView },
    Forward { record: Option<RecordView> },
}

pub struct RecordView {
    pub account: JsonView,
    pub failed: bool,
}

impl View for ChatState {
    type V = ChatStateView;

    open spec fn view(&self) -> ChatStateView {
        match *self {
            ChatState::Selecting { body } => ChatStateView::Selecting { body: body@ },
            ChatState::Freshening { body } => ChatStateView::Freshening { body: body@ },
            ChatState::Sending { account, body } => ChatStateView::Sending {
                account: account@,
                body: body@,
            },
            ChatState::Refreshing { account, body, status } => ChatStateView::Refreshing {
                account: account@,
                body: body@,
                status,
            },
            ChatState::Resending { account } => ChatStateView::Resending { account: account@ },
            ChatState::Done => ChatStateView::Done,
        }
    }
}

impl View for ChatEvent {
    type V = ChatEventView;

    open spec fn view(&self) -> ChatEventView {
        match *self {
            ChatEvent::Selected(account) => ChatEventView::Selected(tree_in(account)),
            ChatEvent::Fresh(account) => ChatEventView::Fresh(account@),
            ChatEvent::Answered(status) => ChatEventView::Answered(status),
            ChatEvent::Failed(message) => ChatEventView::Failed(message@),
            ChatEvent::Refreshed(account) => ChatEventView::Refreshed(account@),
        }
    }
}

impl View for ChatAction {
    type V = ChatActionView;

    open spec fn view(&self) -> ChatActionView {
        match *self {
            ChatAction::Select { site, session_key } => ChatActionView::Select {
                site,
                session_key: match session_key {
                    Some(key) => Some(key@),
                    None => None,
                },
            },
            ChatAction::Freshen { account } => ChatActionView::Freshen { account: account@ },
            ChatAction::Send { request, body } => ChatActionView::Send {
                url: request.url@,
                headers: request.headers@,
                body: body@,
            },
            ChatAction::Refresh { account } => ChatActionView::Refresh { account: account@ },
            ChatAction::Answer { reply } => ChatActionView::Answer { reply: reply@ },
            ChatAction::Forward { record } => ChatActionView::Forward {
                record: match record {
                    Some(r) => Some(RecordView { account: r.account@, failed: r.failed }),
                    None => None,
                },
            },
        }
    }
}

/// A state together with what is to be done in it.
pub struct ChatStep {
    pub state: ChatState,
    pub action: ChatAction,
}

pub struct ChatStepView {
    pub state: ChatStateView,
    pub action: ChatActionView,
}

impl View for ChatStep {
    type V = ChatStepView;

    open spec fn view(&self) -> ChatStepView {
        ChatStepView { state: self.state@, action: self.action@ }
    }
}

/// Whether an upstream status says that the account was refused.
pub open spec fn refuses_account(status: u16) -> bool {
    status == 401 || status == 403
}

/// The model that a chat request names.
pub open spec fn asked_model(body: JsonView) -> Seq<char> {
    match body.text_at("model"@) {
        Some(model) => model,
        None => Seq::empty(),
    }
}

/// The end of a request with an error.
pub open spec fn ends_with_error(message: Seq<char>, status: u16, kind: Seq<char>) -> ChatStepView {
    ChatStepView {
        state: ChatStateView::Done,
        action: ChatActionView::Answer { reply: openai_reply(message, status, kind) },
    }
}

/// The end of a request with the upstream answer. That the account was refused
/// and that the request succeeded are noted for the account, nothing else is.
pub open spec fn ends_with_answer(account: JsonView, status: u16) -> ChatStepView {
    ChatStepView {
        state: ChatStateView::Done,
        action: ChatActionView::Forward {
            record: if refuses_account(status) {
                Some(RecordView { account, failed: true })
            } else if is_success(status) {
                Some(RecordView { account, failed: false })
            } else {
                None
            },
        },
    }
}

/// The action that passes a request on in the name of `account`.
pub open spec fn sends(account: JsonView, body: JsonView) -> ChatActionView {
    ChatActionView::Send {
        url: chat_address(variant_of(account)),
        headers: headers_for(account),
        body,
    }
}

/// How a chat request begins.
pub open spec fn chat_begins(
    enabled: bool,
    body: JsonView,
    session_key: Option<Seq<char>>,
) -> ChatStepView {
    if !enabled {
        ends_with_error("2API 代理未开启"@, 404, "proxy_disabled"@)
    } else {
        match parsed_model(asked_model(body)) {
            Err(message) => ends_with_error(message, 400, "invalid_request_error"@),
            Ok(request) => ChatStepView {
                state: ChatStateView::Selecting {
                    body: body.with("model"@, JsonView::Str(request.model)),
                },
                action: ChatActionView::Select { site: request.site, session_key },
            },
        }
    }
}

/// Whether `event` answers what `state` waits for.
pub open spec fn expects(state: ChatStateView, event: ChatEventView) -> bool {
    match state {
        ChatStateView::Selecting { .. } => event is Selected,
        ChatStateView::Freshening { .. } => event is Fresh,
        ChatStateView::Sending { .. } => event is Answered || event is Failed,
        ChatStateView::Refreshing { .. } => event is Refreshed,
        ChatStateView::Resending { .. } => event is Answered || event is Failed,
        ChatStateView::Done => false,
    }
}

/// How a chat request goes on after `event`.
pub open spec fn chat_goes_on(state: ChatStateView, event: ChatEventView) -> ChatStepView
    recommends
        expects(state, event),
{
    match (state, event) {
        (ChatStateView::Selecting { .. }, ChatEventView::Selected(None)) => ends_with_error(
            "没有可用账号：请先在账号页添加账号"@,
            502,
            "no_account"@,
        ),
        (ChatStateView::Selecting { body }, ChatEventView::Selected(Some(account))) => ChatStepView {
            state: ChatStateView::Freshening { body },
            action: ChatActionView::Freshen { account },
        },
        (ChatStateView::Freshening { body }, ChatEventView::Fresh(account)) => ChatStepView {
            state: ChatStateView::Sending { account, body },
            action: sends(account, body),
        },
        (ChatStateView::Sending { account, body }, ChatEventView::Answered(status)) => {
            if refuses_account(status) {
                ChatStepView {
                    state: ChatStateView::Refreshing { account, body, status },
                    action: ChatActionView::Refresh { account },
                }
            } else {
                ends_with_answer(account, status)
            }
        },
        (
            ChatStateView::Refreshing { account, body, status },
            ChatEventView::Refreshed(refreshed),
        ) => {
            if refreshed.flag_at("needs_relogin"@) == Some(true) {
                ends_with_answer(account, status)
            } else {
                ChatStepView {
                    state: ChatStateView::Resending { account: refreshed },
                    action: sends(refreshed, body),
                }
            }
        },
        (ChatStateView::Resending { account }, ChatEventView::Answered(status)) => ends_with_answer(
            account,
            status,
        ),
        (_, ChatEventView::Failed(message)) => ends_with_error(
            "上游请求失败: "@ + message,
            502,
            "upstream_error"@,
        ),
        // No other event answers what the state waits for.
        _ => ChatStepView {
            state: ChatStateView::Done,
            action: ChatActionView::Forward { record: None },
        },
    }
}

fn error_step(message: &str, status: u16, kind: &str) -> (r: ChatStep)
    ensures
        r@ == ends_with_error(message@, status, kind@),
{
    ChatStep {
        state: ChatState::Done,
        action: ChatAction::Answer { reply: openai_error(message, status, kind) },
    }
}

fn account_refused(status: u16) -> (r: bool)
    ensures
        r == refuses_account(status),
{
    status == 401 || status == 403
}

fn answer_step(account: Json, status: u16) -> (r: ChatStep)
    ensures
        r@ == ends_with_answer(account@, status),
{
    let record = if account_refused(status) {
        Some(Record { account, failed: true })
    } else if 200 <= status && status < 300 {
        Some(Record { account, failed: false })
    } else {
        None
    };
    ChatStep { state: ChatState::Done, action: ChatAction::Forward { record } }
}

fn send_action(account: &Json, body: Json) -> (r: ChatAction)
    ensures
        r@ == sends(account@, body@),
{
    ChatAction::Send { request: chat_request(account), body }
}

/// Begins a chat request: refused where the proxy is off or the model is none,
/// else passed on with the bare name of the model.
pub fn begin_chat(enabled: bool, body: Json, session_key: Option<String>) -> (r: ChatStep)
    ensures
        r@ == chat_begins(
            enabled,
            body@,
            match session_key {
                Some(key) => Some(key@),
                None => None,
            },
        ),
{
    if !enabled {
        return error_step("2API 代理未开启", 404, "proxy_disabled");
    }
    let model = match body.get_str("model") {
        Some(model) => model,
        None => "",
    };
    proof {
        reveal_strlit("");
        assert(""@ =~= Seq::<char>::empty());
    }
    match parse_model(model) {
        Ok(request) => {
            proof {
                lemma_named_model_is_member(body@);
            }
            let upstream_body = body.with("model", Json::str(request.upstream_model()));
            ChatStep {
                state: ChatState::Selecting { body: upstream_body },
                action: ChatAction::Select { site: request.site, session_key },
            }
        },
        Err(message) => error_step(message.as_str(), 400, "invalid_request_error"),
    }
}

/// A body that names a model is an object.
proof fn lemma_named_model_is_member(body: JsonView)
    requires
        parsed_model(asked_model(body)) is Ok,
    ensures
        body is Object,
        body.text_at("model"@) is Some,
{
}

/// Tells whether `event` answers what `state` waits for.
pub fn awaits(state: &ChatState, event: &ChatEvent) -> (r: bool)
    ensures
        r == expects(state@, event@),
{
    match (state, event) {
        (ChatState::Selecting { .. }, ChatEvent::Selected(_)) => true,
        (ChatState::Freshening { .. }, ChatEvent::Fresh(_)) => true,
        (ChatState::Sending { .. }, ChatEvent::Answered(_)) => true,
        (ChatState::Sending { .. }, ChatEvent::Failed(_)) => true,
        (ChatState::Refreshing { .. }, ChatEvent::Refreshed(_)) => true,
        (ChatState::Resending { .. }, ChatEvent::Answered(_)) => true,
        (ChatState::Resending { .. }, ChatEvent::Failed(_)) => true,
        _ => false,
    }
}

/// Goes on with a chat request after `event`.
pub fn continue_chat(state: ChatState, event: ChatEvent) -> (r: ChatStep)
    requires
        expects(state@, event@),
    ensures
        r@ == chat_goes_on(state@, event@),
{
    match (state, event) {
        (ChatState::Selecting { .. }, ChatEvent::Selected(None)) => error_step(
            "没有可用账号：请先在账号页添加账号",
            502,
            "no_account",
        ),
        (ChatState::Selecting { body }, ChatEvent::Selected(Some(account))) => ChatStep {
            state: ChatState::Freshening { body },
            action: ChatAction::Freshen { account },
        },
        (ChatState::Freshening { body }, ChatEvent::Fresh(account)) => {
            let action = send_action(&account, body.clone());
            ChatStep { state: ChatState::Sending { account, body }, action }
        },
        (ChatState::Sending { account, body }, ChatEvent::Answered(status)) => {
            if account_refused(status) {
                let action = ChatAction::Refresh { account: account.clone() };
                ChatStep { state: ChatState::Refreshing { account, body, status }, action }
            } else {
                answer_step(account, status)
            }
        },
        (ChatState::Refreshing { account, body, status }, ChatEvent::Refreshed(refreshed)) => {
            let relogin = match refreshed.get_bool("needs_relogin") {
                Some(needed) => needed,
                None => false,
            };
            if relogin {
                answer_step(account, status)
            } else {
                let action = send_action(&refreshed, body);
                ChatStep { state: ChatState::Resending { account: refreshed }, action }
            }
        },
        (ChatState::Resending { account }, ChatEvent::Answered(status)) => answer_step(
            account,
            status,
        ),
        (_, ChatEvent::Failed(message)) => error_step(
            joined("上游请求失败: ", message.as_str()).as_str(),
            502,
            "upstream_error",
        ),
        // No other event answers what the state waits for.
        _ => ChatStep { state: ChatState::Done, action: ChatAction::Forward { record: None } },
    }
}

} // verus!
