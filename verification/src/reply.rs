//! Answers to clients.

use vstd::prelude::*;
use vstd::string::*;

use crate::json::{Json, JsonView};
use crate::text::text_of;

verus! {

/// A JSON answer with its HTTP status.
#[derive(Debug, PartialEq)]
pub struct Reply {
    pub status: u16,
    pub body: Json,
}

/// What a [`Reply`] says.
pub struct ReplyView {
    pub status: u16,
    pub body: JsonView,
}

impl View for Reply {
    type V = ReplyView;

    open spec fn view(&self) -> ReplyView {
        ReplyView { status: self.status, body: self.body@ }
    }
}

/// Whether an HTTP status reports success.
pub open spec fn is_success(status: u16) -> bool {
    200 <= status < 300
}

/// The answer `body`.
pub open spec fn ok_reply(body: JsonView) -> ReplyView {
    ReplyView { status: 200, body }
}

/// The answer that a request to the management interface failed.
pub open spec fn err_reply(message: Seq<char>, status: u16) -> ReplyView {
    ReplyView {
        status,
        body: JsonView::empty().with("ok"@, JsonView::Bool(false)).with(
            "error"@,
            JsonView::Str(message),
        ),
    }
}

/// The answer that a request to the OpenAI interface failed.
pub open spec fn openai_reply(message: Seq<char>, status: u16, kind: Seq<char>) -> ReplyView {
    ReplyView {
        status,
        body: JsonView::empty().with(
            "error"@,
            JsonView::empty().with("message"@, JsonView::Str(message)).with(
                "type"@,
                JsonView::Str(kind),
            ),
        ),
    }
}

/// What a finished operation is answered with.
pub open spec fn outcome_reply(outcome: Result<JsonView, Seq<char>>) -> ReplyView {
    match outcome {
        Ok(body) => ok_reply(body),
        Err(message) => err_reply(message, 400),
    }
}

/// What the outcome of an operation says.
pub open spec fn outcome_view(outcome: Result<Json, String>) -> Result<JsonView, Seq<char>> {
    match outcome {
        Ok(body) => Ok(body@),
        Err(message) => Err(message@),
    }
}

/// The answer `body`.
pub fn json_ok(body: Json) -> (r: Reply)
    ensures
        r@ == ok_reply(body@),
{
    Reply { status: 200, body }
}

/// The answer that a request to the management interface failed.
pub fn json_err(message: &str, status: u16) -> (r: Reply)
    ensures
        r@ == err_reply(message@, status),
{
    Reply {
        status,
        body: Json::object().with("ok", Json::Bool(false)).with("error", Json::str(message)),
    }
}

/// The answer to an operation that gives a body or a message: the message makes
/// it a bad request.
pub fn json_outcome(outcome: Result<Json, String>) -> (r: Reply)
    ensures
        r@ == outcome_reply(outcome_view(outcome)),
{
    match outcome {
        Ok(body) => json_ok(body),
        Err(message) => json_err(message.as_str(), 400),
    }
}

/// The answer that a request to the OpenAI interface failed.
pub fn openai_error(message: &str, status: u16, kind: &str) -> (r: Reply)
    ensures
        r@ == openai_reply(message@, status, kind@),
{
    Reply {
        status,
        body: Json::object().with(
            "error",
            Json::object().with("message", Json::str(message)).with("type", Json::str(kind)),
        ),
    }
}

/// The head of an answer that passes an upstream answer on.
#[derive(Debug, PartialEq, Eq)]
pub struct ForwardHead {
    pub status: u16,
    pub content_type: String,
}

/// Whether `status` can be the status of an answer.
pub open spec fn is_status(status: u16) -> bool {
    100 <= status < 1000
}

/// The status under which an upstream answer is passed on.
pub open spec fn forwarded_status(status: u16) -> u16 {
    if is_status(status) {
        status
    } else {
        502
    }
}

/// The type under which an upstream answer is passed on.
pub open spec fn forwarded_type(content_type: Option<Seq<char>>) -> Seq<char> {
    match content_type {
        Some(name) => name,
        None => "application/json"@,
    }
}

/// The head under which an upstream answer is passed on: its own status, or
/// that of a bad gateway where it has none that can be sent, and its own type,
/// or JSON where it names none.
pub fn forward_head(status: u16, content_type: Option<&str>) -> (r: ForwardHead)
    ensures
        r.status == forwarded_status(status),
        r.content_type@ == forwarded_type(text_of(content_type)),
        r.status == if is_status(status) {
            status
        } else {
            502u16
        },
        r.content_type@ == match content_type {
            Some(name) => name@,
            None => "application/json"@,
        },
        is_status(r.status),
{
    ForwardHead {
        status: if 100 <= status && status < 1000 {
            status
        } else {
            502
        },
        content_type: match content_type {
            Some(name) => name.to_owned(),
            None => "application/json".to_owned(),
        },
    }
}

/// The answer where an upstream answer cannot be passed on.
pub fn forward_failure() -> (r: Reply)
    ensures
        r@ == openai_reply("响应构造失败"@, 500, "internal_error"@),
{
    openai_error("响应构造失败", 500, "internal_error")
}

/// Success is a status from 200 to 299; an answer can have one from 100 to 999.
pub proof fn law_statuses(status: u16)
    ensures
        is_success(status) <==> 200 <= status <= 299,
        is_status(status) <==> 100 <= status <= 999,
{
}

/// An upstream answer keeps its status and its type. Only a status that cannot
/// be sent becomes that of a bad gateway, and only a missing type becomes JSON.
pub proof fn law_forwarded_head(status: u16, content_type: Seq<char>)
    ensures
        100 <= status <= 999 ==> forwarded_status(status) == status,
        status < 100 || status > 999 ==> forwarded_status(status) == 502,
        forwarded_type(Some(content_type)) == content_type,
        forwarded_type(None) == "application/json"@,
{
}

/// A body that was asked for comes with the status 200, and nothing is added to it.
pub proof fn law_ok_reply(body: JsonView)
    ensures
        ok_reply(body).status == 200,
        ok_reply(body).body == body,
{
}

/// A refusal of the management interface has the status given, says that it is
/// none, and why; it says nothing else.
pub proof fn law_err_reply(message: Seq<char>, status: u16, key: Seq<char>)
    ensures
        err_reply(message, status).status == status,
        err_reply(message, status).body.member("ok"@) == Some(JsonView::Bool(false)),
        err_reply(message, status).body.member("error"@) == Some(JsonView::Str(message)),
        key != "ok"@ && key != "error"@ ==> err_reply(message, status).body.member(key) is None,
{
    reveal_strlit("ok");
    reveal_strlit("error");
    assert("ok"@.len() == 2 && "error"@.len() == 5);
}

/// A refusal of the OpenAI interface has the status given; its body holds one
/// error, and that the message and the kind of it and nothing else.
pub proof fn law_openai_reply(message: Seq<char>, status: u16, kind: Seq<char>, key: Seq<char>)
    ensures
        openai_reply(message, status, kind).status == status,
        openai_reply(message, status, kind).body.member("error"@) matches Some(error)
            && error.member("message"@) == Some(JsonView::Str(message)) && error.member("type"@)
            == Some(JsonView::Str(kind)) && (key != "message"@ && key != "type"@ ==> error.member(
            key,
        ) is None),
        key != "error"@ ==> openai_reply(message, status, kind).body.member(key) is None,
{
    reveal_strlit("message");
    reveal_strlit("type");
    assert("message"@.len() == 7 && "type"@.len() == 4);
}

/// An outcome says what it holds.
pub proof fn law_outcome_view(body: Json, message: String)
    ensures
        outcome_view(Ok(body)) == Ok::<JsonView, Seq<char>>(body@),
        outcome_view(Err(message)) == Err::<JsonView, Seq<char>>(message@),
{
}

/// An operation is answered with what it gives, or refused with its message.
pub proof fn law_outcome_reply(body: JsonView, message: Seq<char>)
    ensures
        outcome_reply(Ok(body)).status == 200,
        outcome_reply(Ok(body)).body == body,
        outcome_reply(Err(message)) == err_reply(message, 400),
{
}

/// A reply says its status and its body.
pub proof fn law_reply_view(reply: Reply)
    ensures
        reply@.status == reply.status,
        reply@.body == reply.body@,
{
}

} // verus!
