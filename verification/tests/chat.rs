use buddy2api::chat::{
    awaits, begin_chat, continue_chat, ChatAction, ChatEvent, ChatState, ChatStep,
};
use buddy2api::codec::{parse_json, value_of_json};
use buddy2api::json::Json;
use buddy2api::reply::Reply;
use buddy2api::variant::WbVariant;

fn json(text: &str) -> Json {
    parse_json(text).unwrap()
}

fn account(token: &str) -> Json {
    Json::object()
        .with("variant", Json::str("ai"))
        .with("access_token", Json::str(token))
        .with("uid", Json::str("u-1"))
        .with("domain", Json::str("www.workbuddy.ai"))
}

fn reply_of(step: ChatStep) -> Reply {
    assert!(matches!(step.state, ChatState::Done));
    match step.action {
        ChatAction::Answer { reply } => reply,
        _ => panic!("no answer"),
    }
}

fn error_of(step: ChatStep) -> (u16, String, String) {
    let reply = reply_of(step);
    let error = reply.body.get("error").unwrap();
    (
        reply.status,
        error.get_str("message").unwrap().to_string(),
        error.get_str("type").unwrap().to_string(),
    )
}

/// What is noted for which token when the answer is passed on.
fn record_of(step: ChatStep) -> Option<(String, bool)> {
    assert!(matches!(step.state, ChatState::Done));
    match step.action {
        ChatAction::Forward { record } => record.map(|record| {
            (record.account.get_str("access_token").unwrap().to_string(), record.failed)
        }),
        _ => panic!("no answer passed on"),
    }
}

fn next(step: ChatStep, event: ChatEvent) -> ChatStep {
    assert!(awaits(&step.state, &event));
    continue_chat(step.state, event)
}

/// The request up to the first upstream request.
fn sent() -> ChatStep {
    let body = json(r#"{"model": " intl/glm-5.3 ", "stream": true, "temperature": 0.7}"#);
    let step = begin_chat(true, body, Some("s-1".to_string()));
    match &step.action {
        ChatAction::Select { site, session_key } => {
            assert_eq!(*site, Some(WbVariant::Ai));
            assert_eq!(session_key.as_deref(), Some("s-1"));
        }
        _ => panic!("no account asked for"),
    }
    let step = next(step, ChatEvent::Selected(Some(account("stale"))));
    match &step.action {
        ChatAction::Freshen { account } => assert_eq!(account.get_str("access_token"), Some("stale")),
        _ => panic!("token not looked at"),
    }
    next(step, ChatEvent::Fresh(account("smoke-token")))
}

fn assert_sends(step: &ChatStep, token: &str) {
    match &step.action {
        ChatAction::Send { request, body } => {
            assert_eq!(request.url, "https://www.workbuddy.ai/v2/chat/completions");
            let header = |name: &str| request.headers.get(name).map(String::as_str);
            assert_eq!(header("Authorization"), Some(format!("Bearer {token}").as_str()));
            assert_eq!(header("X-Domain"), Some("www.workbuddy.ai"));
            assert_eq!(header("X-User-Id"), Some("u-1"));
            assert_eq!(header("X-Product"), Some("SaaS"));
            assert_eq!(
                value_of_json(body).to_string(),
                r#"{"model":"glm-5.3","stream":true,"temperature":0.7}"#
            );
        }
        _ => panic!("nothing sent"),
    }
}

#[test]
fn the_body_goes_upstream_with_the_bare_model() {
    let step = sent();
    assert_sends(&step, "smoke-token");
    assert_eq!(
        record_of(next(step, ChatEvent::Answered(200))),
        Some(("smoke-token".to_string(), false))
    );
}

#[test]
fn a_refused_account_gets_one_more_try() {
    for refusal in [401, 403] {
        let step = next(sent(), ChatEvent::Answered(refusal));
        match &step.action {
            ChatAction::Refresh { account } => {
                assert_eq!(account.get_str("access_token"), Some("smoke-token"))
            }
            _ => panic!("token not renewed"),
        }
        let step = next(step, ChatEvent::Refreshed(account("new")));
        assert_sends(&step, "new");
        assert_eq!(
            record_of(next(step, ChatEvent::Answered(refusal))),
            Some(("new".to_string(), true))
        );
    }
}

#[test]
fn a_second_try_can_succeed() {
    let step = next(sent(), ChatEvent::Answered(401));
    let step = next(step, ChatEvent::Refreshed(account("new")));
    assert_eq!(record_of(next(step, ChatEvent::Answered(204))), Some(("new".to_string(), false)));
}

#[test]
fn an_account_that_must_log_in_again_is_not_tried_again() {
    let step = next(sent(), ChatEvent::Answered(403));
    let lost = account("new").with("needs_relogin", Json::Bool(true));
    assert_eq!(
        record_of(next(step, ChatEvent::Refreshed(lost))),
        Some(("smoke-token".to_string(), true))
    );
    let step = next(sent(), ChatEvent::Answered(403));
    let kept = account("new").with("needs_relogin", Json::Bool(false));
    assert_sends(&next(step, ChatEvent::Refreshed(kept)), "new");
}

#[test]
fn other_statuses_are_passed_on_and_not_counted() {
    for status in [301, 400, 404, 429, 500, 503] {
        assert_eq!(record_of(next(sent(), ChatEvent::Answered(status))), None);
    }
}

#[test]
fn lost_requests_are_reported_and_not_counted() {
    let lost = |step| error_of(next(step, ChatEvent::Failed("timeout".to_string())));
    let expected =
        (502, "上游请求失败: timeout".to_string(), "upstream_error".to_string());
    assert_eq!(lost(sent()), expected);
    let step = next(sent(), ChatEvent::Answered(401));
    assert_eq!(lost(next(step, ChatEvent::Refreshed(account("new")))), expected);
}

#[test]
fn requests_are_refused_before_any_account_is_touched() {
    let body = || json(r#"{"model": "glm"}"#);
    assert_eq!(
        error_of(begin_chat(false, body(), None)),
        (404, "2API 代理未开启".to_string(), "proxy_disabled".to_string())
    );
    assert_eq!(
        error_of(begin_chat(true, json(r#"{"model": "foo/bar"}"#), None)),
        (400, "未知模型前缀: foo/bar".to_string(), "invalid_request_error".to_string())
    );
    for text in ["{}", "[]", "null", "3", r#"{"model": 3}"#] {
        assert_eq!(
            error_of(begin_chat(true, json(text), None)),
            (400, "model 不能为空".to_string(), "invalid_request_error".to_string())
        );
    }
    let step = begin_chat(true, body(), None);
    assert!(matches!(&step.action, ChatAction::Select { site: None, session_key: None }));
    assert_eq!(
        error_of(next(step, ChatEvent::Selected(None))),
        (502, "没有可用账号：请先在账号页添加账号".to_string(), "no_account".to_string())
    );
}

#[test]
fn only_the_awaited_events_count() {
    let state = sent().state;
    assert!(awaits(&state, &ChatEvent::Answered(200)));
    assert!(awaits(&state, &ChatEvent::Failed(String::new())));
    assert!(!awaits(&state, &ChatEvent::Selected(None)));
    assert!(!awaits(&state, &ChatEvent::Fresh(Json::Null)));
    assert!(!awaits(&state, &ChatEvent::Refreshed(Json::Null)));
    assert!(!awaits(&ChatState::Done, &ChatEvent::Answered(200)));
}
