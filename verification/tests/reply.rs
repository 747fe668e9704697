use buddy2api::codec::parse_json;
use buddy2api::json::Json;
use buddy2api::reply::{
    forward_failure, forward_head, json_err, json_ok, json_outcome, openai_error,
};

fn json(text: &str) -> Json {
    parse_json(text).unwrap()
}

#[test]
fn answers_have_the_shape_of_their_interface() {
    let ok = json_ok(Json::str("x"));
    assert_eq!((ok.status, ok.body), (200, Json::str("x")));
    let err = json_err("bad", 409);
    assert_eq!(err.status, 409);
    assert_eq!(err.body.get_bool("ok"), Some(false));
    assert_eq!(err.body.get_str("error"), Some("bad"));
    let openai = openai_error("bad", 502, "kind");
    assert_eq!(openai.status, 502);
    assert_eq!(openai.body, json(r#"{"error": {"message": "bad", "type": "kind"}}"#));
}

#[test]
fn outcomes_become_answers() {
    assert_eq!(json_outcome(Ok(Json::Null)), json_ok(Json::Null));
    assert_eq!(json_outcome(Err("bad".to_string())), json_err("bad", 400));
}

#[test]
fn upstream_answers_keep_their_head() {
    let head = forward_head(429, Some("text/event-stream"));
    assert_eq!(head.status, 429);
    assert_eq!(head.content_type, "text/event-stream");
    assert_eq!(forward_head(200, None).content_type, "application/json");
    assert_eq!(forward_head(100, None).status, 100);
    assert_eq!(forward_head(999, None).status, 999);
    assert_eq!(forward_head(99, None).status, 502);
    assert_eq!(forward_head(1000, None).status, 502);
    assert_eq!(forward_failure(), openai_error("响应构造失败", 500, "internal_error"));
}
