use buddy2api::codec::{parse_json, value_of_json};
use buddy2api::json::Json;
use buddy2api::pages::{
    account_in_login, accounts_page, checkin_status_item, client_status, copy_begins, copy_reply,
    copy_report, current_user, done, done_reply, done_with, import_report, listed,
    proxy_config_page, sessions_page, statistics_failed, stored_account, travel_status_item,
    ClientState,
};
use buddy2api::reply::json_err;
use buddy2api::variant::WbVariant;

fn json(text: &str) -> Json {
    parse_json(text).unwrap()
}

fn text(json: &Json) -> String {
    value_of_json(json).to_string()
}

#[test]
fn web_checkin_status_keeps_account_identity() {
    let item = checkin_status_item(
        &Json::object().with("id", Json::str("account-1")).with("email", Json::str("user@example.com")),
        "user@example.com",
        Json::object().with("ok", Json::Bool(true)).with("todayCheckedIn", Json::Bool(true)),
    );

    assert_eq!(item.get_str("accountId"), Some("account-1"));
    assert_eq!(item.get_str("email"), Some("user@example.com"));
    assert_eq!(item.get_bool("todayCheckedIn"), Some(true));
    assert_eq!(item.get_str("variant"), Some("cn"));
}

#[test]
fn web_checkin_status_preserves_failure_state() {
    let item = checkin_status_item(
        &Json::object().with("id", Json::str("account-2")),
        "",
        Json::object()
            .with("ok", Json::Bool(false))
            .with("todayCheckedIn", Json::Bool(false))
            .with("error", Json::str("status failed")),
    );

    assert_eq!(item.get_str("accountId"), Some("account-2"));
    assert_eq!(item.get_bool("ok"), Some(false));
    assert_eq!(item.get_str("error"), Some("status failed"));
}

#[test]
fn web_checkin_status_row_carries_variant() {
    let item = checkin_status_item(
        &Json::object().with("id", Json::str("ai-1")).with("variant", Json::str("ai")),
        "",
        Json::object().with("ok", Json::Bool(false)).with("statusUnsupported", Json::Bool(true)),
    );

    assert_eq!(item.get_str("variant"), Some("ai"));
    assert_eq!(item.get_bool("statusUnsupported"), Some(true));
}

#[test]
fn rows_overwrite_their_own_members_only() {
    let found = json(r#"{"email": "old", "variant": "v", "n": 1.5}"#);
    let row = travel_status_item(&json(r#"{"id": 7}"#), "name", found.clone());
    assert_eq!(text(&row), r#"{"accountId":7,"email":"name","n":1.5,"variant":"v"}"#);
    let row = checkin_status_item(&Json::object(), "name", found);
    assert_eq!(text(&row), r#"{"accountId":null,"email":"name","n":1.5,"variant":"cn"}"#);
    let row = travel_status_item(&Json::Null, "", Json::Null);
    assert_eq!(text(&row), r#"{"accountId":null,"email":""}"#);
}

#[test]
fn finished_operations_are_confirmed() {
    assert_eq!(text(&done()), r#"{"ok":true}"#);
    assert_eq!(text(&done_with("path", Json::str("p"))), r#"{"ok":true,"path":"p"}"#);
    let reply = done_reply("account", Ok(Json::Null));
    assert_eq!(reply.status, 200);
    assert_eq!(text(&reply.body), r#"{"account":null,"ok":true}"#);
    assert_eq!(done_reply("account", Err("bad".to_string())), json_err("bad", 400));
    assert_eq!(text(&listed("logs", vec![Json::Null])), r#"{"logs":[null]}"#);
    let report = import_report(json("1"), json("[2]"), json("3"));
    assert_eq!(text(&report), r#"{"imported":1,"ok":true,"overwritten":3,"skipped":[2]}"#);
}

#[test]
fn missing_accounts_are_bad_requests() {
    assert_eq!(stored_account(None), Err(json_err("账号不存在", 400)));
    assert_eq!(stored_account(Some(Json::str("a"))), Ok(Json::str("a")));
    assert_eq!(copy_begins(None), Err(json_err("目标账号不存在", 400)));
    assert_eq!(copy_begins(Some(&json(r#"{"variant": "ai"}"#))), Ok(WbVariant::Ai));
    assert_eq!(copy_begins(Some(&Json::object())), Ok(WbVariant::Cn));
    assert_eq!(statistics_failed("x"), json_err("扫描 Token 统计失败: x", 500));
}

#[test]
fn the_user_of_a_client_is_shown() {
    let auth = json(r#"{"account": {"uid": "u", "email": null, "enterpriseName": "E", "token": 1}}"#);
    let account = account_in_login(&auth);
    let user = current_user(&account, Json::str("e-1"), Json::Null);
    assert_eq!(
        text(&user),
        r#"{"email":null,"enterpriseId":"e-1","enterpriseName":"E","nickname":null,"orgKey":null,"uid":"u"}"#
    );
    assert_eq!(account_in_login(&Json::object()), Json::object());

    let status = client_status(ClientState {
        running: true,
        auth_file: "f".to_string(),
        current: None,
        app_path: "p".to_string(),
        version: "1".to_string(),
        variant: WbVariant::Ai,
    });
    assert_eq!(
        text(&status),
        r#"{"appPath":"p","authFile":"f","current":null,"running":true,"variant":"ai","version":"1"}"#
    );
}

#[test]
fn accounts_and_sessions_name_the_current_user() {
    let auth = json(r#"{"account": {"uid": "u"}}"#);
    let page = accounts_page(vec![Json::str("a")], Some(&auth), WbVariant::Cn);
    assert_eq!(text(&page), r#"{"accounts":["a"],"current":"u","variant":"cn"}"#);
    let page = accounts_page(vec![], Some(&Json::object()), WbVariant::Ai);
    assert_eq!(text(&page), r#"{"accounts":[],"current":null,"variant":"ai"}"#);
    assert_eq!(accounts_page(vec![], None, WbVariant::Ai).get("current"), Some(&Json::Null));

    let page = sessions_page(Some("u"), json("[1]"), WbVariant::Cn);
    assert_eq!(text(&page), r#"{"current":"u","sessions":[1],"variant":"cn"}"#);
    let page = sessions_page(None, json("[1]"), WbVariant::Cn);
    assert_eq!(text(&page), r#"{"current":null,"sessions":[],"variant":"cn"}"#);
}

#[test]
fn copies_are_reported_with_the_site_of_the_target() {
    let target = json(r#"{"uid": "t", "variant": "ai"}"#);
    let report = copy_report(Some("s"), &target, json("{}"));
    assert_eq!(text(&report), r#"{"copied":{},"sourceUid":"s","targetUid":"t","variant":"ai"}"#);
    let report = copy_report(None, &Json::object(), Json::Null);
    assert_eq!(
        text(&report),
        r#"{"copied":null,"sourceUid":null,"targetUid":null,"variant":"cn"}"#
    );
    let reply = copy_reply(None, &Json::object(), Ok(Json::Null));
    assert_eq!((reply.status, reply.body), (200, report));
    assert_eq!(copy_reply(None, &target, Err("no".to_string())), json_err("no", 400));
}

#[test]
fn the_proxy_configuration_is_shown() {
    let page = proxy_config_page(false, Json::object(), Some(Json::str("me")));
    assert_eq!(text(&page), r#"{"activeAccount":"me","baseUrl":"/v1","config":{},"enabled":false}"#);
    assert_eq!(proxy_config_page(true, Json::Null, None).get("activeAccount"), Some(&Json::Null));
}
