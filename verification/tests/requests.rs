use buddy2api::codec::parse_json;
use buddy2api::json::Json;
use buddy2api::requests::{
    account_id, body_indexes, body_strings, body_text, body_variant, checkin_variant, cli_switch,
    copy_request, export_request, ide_switch, import_request, login_id, optional_body_variant, starts_travel,
    submitted_config, switch_request,
};
use buddy2api::variant::WbVariant;

fn json(text: &str) -> Json {
    parse_json(text).unwrap()
}

#[test]
fn variant_body_defaults_to_cn() {
    assert_eq!(body_variant(&Json::object()), WbVariant::Cn);
    assert_eq!(body_variant(&Json::object().with("variant", Json::Null)), WbVariant::Cn);
    assert_eq!(body_variant(&Json::object().with("variant", Json::str("ai"))), WbVariant::Ai);
    assert_eq!(body_variant(&Json::object().with("accountId", Json::str("x"))), WbVariant::Cn);
}

#[test]
fn a_missing_body_names_no_site() {
    let ai = json(r#"{"variant": "ai"}"#);
    assert_eq!(optional_body_variant(None), WbVariant::Cn);
    assert_eq!(optional_body_variant(Some(&ai)), WbVariant::Ai);
    assert_eq!(checkin_variant(None), None);
    assert_eq!(checkin_variant(Some(&Json::object())), None);
    assert_eq!(checkin_variant(Some(&json(r#"{"variant": null}"#))), None);
    assert_eq!(checkin_variant(Some(&json(r#"{"variant": "other"}"#))), Some(WbVariant::Cn));
    assert_eq!(checkin_variant(Some(&ai)), Some(WbVariant::Ai));
}

#[test]
fn sites_are_named_exactly() {
    assert_eq!(WbVariant::parse(Some("AI")), WbVariant::Cn);
    assert_eq!(WbVariant::parse(Some(" ai")), WbVariant::Cn);
    for site in [WbVariant::Cn, WbVariant::Ai] {
        assert_eq!(WbVariant::parse(Some(site.as_str())), site);
        assert_eq!(site.message_name(), format!("{site:?}"));
    }
}

#[test]
fn texts_and_lists_are_read_from_bodies() {
    let body = json(r#"{"accountId": "a", "list": ["x", 1, "y", null], "n": 3}"#);
    assert_eq!(account_id(&body), "a");
    assert_eq!(account_id(&Json::Null), "");
    assert_eq!(login_id(&json(r#"{"loginId": "l"}"#)), "l");
    assert_eq!(login_id(&body), "");
    assert_eq!(body_text(&body, "n"), "");
    assert_eq!(body_strings(&body, "list"), vec!["x", "y"]);
    assert!(body_strings(&body, "n").is_empty());
    assert!(body_strings(&body, "missing").is_empty());
    let indexes = json(r#"{"indexes": [3, -1, 0, 1.5, "2", 4294967295]}"#);
    assert_eq!(body_indexes(&indexes, "indexes"), vec![3, 0, 4294967295]);
    assert!(body_indexes(&indexes, "missing").is_empty());
}

#[test]
fn settings_may_be_wrapped() {
    let wrapped = json(r#"{"config": {"enabled": true}}"#);
    assert_eq!(submitted_config(&wrapped), &json(r#"{"enabled": true}"#));
    let bare = json(r#"{"enabled": false}"#);
    assert_eq!(submitted_config(&bare), &bare);
    assert!(starts_travel(&json(r#"{"enabled": true}"#)));
    assert!(!starts_travel(&bare));
    assert!(!starts_travel(&json(r#"{"enabled": "true"}"#)));
    assert!(!starts_travel(&Json::object()));
}

#[test]
fn cli_switch_closes_only_on_request() {
    let asked = cli_switch(&json(r#"{"accountId": "a", "closeRunningCli": true}"#));
    assert_eq!(asked.account_id, "a");
    assert!(asked.close_running_cli);
    assert!(cli_switch(&json(r#"{"close_running_cli": true}"#)).close_running_cli);
    // The first spelling counts, also with a value of another type.
    let both = r#"{"closeRunningCli": "yes", "close_running_cli": true}"#;
    assert!(!cli_switch(&json(both)).close_running_cli);
    assert!(!cli_switch(&Json::object()).close_running_cli);
    assert_eq!(cli_switch(&json(r#"{"account_id": "a"}"#)).account_id, "");
}

#[test]
fn ide_switch_restarts_unless_told_otherwise() {
    let asked = ide_switch(&json(r#"{"account_id": "a", "restart": false}"#));
    assert_eq!(asked.account_id, "a");
    assert!(!asked.restart);
    let both = ide_switch(&json(r#"{"accountId": null, "account_id": "a"}"#));
    assert_eq!(both.account_id, "");
    assert!(both.restart);
}

#[test]
fn exports_imports_and_copies_are_read() {
    let export = export_request(&json(r#"{"accountIds": ["1", "2"], "path": "/tmp/x"}"#));
    assert_eq!(export.account_ids, vec!["1", "2"]);
    assert_eq!(export.path, "/tmp/x");
    let import = import_request(&json(r#"{"fileText": "[]", "indexes": [0, 2]}"#));
    assert_eq!(import.text, "[]");
    assert_eq!(import.indexes, vec![0, 2]);
    let copy = copy_request(&json(r#"{"targetAccountId": "t", "sessionIds": ["s"]}"#));
    assert_eq!(copy.target_account_id, "t");
    assert_eq!(copy.session_ids, vec!["s"]);
}

#[test]
fn a_switch_needs_an_account() {
    let refused = switch_request(&json(r#"{"accountId": " \t"}"#)).unwrap_err();
    assert_eq!(refused.status, 400);
    assert_eq!(refused.body.get_bool("ok"), Some(false));
    assert_eq!(refused.body.get_str("error"), Some("缺少 accountId"));
    assert!(switch_request(&Json::object()).is_err());

    let plain = switch_request(&json(r#"{"accountId": " a "}"#)).unwrap();
    assert_eq!(plain.account_id, " a ");
    assert!(plain.restart);
    assert!(!plain.share_sessions);
    assert!(plain.copy_session_ids.is_empty());

    let full = r#"{"accountId": "a", "restart": false, "shareSessions": true, "copySessionIds": ["s", 1]}"#;
    let full = switch_request(&json(full)).unwrap();
    assert!(!full.restart);
    assert!(full.share_sessions);
    assert_eq!(full.copy_session_ids, vec!["s"]);
}
