use buddy2api::account::{account_for_site, active_account_from, choose_active, serves};
use buddy2api::codec::parse_json;
use buddy2api::json::Json;
use buddy2api::variant::WbVariant;

fn account(id: &str, uid: &str, variant: &str) -> Json {
    Json::object()
        .with("id", Json::str(id))
        .with("uid", Json::str(uid))
        .with("variant", Json::str(variant))
}

fn with_token(account: Json) -> Json {
    account.with("access_token", Json::str("t"))
}

fn id_of(account: Option<Json>) -> String {
    account.unwrap().get_str("id").unwrap().to_string()
}

#[test]
fn active_account_prefers_state_then_falls_back() {
    let accounts = vec![account("a", "u-a", "cn"), account("b", "u-b", "ai")];
    // Without a state file the first account is active.
    let picked = active_account_from(&accounts, None).unwrap();
    assert_eq!(picked.get_str("id"), Some("a"));
    assert!(active_account_from(&[], None).is_none());
}

#[test]
fn the_state_names_the_active_account() {
    let accounts = vec![
        account("a", "u-a", "cn"),
        account("x", "b", "cn"),
        account("b", "u-b", "ai"),
    ];
    let active = |state: &str| id_of(active_account_from(&accounts, Some(state)));
    assert_eq!(active(r#"{"activeAccountId": "b"}"#), "b");
    assert_eq!(active(r#"{"activeAccountId": "  u-b "}"#), "b");
    assert_eq!(active(r#"{"activeAccountId": "u-a"}"#), "a");
    assert_eq!(active(r#"{"activeAccountId": "gone"}"#), "a");
    assert_eq!(active(r#"{"activeAccountId": "  "}"#), "a");
    assert_eq!(active(r#"{"activeAccountId": 1}"#), "a");
    assert_eq!(active("{}"), "a");
    assert_eq!(active("no json"), "a");
    assert!(active_account_from(&[], Some(r#"{"activeAccountId": "b"}"#)).is_none());
    let state = parse_json(r#"{"activeAccountId": "x"}"#);
    assert_eq!(id_of(choose_active(&accounts, state.as_ref())), "x");
}

#[test]
fn account_for_site_filters_by_variant_and_token() {
    let accounts = vec![
        with_token(account("cn", "u-cn", "cn")),
        with_token(account("ai", "u-ai", "ai")),
        account("ai-no-token", "u-x", "ai"),
    ];
    assert_eq!(
        account_for_site(&accounts, None, WbVariant::Ai).unwrap().get_str("id"),
        Some("ai")
    );
    assert_eq!(
        account_for_site(&accounts, None, WbVariant::Cn).unwrap().get_str("id"),
        Some("cn")
    );
}

#[test]
fn the_active_account_serves_its_site_first() {
    let accounts = vec![
        with_token(account("1", "u-1", "ai")),
        with_token(account("2", "u-2", "ai")),
        account("3", "u-3", "ai"),
    ];
    let server = |state: &str| account_for_site(&accounts, Some(state), WbVariant::Ai);
    assert_eq!(id_of(server(r#"{"activeAccountId": "2"}"#)), "2");
    // Without a token the active account is passed over.
    assert_eq!(id_of(server(r#"{"activeAccountId": "3"}"#)), "1");
    assert!(account_for_site(&accounts, None, WbVariant::Cn).is_none());
    assert!(account_for_site(&[], None, WbVariant::Ai).is_none());
}

#[test]
fn an_account_serves_its_own_site_with_a_token() {
    assert!(serves(&with_token(account("1", "u", "ai")), WbVariant::Ai));
    assert!(!serves(&with_token(account("1", "u", "ai")), WbVariant::Cn));
    assert!(!serves(&account("1", "u", "ai"), WbVariant::Ai));
    // An account without a site is domestic.
    assert!(serves(&with_token(Json::object()), WbVariant::Cn));
}
