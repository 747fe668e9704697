use buddy2api::json::Json;
use buddy2api::upstream::{
    chat_request, chat_url, get_str, models_config_url, models_request, upstream_headers, Headers,
};
use buddy2api::variant::WbVariant;

#[test]
fn urls_use_unified_product_domains() {
    assert_eq!(
        chat_url(WbVariant::Cn),
        "https://www.workbuddy.cn/v2/chat/completions"
    );
    assert_eq!(
        chat_url(WbVariant::Ai),
        "https://www.workbuddy.ai/v2/chat/completions"
    );
    assert_eq!(
        models_config_url(WbVariant::Cn),
        "https://www.workbuddy.cn/v3/config"
    );
    assert_eq!(
        models_config_url(WbVariant::Ai),
        "https://www.workbuddy.ai/v3/config"
    );
}

#[test]
fn upstream_headers_inject_identity_and_product() {
    let account = Json::object()
        .with("access_token", Json::str("AT"))
        .with("uid", Json::str("u-1"))
        .with("domain", Json::str("www.workbuddy.ai"))
        .with("enterpriseId", Json::str("ent-1"));
    let headers = upstream_headers(&account);
    assert_eq!(headers.get("Authorization").map(String::as_str), Some("Bearer AT"));
    assert_eq!(headers.get("X-User-Id").map(String::as_str), Some("u-1"));
    assert_eq!(headers.get("X-Domain").map(String::as_str), Some("www.workbuddy.ai"));
    assert_eq!(headers.get("X-Product").map(String::as_str), Some("SaaS"));
    assert_eq!(headers.get("X-Enterprise-Id").map(String::as_str), Some("ent-1"));
}

#[test]
fn upstream_headers_skip_missing_identity() {
    let account = Json::object().with("access_token", Json::str("AT"));
    let headers = upstream_headers(&account);
    assert_eq!(headers.get("Authorization").map(String::as_str), Some("Bearer AT"));
    assert_eq!(headers.get("X-Product").map(String::as_str), Some("SaaS"));
    assert!(!headers.contains_key("X-User-Id"));
    assert!(!headers.contains_key("X-Domain"));
}

#[test]
fn headers_are_listed_once_each() {
    let account = Json::object()
        .with("access_token", Json::str("AT"))
        .with("uid", Json::str("u-1"))
        .with("domain", Json::str("d"))
        .with("enterprise_id", Json::str("ent-2"));
    let headers = upstream_headers(&account);
    let mut list: Vec<(&str, &str)> = headers
        .list()
        .iter()
        .map(|header| (header.name.as_str(), header.value.as_str()))
        .collect();
    list.sort();
    assert_eq!(
        list,
        vec![
            ("Authorization", "Bearer AT"),
            ("Content-Type", "application/json"),
            ("X-Domain", "d"),
            ("X-Enterprise-Id", "ent-2"),
            ("X-Product", "SaaS"),
            ("X-Tenant-Id", "ent-2"),
            ("X-User-Id", "u-1"),
        ]
    );
    assert!(Headers::new().list().is_empty());
    assert_eq!(Headers::new().get("X-Product"), None);
}

#[test]
fn the_newer_spelling_of_the_organisation_goes_first() {
    let account = Json::object()
        .with("enterprise_id", Json::str("old"))
        .with("enterpriseId", Json::str("new"));
    let headers = upstream_headers(&account);
    assert_eq!(headers.get("X-Enterprise-Id").map(String::as_str), Some("new"));
    assert_eq!(headers.get("X-Tenant-Id").map(String::as_str), Some("new"));
    assert!(!headers.contains_key("Authorization"));
    assert_eq!(get_str(&account, "enterprise_id"), Some("old".to_string()));
    assert_eq!(get_str(&account, "uid"), None);
}

#[test]
fn requests_go_to_the_site_of_the_account() {
    let ai = Json::object().with("variant", Json::str("ai")).with("uid", Json::str("u"));
    let chat = chat_request(&ai);
    assert_eq!(chat.url, "https://www.workbuddy.ai/v2/chat/completions");
    assert_eq!(chat.headers.get("X-User-Id").map(String::as_str), Some("u"));
    let models = models_request(&Json::object().with("uid", Json::str("v")));
    assert_eq!(models.url, "https://www.workbuddy.cn/v3/config");
    assert_eq!(models.headers.get("X-User-Id").map(String::as_str), Some("v"));
}
