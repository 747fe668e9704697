use buddy2api::codec::{parse_json, value_of_json};
use buddy2api::json::Json;
use buddy2api::model::parse_model;
use buddy2api::models::{
    list_models, list_models_quietly, models_refusal, refused_answer, site_model_entries,
    site_models, sites_to_ask, ModelList, SiteOutcome,
};
use buddy2api::variant::WbVariant;
use serde_json::Number;

fn json(text: &str) -> Json {
    parse_json(text).unwrap()
}

fn models(text: &str) -> Vec<Json> {
    json(text).as_array().unwrap().clone()
}

fn ids(list: &Json) -> Vec<String> {
    let data = list.get("data").unwrap().as_array().unwrap();
    data.iter().map(|entry| entry.get_str("id").unwrap().to_string()).collect()
}

#[test]
fn site_model_entries_adds_prefix_and_keeps_metadata() {
    let models = vec![Json::object()
        .with("id", Json::str("glm-5.3"))
        .with("name", Json::str("GLM-5.3"))
        .with("vendor", Json::str("e"))
        .with("credits", Json::str("x0.79"))
        .with("maxInputTokens", Json::Number(Number::from(1000000)))];
    let entries = site_model_entries(WbVariant::Cn, &models);
    assert_eq!(entries.len(), 1);
    assert_eq!(entries[0].get_str("id"), Some("cn/glm-5.3"));
    assert_eq!(entries[0].get_str("object"), Some("model"));
    assert_eq!(entries[0].get_str("owned_by"), Some("e"));
    assert_eq!(entries[0].get_str("workbuddy_id"), Some("glm-5.3"));
    assert_eq!(entries[0].get_str("credits"), Some("x0.79"));

    let entries = site_model_entries(WbVariant::Ai, &models);
    assert_eq!(entries[0].get_str("id"), Some("intl/glm-5.3"));
}

#[test]
fn entries_carry_what_the_site_says() {
    let listed = models(
        r#"[{"id": " a ", "name": null, "maxInputTokens": 5, "maxOutputTokens": 1.5},
            {"id": "  "}, {"id": 7}, {}, null, {"id": "b"}]"#,
    );
    let entries = site_model_entries(WbVariant::Ai, &listed);
    assert_eq!(entries.len(), 2);
    assert_eq!(
        value_of_json(&entries[0]).to_string(),
        r#"{"id":"intl/a","max_input_tokens":5,"max_output_tokens":1.5,"name":null,"#.to_string()
            + r#""object":"model","owned_by":"workbuddy","workbuddy_id":"a"}"#
    );
    assert_eq!(
        value_of_json(&entries[1]).to_string(),
        r#"{"id":"intl/b","object":"model","owned_by":"workbuddy","workbuddy_id":"b"}"#
    );
}

#[test]
fn both_sites_are_listed_and_shared_ids_once() {
    let outcomes = vec![
        SiteOutcome { site: WbVariant::Cn, models: Ok(models(r#"[{"id": "glm"}, {"id": "hy"}]"#)) },
        SiteOutcome {
            site: WbVariant::Ai,
            models: Ok(models(r#"[{"id": "glm", "vendor": "v"}, {"id": "gpt"}, {"id": "gpt"}]"#)),
        },
    ];
    let list = list_models(&outcomes);
    assert_eq!(
        ids(&list),
        vec!["glm", "cn/glm", "hy", "cn/hy", "intl/glm", "gpt", "intl/gpt", "intl/gpt"]
    );
    assert_eq!(list.get_str("object"), Some("list"));
    assert_eq!(list.get("errors"), Some(&Json::Array(vec![])));
    // Every id that is offered can be asked for.
    for id in ids(&list) {
        assert!(parse_model(&id).is_ok());
    }
    assert_eq!(ids(&list_models_quietly(&outcomes)), ids(&list));
    assert_eq!(list_models_quietly(&outcomes).get("errors"), None);
}

#[test]
fn a_failed_site_adds_a_message_and_costs_nothing() {
    let outcomes = vec![
        SiteOutcome { site: WbVariant::Cn, models: Err("timeout".to_string()) },
        SiteOutcome { site: WbVariant::Ai, models: Ok(models(r#"[{"id": "gpt"}]"#)) },
    ];
    let list = list_models(&outcomes);
    assert_eq!(ids(&list), vec!["gpt", "intl/gpt"]);
    assert_eq!(list.get("errors"), Some(&json(r#"["Cn 模型加载失败: timeout"]"#)));

    let all_failed = vec![
        SiteOutcome { site: WbVariant::Cn, models: Err("a".to_string()) },
        SiteOutcome { site: WbVariant::Ai, models: Err("b".to_string()) },
    ];
    assert_eq!(
        list_models(&all_failed).get("errors"),
        Some(&json(r#"["Cn 模型加载失败: a", "Ai 模型加载失败: b"]"#))
    );

    let mut gathered = ModelList::new();
    gathered.add_site(&SiteOutcome { site: WbVariant::Ai, models: Err("down".to_string()) });
    let report = gathered.into_report();
    assert!(ids(&report).is_empty());
    assert_eq!(report.get("errors"), Some(&json(r#"["Ai 模型加载失败: down"]"#)));
    assert!(ids(&ModelList::new().into_list()).is_empty());
}

#[test]
fn sites_are_asked_by_their_own_accounts() {
    let accounts = models(
        r#"[{"id": "1", "variant": "ai", "access_token": "t"}, {"id": "2", "access_token": "t"},
            {"id": "3", "variant": "ai", "access_token": "t"}]"#,
    );
    let asked = sites_to_ask(&accounts, Some(r#"{"activeAccountId": "3"}"#));
    let asked: Vec<(WbVariant, &str)> = asked
        .iter()
        .map(|fetch| (fetch.site, fetch.account.get_str("id").unwrap()))
        .collect();
    assert_eq!(asked, vec![(WbVariant::Cn, "2"), (WbVariant::Ai, "3")]);
    let only_ai = sites_to_ask(&accounts[..1], None);
    assert_eq!(only_ai.len(), 1);
    assert_eq!(only_ai[0].site, WbVariant::Ai);
    assert!(sites_to_ask(&[], None).is_empty());
}

#[test]
fn models_are_found_in_the_answer_of_a_site() {
    let found = site_models(&json(r#"{"data": {"models": [{"id": "a"}, 1]}}"#));
    assert_eq!(found, models(r#"[{"id": "a"}, 1]"#));
    assert!(site_models(&json(r#"{"data": {"models": {}}}"#)).is_empty());
    assert!(site_models(&json(r#"{"data": []}"#)).is_empty());
    assert!(site_models(&json(r#"{"models": [1]}"#)).is_empty());
}

#[test]
fn answers_without_success_are_refused() {
    assert_eq!(refused_answer("https://x", 200, "200 OK"), None);
    assert_eq!(refused_answer("https://x", 299, "299"), None);
    assert_eq!(
        refused_answer("https://x", 404, "404 Not Found"),
        Some("上游 https://x 返回 404 Not Found".to_string())
    );
    assert!(refused_answer("https://x", 199, "199").is_some());
    assert!(refused_answer("https://x", 300, "300").is_some());
}

#[test]
fn models_are_refused_while_the_proxy_is_off() {
    assert!(models_refusal(true).is_none());
    let reply = models_refusal(false).unwrap();
    assert_eq!(reply.status, 404);
    assert_eq!(
        reply.body,
        json(r#"{"error": {"message": "2API 代理未开启", "type": "proxy_disabled"}}"#)
    );
}
