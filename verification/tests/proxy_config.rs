use buddy2api::codec::parse_json;
use buddy2api::json::Json;
use buddy2api::proxy_config::{
    default_proxy_config, load_proxy_config, merged_config, proxy_enabled, save_proxy_config,
    PROXY_CONFIG_FILE,
};

#[test]
fn the_proxy_is_on_unless_turned_off() {
    assert_eq!(PROXY_CONFIG_FILE, "openai_proxy.json");
    assert_eq!(default_proxy_config().get_bool("enabled"), Some(true));
    assert!(proxy_enabled(None));
    assert!(proxy_enabled(Some("")));
    assert!(proxy_enabled(Some("broken {")));
    assert!(proxy_enabled(Some("[]")));
    assert!(proxy_enabled(Some(r#"{"enabled": "false"}"#)));
    assert!(proxy_enabled(Some(r#"{"enabled": true}"#)));
    assert!(!proxy_enabled(Some(r#"{"enabled": false}"#)));
}

#[test]
fn only_the_known_setting_is_loaded() {
    let loaded = load_proxy_config(Some(r#"{"enabled": false, "port": 1}"#));
    assert_eq!(loaded, Json::object().with("enabled", Json::Bool(false)));
    assert_eq!(load_proxy_config(None), default_proxy_config());
    let stored = parse_json(r#"{"port": 1}"#);
    assert_eq!(merged_config(stored.as_ref()), default_proxy_config());
}

#[test]
fn what_is_saved_is_read_back() {
    for (submitted, enabled) in [
        (r#"{"enabled": false, "port": 1}"#, false),
        (r#"{"enabled": true}"#, true),
        ("{}", true),
        ("null", true),
    ] {
        let text = save_proxy_config(&parse_json(submitted).unwrap());
        assert_eq!(text, format!("{{\n  \"enabled\": {enabled}\n}}"));
        assert_eq!(proxy_enabled(Some(&text)), enabled);
        assert_eq!(load_proxy_config(Some(&text)).get_bool("enabled"), Some(enabled));
    }
}
