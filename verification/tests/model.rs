use buddy2api::json::Json;
use buddy2api::model::{multiplier_text, parse_model};
use buddy2api::variant::{WbVariant, PREFIX_CN, PREFIX_INTL};
use serde_json::Number;

#[test]
fn parse_model_reads_known_prefixes() {
    let cn = parse_model("cn/glm-5.3").unwrap();
    assert_eq!(cn.site, Some(WbVariant::Cn));
    assert_eq!(cn.model, "glm-5.3");

    let intl = parse_model("intl/deepseek-v4.1-flash").unwrap();
    assert_eq!(intl.site, Some(WbVariant::Ai));
    assert_eq!(intl.model, "deepseek-v4.1-flash");

    let plain = parse_model("deepseek-v4.1-flash").unwrap();
    assert_eq!(plain.site, None);
    assert_eq!(plain.model, "deepseek-v4.1-flash");

    // White space around the id is tolerated.
    assert_eq!(parse_model("  cn/hy3  ").unwrap().model, "hy3");
}

#[test]
fn parse_model_rejects_unknown_prefix_and_empty() {
    assert!(parse_model("").is_err());
    assert!(parse_model("cn/").is_err());
    assert!(parse_model("intl/").is_err());
    // A slash behind an unknown prefix is refused, not taken as an open name.
    assert!(parse_model("foo/bar").is_err());
    assert!(parse_model("openai/gpt-5.6").is_err());
}

#[test]
fn parse_model_says_why_it_refuses() {
    assert_eq!(parse_model(" \t\n").unwrap_err(), "model 不能为空");
    assert_eq!(parse_model("cn/").unwrap_err(), "cn/ 后缺少模型名");
    assert_eq!(parse_model(" cn/   ").unwrap_err(), "cn/ 后缺少模型名");
    assert_eq!(parse_model("intl/").unwrap_err(), "intl/ 后缺少模型名");
    assert_eq!(parse_model(" foo/bar ").unwrap_err(), "未知模型前缀: foo/bar");
    assert_eq!(parse_model("/glm").unwrap_err(), "未知模型前缀: /glm");
    assert_eq!(parse_model("CN/glm").unwrap_err(), "未知模型前缀: CN/glm");
}

#[test]
fn parse_model_binds_by_the_first_prefix_only() {
    let nested = parse_model("cn/intl/glm").unwrap();
    assert_eq!(nested.site, Some(WbVariant::Cn));
    assert_eq!(nested.upstream_model(), "intl/glm");

    let spaced = parse_model("\u{3000}intl/\u{a0}glm 5\u{2003}").unwrap();
    assert_eq!(spaced.site, Some(WbVariant::Ai));
    assert_eq!(spaced.upstream_model(), "glm 5");
}

#[test]
fn prefixes_lead_back_to_their_sites() {
    for site in [WbVariant::Cn, WbVariant::Ai] {
        let id = format!("{}glm-5.3", site.model_prefix());
        let request = parse_model(&id).unwrap();
        assert_eq!(request.site, Some(site));
        assert_eq!(request.upstream_model(), "glm-5.3");
        assert_eq!(request.clone(), request);
        let spaced = format!("{} \t glm 5 ", site.model_prefix());
        assert_eq!(parse_model(&spaced).unwrap().upstream_model(), "glm 5");
    }
    assert_eq!(PREFIX_CN, "cn/");
    assert_eq!(PREFIX_INTL, "intl/");
}

fn parse_credits(raw: Option<&Json>) -> Option<f64> {
    multiplier_text(raw)?.parse::<f64>().ok().filter(|v| v.is_finite())
}

#[test]
fn parse_credits_handles_all_observed_shapes() {
    assert_eq!(parse_credits(Some(&Json::str("x0.29"))), Some(0.29));
    assert_eq!(parse_credits(Some(&Json::str("x0.00"))), Some(0.0));
    assert_eq!(parse_credits(Some(&Json::str("x3.31 credits"))), Some(3.31));
    assert_eq!(parse_credits(Some(&Json::str("x0.34 credits"))), Some(0.34));
    assert_eq!(parse_credits(Some(&Json::str("x5.00"))), Some(5.0));
    // Empty, missing or no number: no multiplier.
    assert_eq!(parse_credits(Some(&Json::str(""))), None);
    assert_eq!(parse_credits(None), None);
    assert_eq!(parse_credits(Some(&Json::str("n/a"))), None);
    assert_eq!(parse_credits(Some(&Json::Number(Number::from_f64(1.5).unwrap()))), None);
}

#[test]
fn multiplier_text_takes_off_every_mark() {
    let text = |raw: &str| multiplier_text(Some(&Json::str(raw)));
    assert_eq!(text(" xX1.5creditscredits "), Some("1.5".to_string()));
    assert_eq!(text("2"), Some("2".to_string()));
    assert_eq!(text("credits"), Some(String::new()));
    assert_eq!(text("x"), Some(String::new()));
    assert_eq!(text("x3 credits each"), Some("3 credits each".to_string()));
    assert_eq!(text("  "), None);
    assert_eq!(multiplier_text(Some(&Json::Null)), None);
}
