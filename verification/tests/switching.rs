use buddy2api::json::Json;
use buddy2api::reply::{json_err, json_ok};
use buddy2api::switching::{switch_reply, SwitchDesk};

#[test]
fn one_switch_at_a_time() {
    let mut desk = SwitchDesk::new();
    assert_eq!(desk.progress().get_bool("running"), Some(false));
    assert_eq!(desk.progress().get("progress"), Some(&Json::Null));

    assert!(desk.begin().is_ok());
    assert_eq!(desk.progress().get_bool("running"), Some(true));
    assert_eq!(desk.progress().get_str("progress"), Some("开始切换账号…"));

    desk.report("half way");
    assert_eq!(desk.begin().unwrap_err(), json_err("已有切换任务进行中", 409));
    assert_eq!(desk.progress().get_str("progress"), Some("half way"));

    desk.finish();
    assert_eq!(desk.progress().get_bool("running"), Some(false));
    assert_eq!(desk.progress().get_str("progress"), Some("half way"));
    assert!(desk.begin().is_ok());
}

#[test]
fn a_switch_is_answered_by_how_it_ended() {
    assert_eq!(switch_reply(Ok(Ok(Json::str("report")))), json_ok(Json::str("report")));
    assert_eq!(switch_reply(Ok(Err("refused".to_string()))), json_err("refused", 400));
    assert_eq!(switch_reply(Err("panicked".to_string())), json_err("panicked", 500));
}
