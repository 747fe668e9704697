use buddy2api::json::Json;
use buddy2api::listener::{
    plan, settle, status, ListenerAction, ListenerState, ServerTask, ADDRESS,
};

/// The state after one round, and the task that is left.
fn reconcile(
    enabled: bool,
    task: ServerTask,
    failure: Option<&str>,
) -> ((bool, Option<String>), ServerTask) {
    let state = settle(task, plan(enabled, task), failure);
    let left = if state.running { ServerTask::Running } else { ServerTask::Absent };
    ((state.running, state.error), left)
}

#[test]
fn the_listener_reports_conflicts_serves_and_stops() {
    let ((running, error), task) = reconcile(true, ServerTask::Absent, Some("in use"));
    assert!(!running);
    assert_eq!(
        error.unwrap(),
        "无法监听 127.0.0.1:57891：in use。请检查端口是否被占用。"
    );

    let (state, task) = reconcile(true, task, None);
    assert_eq!(state, (true, None));
    let (state, task) = reconcile(true, task, None);
    assert_eq!(state, (true, None));
    let (state, task) = reconcile(false, task, None);
    assert_eq!(state, (false, None));
    assert_eq!(plan(false, task), ListenerAction::Keep);
}

#[test]
fn a_task_that_ended_is_replaced_or_forgotten() {
    assert_eq!(plan(true, ServerTask::Finished), ListenerAction::Bind);
    assert_eq!(reconcile(true, ServerTask::Finished, None).0, (true, None));
    assert_eq!(plan(false, ServerTask::Finished), ListenerAction::Keep);
    assert_eq!(reconcile(false, ServerTask::Finished, None).0, (false, None));
    assert_eq!(plan(true, ServerTask::Running), ListenerAction::Keep);
    assert_eq!(plan(false, ServerTask::Running), ListenerAction::Stop);
}

#[test]
fn the_status_shows_the_whole_state() {
    let state = ListenerState { running: false, error: Some("busy".to_string()) };
    let shown = status(true, state, Json::object(), None);
    assert_eq!(shown.get_bool("enabled"), Some(true));
    assert_eq!(shown.get_bool("running"), Some(false));
    assert_eq!(shown.get_str("error"), Some("busy"));
    assert_eq!(shown.get_str("baseUrl"), Some("http://127.0.0.1:57891/v1"));
    assert_eq!(shown.get("config"), Some(&Json::object()));
    assert_eq!(shown.get("activeAccount"), Some(&Json::Null));
    let state = ListenerState { running: true, error: None };
    let shown = status(true, state, Json::object(), Some(Json::str("me")));
    assert_eq!(shown.get("error"), Some(&Json::Null));
    assert_eq!(shown.get_str("activeAccount"), Some("me"));
    assert_eq!(ADDRESS, "127.0.0.1:57891");
}
