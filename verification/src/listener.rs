//! When the desktop application listens for clients.

use vstd::prelude::*;
use vstd::string::*;

use crate::json::{optional_string, tree_in, Json, JsonView};
use crate::text::{joined, text_of};

verus! {

/// The address on which the desktop application listens.
pub const ADDRESS: &'static str = "127.0.0.1:57891";

/// What has become of the task that serves clients.
#[derive(Debug, Clone, Copy, PartialEq, Eq, Structural)]
pub enum ServerTask {
    /// There is none.
    Absent,
    /// It serves.
    Running,
    /// It came to an end by itself.
    Finished,
}

/// What is to be done about the listener.
#[derive(Debug, Clone, Copy, PartialEq, Eq, Structural)]
pub enum ListenerAction {
    /// Listen, and serve the clients that come.
    Bind,
    /// Stop serving.
    Stop,
    /// Leave everything as it is.
    Keep,
}

/// Whether clients are served, and why not.
#[derive(Debug, PartialEq, Eq)]
pub struct ListenerState {
    pub running: bool,
    pub error: Option<String>,
}

/// What a [`ListenerState`] says.
pub struct ListenerView {
    pub running: bool,
    pub error: Option<Seq<char>>,
}

impl View for ListenerState {
    type V = ListenerView;

    open spec fn view(&self) -> ListenerView {
        ListenerView {
            running: self.running,
            error: match self.error {
                Some(message) => Some(message@),
                None => None,
            },
        }
    }
}

/// What is to be done so that clients are served exactly if `enabled`. A task
/// that came to an end serves no one.
pub open spec fn planned(enabled: bool, task: ServerTask) -> ListenerAction {
    if enabled && task != ServerTask::Running {
        ListenerAction::Bind
    } else if !enabled && task == ServerTask::Running {
        ListenerAction::Stop
    } else {
        ListenerAction::Keep
    }
}

/// The state after `action` was performed; `failure` says why it could not listen.
pub open spec fn settled(
    task: ServerTask,
    action: ListenerAction,
    failure: Option<Seq<char>>,
) -> ListenerView {
    match (action, failure) {
        (ListenerAction::Bind, None) => ListenerView { running: true, error: None },
        (ListenerAction::Bind, Some(reason)) => ListenerView {
            running: false,
            error: Some("无法监听 "@ + ADDRESS@ + "："@ + reason + "。请检查端口是否被占用。"@),
        },
        (ListenerAction::Stop, _) => ListenerView { running: false, error: None },
        (ListenerAction::Keep, _) => ListenerView {
            running: task == ServerTask::Running,
            error: None,
        },
    }
}

/// What is to be done so that clients are served exactly if `enabled`.
pub fn plan(enabled: bool, task: ServerTask) -> (r: ListenerAction)
    ensures
        r == planned(enabled, task),
{
    if enabled && task != ServerTask::Running {
        ListenerAction::Bind
    } else if !enabled && task == ServerTask::Running {
        ListenerAction::Stop
    } else {
        ListenerAction::Keep
    }
}

/// The state after `action` was performed; `failure` says why it could not listen.
pub fn settle(task: ServerTask, action: ListenerAction, failure: Option<&str>) -> (r: ListenerState)
    ensures
        r@ == settled(task, action, text_of(failure)),
{
    match (action, failure) {
        (ListenerAction::Bind, None) => ListenerState { running: true, error: None },
        (ListenerAction::Bind, Some(reason)) => {
            let place = joined("无法监听 ", ADDRESS);
            let place = joined(place.as_str(), "：");
            let cause = joined(place.as_str(), reason);
            ListenerState {
                running: false,
                error: Some(joined(cause.as_str(), "。请检查端口是否被占用。")),
            }
        },
        (ListenerAction::Stop, _) => ListenerState { running: false, error: None },
        (ListenerAction::Keep, _) => ListenerState {
            running: task == ServerTask::Running,
            error: None,
        },
    }
}

/// The task that is left after `action`.
pub open spec fn task_after(
    task: ServerTask,
    action: ListenerAction,
    failure: Option<Seq<char>>,
) -> ServerTask {
    if settled(task, action, failure).running {
        ServerTask::Running
    } else {
        ServerTask::Absent
    }
}

/// Clients are served exactly if the proxy is on, but for a failure to listen;
/// and that failure, which only a proxy that is on can meet, is the only error.
pub proof fn law_serves_as_configured(enabled: bool, task: ServerTask, failure: Option<Seq<char>>)
    ensures
        ({
            let action = planned(enabled, task);
            let state = settled(task, action, failure);
            &&& state.running == (enabled && !(action is Bind && failure is Some))
            &&& state.error is Some <==> action is Bind && failure is Some
            &&& state.error is Some ==> enabled && !state.running
        }),
{
}

/// The listener is opened exactly where the proxy is on and no one serves, and
/// closed exactly where it is off and someone does. One that serves as it should
/// is left alone.
pub proof fn law_when_the_listener_changes(enabled: bool, task: ServerTask)
    ensures
        planned(enabled, task) is Bind <==> enabled && !(task is Running),
        planned(enabled, task) is Stop <==> !enabled && task is Running,
        planned(enabled, task) is Keep <==> enabled == (task is Running),
{
}

/// A failure to listen is reported with the address and the reason.
pub proof fn law_failure_is_reported(task: ServerTask, reason: Seq<char>)
    ensures
        settled(task, ListenerAction::Bind, Some(reason)).error == Some(
            "无法监听 "@ + "127.0.0.1:57891"@ + "："@ + reason + "。请检查端口是否被占用。"@,
        ),
        !settled(task, ListenerAction::Bind, Some(reason)).running,
        settled(task, ListenerAction::Bind, None).running,
        settled(task, ListenerAction::Bind, None).error is None,
{
}

/// Once clients are served as configured there is nothing more to do.
pub proof fn law_settled_stays(enabled: bool, task: ServerTask)
    ensures
        planned(enabled, task_after(task, planned(enabled, task), None)) is Keep,
{
}

/// The status of the desktop listener, as the user interface shows it.
pub open spec fn status_tree(
    enabled: bool,
    state: ListenerView,
    config: JsonView,
    account: Option<JsonView>,
) -> JsonView {
    JsonView::empty().with("enabled"@, JsonView::Bool(enabled)).with(
        "running"@,
        JsonView::Bool(state.running),
    ).with("error"@, optional_string(state.error)).with(
        "baseUrl"@,
        JsonView::Str("http://"@ + ADDRESS@ + "/v1"@),
    ).with("config"@, config).with(
        "activeAccount"@,
        match account {
            Some(meta) => meta,
            None => JsonView::Null,
        },
    )
}

/// The status of the desktop listener, with what may be shown of the active account.
pub fn status(enabled: bool, state: ListenerState, config: Json, account: Option<Json>) -> (r: Json)
    ensures
        r@ == status_tree(enabled, state@, config@, tree_in(account)),
{
    let base = joined("http://", ADDRESS);
    let error = match &state.error {
        Some(message) => Json::str(message.as_str()),
        None => Json::Null,
    };
    Json::object().with("enabled", Json::Bool(enabled)).with(
        "running",
        Json::Bool(state.running),
    ).with("error", error).with("baseUrl", Json::Str(joined(base.as_str(), "/v1"))).with(
        "config",
        config,
    ).with(
        "activeAccount",
        match account {
            Some(meta) => meta,
            None => Json::Null,
        },
    )
}

/// The status shows the setting, whether clients are served, why not, where they
/// are, the configuration and the active account, each under its own key, and
/// nothing else.
pub proof fn law_status(
    enabled: bool,
    state: ListenerView,
    config: JsonView,
    account: Option<JsonView>,
    key: Seq<char>,
)
    ensures
        ({
            let shown = status_tree(enabled, state, config, account);
            &&& shown.member("enabled"@) == Some(JsonView::Bool(enabled))
            &&& shown.member("running"@) == Some(JsonView::Bool(state.running))
            &&& state.error matches Some(message) ==> shown.member("error"@) == Some(
                JsonView::Str(message),
            )
            &&& state.error is None ==> shown.member("error"@) == Some(JsonView::Null)
            &&& shown.member("baseUrl"@) == Some(
                JsonView::Str("http://"@ + "127.0.0.1:57891"@ + "/v1"@),
            )
            &&& shown.member("config"@) == Some(config)
            &&& account matches Some(meta) ==> shown.member("activeAccount"@) == Some(meta)
            &&& account is None ==> shown.member("activeAccount"@) == Some(JsonView::Null)
            &&& shown.member(key) is Some ==> key == "enabled"@ || key == "running"@ || key
                == "error"@ || key == "baseUrl"@ || key == "config"@ || key == "activeAccount"@
        }),
{
    reveal_strlit("enabled");
    reveal_strlit("running");
    reveal_strlit("error");
    reveal_strlit("baseUrl");
    reveal_strlit("config");
    reveal_strlit("activeAccount");
    assert("enabled"@[0] == 'e' && "running"@[0] == 'r' && "baseUrl"@[0] == 'b');
    assert("error"@.len() == 5 && "config"@.len() == 6 && "activeAccount"@.len() == 13);
}

/// A state of the listener says whether clients are served and why not.
pub proof fn law_listener_view(state: ListenerState)
    ensures
        state@.running == state.running,
        state.error matches Some(message) ==> state@.error == Some(message@),
        state.error is None ==> state@.error is None,
{
}

} // verus!
