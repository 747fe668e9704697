//! One switch of accounts at a time, and how far it has come.

use vstd::prelude::*;
use vstd::string::*;

use crate::json::{optional_string, Json, JsonView};
use crate::reply::{err_reply, json_err, json_outcome, ok_reply, Reply, ReplyView};

verus! {

/// The switch that is under way, if one is, and the last word on its progress.
#[derive(Debug)]
pub struct SwitchDesk {
    running: bool,
    progress: Option<String>,
}

/// What a [`SwitchDesk`] knows.
pub struct DeskView {
    pub running: bool,
    pub progress: Option<Seq<char>>,
}

impl View for SwitchDesk {
    type V = DeskView;

    closed spec fn view(&self) -> DeskView {
        DeskView {
            running: self.running,
            progress: match self.progress {
                Some(message) => Some(message@),
                None => None,
            },
        }
    }
}

impl DeskView {
    pub open spec fn idle() -> DeskView {
        DeskView { running: false, progress: None }
    }

    /// A switch is asked for: it starts unless another one is under way.
    pub open spec fn asked(self) -> DeskView {
        if self.running {
            self
        } else {
            DeskView { running: true, progress: Some("开始切换账号…"@) }
        }
    }

    pub open spec fn told(self, message: Seq<char>) -> DeskView {
        DeskView { progress: Some(message), ..self }
    }

    pub open spec fn ended(self) -> DeskView {
        DeskView { running: false, ..self }
    }
}

impl SwitchDesk {
    /// No switch under way, and none before.
    pub fn new() -> (r: SwitchDesk)
        ensures
            r@ == DeskView::idle(),
    {
        SwitchDesk { running: false, progress: None }
    }

    /// Starts a switch, or refuses it where another one is under way.
    pub fn begin(&mut self) -> (r: Result<(), Reply>)
        ensures
            final(self)@ == old(self)@.asked(),
            r is Err <==> old(self)@.running,
            r matches Err(reply) ==> reply@ == err_reply("已有切换任务进行中"@, 409),
    {
        if self.running {
            return Err(json_err("已有切换任务进行中", 409));
        }
        self.running = true;
        self.progress = Some("开始切换账号…".to_owned());
        Ok(())
    }

    /// Notes how far the switch has come.
    pub fn report(&mut self, message: &str)
        ensures
            final(self)@ == old(self)@.told(message@),
    {
        self.progress = Some(message.to_owned());
    }

    /// Ends the switch, however it went.
    pub fn finish(&mut self)
        ensures
            final(self)@ == old(self)@.ended(),
    {
        self.running = false;
    }

    /// How far the switch has come, as the user interface asks for it.
    pub fn progress(&self) -> (r: Json)
        ensures
            r@ == progress_tree(self@),
    {
        let progress = match &self.progress {
            Some(message) => Json::str(message.as_str()),
            None => Json::Null,
        };
        Json::object().with("running", Json::Bool(self.running)).with("progress", progress)
    }
}

pub open spec fn progress_tree(desk: DeskView) -> JsonView {
    JsonView::empty().with("running"@, JsonView::Bool(desk.running)).with(
        "progress"@,
        optional_string(desk.progress),
    )
}

/// How a switch came to an end: with a report, with a refusal, or with a task
/// that broke down before it could report.
pub enum EndView {
    Reported(JsonView),
    Refused(Seq<char>),
    Broken(Seq<char>),
}

pub open spec fn end_of(outcome: Result<Result<Json, String>, String>) -> EndView {
    match outcome {
        Ok(Ok(report)) => EndView::Reported(report@),
        Ok(Err(message)) => EndView::Refused(message@),
        Err(message) => EndView::Broken(message@),
    }
}

pub open spec fn end_reply(end: EndView) -> ReplyView {
    match end {
        EndView::Reported(report) => ok_reply(report),
        EndView::Refused(message) => err_reply(message, 400),
        EndView::Broken(message) => err_reply(message, 500),
    }
}

/// The answer to a switch that came to an end. `Err` stands for a task that
/// broke down before it could report.
pub fn switch_reply(outcome: Result<Result<Json, String>, String>) -> (r: Reply)
    ensures
        r@ == end_reply(end_of(outcome)),
        r@ == match outcome {
            Ok(Ok(report)) => ok_reply(report@),
            Ok(Err(message)) => err_reply(message@, 400),
            Err(message) => err_reply(message@, 500),
        },
{
    match outcome {
        Ok(result) => json_outcome(result),
        Err(message) => json_err(message.as_str(), 500),
    }
}

/// What can happen at the desk.
pub enum DeskEvent {
    Asked,
    Told(Seq<char>),
    Ended,
}

/// What the desk knows after `event`.
pub open spec fn desk_after(desk: DeskView, event: DeskEvent) -> DeskView {
    match event {
        DeskEvent::Asked => desk.asked(),
        DeskEvent::Told(message) => desk.told(message),
        DeskEvent::Ended => desk.ended(),
    }
}

/// What the desk knows after all of `events`.
pub open spec fn desk_after_all(desk: DeskView, events: Seq<DeskEvent>) -> DeskView
    decreases events.len(),
{
    if events.len() == 0 {
        desk
    } else {
        desk_after(desk_after_all(desk, events.drop_last()), events.last())
    }
}

/// While a switch is under way every other one is refused and disturbs nothing:
/// until the first one ends, the desk stays taken.
pub proof fn law_one_switch_at_a_time(desk: DeskView, events: Seq<DeskEvent>)
    requires
        desk.running,
        forall|i: int| 0 <= i < events.len() ==> !((#[trigger] events[i]) is Ended),
    ensures
        desk_after_all(desk, events).running,
        desk_after_all(desk, events).asked() == desk_after_all(desk, events),
    decreases events.len(),
{
    if events.len() > 0 {
        let shorter = events.drop_last();
        assert forall|i: int| 0 <= i < shorter.len() implies !((#[trigger] shorter[i]) is Ended) by {
            assert(shorter[i] == events[i]);
        }
        law_one_switch_at_a_time(desk, shorter);
    }
}

/// Once a switch has ended the next one can start.
pub proof fn law_ended_switch_frees_the_desk(desk: DeskView)
    ensures
        !desk.ended().running,
        desk.ended().asked().running,
        desk.ended().progress == desk.progress,
{
}

/// A switch that starts is under way and says so; one that is refused changes
/// nothing. What is told of it is shown, and its end changes nothing but that it
/// is over.
pub proof fn law_desk(desk: DeskView, message: Seq<char>)
    ensures
        !DeskView::idle().running,
        DeskView::idle().progress is None,
        desk.running ==> desk.asked() == desk,
        !desk.running ==> desk.asked().running && desk.asked().progress == Some("开始切换账号…"@),
        desk.told(message).progress == Some(message),
        desk.told(message).running == desk.running,
        !desk.ended().running,
        desk.ended().progress == desk.progress,
{
}

/// The progress shows whether a switch is under way and the last word on it,
/// and nothing else.
pub proof fn law_progress(desk: DeskView, key: Seq<char>)
    ensures
        progress_tree(desk).member("running"@) == Some(JsonView::Bool(desk.running)),
        desk.progress matches Some(message) ==> progress_tree(desk).member("progress"@) == Some(
            JsonView::Str(message),
        ),
        desk.progress is None ==> progress_tree(desk).member("progress"@) == Some(JsonView::Null),
        key != "running"@ && key != "progress"@ ==> progress_tree(desk).member(key) is None,
{
    reveal_strlit("running");
    reveal_strlit("progress");
    assert("running"@.len() == 7 && "progress"@.len() == 8);
}

/// A report is the answer as it is. A refusal is a bad request with its message,
/// and a broken task an error of the server with its message.
pub proof fn law_end_of_a_switch(report: JsonView, message: Seq<char>)
    ensures
        end_reply(EndView::Reported(report)).status == 200,
        end_reply(EndView::Reported(report)).body == report,
        end_reply(EndView::Refused(message)).status == 400,
        end_reply(EndView::Refused(message)).body.member("error"@) == Some(JsonView::Str(message)),
        end_reply(EndView::Broken(message)).status == 500,
        end_reply(EndView::Broken(message)).body.member("error"@) == Some(JsonView::Str(message)),
{
}

} // verus!
