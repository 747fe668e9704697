//! What holds of every chat request, whatever happens to it on its way.

use vstd::prelude::*;
use vstd::string::*;

use crate::chat::{
    asked_model, chat_begins, chat_goes_on, expects, sends, ChatAction, ChatActionView, ChatEvent,
    ChatEventView, ChatState, ChatStateView, RecordView,
};
use crate::json::JsonView;
use crate::model::{law_model_has_name, parsed_model};
use crate::reply::openai_reply;
use crate::upstream::{chat_address, headers_for};
use crate::variant::variant_of;

verus! {

/// Whether the events can follow one another from `state` on.
pub open spec fn possible(state: ChatStateView, events: Seq<ChatEventView>) -> bool
    decreases events.len(),
{
    events.len() > 0 ==> expects(state, events.first()) && possible(
        chat_goes_on(state, events.first()).state,
        events.drop_first(),
    )
}

/// The actions that the events lead to from `state` on.
pub open spec fn actions(state: ChatStateView, events: Seq<ChatEventView>) -> Seq<ChatActionView>
    decreases events.len(),
{
    if events.len() == 0 {
        Seq::empty()
    } else {
        let step = chat_goes_on(state, events.first());
        seq![step.action] + actions(step.state, events.drop_first())
    }
}

/// The state that the events lead to from `state` on.
pub open spec fn state_after(state: ChatStateView, events: Seq<ChatEventView>) -> ChatStateView
    decreases events.len(),
{
    if events.len() == 0 {
        state
    } else {
        state_after(chat_goes_on(state, events.first()).state, events.drop_first())
    }
}

pub open spec fn send_count(list: Seq<ChatActionView>) -> nat {
    list.filter(|action: ChatActionView| action is Send).len()
}

pub open spec fn refresh_count(list: Seq<ChatActionView>) -> nat {
    list.filter(|action: ChatActionView| action is Refresh).len()
}

pub open spec fn end_count(list: Seq<ChatActionView>) -> nat {
    list.filter(|action: ChatActionView| action is Answer || action is Forward).len()
}

/// How many events a request can still wait for.
pub open spec fn events_left(state: ChatStateView) -> nat {
    match state {
        ChatStateView::Selecting { .. } => 5,
        ChatStateView::Freshening { .. } => 4,
        ChatStateView::Sending { .. } => 3,
        ChatStateView::Refreshing { .. } => 2,
        ChatStateView::Resending { .. } => 1,
        ChatStateView::Done => 0,
    }
}

/// How often a request can still be sent.
pub open spec fn sends_left(state: ChatStateView) -> nat {
    match state {
        ChatStateView::Selecting { .. } => 2,
        ChatStateView::Freshening { .. } => 2,
        ChatStateView::Sending { .. } => 1,
        ChatStateView::Refreshing { .. } => 1,
        ChatStateView::Resending { .. } => 0,
        ChatStateView::Done => 0,
    }
}

/// How often the token can still be renewed after a refusal.
pub open spec fn refreshes_left(state: ChatStateView) -> nat {
    match state {
        ChatStateView::Selecting { .. } => 1,
        ChatStateView::Freshening { .. } => 1,
        ChatStateView::Sending { .. } => 1,
        _ => 0,
    }
}

/// The body that a request will be sent with, as long as that is still ahead.
pub open spec fn body_ahead(state: ChatStateView) -> Option<JsonView> {
    match state {
        ChatStateView::Selecting { body } => Some(body),
        ChatStateView::Freshening { body } => Some(body),
        ChatStateView::Sending { body, .. } => Some(body),
        ChatStateView::Refreshing { body, .. } => Some(body),
        _ => None,
    }
}

proof fn lemma_filter_front<A>(head: A, tail: Seq<A>, keep: spec_fn(A) -> bool)
    ensures
        (seq![head] + tail).filter(keep).len() == tail.filter(keep).len() + if keep(head) {
            1nat
        } else {
            0nat
        },
    decreases tail.len(),
{
    reveal(Seq::filter);
    let all = seq![head] + tail;
    if tail.len() == 0 {
        assert(tail.filter(keep).len() == 0);
        assert(all.drop_last() =~= tail);
        assert(all.last() == head);
    } else {
        lemma_filter_front(head, tail.drop_last(), keep);
        assert(all.drop_last() =~= seq![head] + tail.drop_last());
        assert(all.last() == tail.last());
    }
}

proof fn lemma_counts(state: ChatStateView, events: Seq<ChatEventView>)
    requires
        possible(state, events),
    ensures
        events.len() <= events_left(state),
        send_count(actions(state, events)) <= sends_left(state),
        refresh_count(actions(state, events)) <= refreshes_left(state),
        end_count(actions(state, events)) <= 1,
        !(state is Done) ==> (end_count(actions(state, events)) == 1 <==> state_after(
            state,
            events,
        ) is Done),
    decreases events.len(),
{
    let is_send = |action: ChatActionView| action is Send;
    let is_refresh = |action: ChatActionView| action is Refresh;
    let is_end = |action: ChatActionView| action is Answer || action is Forward;
    if events.len() == 0 {
        reveal(Seq::filter);
    } else {
        let step = chat_goes_on(state, events.first());
        let rest = events.drop_first();
        lemma_counts(step.state, rest);
        lemma_filter_front(step.action, actions(step.state, rest), is_send);
        lemma_filter_front(step.action, actions(step.state, rest), is_refresh);
        lemma_filter_front(step.action, actions(step.state, rest), is_end);
        if step.state is Done {
            assert(rest.len() == 0);
            reveal(Seq::filter);
        }
    }
}

/// A request ends: after at most five events the client has its answer, and
/// until then there is always an event that the request waits for.
pub proof fn law_request_ends(state: ChatStateView, events: Seq<ChatEventView>)
    requires
        possible(state, events),
    ensures
        events.len() <= events_left(state),
        events_left(state) <= 5,
        !(state_after(state, events) is Done) <==> exists|event: ChatEventView|
            expects(state_after(state, events), event),
{
    lemma_counts(state, events);
    let last = state_after(state, events);
    match last {
        ChatStateView::Selecting { .. } => {
            assert(expects(last, ChatEventView::Selected(None)));
        },
        ChatStateView::Freshening { .. } => {
            assert(expects(last, ChatEventView::Fresh(JsonView::Null)));
        },
        ChatStateView::Refreshing { .. } => {
            assert(expects(last, ChatEventView::Refreshed(JsonView::Null)));
        },
        _ => {
            assert(!(last is Done) ==> expects(last, ChatEventView::Answered(200)));
        },
    }
}

/// A request goes upstream at most twice, and the token is renewed after a
/// refusal at most once.
pub proof fn law_one_retry(
    enabled: bool,
    body: JsonView,
    session_key: Option<Seq<char>>,
    events: Seq<ChatEventView>,
)
    requires
        possible(chat_begins(enabled, body, session_key).state, events),
    ensures
        send_count(actions(chat_begins(enabled, body, session_key).state, events)) <= 2,
        refresh_count(actions(chat_begins(enabled, body, session_key).state, events)) <= 1,
{
    lemma_counts(chat_begins(enabled, body, session_key).state, events);
}

/// A client gets one answer, and gets it when the request is done.
pub proof fn law_one_answer(
    enabled: bool,
    body: JsonView,
    session_key: Option<Seq<char>>,
    events: Seq<ChatEventView>,
)
    requires
        possible(chat_begins(enabled, body, session_key).state, events),
    ensures
        ({
            let first = chat_begins(enabled, body, session_key);
            let all = seq![first.action] + actions(first.state, events);
            &&& end_count(all) <= 1
            &&& end_count(all) == 1 <==> state_after(first.state, events) is Done
        }),
{
    let first = chat_begins(enabled, body, session_key);
    lemma_counts(first.state, events);
    lemma_filter_front(
        first.action,
        actions(first.state, events),
        |action: ChatActionView| action is Answer || action is Forward,
    );
    if first.state is Done {
        assert(events.len() == 0);
        reveal(Seq::filter);
    }
}

/// Where the proxy is off, no account is touched and nothing goes upstream.
pub proof fn law_off_is_off(body: JsonView, session_key: Option<Seq<char>>)
    ensures
        chat_begins(false, body, session_key).state is Done,
        chat_begins(false, body, session_key).action == (ChatActionView::Answer {
            reply: openai_reply("2API 代理未开启"@, 404, "proxy_disabled"@),
        }),
{
}

/// A request for a model that is none is answered at once, with the reason.
pub proof fn law_bad_model_is_refused(body: JsonView, session_key: Option<Seq<char>>)
    requires
        parsed_model(asked_model(body)) is Err,
    ensures
        chat_begins(true, body, session_key).state is Done,
        chat_begins(true, body, session_key).action == (ChatActionView::Answer {
            reply: openai_reply(
                parsed_model(asked_model(body))->Err_0,
                400,
                "invalid_request_error"@,
            ),
        }),
{
}

/// An account is asked for at the site that the model is bound to, at any site
/// where it is bound to none, and always for the session that the client names.
pub proof fn law_site_and_session_are_handed_on(body: JsonView, session_key: Option<Seq<char>>)
    requires
        parsed_model(asked_model(body)) is Ok,
    ensures
        chat_begins(true, body, session_key).state is Selecting,
        chat_begins(true, body, session_key).action == (ChatActionView::Select {
            site: parsed_model(asked_model(body))->Ok_0.site,
            session_key,
        }),
{
}

proof fn lemma_sent_body(state: ChatStateView, events: Seq<ChatEventView>, i: int)
    requires
        possible(state, events),
        0 <= i < actions(state, events).len(),
        actions(state, events)[i] is Send,
    ensures
        body_ahead(state) == Some(actions(state, events)[i]->Send_body),
    decreases events.len(),
{
    if events.len() > 0 {
        let step = chat_goes_on(state, events.first());
        let rest = events.drop_first();
        if i > 0 {
            assert(actions(state, events)[i] == actions(step.state, rest)[i - 1]);
            lemma_sent_body(step.state, rest, i - 1);
        }
    }
}

/// What goes upstream is what the client sent, with the name of the model in
/// place of the id that the client used. It is the same at every try.
pub proof fn law_body_is_passed_on(
    body: JsonView,
    session_key: Option<Seq<char>>,
    events: Seq<ChatEventView>,
    i: int,
)
    requires
        possible(chat_begins(true, body, session_key).state, events),
        0 <= i < actions(chat_begins(true, body, session_key).state, events).len(),
        actions(chat_begins(true, body, session_key).state, events)[i] is Send,
    ensures
        ({
            let sent = actions(chat_begins(true, body, session_key).state, events)[i]->Send_body;
            &&& parsed_model(asked_model(body)) is Ok
            &&& sent.text_at("model"@) == Some(parsed_model(asked_model(body))->Ok_0.model)
            &&& sent is Object && body is Object
            &&& forall|key: Seq<char>|
                key != "model"@ ==> #[trigger] sent.member(key) == body.member(key)
        }),
{
    let first = chat_begins(true, body, session_key);
    lemma_sent_body(first.state, events, i);
    law_model_has_name(asked_model(body));
}

/// The account that an event hands to the request, to go on with in its name.
pub open spec fn account_given(event: ChatEventView) -> Option<JsonView> {
    match event {
        ChatEventView::Fresh(account) => Some(account),
        ChatEventView::Refreshed(account) => Some(account),
        _ => None,
    }
}

proof fn lemma_sent_for(state: ChatStateView, events: Seq<ChatEventView>, i: int)
    requires
        possible(state, events),
        0 <= i < actions(state, events).len(),
        actions(state, events)[i] is Send,
    ensures
        i < events.len(),
        account_given(events[i]) is Some,
        actions(state, events)[i] == sends(
            account_given(events[i])->Some_0,
            body_ahead(state)->Some_0,
        ),
    decreases events.len(),
{
    if events.len() > 0 && i > 0 {
        let step = chat_goes_on(state, events.first());
        let rest = events.drop_first();
        assert(actions(state, events)[i] == actions(step.state, rest)[i - 1]);
        lemma_sent_for(step.state, rest, i - 1);
        lemma_sent_body(step.state, rest, i - 1);
        lemma_sent_body(state, events, i);
        assert(events[i] == rest[i - 1]);
    }
}

/// Every request goes to the site of the account, in the account's name: of the
/// account as it is after the last look at its token.
pub proof fn law_sent_in_the_accounts_name(
    state: ChatStateView,
    events: Seq<ChatEventView>,
    i: int,
)
    requires
        possible(state, events),
        0 <= i < actions(state, events).len(),
        actions(state, events)[i] is Send,
    ensures
        i < events.len(),
        account_given(events[i]) is Some,
        ({
            let account = account_given(events[i])->Some_0;
            let sent = actions(state, events)[i];
            &&& sent->Send_url == chat_address(variant_of(account))
            &&& sent->Send_headers == headers_for(account)
        }),
{
    lemma_sent_for(state, events, i);
}

/// Nothing goes upstream before the token of the chosen account was looked at.
pub proof fn law_token_is_looked_at_first(
    enabled: bool,
    body: JsonView,
    session_key: Option<Seq<char>>,
    events: Seq<ChatEventView>,
    i: int,
)
    requires
        possible(chat_begins(enabled, body, session_key).state, events),
        0 <= i < actions(chat_begins(enabled, body, session_key).state, events).len(),
        actions(chat_begins(enabled, body, session_key).state, events)[i] is Send,
    ensures
        i > 0,
        events[0] matches ChatEventView::Selected(Some(account)) && actions(
            chat_begins(enabled, body, session_key).state,
            events,
        )[0] == (ChatActionView::Freshen { account }),
{
    reveal_with_fuel(possible, 2);
    let first = chat_begins(enabled, body, session_key);
    lemma_sent_for(first.state, events, i);
    let step = chat_goes_on(first.state, events.first());
    let rest = events.drop_first();
    assert(actions(first.state, events)[0] == step.action);
    if i > 0 {
        assert(actions(first.state, events)[i] == actions(step.state, rest)[i - 1]);
        assert(expects(step.state, rest.first()));
    }
}

/// An account is charged with a failure exactly where the last upstream status
/// is 401 or 403, and credited with a success exactly where it is one from 200 to
/// 299. Every other status, and a request that did not get through, counts
/// neither way.
pub proof fn law_what_counts(state: ChatStateView, event: ChatEventView)
    requires
        expects(state, event),
    ensures
        event is Failed ==> chat_goes_on(state, event).action is Answer,
        chat_goes_on(state, event).action matches ChatActionView::Forward { record } ==> {
            let status = match state {
                ChatStateView::Refreshing { status, .. } => status,
                _ => event->Answered_0,
            };
            &&& record is Some && record->Some_0.failed <==> status == 401 || status == 403
            &&& record is Some && !record->Some_0.failed <==> 200 <= status <= 299
        },
        chat_goes_on(state, event).action matches ChatActionView::Forward {
            record: Some(record),
        } ==> match state {
            ChatStateView::Sending { account, .. } => record.account == account,
            ChatStateView::Refreshing { account, .. } => record.account == account,
            ChatStateView::Resending { account } => record.account == account,
            _ => false,
        },
{
}

/// The token is renewed exactly where the first upstream status is 401 or 403:
/// then for the account that was refused, and with the request kept for a second
/// try. Every other first status ends the request at once.
pub proof fn law_when_the_token_is_renewed(state: ChatStateView, event: ChatEventView)
    requires
        expects(state, event),
    ensures
        chat_goes_on(state, event).action is Refresh <==> state is Sending && (event
            == ChatEventView::Answered(401) || event == ChatEventView::Answered(403)),
        chat_goes_on(state, event).state is Refreshing <==> chat_goes_on(
            state,
            event,
        ).action is Refresh,
        state matches ChatStateView::Sending { account, body } ==> event
            matches ChatEventView::Answered(status) ==> if status == 401 || status == 403 {
            &&& chat_goes_on(state, event).action == (ChatActionView::Refresh { account })
            &&& chat_goes_on(state, event).state == (ChatStateView::Refreshing {
                account,
                body,
                status,
            })
        } else {
            &&& chat_goes_on(state, event).action is Forward
            &&& chat_goes_on(state, event).state is Done
        },
{
}

/// A request is sent when the token was looked at, and once more when it was
/// renewed for an account that need not log in again; at no other time.
pub proof fn law_when_a_request_is_sent(state: ChatStateView, event: ChatEventView)
    requires
        expects(state, event),
    ensures
        chat_goes_on(state, event).action is Send <==> state is Freshening || (state is Refreshing
            && event->Refreshed_0.member("needs_relogin"@) != Some(JsonView::Bool(true))),
        state is Refreshing && event->Refreshed_0.member("needs_relogin"@) == Some(
            JsonView::Bool(true),
        ) ==> chat_goes_on(state, event).action is Forward && chat_goes_on(state, event).state is Done,
{
}

/// Over a whole course: where a request goes upstream a second time, the answer
/// to the first was 401 or 403 and the token was renewed in between.
pub proof fn law_second_try_follows_a_refusal(
    enabled: bool,
    body: JsonView,
    session_key: Option<Seq<char>>,
    events: Seq<ChatEventView>,
    i: int,
    j: int,
)
    requires
        possible(chat_begins(enabled, body, session_key).state, events),
        0 <= i < j < actions(chat_begins(enabled, body, session_key).state, events).len(),
        actions(chat_begins(enabled, body, session_key).state, events)[i] is Send,
        actions(chat_begins(enabled, body, session_key).state, events)[j] is Send,
    ensures
        i == 1,
        j == 3,
        events[2] == ChatEventView::Answered(401) || events[2] == ChatEventView::Answered(403),
        actions(chat_begins(enabled, body, session_key).state, events)[2] is Refresh,
        events[3] is Refreshed,
{
    reveal_with_fuel(possible, 6);
    reveal_with_fuel(actions, 6);
    let first = chat_begins(enabled, body, session_key);
    lemma_counts(first.state, events);
    lemma_actions_len(first.state, events);
    let e0 = events;
    let s1 = chat_goes_on(first.state, e0.first()).state;
    let e1 = e0.drop_first();
    let s2 = chat_goes_on(s1, e1.first()).state;
    let e2 = e1.drop_first();
    let s3 = chat_goes_on(s2, e2.first()).state;
    let e3 = e2.drop_first();
    let s4 = chat_goes_on(s3, e3.first()).state;
    let e4 = e3.drop_first();
    lemma_action_at(first.state, e0, i);
    lemma_action_at(first.state, e0, j);
    if j >= 1 {
        lemma_action_at(s1, e1, j - 1);
    }
    if i >= 1 {
        lemma_action_at(s1, e1, i - 1);
    }
    if j >= 2 {
        lemma_action_at(s2, e2, j - 2);
    }
    if i >= 2 {
        lemma_action_at(s2, e2, i - 2);
    }
    if j >= 3 {
        lemma_action_at(s3, e3, j - 3);
    }
    if i >= 3 {
        lemma_action_at(s3, e3, i - 3);
    }
    if j >= 4 {
        lemma_action_at(s4, e4, j - 4);
    }
    assert(events[2] == e2.first());
    assert(events[3] == e3.first());
}

proof fn lemma_actions_len(state: ChatStateView, events: Seq<ChatEventView>)
    ensures
        actions(state, events).len() == events.len(),
    decreases events.len(),
{
    if events.len() > 0 {
        lemma_actions_len(chat_goes_on(state, events.first()).state, events.drop_first());
    }
}

/// An action is that of the first event, or one of those that follow it.
proof fn lemma_action_at(state: ChatStateView, events: Seq<ChatEventView>, i: int)
    requires
        0 <= i < events.len(),
    ensures
        actions(state, events).len() == events.len(),
        i == 0 ==> actions(state, events)[i] == chat_goes_on(state, events.first()).action,
        i > 0 ==> actions(state, events)[i] == actions(
            chat_goes_on(state, events.first()).state,
            events.drop_first(),
        )[i - 1],
{
    lemma_actions_len(state, events);
    lemma_actions_len(chat_goes_on(state, events.first()).state, events.drop_first());
}

/// Where there is no account the client is told so; else the token of the one
/// that was chosen is looked at, and the request is kept as it is.
pub proof fn law_choice(body: JsonView, account: JsonView)
    ensures
        ({
            let none = chat_goes_on(
                ChatStateView::Selecting { body },
                ChatEventView::Selected(None),
            );
            let some = chat_goes_on(
                ChatStateView::Selecting { body },
                ChatEventView::Selected(Some(account)),
            );
            &&& none.state is Done
            &&& none.action == (ChatActionView::Answer {
                reply: openai_reply("没有可用账号：请先在账号页添加账号"@, 502, "no_account"@),
            })
            &&& some.state == (ChatStateView::Freshening { body })
            &&& some.action == (ChatActionView::Freshen { account })
        }),
{
}

/// A request goes on with the account as the last look at its token left it, and
/// the answer to a second try is passed on, whatever it is.
pub proof fn law_next_states(account: JsonView, body: JsonView, refreshed: JsonView, status: u16)
    ensures
        chat_goes_on(ChatStateView::Freshening { body }, ChatEventView::Fresh(account)).state == (
        ChatStateView::Sending { account, body }),
        refreshed.member("needs_relogin"@) != Some(JsonView::Bool(true)) ==> chat_goes_on(
            ChatStateView::Refreshing { account, body, status },
            ChatEventView::Refreshed(refreshed),
        ).state == (ChatStateView::Resending { account: refreshed }),
        chat_goes_on(
            ChatStateView::Resending { account },
            ChatEventView::Answered(status),
        ).action is Forward,
        chat_goes_on(
            ChatStateView::Resending { account },
            ChatEventView::Answered(status),
        ).state is Done,
{
}

/// What a request waits for: the answer to what was done last, and for one that
/// was sent the upstream answer or its failure. One that is done waits for nothing.
pub proof fn law_what_is_awaited(state: ChatStateView, event: ChatEventView)
    ensures
        expects(state, event) <==> (state is Selecting && event is Selected) || (state is Freshening
            && event is Fresh) || ((state is Sending || state is Resending) && (event is Answered
            || event is Failed)) || (state is Refreshing && event is Refreshed),
{
}

/// A request that did not get through is answered with the reason, at the first
/// try as at the second.
pub proof fn law_lost_request(account: JsonView, body: JsonView, reason: Seq<char>)
    ensures
        ({
            let event = ChatEventView::Failed(reason);
            let answer = ChatActionView::Answer {
                reply: openai_reply("上游请求失败: "@ + reason, 502, "upstream_error"@),
            };
            let first = chat_goes_on(ChatStateView::Sending { account, body }, event);
            let second = chat_goes_on(ChatStateView::Resending { account }, event);
            &&& first.state is Done && first.action == answer
            &&& second.state is Done && second.action == answer
        }),
{
}

/// The model that a request names is its string member `model`.
pub proof fn law_asked_model(body: JsonView)
    ensures
        asked_model(body) == match body.member("model"@) {
            Some(JsonView::Str(model)) => model,
            _ => Seq::empty(),
        },
{
}

/// A refusal is answered with one new token and one more try, unless the
/// account has to log in again; then the refusal is passed on.
pub proof fn law_refusal(account: JsonView, body: JsonView, status: u16, refreshed: JsonView)
    requires
        status == 401 || status == 403,
    ensures
        ({
            let asked = chat_goes_on(
                ChatStateView::Sending { account, body },
                ChatEventView::Answered(status),
            );
            let then = chat_goes_on(asked.state, ChatEventView::Refreshed(refreshed));
            &&& asked.action == (ChatActionView::Refresh { account })
            &&& refreshed.member("needs_relogin"@) == Some(JsonView::Bool(true)) ==> then.state is Done
                && then.action is Forward
            &&& refreshed.member("needs_relogin"@) != Some(JsonView::Bool(true)) ==> then.action
                == (ChatActionView::Send {
                url: chat_address(variant_of(refreshed)),
                headers: headers_for(refreshed),
                body,
            })
        }),
{
}

/// What a request waits for is seen whole.
pub proof fn law_state_view(state: ChatState)
    ensures
        match state {
            ChatState::Selecting { body } => state@ == (ChatStateView::Selecting { body: body@ }),
            ChatState::Freshening { body } => state@ == (ChatStateView::Freshening { body: body@ }),
            ChatState::Sending { account, body } => state@ == (ChatStateView::Sending {
                account: account@,
                body: body@,
            }),
            ChatState::Refreshing { account, body, status } => state@
                == (ChatStateView::Refreshing { account: account@, body: body@, status }),
            ChatState::Resending { account } => state@ == (ChatStateView::Resending {
                account: account@,
            }),
            ChatState::Done => state@ is Done,
        },
{
}

/// What happened is seen whole.
pub proof fn law_event_view(event: ChatEvent)
    ensures
        match event {
            ChatEvent::Selected(Some(account)) => event@ == ChatEventView::Selected(
                Some(account@),
            ),
            ChatEvent::Selected(None) => event@ == ChatEventView::Selected(None),
            ChatEvent::Fresh(account) => event@ == ChatEventView::Fresh(account@),
            ChatEvent::Answered(status) => event@ == ChatEventView::Answered(status),
            ChatEvent::Failed(message) => event@ == ChatEventView::Failed(message@),
            ChatEvent::Refreshed(account) => event@ == ChatEventView::Refreshed(account@),
        },
{
}

/// What is to be done is seen whole.
pub proof fn law_action_view(action: ChatAction)
    ensures
        match action {
            ChatAction::Select { site, session_key: Some(key) } => action@
                == (ChatActionView::Select { site, session_key: Some(key@) }),
            ChatAction::Select { site, session_key: None } => action@ == (ChatActionView::Select {
                site,
                session_key: None,
            }),
            ChatAction::Freshen { account } => action@ == (ChatActionView::Freshen {
                account: account@,
            }),
            ChatAction::Send { request, body } => action@ == (ChatActionView::Send {
                url: request.url@,
                headers: request.headers@,
                body: body@,
            }),
            ChatAction::Refresh { account } => action@ == (ChatActionView::Refresh {
                account: account@,
            }),
            ChatAction::Answer { reply } => action@ == (ChatActionView::Answer { reply: reply@ }),
            ChatAction::Forward { record: Some(record) } => action@ == (ChatActionView::Forward {
                record: Some(RecordView { account: record.account@, failed: record.failed }),
            }),
            ChatAction::Forward { record: None } => action@ == (ChatActionView::Forward {
                record: None,
            }),
        },
{
}

} // verus!
