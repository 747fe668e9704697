//! What the bodies of requests to the management interface ask for.

use vstd::prelude::*;
use vstd::string::*;

use crate::json::{tree_of, trees, Json, JsonView};
use crate::reply::{err_reply, json_err, Reply, ReplyView};
use crate::text::{texts, trim, trimmed};
use crate::variant::{variant_named, variant_of, WbVariant};

verus! {

/// The string `key` of a body; empty where it has none.
pub open spec fn text_or_empty(body: JsonView, key: Seq<char>) -> Seq<char> {
    match body.text_at(key) {
        Some(text) => text,
        None => Seq::empty(),
    }
}

/// The boolean `key` of a body; `default` where it has none.
pub open spec fn flag_or(body: JsonView, key: Seq<char>, default: bool) -> bool {
    match body.flag_at(key) {
        Some(flag) => flag,
        None => default,
    }
}

/// The member `key` of a body, or the member `other` where it has no `key`.
pub open spec fn either_member(body: JsonView, key: Seq<char>, other: Seq<char>) -> Option<JsonView> {
    match body.member(key) {
        Some(value) => Some(value),
        None => body.member(other),
    }
}

/// The strings among `items`, in order.
pub open spec fn strings_among(items: Seq<JsonView>) -> Seq<Seq<char>>
    decreases items.len(),
{
    if items.len() == 0 {
        Seq::empty()
    } else {
        let before = strings_among(items.drop_last());
        match items.last().text() {
            Some(text) => before.push(text),
            None => before,
        }
    }
}

/// The strings in the array `key` of a body; none where it has no array.
pub open spec fn strings_at(body: JsonView, key: Seq<char>) -> Seq<Seq<char>> {
    match body.items_at(key) {
        Some(items) => strings_among(items),
        None => Seq::empty(),
    }
}

/// The integers of 64 bits among `items`, in order, as positions in memory.
pub open spec fn indexes_among(items: Seq<JsonView>) -> Seq<usize>
    decreases items.len(),
{
    if items.len() == 0 {
        Seq::empty()
    } else {
        let before = indexes_among(items.drop_last());
        match items.last() {
            JsonView::Integer(n) if 0 <= n <= u64::MAX => before.push((n as u64) as usize),
            _ => before,
        }
    }
}

/// The positions in the array `key` of a body; none where it has no array.
pub open spec fn indexes_at(body: JsonView, key: Seq<char>) -> Seq<usize> {
    match body.items_at(key) {
        Some(items) => indexes_among(items),
        None => Seq::empty(),
    }
}

/// The string `key` of a body; empty where it has none.
pub fn body_text(body: &Json, key: &str) -> (r: String)
    ensures
        r@ == text_or_empty(body@, key@),
{
    match body.get_str(key) {
        Some(text) => text.to_owned(),
        None => String::new(),
    }
}

fn body_flag(body: &Json, key: &str, default: bool) -> (r: bool)
    ensures
        r == flag_or(body@, key@, default),
{
    match body.get_bool(key) {
        Some(flag) => flag,
        None => default,
    }
}

fn get_either<'a>(body: &'a Json, key: &str, other: &str) -> (r: Option<&'a Json>)
    ensures
        tree_of(r) == either_member(body@, key@, other@),
{
    match body.get(key) {
        Some(value) => Some(value),
        None => body.get(other),
    }
}

/// The strings in the array `key` of a body, in order; items of other types are
/// passed over.
pub fn body_strings(body: &Json, key: &str) -> (r: Vec<String>)
    ensures
        texts(r@) == strings_at(body@, key@),
{
    let mut list: Vec<String> = Vec::new();
    assert(texts(list@) =~= Seq::<Seq<char>>::empty());
    if let Some(value) = body.get(key) {
        if let Some(items) = value.as_array() {
            let ghost all = trees(items@);
            let mut i: usize = 0;
            assert(all.take(0) =~= Seq::<JsonView>::empty());
            while i < items.len()
                invariant
                    i <= items.len(),
                    all == trees(items@),
                    texts(list@) == strings_among(all.take(i as int)),
                decreases items.len() - i,
            {
                let ghost before = list@;
                assert(all[i as int] == items@[i as int]@);
                assert(all.take(i + 1).drop_last() =~= all.take(i as int));
                if let Some(text) = items[i].as_str() {
                    list.push(text.to_owned());
                    assert(texts(list@) =~= texts(before).push(text@));
                }
                i = i + 1;
            }
            assert(all.take(i as int) =~= all);
        }
    }
    list
}

/// The positions in the array `key` of a body, in order; items that are no
/// integers of 64 bits are passed over.
pub fn body_indexes(body: &Json, key: &str) -> (r: Vec<usize>)
    ensures
        r@ == indexes_at(body@, key@),
{
    let mut list: Vec<usize> = Vec::new();
    if let Some(value) = body.get(key) {
        if let Some(items) = value.as_array() {
            let ghost all = trees(items@);
            let mut i: usize = 0;
            assert(all.take(0) =~= Seq::<JsonView>::empty());
            while i < items.len()
                invariant
                    i <= items.len(),
                    all == trees(items@),
                    list@ == indexes_among(all.take(i as int)),
                decreases items.len() - i,
            {
                assert(all[i as int] == items@[i as int]@);
                assert(all.take(i + 1).drop_last() =~= all.take(i as int));
                if let Some(n) = items[i].as_u64() {
                    list.push(n as usize);
                }
                i = i + 1;
            }
            assert(all.take(i as int) =~= all);
        }
    }
    list
}

/// The account that a body names; empty where it names none.
pub fn account_id(body: &Json) -> (r: String)
    ensures
        r@ == text_or_empty(body@, "accountId"@),
{
    body_text(body, "accountId")
}

/// The login that a body asks about; empty where it names none.
pub fn login_id(body: &Json) -> (r: String)
    ensures
        r@ == text_or_empty(body@, "loginId"@),
{
    body_text(body, "loginId")
}

/// The site that a body names; the domestic one where it names none.
pub fn body_variant(body: &Json) -> (r: WbVariant)
    ensures
        r == variant_of(body@),
{
    WbVariant::parse(body.get_str("variant"))
}

/// The site that a request with an optional body names.
pub open spec fn site_asked(body: Option<JsonView>) -> WbVariant {
    match body {
        Some(tree) => variant_of(tree),
        None => WbVariant::Cn,
    }
}

/// The site that a request with an optional body is limited to, if it is.
pub open spec fn site_limit(body: Option<JsonView>) -> Option<WbVariant> {
    match body {
        Some(tree) => match tree.text_at("variant"@) {
            Some(name) => Some(variant_named(Some(name))),
            None => None,
        },
        None => None,
    }
}

/// The settings that a body submits.
pub open spec fn settings_in(body: JsonView) -> JsonView {
    match body.member("config"@) {
        Some(config) => config,
        None => body,
    }
}

/// The site that a body names, if there is a body; else the domestic one.
pub fn optional_body_variant(body: Option<&Json>) -> (r: WbVariant)
    ensures
        r == site_asked(tree_of(body)),
        r == match body {
            Some(json) => variant_of(json@),
            None => WbVariant::Cn,
        },
{
    match body {
        Some(json) => body_variant(json),
        None => WbVariant::parse(None),
    }
}

/// The site that a request is limited to; none where it names no site.
pub fn checkin_variant(body: Option<&Json>) -> (r: Option<WbVariant>)
    ensures
        r == site_limit(tree_of(body)),
        r == match body {
            Some(json) => match json@.text_at("variant"@) {
                Some(name) => Some(variant_named(Some(name))),
                None => None,
            },
            None => None,
        },
{
    match body {
        Some(json) => match json.get_str("variant") {
            Some(name) => Some(WbVariant::parse(Some(name))),
            None => None,
        },
        None => None,
    }
}

/// The settings that a body submits: its member `config`, or all of it.
pub fn submitted_config(body: &Json) -> (r: &Json)
    ensures
        r@ == settings_in(body@),
        r@ == match body@.member("config"@) {
            Some(config) => config,
            None => body@,
        },
{
    match body.get("config") {
        Some(config) => config,
        None => body,
    }
}

/// Whether saved travel settings call for a travel cycle at once.
pub open spec fn travels(saved: JsonView) -> bool {
    saved.flag_at("enabled"@) == Some(true)
}

/// Tells whether saved travel settings call for a travel cycle at once.
pub fn starts_travel(saved: &Json) -> (r: bool)
    ensures
        r == travels(saved@),
        r == (saved@.flag_at("enabled"@) == Some(true)),
{
    match saved.get_bool("enabled") {
        Some(enabled) => enabled,
        None => false,
    }
}

/// A request to switch the account of the command line tool.
#[derive(Debug, PartialEq, Eq)]
pub struct CliSwitch {
    pub account_id: String,
    pub close_running_cli: bool,
}

/// What a [`CliSwitch`] asks for.
pub struct CliSwitchView {
    pub account_id: Seq<char>,
    pub close_running_cli: bool,
}

impl View for CliSwitch {
    type V = CliSwitchView;

    open spec fn view(&self) -> CliSwitchView {
        CliSwitchView {
            account_id: self.account_id@,
            close_running_cli: self.close_running_cli,
        }
    }
}

/// The switch of the command line tool that a body asks for.
pub open spec fn cli_switch_in(body: JsonView) -> CliSwitchView {
    CliSwitchView {
        account_id: text_or_empty(body, "accountId"@),
        close_running_cli: match either_member(body, "closeRunningCli"@, "close_running_cli"@) {
            Some(value) => value.flag() == Some(true),
            None => false,
        },
    }
}

/// Reads a request to switch the account of the command line tool. A running
/// tool is closed only on request, which may be spelled in either style.
pub fn cli_switch(body: &Json) -> (r: CliSwitch)
    ensures
        r@ == cli_switch_in(body@),
        r.account_id@ == text_or_empty(body@, "accountId"@),
        r.close_running_cli == match either_member(
            body@,
            "closeRunningCli"@,
            "close_running_cli"@,
        ) {
            Some(value) => value.flag() == Some(true),
            None => false,
        },
{
    let close_running_cli = match get_either(body, "closeRunningCli", "close_running_cli") {
        Some(value) => match value.as_bool() {
            Some(flag) => flag,
            None => false,
        },
        None => false,
    };
    CliSwitch { account_id: account_id(body), close_running_cli }
}

/// A request to switch the account of a desktop client.
#[derive(Debug, PartialEq, Eq)]
pub struct IdeSwitch {
    pub account_id: String,
    pub restart: bool,
}

/// What a [`IdeSwitch`] asks for.
pub struct IdeSwitchView {
    pub account_id: Seq<char>,
    pub restart: bool,
}

impl View for IdeSwitch {
    type V = IdeSwitchView;

    open spec fn view(&self) -> IdeSwitchView {
        IdeSwitchView {
            account_id: self.account_id@,
            restart: self.restart,
        }
    }
}

/// The switch of a desktop client that a body asks for.
pub open spec fn ide_switch_in(body: JsonView) -> IdeSwitchView {
    IdeSwitchView {
        account_id: match either_member(body, "accountId"@, "account_id"@) {
            Some(value) => match value.text() {
                Some(id) => id,
                None => Seq::empty(),
            },
            None => Seq::empty(),
        },
        restart: flag_or(body, "restart"@, true),
    }
}

/// Reads a request to switch the account of a desktop client. The id may be
/// spelled in either style; the client is restarted unless told otherwise.
pub fn ide_switch(body: &Json) -> (r: IdeSwitch)
    ensures
        r@ == ide_switch_in(body@),
        r.account_id@ == match either_member(body@, "accountId"@, "account_id"@) {
            Some(value) => match value.text() {
                Some(id) => id,
                None => Seq::empty(),
            },
            None => Seq::empty(),
        },
        r.restart == flag_or(body@, "restart"@, true),
{
    let account_id = match get_either(body, "accountId", "account_id") {
        Some(value) => match value.as_str() {
            Some(id) => id.to_owned(),
            None => String::new(),
        },
        None => String::new(),
    };
    IdeSwitch { account_id, restart: body_flag(body, "restart", true) }
}

/// A request to write accounts to a file.
#[derive(Debug, PartialEq, Eq)]
pub struct ExportRequest {
    pub account_ids: Vec<String>,
    pub path: String,
}

/// What a [`ExportRequest`] asks for.
pub struct ExportView {
    pub account_ids: Seq<Seq<char>>,
    pub path: Seq<char>,
}

impl View for ExportRequest {
    type V = ExportView;

    open spec fn view(&self) -> ExportView {
        ExportView {
            account_ids: texts(self.account_ids@),
            path: self.path@,
        }
    }
}

/// The export that a body asks for.
pub open spec fn export_in(body: JsonView) -> ExportView {
    ExportView {
        account_ids: strings_at(body, "accountIds"@),
        path: text_or_empty(body, "path"@),
    }
}

/// Reads a request to export accounts, and where to.
pub fn export_request(body: &Json) -> (r: ExportRequest)
    ensures
        r@ == export_in(body@),
        texts(r.account_ids@) == strings_at(body@, "accountIds"@),
        r.path@ == text_or_empty(body@, "path"@),
{
    ExportRequest { account_ids: body_strings(body, "accountIds"), path: body_text(body, "path") }
}

/// A request to import accounts from the text of a file.
#[derive(Debug, PartialEq, Eq)]
pub struct ImportRequest {
    pub text: String,
    pub indexes: Vec<usize>,
}

/// What a [`ImportRequest`] asks for.
pub struct ImportView {
    pub text: Seq<char>,
    pub indexes: Seq<usize>,
}

impl View for ImportRequest {
    type V = ImportView;

    open spec fn view(&self) -> ImportView {
        ImportView {
            text: self.text@,
            indexes: self.indexes@,
        }
    }
}

/// The import that a body asks for.
pub open spec fn import_in(body: JsonView) -> ImportView {
    ImportView {
        text: text_or_empty(body, "fileText"@),
        indexes: indexes_at(body, "indexes"@),
    }
}

/// Reads a request to import the accounts at some positions of a file.
pub fn import_request(body: &Json) -> (r: ImportRequest)
    ensures
        r@ == import_in(body@),
        r.text@ == text_or_empty(body@, "fileText"@),
        r.indexes@ == indexes_at(body@, "indexes"@),
{
    ImportRequest { text: body_text(body, "fileText"), indexes: body_indexes(body, "indexes") }
}

/// A request to copy sessions to an account.
#[derive(Debug, PartialEq, Eq)]
pub struct CopyRequest {
    pub target_account_id: String,
    pub session_ids: Vec<String>,
}

/// What a [`CopyRequest`] asks for.
pub struct CopyView {
    pub target_account_id: Seq<char>,
    pub session_ids: Seq<Seq<char>>,
}

impl View for CopyRequest {
    type V = CopyView;

    open spec fn view(&self) -> CopyView {
        CopyView {
            target_account_id: self.target_account_id@,
            session_ids: texts(self.session_ids@),
        }
    }
}

/// The copy of sessions that a body asks for.
pub open spec fn copy_in(body: JsonView) -> CopyView {
    CopyView {
        target_account_id: text_or_empty(body, "targetAccountId"@),
        session_ids: strings_at(body, "sessionIds"@),
    }
}

/// Reads a request to copy sessions to an account.
pub fn copy_request(body: &Json) -> (r: CopyRequest)
    ensures
        r@ == copy_in(body@),
        r.target_account_id@ == text_or_empty(body@, "targetAccountId"@),
        texts(r.session_ids@) == strings_at(body@, "sessionIds"@),
{
    CopyRequest {
        target_account_id: body_text(body, "targetAccountId"),
        session_ids: body_strings(body, "sessionIds"),
    }
}

/// A request to switch the account of the main client.
#[derive(Debug, PartialEq)]
pub struct SwitchRequest {
    pub account_id: String,
    pub restart: bool,
    pub share_sessions: bool,
    pub copy_session_ids: Vec<String>,
}

/// What a [`SwitchRequest`] asks for.
pub struct SwitchView {
    pub account_id: Seq<char>,
    pub restart: bool,
    pub share_sessions: bool,
    pub copy_session_ids: Seq<Seq<char>>,
}

impl View for SwitchRequest {
    type V = SwitchView;

    open spec fn view(&self) -> SwitchView {
        SwitchView {
            account_id: self.account_id@,
            restart: self.restart,
            share_sessions: self.share_sessions,
            copy_session_ids: texts(self.copy_session_ids@),
        }
    }
}

/// The switch of the main client that a body asks for.
pub open spec fn switch_in(body: JsonView) -> SwitchView {
    SwitchView {
        account_id: text_or_empty(body, "accountId"@),
        restart: flag_or(body, "restart"@, true),
        share_sessions: flag_or(body, "shareSessions"@, false),
        copy_session_ids: strings_at(body, "copySessionIds"@),
    }
}

/// What a switch of the main client is refused with, if it is.
pub open spec fn switch_refusal(body: JsonView) -> Option<ReplyView> {
    if trimmed(text_or_empty(body, "accountId"@)).len() == 0 {
        Some(err_reply("缺少 accountId"@, 400))
    } else {
        None
    }
}

/// Reads a request to switch the account of the main client; it is refused
/// where it names no account.
pub fn switch_request(body: &Json) -> (r: Result<SwitchRequest, Reply>)
    ensures
        r is Err <==> switch_refusal(body@) is Some,
        r matches Ok(request) ==> request@ == switch_in(body@),
        r matches Err(reply) ==> switch_refusal(body@) == Some(reply@),
        match r {
            Ok(request) => {
                &&& trimmed(text_or_empty(body@, "accountId"@)).len() > 0
                &&& request.account_id@ == text_or_empty(body@, "accountId"@)
                &&& request.restart == flag_or(body@, "restart"@, true)
                &&& request.share_sessions == flag_or(body@, "shareSessions"@, false)
                &&& texts(request.copy_session_ids@) == strings_at(body@, "copySessionIds"@)
            },
            Err(reply) => {
                &&& trimmed(text_or_empty(body@, "accountId"@)).len() == 0
                &&& reply@ == err_reply("缺少 accountId"@, 400)
            },
        },
{
    let account_id = account_id(body);
    if trim(account_id.as_str()).is_empty() {
        return Err(json_err("缺少 accountId", 400));
    }
    Ok(
        SwitchRequest {
            account_id,
            restart: body_flag(body, "restart", true),
            share_sessions: body_flag(body, "shareSessions", false),
            copy_session_ids: body_strings(body, "copySessionIds"),
        },
    )
}

/// The string under a key is read as it is, whatever else the body holds; a
/// member of another type counts as none, and none is read as the empty string.
pub proof fn law_text_of_a_body(body: JsonView, key: Seq<char>)
    ensures
        text_or_empty(body, key) == match body.member(key) {
            Some(JsonView::Str(text)) => text,
            _ => Seq::empty(),
        },
{
}

/// The boolean under a key is read as it is, whatever the default is; the
/// default counts only where there is no boolean.
pub proof fn law_flag_of_a_body(body: JsonView, key: Seq<char>, default: bool, flag: bool)
    ensures
        body.member(key) == Some(JsonView::Bool(flag)) ==> flag_or(body, key, default) == flag,
        !(body.member(key) matches Some(value) && value is Bool) ==> flag_or(body, key, default)
            == default,
{
}

/// The first spelling of a key counts wherever it occurs, the second only where
/// the first does not.
pub proof fn law_either_spelling(body: JsonView, key: Seq<char>, other: Seq<char>)
    ensures
        body.member(key) is Some ==> either_member(body, key, other) == body.member(key),
        body.member(key) is None ==> either_member(body, key, other) == body.member(other),
{
}

/// The strings of a list are all of its strings, in their order, and nothing
/// else: those of two lists in a row are those of each.
pub proof fn law_strings_among(items: Seq<JsonView>, more: Seq<JsonView>, text: Seq<char>)
    ensures
        strings_among(Seq::empty()).len() == 0,
        strings_among(seq![JsonView::Str(text)]) == seq![text],
        items.len() == 1 && !(items[0] is Str) ==> strings_among(items).len() == 0,
        strings_among(items + more) == strings_among(items) + strings_among(more),
    decreases more.len(),
{
    let one = seq![JsonView::Str(text)];
    assert(one.drop_last() =~= Seq::<JsonView>::empty());
    assert(strings_among(one.drop_last()) =~= Seq::<Seq<char>>::empty());
    assert(strings_among(one) =~= seq![text]);
    if items.len() == 1 {
        assert(items.drop_last() =~= Seq::<JsonView>::empty());
    }
    if more.len() == 0 {
        assert(items + more =~= items);
        assert(strings_among(items) + strings_among(more) =~= strings_among(items));
    } else {
        law_strings_among(items, more.drop_last(), text);
        assert((items + more).drop_last() =~= items + more.drop_last());
        assert(strings_among(items + more) =~= strings_among(items) + strings_among(more));
    }
}

/// The positions of a list are all of its integers that are one, in their order,
/// and nothing else: those of two lists in a row are those of each.
pub proof fn law_indexes_among(items: Seq<JsonView>, more: Seq<JsonView>, n: usize)
    ensures
        indexes_among(Seq::empty()).len() == 0,
        indexes_among(seq![JsonView::Integer(n as int)]) == seq![n],
        items.len() == 1 && !(items[0] is Integer) ==> indexes_among(items).len() == 0,
        items.len() == 1 && items[0] is Integer && items[0]->Integer_0 < 0 ==> indexes_among(
            items,
        ).len() == 0,
        indexes_among(items + more) == indexes_among(items) + indexes_among(more),
    decreases more.len(),
{
    let one = seq![JsonView::Integer(n as int)];
    assert(one.drop_last() =~= Seq::<JsonView>::empty());
    assert(indexes_among(one.drop_last()) =~= Seq::<usize>::empty());
    assert(((n as int) as u64) as usize == n);
    assert(indexes_among(one) =~= seq![n]);
    if items.len() == 1 {
        assert(items.drop_last() =~= Seq::<JsonView>::empty());
    }
    if more.len() == 0 {
        assert(items + more =~= items);
        assert(indexes_among(items) + indexes_among(more) =~= indexes_among(items));
    } else {
        law_indexes_among(items, more.drop_last(), n);
        assert((items + more).drop_last() =~= items + more.drop_last());
        assert(indexes_among(items + more) =~= indexes_among(items) + indexes_among(more));
    }
}

/// Lists are read from the array under their key; anything else there counts as
/// an empty list.
pub proof fn law_lists_of_a_body(body: JsonView, key: Seq<char>, items: Seq<JsonView>)
    ensures
        body.member(key) == Some(JsonView::Array(items)) ==> strings_at(body, key)
            == strings_among(items) && indexes_at(body, key) == indexes_among(items),
        !(body.member(key) matches Some(value) && value is Array) ==> strings_at(body, key).len()
            == 0 && indexes_at(body, key).len() == 0,
{
}

/// A body names the international site exactly by the string `ai` under
/// `variant`, and no body names the domestic one. A request is limited to a site
/// only where it names one.
pub proof fn law_site_of_a_body(body: JsonView)
    ensures
        site_asked(None) is Cn,
        site_asked(Some(body)) is Ai <==> body.member("variant"@) == Some(JsonView::Str("ai"@)),
        site_limit(None) is None,
        site_limit(Some(body)) is Some <==> (body.member("variant"@) matches Some(name)
            && name is Str),
        site_limit(Some(body)) matches Some(site) ==> (site is Ai <==> body.member("variant"@)
            == Some(JsonView::Str("ai"@))),
{
}

/// Settings are submitted under `config`, or as the whole body; travel starts
/// exactly where they turn it on.
pub proof fn law_settings_of_a_body(body: JsonView, config: JsonView)
    ensures
        body.member("config"@) == Some(config) ==> settings_in(body) == config,
        body.member("config"@) is None ==> settings_in(body) == body,
        travels(body) <==> body.member("enabled"@) == Some(JsonView::Bool(true)),
{
}

/// A switch of the command line tool is for the account under `accountId`. The
/// running tool is closed exactly where the body says so, by the first of two
/// spellings that it uses.
pub proof fn law_cli_switch(body: JsonView)
    ensures
        cli_switch_in(body).account_id == match body.member("accountId"@) {
            Some(JsonView::Str(id)) => id,
            _ => Seq::empty(),
        },
        body.member("closeRunningCli"@) matches Some(value) ==> cli_switch_in(
            body,
        ).close_running_cli == (value == JsonView::Bool(true)),
        body.member("closeRunningCli"@) is None ==> cli_switch_in(body).close_running_cli == (
        body.member("close_running_cli"@) == Some(JsonView::Bool(true))),
{
}

/// A switch of a desktop client is for the account that the body names, by the
/// first of two spellings that it uses; the client is left alone exactly where
/// the body says so.
pub proof fn law_ide_switch(body: JsonView)
    ensures
        body.member("accountId"@) matches Some(value) ==> ide_switch_in(body).account_id
            == match value {
            JsonView::Str(id) => id,
            _ => Seq::empty(),
        },
        body.member("accountId"@) is None ==> ide_switch_in(body).account_id == match body.member(
            "account_id"@,
        ) {
            Some(JsonView::Str(id)) => id,
            _ => Seq::empty(),
        },
        !ide_switch_in(body).restart <==> body.member("restart"@) == Some(JsonView::Bool(false)),
{
}

/// A switch of the main client is for the account under `accountId`, restarts
/// the client unless the body forbids it, shares sessions only where it asks for
/// that, and copies the sessions that it lists.
pub proof fn law_switch(body: JsonView, items: Seq<JsonView>)
    ensures
        switch_in(body).account_id == match body.member("accountId"@) {
            Some(JsonView::Str(id)) => id,
            _ => Seq::empty(),
        },
        !switch_in(body).restart <==> body.member("restart"@) == Some(JsonView::Bool(false)),
        switch_in(body).share_sessions <==> body.member("shareSessions"@) == Some(
            JsonView::Bool(true),
        ),
        body.member("copySessionIds"@) == Some(JsonView::Array(items)) ==> switch_in(
            body,
        ).copy_session_ids == strings_among(items),
        !(body.member("copySessionIds"@) matches Some(value) && value is Array) ==> switch_in(
            body,
        ).copy_session_ids.len() == 0,
{
}

/// A switch of the main client is refused exactly where it names no account, or
/// a blank one.
pub proof fn law_switch_needs_an_account(body: JsonView)
    ensures
        switch_refusal(body) is None <==> (body.member("accountId"@) matches Some(
            JsonView::Str(id),
        ) && trimmed(id).len() > 0),
        switch_refusal(body) matches Some(reply) ==> reply.status == 400 && reply.body.member(
            "error"@,
        ) == Some(JsonView::Str("缺少 accountId"@)),
{
    assert(trimmed(Seq::<char>::empty()).len() == 0);
}

/// Exports, imports and copies are read from their keys.
pub proof fn law_exports_imports_and_copies(body: JsonView)
    ensures
        export_in(body).account_ids == strings_at(body, "accountIds"@),
        export_in(body).path == text_or_empty(body, "path"@),
        import_in(body).text == text_or_empty(body, "fileText"@),
        import_in(body).indexes == indexes_at(body, "indexes"@),
        copy_in(body).target_account_id == text_or_empty(body, "targetAccountId"@),
        copy_in(body).session_ids == strings_at(body, "sessionIds"@),
{
}

/// The requests that were read say what each of their parts holds.
pub proof fn law_request_views(
    cli: CliSwitch,
    ide: IdeSwitch,
    export: ExportRequest,
    import: ImportRequest,
    copy: CopyRequest,
    switch: SwitchRequest,
)
    ensures
        cli@.account_id == cli.account_id@,
        cli@.close_running_cli == cli.close_running_cli,
        ide@.account_id == ide.account_id@,
        ide@.restart == ide.restart,
        export@.account_ids == texts(export.account_ids@),
        export@.path == export.path@,
        import@.text == import.text@,
        import@.indexes == import.indexes@,
        copy@.target_account_id == copy.target_account_id@,
        copy@.session_ids == texts(copy.session_ids@),
        switch@.account_id == switch.account_id@,
        switch@.restart == switch.restart,
        switch@.share_sessions == switch.share_sessions,
        switch@.copy_session_ids == texts(switch.copy_session_ids@),
{
}

} // verus!
