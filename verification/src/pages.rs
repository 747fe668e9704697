//! What the management interface answers with.

use vstd::prelude::*;
use vstd::string::*;

use crate::json::{optional_string, tree_in, tree_of, trees, Json, JsonView};
use crate::reply::{err_reply, json_err, json_ok, ok_reply, outcome_view, Reply, ReplyView};
use crate::text::{joined, text_of};
use crate::variant::{variant_of, WbVariant};

verus! {

/// The member `key`; `Null` where there is none.
pub open spec fn member_or_null(json: JsonView, key: Seq<char>) -> JsonView {
    match json.member(key) {
        Some(value) => value,
        None => JsonView::Null,
    }
}

fn get_or_null(json: &Json, key: &str) -> (r: Json)
    ensures
        r@ == member_or_null(json@, key@),
{
    match json.get(key) {
        Some(value) => value.clone(),
        None => Json::Null,
    }
}

/// The answer that something was done, with `value` under `key`.
pub open spec fn done_tree(key: Seq<char>, value: JsonView) -> JsonView {
    JsonView::empty().with("ok"@, JsonView::Bool(true)).with(key, value)
}

/// The answer that something was done.
pub fn done() -> (r: Json)
    ensures
        r@ == JsonView::empty().with("ok"@, JsonView::Bool(true)),
{
    Json::object().with("ok", Json::Bool(true))
}

/// The answer that something was done, with `value` under `key`.
pub fn done_with(key: &str, value: Json) -> (r: Json)
    ensures
        r@ == done_tree(key@, value@),
{
    done().with(key, value)
}

/// The answer to an operation whose result stands under `key`.
pub open spec fn done_answer(key: Seq<char>, outcome: Result<JsonView, Seq<char>>) -> ReplyView {
    match outcome {
        Ok(value) => ok_reply(done_tree(key, value)),
        Err(message) => err_reply(message, 400),
    }
}

/// The answer to an operation whose result stands under `key`: the result, or
/// the message that makes it a bad request.
pub fn done_reply(key: &str, outcome: Result<Json, String>) -> (r: Reply)
    ensures
        r@ == done_answer(key@, outcome_view(outcome)),
        r@ == match outcome {
            Ok(value) => ok_reply(done_tree(key@, value@)),
            Err(message) => err_reply(message@, 400),
        },
{
    match outcome {
        Ok(value) => json_ok(done_with(key, value)),
        Err(message) => json_err(message.as_str(), 400),
    }
}

/// An object with the one member `key`, the list of `items`.
pub open spec fn listed_tree(key: Seq<char>, items: Seq<JsonView>) -> JsonView {
    JsonView::empty().with(key, JsonView::Array(items))
}

/// An object with the one member `key`, the list of `items`.
pub fn listed(key: &str, items: Vec<Json>) -> (r: Json)
    ensures
        r@ == listed_tree(key@, trees(items@)),
        r@ == JsonView::empty().with(key@, JsonView::Array(trees(items@))),
{
    Json::object().with(key, Json::array(items))
}

/// What a request that names an account goes on with: the account that was
/// found, or the refusal.
pub open spec fn found_or_refused(found: Option<JsonView>) -> Result<JsonView, ReplyView> {
    match found {
        Some(account) => Ok(account),
        None => Err(err_reply("账号不存在"@, 400)),
    }
}

/// The account that a request names, where it is stored; else the request is
/// refused.
pub fn stored_account(found: Option<Json>) -> (r: Result<Json, Reply>)
    ensures
        match r {
            Ok(account) => found_or_refused(tree_in(found)) == Ok::<JsonView, ReplyView>(account@),
            Err(reply) => found_or_refused(tree_in(found)) == Err::<JsonView, ReplyView>(reply@),
        },
        found is None ==> (r matches Err(reply) && reply@ == err_reply("账号不存在"@, 400)),
        found matches Some(account) ==> r == Ok::<Json, Reply>(account),
{
    match found {
        Some(account) => Ok(account),
        None => Err(json_err("账号不存在", 400)),
    }
}

/// The answer where the token statistics could not be gathered.
pub fn statistics_failed(reason: &str) -> (r: Reply)
    ensures
        r@ == err_reply("扫描 Token 统计失败: "@ + reason@, 500),
{
    json_err(joined("扫描 Token 统计失败: ", reason).as_str(), 500)
}

/// The counts that an import of accounts ends with.
pub open spec fn import_tree(
    imported: JsonView,
    skipped: JsonView,
    overwritten: JsonView,
) -> JsonView {
    done_tree("imported"@, imported).with("skipped"@, skipped).with("overwritten"@, overwritten)
}

/// The counts that an import of accounts ends with.
pub fn import_report(imported: Json, skipped: Json, overwritten: Json) -> (r: Json)
    ensures
        r@ == import_tree(imported@, skipped@, overwritten@),
        r@ == done_tree("imported"@, imported@).with("skipped"@, skipped@).with(
            "overwritten"@,
            overwritten@,
        ),
{
    done_with("imported", imported).with("skipped", skipped).with("overwritten", overwritten)
}

/// The account in the login state of a client; an object without members where
/// it holds none.
pub open spec fn login_account(auth: JsonView) -> JsonView {
    match auth.member("account"@) {
        Some(account) => account,
        None => JsonView::empty(),
    }
}

/// The account in the login state of a client.
pub fn account_in_login(auth: &Json) -> (r: Json)
    ensures
        r@ == login_account(auth@),
{
    match auth.get("account") {
        Some(account) => account.clone(),
        None => Json::object(),
    }
}

/// What the login state of a client says of its user. Users of several
/// organisations are told apart by the organisation, which `enterprise_id` and
/// `org_key` identify.
pub open spec fn user_tree(
    account: JsonView,
    enterprise_id: JsonView,
    org_key: JsonView,
) -> JsonView {
    JsonView::empty().with("uid"@, member_or_null(account, "uid"@)).with(
        "nickname"@,
        member_or_null(account, "nickname"@),
    ).with("email"@, member_or_null(account, "email"@)).with("enterpriseId"@, enterprise_id).with(
        "enterpriseName"@,
        member_or_null(account, "enterpriseName"@),
    ).with("orgKey"@, org_key)
}

/// What the login state of a client says of its user.
pub fn current_user(account: &Json, enterprise_id: Json, org_key: Json) -> (r: Json)
    ensures
        r@ == user_tree(account@, enterprise_id@, org_key@),
{
    Json::object().with("uid", get_or_null(account, "uid")).with(
        "nickname",
        get_or_null(account, "nickname"),
    ).with("email", get_or_null(account, "email")).with("enterpriseId", enterprise_id).with(
        "enterpriseName",
        get_or_null(account, "enterpriseName"),
    ).with("orgKey", org_key)
}

/// The state of a client and of this program.
#[derive(Debug)]
pub struct ClientState {
    pub running: bool,
    pub auth_file: String,
    /// The user that is logged in, if one is.
    pub current: Option<Json>,
    pub app_path: String,
    pub version: String,
    pub variant: WbVariant,
}

/// What a [`ClientState`] says.
pub struct ClientView {
    pub running: bool,
    pub auth_file: Seq<char>,
    pub current: Option<JsonView>,
    pub app_path: Seq<char>,
    pub version: Seq<char>,
    pub variant: WbVariant,
}

impl View for ClientState {
    type V = ClientView;

    open spec fn view(&self) -> ClientView {
        ClientView {
            running: self.running,
            auth_file: self.auth_file@,
            current: tree_in(self.current),
            app_path: self.app_path@,
            version: self.version@,
            variant: self.variant,
        }
    }
}

/// The value, or `Null` where there is none.
pub open spec fn value_or_null(value: Option<JsonView>) -> JsonView {
    match value {
        Some(tree) => tree,
        None => JsonView::Null,
    }
}

/// The state of the client of a site, as the user interface shows it.
pub open spec fn client_tree(state: ClientView) -> JsonView {
    JsonView::empty().with("running"@, JsonView::Bool(state.running)).with(
        "authFile"@,
        JsonView::Str(state.auth_file),
    ).with("current"@, value_or_null(state.current)).with(
        "appPath"@,
        JsonView::Str(state.app_path),
    ).with("version"@, JsonView::Str(state.version)).with(
        "variant"@,
        JsonView::Str(state.variant.name()),
    )
}

/// The state of the client of a site, as the user interface shows it.
pub fn client_status(state: ClientState) -> (r: Json)
    ensures
        r@ == client_tree(state@),
        r@ == JsonView::empty().with("running"@, JsonView::Bool(state.running)).with(
            "authFile"@,
            JsonView::Str(state.auth_file@),
        ).with(
            "current"@,
            match state.current {
                Some(user) => user@,
                None => JsonView::Null,
            },
        ).with("appPath"@, JsonView::Str(state.app_path@)).with(
            "version"@,
            JsonView::Str(state.version@),
        ).with("variant"@, JsonView::Str(state.variant.name())),
{
    Json::object().with("running", Json::Bool(state.running)).with(
        "authFile",
        Json::Str(state.auth_file),
    ).with(
        "current",
        match state.current {
            Some(user) => user,
            None => Json::Null,
        },
    ).with("appPath", Json::Str(state.app_path)).with("version", Json::Str(state.version)).with(
        "variant",
        Json::str(state.variant.as_str()),
    )
}

/// The user id in the login state of a client, where it has one.
pub open spec fn login_uid(auth: Option<JsonView>) -> Option<Seq<char>> {
    match auth {
        Some(tree) => match tree.member("account"@) {
            Some(account) => account.text_at("uid"@),
            None => None,
        },
        None => None,
    }
}

/// The stored accounts and the user of the client of a site.
pub open spec fn accounts_tree(
    metas: Seq<JsonView>,
    auth: Option<JsonView>,
    variant: WbVariant,
) -> JsonView {
    JsonView::empty().with("accounts"@, JsonView::Array(metas)).with(
        "current"@,
        optional_string(login_uid(auth)),
    ).with("variant"@, JsonView::Str(variant.name()))
}

/// The stored accounts, as far as they may be shown, and who is logged in at
/// the client of a site.
pub fn accounts_page(metas: Vec<Json>, auth: Option<&Json>, variant: WbVariant) -> (r: Json)
    ensures
        r@ == accounts_tree(trees(metas@), tree_of(auth), variant),
        r@ == JsonView::empty().with("accounts"@, JsonView::Array(trees(metas@))).with(
            "current"@,
            optional_string(login_uid(tree_of(auth))),
        ).with("variant"@, JsonView::Str(variant.name())),
{
    let uid = match auth {
        Some(tree) => match tree.get("account") {
            Some(account) => account.get_str("uid"),
            None => None,
        },
        None => None,
    };
    listed("accounts", metas).with("current", Json::optional_str(uid)).with(
        "variant",
        Json::str(variant.as_str()),
    )
}

/// The sessions of the user that is logged in.
pub open spec fn sessions_tree(
    user: Option<Seq<char>>,
    sessions: JsonView,
    variant: WbVariant,
) -> JsonView {
    let shown = match user {
        Some(_) => sessions,
        None => JsonView::Array(Seq::empty()),
    };
    JsonView::empty().with("sessions"@, shown).with("current"@, optional_string(user)).with(
        "variant"@,
        JsonView::Str(variant.name()),
    )
}

/// The sessions of the user that is logged in; none where no one is.
pub fn sessions_page(user: Option<&str>, sessions: Json, variant: WbVariant) -> (r: Json)
    ensures
        r@ == sessions_tree(text_of(user), sessions@, variant),
        r@ == JsonView::empty().with(
            "sessions"@,
            match user {
                Some(_) => sessions@,
                None => JsonView::Array(Seq::empty()),
            },
        ).with("current"@, optional_string(text_of(user))).with(
            "variant"@,
            JsonView::Str(variant.name()),
        ),
{
    let shown = match user {
        Some(_) => sessions,
        None => {
            let none: Vec<Json> = Vec::new();
            assert(trees(none@) =~= Seq::<JsonView>::empty());
            Json::array(none)
        },
    };
    Json::object().with("sessions", shown).with("current", Json::optional_str(user)).with(
        "variant",
        Json::str(variant.as_str()),
    )
}

/// The report on sessions that were copied from a user to `target`. The site is
/// that of the target.
pub open spec fn copied_tree(
    source_uid: Option<Seq<char>>,
    target: JsonView,
    copied: JsonView,
) -> JsonView {
    JsonView::empty().with("sourceUid"@, optional_string(source_uid)).with(
        "targetUid"@,
        member_or_null(target, "uid"@),
    ).with("copied"@, copied).with("variant"@, JsonView::Str(variant_of(target).name()))
}

/// The report on sessions that were copied from a user to `target`.
pub fn copy_report(source_uid: Option<&str>, target: &Json, copied: Json) -> (r: Json)
    ensures
        r@ == copied_tree(text_of(source_uid), target@, copied@),
{
    Json::object().with("sourceUid", Json::optional_str(source_uid)).with(
        "targetUid",
        get_or_null(target, "uid"),
    ).with("copied", copied).with(
        "variant",
        Json::str(WbVariant::from_account(target).as_str()),
    )
}

/// What a copy of sessions begins with: the site of the account that was found,
/// or the refusal.
pub open spec fn site_or_refused(target: Option<JsonView>) -> Result<WbVariant, ReplyView> {
    match target {
        Some(account) => Ok(variant_of(account)),
        None => Err(err_reply("目标账号不存在"@, 400)),
    }
}

/// Begins a copy of sessions to the account that was found: the site whose user
/// they are copied from is that of the account. Where none was found the request
/// is refused.
pub fn copy_begins(target: Option<&Json>) -> (r: Result<WbVariant, Reply>)
    ensures
        match r {
            Ok(site) => site_or_refused(tree_of(target)) == Ok::<WbVariant, ReplyView>(site),
            Err(reply) => site_or_refused(tree_of(target)) == Err::<WbVariant, ReplyView>(reply@),
        },
        target is None ==> (r matches Err(reply) && reply@ == err_reply("目标账号不存在"@, 400)),
        target matches Some(account) ==> r == Ok::<WbVariant, Reply>(variant_of(account@)),
{
    match target {
        Some(account) => Ok(WbVariant::from_account(account)),
        None => Err(json_err("目标账号不存在", 400)),
    }
}

/// The answer to a request to copy sessions.
pub open spec fn copy_answer(
    source_uid: Option<Seq<char>>,
    target: JsonView,
    outcome: Result<JsonView, Seq<char>>,
) -> ReplyView {
    match outcome {
        Ok(copied) => ok_reply(copied_tree(source_uid, target, copied)),
        Err(message) => err_reply(message, 400),
    }
}

/// The answer to a request to copy sessions: the report, or why they could not
/// be copied.
pub fn copy_reply(
    source_uid: Option<&str>,
    target: &Json,
    outcome: Result<Json, String>,
) -> (r: Reply)
    ensures
        r@ == copy_answer(text_of(source_uid), target@, outcome_view(outcome)),
        r@ == match outcome {
            Ok(copied) => ok_reply(copied_tree(text_of(source_uid), target@, copied@)),
            Err(message) => err_reply(message@, 400),
        },
{
    match outcome {
        Ok(copied) => json_ok(copy_report(source_uid, target, copied)),
        Err(message) => json_err(message.as_str(), 400),
    }
}

/// A row about an account: `row` with the account's id and display name.
pub open spec fn named_row(account: JsonView, display_name: Seq<char>, row: JsonView) -> JsonView {
    row.with("accountId"@, member_or_null(account, "id"@)).with(
        "email"@,
        JsonView::Str(display_name),
    )
}

/// The row of an account in the travel status.
pub fn travel_status_item(account: &Json, display_name: &str, status: Json) -> (r: Json)
    requires
        status@.takes_members(),
    ensures
        r@ == named_row(account@, display_name@, status@),
{
    status.with("accountId", get_or_null(account, "id")).with("email", Json::str(display_name))
}

/// A row about an account together with its site.
pub open spec fn sited_row(account: JsonView, display_name: Seq<char>, row: JsonView) -> JsonView {
    named_row(account, display_name, row).with(
        "variant"@,
        JsonView::Str(variant_of(account).name()),
    )
}

/// The row of an account in the checkin status: the status as it was found,
/// with the account and its site.
pub fn checkin_status_item(account: &Json, display_name: &str, status: Json) -> (r: Json)
    requires
        status@.takes_members(),
    ensures
        r@ == sited_row(account@, display_name@, status@),
{
    travel_status_item(account, display_name, status).with(
        "variant",
        Json::str(WbVariant::from_account(account).as_str()),
    )
}

/// The configuration of the proxy and the active account.
pub open spec fn proxy_tree(enabled: bool, config: JsonView, account: Option<JsonView>) -> JsonView {
    JsonView::empty().with("enabled"@, JsonView::Bool(enabled)).with(
        "baseUrl"@,
        JsonView::Str("/v1"@),
    ).with("config"@, config).with("activeAccount"@, value_or_null(account))
}

/// The configuration of the proxy, and what may be shown of the active account.
pub fn proxy_config_page(enabled: bool, config: Json, account: Option<Json>) -> (r: Json)
    ensures
        r@ == proxy_tree(enabled, config@, tree_in(account)),
        r@ == JsonView::empty().with("enabled"@, JsonView::Bool(enabled)).with(
            "baseUrl"@,
            JsonView::Str("/v1"@),
        ).with("config"@, config@).with(
            "activeAccount"@,
            match account {
                Some(meta) => meta@,
                None => JsonView::Null,
            },
        ),
{
    Json::object().with("enabled", Json::Bool(enabled)).with("baseUrl", Json::str("/v1")).with(
        "config",
        config,
    ).with(
        "activeAccount",
        match account {
            Some(meta) => meta,
            None => Json::Null,
        },
    )
}

/// A row names the account and its site, and keeps everything else that was
/// found about the account.
pub proof fn law_row_keeps_status(
    account: JsonView,
    display_name: Seq<char>,
    row: JsonView,
    key: Seq<char>,
)
    requires
        row.takes_members(),
    ensures
        sited_row(account, display_name, row).member("accountId"@) == Some(
            member_or_null(account, "id"@),
        ),
        sited_row(account, display_name, row).text_at("email"@) == Some(display_name),
        sited_row(account, display_name, row).text_at("variant"@) == Some(
            variant_of(account).name(),
        ),
        key != "accountId"@ && key != "email"@ && key != "variant"@ ==> sited_row(
            account,
            display_name,
            row,
        ).member(key) == row.member(key),
        named_row(account, display_name, row).member("accountId"@) == Some(
            member_or_null(account, "id"@),
        ),
        named_row(account, display_name, row).text_at("email"@) == Some(display_name),
        key != "accountId"@ && key != "email"@ ==> named_row(account, display_name, row).member(key)
            == row.member(key),
{
    reveal_strlit("accountId");
    reveal_strlit("email");
    reveal_strlit("variant");
    assert("accountId"@.len() == 9 && "email"@.len() == 5 && "variant"@.len() == 7);
}

/// A member is shown as it is, and `Null` stands for one that is missing.
pub proof fn law_shown_members(json: JsonView, key: Seq<char>, value: JsonView)
    ensures
        json.member(key) == Some(value) ==> member_or_null(json, key) == value,
        json.member(key) is None ==> member_or_null(json, key) == JsonView::Null,
        value_or_null(Some(value)) == value,
        value_or_null(None) == JsonView::Null,
{
}

/// What was done is confirmed, with its result under its own key and nothing else.
pub proof fn law_done(key: Seq<char>, value: JsonView, other: Seq<char>)
    requires
        key != "ok"@,
    ensures
        done_tree(key, value).member("ok"@) == Some(JsonView::Bool(true)),
        done_tree(key, value).member(key) == Some(value),
        other != "ok"@ && other != key ==> done_tree(key, value).member(other) is None,
{
}

/// A list is shown whole, under its key and with nothing beside it.
pub proof fn law_listed(key: Seq<char>, items: Seq<JsonView>, other: Seq<char>)
    ensures
        listed_tree(key, items).member(key) == Some(JsonView::Array(items)),
        other != key ==> listed_tree(key, items).member(other) is None,
{
}

/// Each count of an import stands under its own key.
pub proof fn law_import_report(
    imported: JsonView,
    skipped: JsonView,
    overwritten: JsonView,
    key: Seq<char>,
)
    ensures
        ({
            let report = import_tree(imported, skipped, overwritten);
            &&& report.member("ok"@) == Some(JsonView::Bool(true))
            &&& report.member("imported"@) == Some(imported)
            &&& report.member("skipped"@) == Some(skipped)
            &&& report.member("overwritten"@) == Some(overwritten)
            &&& report.member(key) is Some ==> key == "ok"@ || key == "imported"@ || key
                == "skipped"@ || key == "overwritten"@
        }),
{
    reveal_strlit("ok");
    reveal_strlit("imported");
    reveal_strlit("skipped");
    reveal_strlit("overwritten");
    assert("ok"@.len() == 2 && "imported"@.len() == 8);
    assert("skipped"@.len() == 7 && "overwritten"@.len() == 11);
}

/// Who is logged in is shown by what the account says under the same key, `Null`
/// standing for what it does not say, and by the organisation; nothing else of
/// the account is shown.
pub proof fn law_current_user(
    account: JsonView,
    enterprise_id: JsonView,
    org_key: JsonView,
    key: Seq<char>,
)
    ensures
        ({
            let user = user_tree(account, enterprise_id, org_key);
            &&& key == "uid"@ || key == "nickname"@ || key == "email"@ || key
                == "enterpriseName"@ ==> user.member(key) == match account.member(key) {
                Some(value) => Some(value),
                None => Some(JsonView::Null),
            }
            &&& user.member("enterpriseId"@) == Some(enterprise_id)
            &&& user.member("orgKey"@) == Some(org_key)
            &&& user.member(key) is Some ==> key == "uid"@ || key == "nickname"@ || key
                == "email"@ || key == "enterpriseName"@ || key == "enterpriseId"@ || key
                == "orgKey"@
        }),
{
    reveal_strlit("uid");
    reveal_strlit("nickname");
    reveal_strlit("email");
    reveal_strlit("enterpriseId");
    reveal_strlit("enterpriseName");
    reveal_strlit("orgKey");
    assert("uid"@.len() == 3 && "nickname"@.len() == 8 && "email"@.len() == 5);
    assert("enterpriseId"@.len() == 12 && "enterpriseName"@.len() == 14 && "orgKey"@.len() == 6);
}

/// The account of a login state is its member `account`, the user id the string
/// member `uid` of that.
pub proof fn law_login(auth: JsonView, account: JsonView)
    ensures
        auth.member("account"@) == Some(account) ==> login_account(auth) == account && login_uid(
            Some(auth),
        ) == match account.member("uid"@) {
            Some(JsonView::Str(uid)) => Some(uid),
            _ => None,
        },
        auth.member("account"@) is None ==> login_account(auth) == JsonView::empty() && login_uid(
            Some(auth),
        ) is None,
        login_uid(None) is None,
{
}

/// The state of a client is shown with each of its parts under its own key.
pub proof fn law_client_status(state: ClientView, key: Seq<char>)
    ensures
        ({
            let shown = client_tree(state);
            &&& shown.member("running"@) == Some(JsonView::Bool(state.running))
            &&& shown.member("authFile"@) == Some(JsonView::Str(state.auth_file))
            &&& state.current matches Some(user) ==> shown.member("current"@) == Some(user)
            &&& state.current is None ==> shown.member("current"@) == Some(JsonView::Null)
            &&& shown.member("appPath"@) == Some(JsonView::Str(state.app_path))
            &&& shown.member("version"@) == Some(JsonView::Str(state.version))
            &&& state.variant is Cn ==> shown.member("variant"@) == Some(JsonView::Str("cn"@))
            &&& state.variant is Ai ==> shown.member("variant"@) == Some(JsonView::Str("ai"@))
            &&& shown.member(key) is Some ==> key == "running"@ || key == "authFile"@ || key
                == "current"@ || key == "appPath"@ || key == "version"@ || key == "variant"@
        }),
{
    reveal_strlit("running");
    reveal_strlit("authFile");
    reveal_strlit("current");
    reveal_strlit("appPath");
    reveal_strlit("version");
    reveal_strlit("variant");
    assert("authFile"@.len() == 8 && "running"@[0] == 'r' && "current"@[0] == 'c');
    assert("appPath"@[0] == 'a' && "version"@[0] == 'v' && "variant"@[0] == 'v');
    assert("version"@[1] == 'e' && "variant"@[1] == 'a');
}

/// The accounts are shown whole, with the user that is logged in and the site.
pub proof fn law_accounts_page(
    metas: Seq<JsonView>,
    auth: Option<JsonView>,
    variant: WbVariant,
    key: Seq<char>,
)
    ensures
        ({
            let page = accounts_tree(metas, auth, variant);
            &&& page.member("accounts"@) == Some(JsonView::Array(metas))
            &&& login_uid(auth) matches Some(uid) ==> page.member("current"@) == Some(
                JsonView::Str(uid),
            )
            &&& login_uid(auth) is None ==> page.member("current"@) == Some(JsonView::Null)
            &&& page.member("variant"@) == Some(JsonView::Str(variant.name()))
            &&& page.member(key) is Some ==> key == "accounts"@ || key == "current"@ || key
                == "variant"@
        }),
{
    reveal_strlit("accounts");
    reveal_strlit("current");
    reveal_strlit("variant");
    assert("accounts"@.len() == 8 && "current"@[0] == 'c' && "variant"@[0] == 'v');
}

/// The sessions are those of the user that is logged in, who is named; no one's
/// sessions are shown where no one is.
pub proof fn law_sessions_page(
    user: Seq<char>,
    sessions: JsonView,
    variant: WbVariant,
    key: Seq<char>,
)
    ensures
        ({
            let some = sessions_tree(Some(user), sessions, variant);
            let none = sessions_tree(None, sessions, variant);
            &&& some.member("sessions"@) == Some(sessions)
            &&& some.member("current"@) == Some(JsonView::Str(user))
            &&& some.member("variant"@) == Some(JsonView::Str(variant.name()))
            &&& none.member("sessions"@) == Some(JsonView::Array(Seq::empty()))
            &&& none.member("current"@) == Some(JsonView::Null)
            &&& none.member("variant"@) == Some(JsonView::Str(variant.name()))
            &&& some.member(key) is Some || none.member(key) is Some ==> key == "sessions"@ || key
                == "current"@ || key == "variant"@
        }),
{
    reveal_strlit("sessions");
    reveal_strlit("current");
    reveal_strlit("variant");
    assert("sessions"@.len() == 8 && "current"@[0] == 'c' && "variant"@[0] == 'v');
}

/// A copy of sessions is reported from whom it came, to whom it went, what was
/// copied, and the site of the account that it went to.
pub proof fn law_copy_report(
    source_uid: Option<Seq<char>>,
    target: JsonView,
    copied: JsonView,
    key: Seq<char>,
)
    ensures
        ({
            let report = copied_tree(source_uid, target, copied);
            &&& source_uid matches Some(uid) ==> report.member("sourceUid"@) == Some(
                JsonView::Str(uid),
            )
            &&& source_uid is None ==> report.member("sourceUid"@) == Some(JsonView::Null)
            &&& report.member("targetUid"@) == match target.member("uid"@) {
                Some(uid) => Some(uid),
                None => Some(JsonView::Null),
            }
            &&& report.member("copied"@) == Some(copied)
            &&& report.member("variant"@) == Some(JsonView::Str(variant_of(target).name()))
            &&& report.member(key) is Some ==> key == "sourceUid"@ || key == "targetUid"@ || key
                == "copied"@ || key == "variant"@
        }),
{
    reveal_strlit("sourceUid");
    reveal_strlit("targetUid");
    reveal_strlit("copied");
    reveal_strlit("variant");
    assert("sourceUid"@[0] == 's' && "targetUid"@[0] == 't');
    assert("sourceUid"@.len() == 9 && "targetUid"@.len() == 9);
    assert("copied"@.len() == 6 && "variant"@.len() == 7);
}

/// The configuration of the proxy is shown with its state, its address and the
/// active account.
pub proof fn law_proxy_config_page(
    enabled: bool,
    config: JsonView,
    account: Option<JsonView>,
    key: Seq<char>,
)
    ensures
        ({
            let page = proxy_tree(enabled, config, account);
            &&& page.member("enabled"@) == Some(JsonView::Bool(enabled))
            &&& page.member("baseUrl"@) == Some(JsonView::Str("/v1"@))
            &&& page.member("config"@) == Some(config)
            &&& account matches Some(meta) ==> page.member("activeAccount"@) == Some(meta)
            &&& account is None ==> page.member("activeAccount"@) == Some(JsonView::Null)
            &&& page.member(key) is Some ==> key == "enabled"@ || key == "baseUrl"@ || key
                == "config"@ || key == "activeAccount"@
        }),
{
    reveal_strlit("enabled");
    reveal_strlit("baseUrl");
    reveal_strlit("config");
    reveal_strlit("activeAccount");
    assert("enabled"@[0] == 'e' && "baseUrl"@[0] == 'b');
    assert("enabled"@.len() == 7 && "baseUrl"@.len() == 7);
    assert("config"@.len() == 6 && "activeAccount"@.len() == 13);
}

/// An operation that was done is answered with its result under its key; one
/// that failed is a bad request with its message.
pub proof fn law_done_answer(key: Seq<char>, value: JsonView, message: Seq<char>)
    requires
        key != "ok"@,
    ensures
        done_answer(key, Ok(value)).status == 200,
        done_answer(key, Ok(value)).body.member(key) == Some(value),
        done_answer(key, Ok(value)).body.member("ok"@) == Some(JsonView::Bool(true)),
        done_answer(key, Err(message)).status == 400,
        done_answer(key, Err(message)).body.member("ok"@) == Some(JsonView::Bool(false)),
        done_answer(key, Err(message)).body.member("error"@) == Some(JsonView::Str(message)),
{
    reveal_strlit("ok");
    reveal_strlit("error");
    assert("ok"@.len() == 2 && "error"@.len() == 5);
}

/// A request goes on exactly where its account was found, with that account, and
/// a copy of sessions with the site of its target; else it is a bad request.
pub proof fn law_missing_accounts(account: JsonView)
    ensures
        found_or_refused(Some(account)) == Ok::<JsonView, ReplyView>(account),
        found_or_refused(None) matches Err(reply) && reply.status == 400 && reply.body.member(
            "error"@,
        ) == Some(JsonView::Str("账号不存在"@)),
        site_or_refused(Some(account)) == Ok::<WbVariant, ReplyView>(variant_of(account)),
        site_or_refused(None) matches Err(reply) && reply.status == 400 && reply.body.member(
            "error"@,
        ) == Some(JsonView::Str("目标账号不存在"@)),
{
}

/// A copy that was made is answered with its report, one that failed is a bad
/// request with its message.
pub proof fn law_copy_answer(
    source_uid: Option<Seq<char>>,
    target: JsonView,
    copied: JsonView,
    message: Seq<char>,
)
    ensures
        copy_answer(source_uid, target, Ok(copied)).status == 200,
        copy_answer(source_uid, target, Ok(copied)).body == copied_tree(source_uid, target, copied),
        copy_answer(source_uid, target, Err(message)).status == 400,
        copy_answer(source_uid, target, Err(message)).body.member("error"@) == Some(
            JsonView::Str(message),
        ),
{
}

/// The state of a client says what each of its parts holds.
pub proof fn law_client_view(state: ClientState)
    ensures
        state@.running == state.running,
        state@.auth_file == state.auth_file@,
        state.current matches Some(user) ==> state@.current == Some(user@),
        state.current is None ==> state@.current is None,
        state@.app_path == state.app_path@,
        state@.version == state.version@,
        state@.variant == state.variant,
{
}

} // verus!
