//! Which of the stored accounts acts for a client.

use vstd::prelude::*;
use vstd::string::*;

use crate::codec::{parse_json, parsed_text};
use crate::json::{tree_in, tree_of, trees, Json, JsonView};
use crate::text::{same_text, text_of, trim, trimmed};
use crate::variant::{variant_of, WbVariant};

verus! {

/// The directory, in that of the user, where the command line tool keeps its state.
pub const STATE_DIR: &'static str = ".codebuddy-rotate";

/// The file in which the command line tool names its account.
pub const STATE_FILE: &'static str = "state.json";

/// The position of the first account whose string member `key` is `value`; the
/// number of accounts where there is none.
pub open spec fn first_with(accounts: Seq<JsonView>, key: Seq<char>, value: Seq<char>) -> int
    decreases accounts.len(),
{
    if accounts.len() == 0 || accounts.first().text_at(key) == Some(value) {
        0
    } else {
        1 + first_with(accounts.drop_first(), key, value)
    }
}

/// Whether requests to `site` can go out in the name of `account`: it belongs
/// to the site and has a token.
pub open spec fn can_serve(account: JsonView, site: WbVariant) -> bool {
    variant_of(account) == site && account.text_at("access_token"@) is Some
}

/// The position of the first account that can serve `site`; the number of
/// accounts where there is none.
pub open spec fn first_serving(accounts: Seq<JsonView>, site: WbVariant) -> int
    decreases accounts.len(),
{
    if accounts.len() == 0 || can_serve(accounts.first(), site) {
        0
    } else {
        1 + first_serving(accounts.drop_first(), site)
    }
}

/// The account that the state of the command line tool names, if it names one.
pub open spec fn named_active(state: JsonView) -> Option<Seq<char>> {
    match state.text_at("activeAccountId"@) {
        Some(id) if trimmed(id).len() > 0 => Some(trimmed(id)),
        _ => None,
    }
}

/// The position of the account that is active: the first with the named id, else
/// the first with the named id as its user id, else the first of all.
pub open spec fn active_position(accounts: Seq<JsonView>, named: Option<Seq<char>>) -> int {
    match named {
        Some(id) => if first_with(accounts, "id"@, id) < accounts.len() {
            first_with(accounts, "id"@, id)
        } else if first_with(accounts, "uid"@, id) < accounts.len() {
            first_with(accounts, "uid"@, id)
        } else {
            0
        },
        None => 0,
    }
}

/// The active account, where there is any account.
pub open spec fn active_of(accounts: Seq<JsonView>, state: Option<JsonView>) -> Option<JsonView> {
    let named = match state {
        Some(tree) => named_active(tree),
        None => None,
    };
    if accounts.len() == 0 {
        None
    } else {
        Some(accounts[active_position(accounts, named)])
    }
}

/// The tree in the text of a state file, where the file could be read and holds JSON.
pub open spec fn state_tree(text: Option<Seq<char>>) -> Option<JsonView> {
    match text {
        Some(t) => parsed_text(t),
        None => None,
    }
}

/// The account that serves `site`: the active one where it can, else the first that can.
pub open spec fn server_of(
    accounts: Seq<JsonView>,
    active: Option<JsonView>,
    site: WbVariant,
) -> Option<JsonView> {
    if active is Some && can_serve(active->Some_0, site) {
        active
    } else if first_serving(accounts, site) < accounts.len() {
        Some(accounts[first_serving(accounts, site)])
    } else {
        None
    }
}

proof fn lemma_first_with(accounts: Seq<JsonView>, key: Seq<char>, value: Seq<char>)
    ensures
        0 <= first_with(accounts, key, value) <= accounts.len(),
        forall|j: int|
            0 <= j < first_with(accounts, key, value) ==> (#[trigger] accounts[j]).text_at(key)
                != Some(value),
        first_with(accounts, key, value) < accounts.len() ==> accounts[first_with(
            accounts,
            key,
            value,
        )].text_at(key) == Some(value),
    decreases accounts.len(),
{
    if accounts.len() > 0 && accounts.first().text_at(key) != Some(value) {
        let rest = accounts.drop_first();
        lemma_first_with(rest, key, value);
        assert forall|j: int| 0 <= j < first_with(accounts, key, value) implies (
        #[trigger] accounts[j]).text_at(key) != Some(value) by {
            if j > 0 {
                assert(rest[j - 1] == accounts[j]);
            }
        }
    }
}

proof fn lemma_first_serving(accounts: Seq<JsonView>, site: WbVariant)
    ensures
        0 <= first_serving(accounts, site) <= accounts.len(),
        forall|j: int|
            0 <= j < first_serving(accounts, site) ==> !can_serve(#[trigger] accounts[j], site),
        first_serving(accounts, site) < accounts.len() ==> can_serve(
            accounts[first_serving(accounts, site)],
            site,
        ),
    decreases accounts.len(),
{
    if accounts.len() > 0 && !can_serve(accounts.first(), site) {
        let rest = accounts.drop_first();
        lemma_first_serving(rest, site);
        assert forall|j: int| 0 <= j < first_serving(accounts, site) implies !can_serve(
            #[trigger] accounts[j],
            site,
        ) by {
            if j > 0 {
                assert(rest[j - 1] == accounts[j]);
            }
        }
    }
}

/// The position of the first account whose string member `key` is `value`; the
/// number of accounts where there is none.
fn find_with(accounts: &[Json], key: &str, value: &str) -> (r: usize)
    ensures
        r == first_with(trees(accounts@), key@, value@),
        r <= accounts.len(),
{
    let mut i: usize = 0;
    let ghost all = trees(accounts@);
    while i < accounts.len()
        invariant
            i <= accounts.len(),
            all == trees(accounts@),
            forall|j: int| 0 <= j < i ==> (#[trigger] all[j]).text_at(key@) != Some(value@),
        decreases accounts.len() - i,
    {
        assert(all[i as int] == accounts@[i as int]@);
        let found = match accounts[i].get_str(key) {
            Some(s) => same_text(s, value),
            None => false,
        };
        if found {
            proof {
                lemma_first_with(all, key@, value@);
            }
            return i;
        }
        i = i + 1;
    }
    proof {
        lemma_first_with(all, key@, value@);
    }
    i
}

/// Tells whether requests to `site` can go out in the name of `account`.
pub fn serves(account: &Json, site: WbVariant) -> (r: bool)
    ensures
        r == can_serve(account@, site),
{
    WbVariant::from_account(account) == site && account.get_str("access_token").is_some()
}

/// The active account by the state of the command line tool; the first account
/// where the state names none that is stored.
pub fn choose_active(accounts: &[Json], state: Option<&Json>) -> (r: Option<Json>)
    ensures
        tree_in(r) == active_of(trees(accounts@), tree_of(state)),
{
    let ghost all = trees(accounts@);
    if accounts.len() == 0 {
        return None;
    }
    if let Some(tree) = state {
        if let Some(raw) = tree.get_str("activeAccountId") {
            let id = trim(raw);
            if !id.is_empty() {
                let by_id: usize = find_with(accounts, "id", id);
                if by_id < accounts.len() {
                    assert(all[by_id as int] == accounts@[by_id as int]@);
                    return Some(accounts[by_id].clone());
                }
                let by_uid: usize = find_with(accounts, "uid", id);
                if by_uid < accounts.len() {
                    assert(all[by_uid as int] == accounts@[by_uid as int]@);
                    return Some(accounts[by_uid].clone());
                }
            }
        }
    }
    assert(all[0] == accounts@[0]@);
    Some(accounts[0].clone())
}

/// The active account by the text of the state file of the command line tool;
/// `None` stands for a file that cannot be read.
pub fn active_account_from(accounts: &[Json], state_text: Option<&str>) -> (r: Option<Json>)
    ensures
        tree_in(r) == active_of(trees(accounts@), state_tree(text_of(state_text))),
{
    let state = match state_text {
        Some(text) => parse_json(text),
        None => None,
    };
    choose_active(accounts, state.as_ref())
}

/// The account that serves `site`, given which one is active.
pub fn choose_for_site(accounts: &[Json], active: Option<Json>, site: WbVariant) -> (r: Option<
    Json,
>)
    ensures
        tree_in(r) == server_of(trees(accounts@), tree_in(active), site),
{
    if let Some(account) = &active {
        if serves(account, site) {
            return active;
        }
    }
    let ghost all = trees(accounts@);
    let mut i: usize = 0;
    while i < accounts.len()
        invariant
            i <= accounts.len(),
            all == trees(accounts@),
            forall|j: int| 0 <= j < i ==> !can_serve(#[trigger] all[j], site),
            active is Some ==> !can_serve(active->Some_0@, site),
        decreases accounts.len() - i,
    {
        assert(all[i as int] == accounts@[i as int]@);
        if serves(&accounts[i], site) {
            proof {
                lemma_first_serving(all, site);
            }
            return Some(accounts[i].clone());
        }
        i = i + 1;
    }
    proof {
        lemma_first_serving(all, site);
    }
    None
}

/// The account that serves `site`: the active one where it belongs to the site
/// and has a token, else the first that does.
pub fn account_for_site(accounts: &[Json], state_text: Option<&str>, site: WbVariant) -> (r: Option<
    Json,
>)
    ensures
        tree_in(r) == server_of(
            trees(accounts@),
            active_of(trees(accounts@), state_tree(text_of(state_text))),
            site,
        ),
{
    choose_for_site(accounts, active_account_from(accounts, state_text), site)
}

/// There is an active account as soon as there is any, and it is one of those
/// stored.
pub proof fn law_active_is_stored(accounts: Seq<JsonView>, state: Option<JsonView>)
    ensures
        active_of(accounts, state) is Some <==> accounts.len() > 0,
        active_of(accounts, state) matches Some(account) ==> accounts.contains(account),
{
    if state is Some && named_active(state->Some_0) is Some {
        let id = named_active(state->Some_0)->Some_0;
        lemma_first_with(accounts, "id"@, id);
        lemma_first_with(accounts, "uid"@, id);
    }
}

/// The account with the named id is the active one, whatever user id others have.
pub proof fn law_named_account_is_active(accounts: Seq<JsonView>, state: JsonView, i: int)
    requires
        0 <= i < accounts.len(),
        named_active(state) is Some,
        accounts[i].text_at("id"@) == named_active(state),
    ensures
        active_of(accounts, Some(state)) is Some,
        active_of(accounts, Some(state))->Some_0.text_at("id"@) == named_active(state),
{
    lemma_first_with(accounts, "id"@, named_active(state)->Some_0);
}

/// A site is served if and only if some account can serve it, and then by one
/// of those; by the active account where that one can.
pub proof fn law_site_is_served(
    accounts: Seq<JsonView>,
    state: Option<JsonView>,
    site: WbVariant,
)
    ensures
        server_of(accounts, active_of(accounts, state), site) is Some <==> exists|i: int|
            0 <= i < accounts.len() && can_serve(#[trigger] accounts[i], site),
        server_of(accounts, active_of(accounts, state), site) matches Some(account) ==> can_serve(
            account,
            site,
        ) && accounts.contains(account),
        active_of(accounts, state) matches Some(account) ==> can_serve(account, site) ==> server_of(
            accounts,
            active_of(accounts, state),
            site,
        ) == Some(account),
{
    law_active_is_stored(accounts, state);
    lemma_first_serving(accounts, site);
    if active_of(accounts, state) is Some {
        let account = active_of(accounts, state)->Some_0;
        let k = choose|k: int| 0 <= k < accounts.len() && accounts[k] == account;
        assert(accounts[k] == account);
    }
}

/// An account serves its own site, and only with a token.
pub proof fn law_who_can_serve(account: JsonView, site: WbVariant)
    ensures
        can_serve(account, site) <==> variant_of(account) == site && (account.member(
            "access_token"@,
        ) matches Some(token) && token is Str),
{
}

/// The state names an account exactly where its member `activeAccountId` is a
/// string that is not blank; white space around the name has no meaning.
pub proof fn law_named_account(state: JsonView)
    ensures
        named_active(state) == match state.member("activeAccountId"@) {
            Some(JsonView::Str(id)) => if trimmed(id).len() > 0 {
                Some(trimmed(id))
            } else {
                None
            },
            _ => None,
        },
{
}

/// The named account is the first with the name as its id.
pub proof fn law_active_by_id(accounts: Seq<JsonView>, state: JsonView, i: int)
    requires
        0 <= i < accounts.len(),
        named_active(state) is Some,
        accounts[i].text_at("id"@) == named_active(state),
        forall|j: int| 0 <= j < i ==> (#[trigger] accounts[j]).text_at("id"@) != named_active(state),
    ensures
        active_of(accounts, Some(state)) == Some(accounts[i]),
{
    lemma_first_with(accounts, "id"@, named_active(state)->Some_0);
}

/// Where no account has the name as its id, it is the first with the name as its
/// user id.
pub proof fn law_active_by_uid(accounts: Seq<JsonView>, state: JsonView, i: int)
    requires
        0 <= i < accounts.len(),
        named_active(state) is Some,
        forall|j: int|
            0 <= j < accounts.len() ==> (#[trigger] accounts[j]).text_at("id"@) != named_active(
                state,
            ),
        accounts[i].text_at("uid"@) == named_active(state),
        forall|j: int| 0 <= j < i ==> (#[trigger] accounts[j]).text_at("uid"@) != named_active(state),
    ensures
        active_of(accounts, Some(state)) == Some(accounts[i]),
{
    lemma_first_with(accounts, "id"@, named_active(state)->Some_0);
    lemma_first_with(accounts, "uid"@, named_active(state)->Some_0);
}

/// Where no account is named, or none of the name is stored, the first is active.
pub proof fn law_first_account_by_default(accounts: Seq<JsonView>, state: Option<JsonView>)
    requires
        accounts.len() > 0,
        state matches Some(tree) ==> (named_active(tree) is None || forall|j: int|
            0 <= j < accounts.len() ==> (#[trigger] accounts[j]).text_at("id"@) != named_active(
                tree,
            ) && accounts[j].text_at("uid"@) != named_active(tree)),
    ensures
        active_of(accounts, state) == Some(accounts[0]),
{
    if state is Some && named_active(state->Some_0) is Some {
        let id = named_active(state->Some_0)->Some_0;
        lemma_first_with(accounts, "id"@, id);
        lemma_first_with(accounts, "uid"@, id);
    }
}

/// Where the active account cannot serve a site, the first account that can does.
pub proof fn law_first_that_can_serves(
    accounts: Seq<JsonView>,
    active: Option<JsonView>,
    site: WbVariant,
    i: int,
)
    requires
        active matches Some(account) ==> !can_serve(account, site),
        0 <= i < accounts.len(),
        can_serve(accounts[i], site),
        forall|j: int| 0 <= j < i ==> !can_serve(#[trigger] accounts[j], site),
    ensures
        server_of(accounts, active, site) == Some(accounts[i]),
{
    lemma_first_serving(accounts, site);
}

/// The state is what the text of its file holds, and nothing where there is none.
pub proof fn law_state_in_its_file(text: Seq<char>)
    ensures
        state_tree(Some(text)) == parsed_text(text),
        state_tree(None) is None,
{
}

} // verus!
