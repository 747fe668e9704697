//! The list of models that the proxy offers, gathered from both sites.

use vstd::prelude::*;
use vstd::string::*;

use crate::account::{
    account_for_site, active_of, can_serve, law_site_is_served, server_of, state_tree,
};
use crate::json::{strings_of, trees, Json, JsonView};
use crate::reply::{is_success, openai_error, openai_reply, Reply, ReplyView};
use crate::text::{joined, same_text, text_of, texts, trim, trimmed};
use crate::variant::WbVariant;

verus! {

/// `entry` with the member `from` of `model` under the name `to`, where there is one.
pub open spec fn carry(
    entry: JsonView,
    to: Seq<char>,
    model: JsonView,
    from: Seq<char>,
) -> JsonView {
    match model.member(from) {
        Some(value) => entry.with(to, value),
        None => entry,
    }
}

/// The entry that offers `model` under the id `exported`.
pub open spec fn entry_tree(
    exported: Seq<char>,
    id: Seq<char>,
    owner: Seq<char>,
    model: JsonView,
) -> JsonView {
    let bare = JsonView::empty().with("id"@, JsonView::Str(exported)).with(
        "object"@,
        JsonView::Str("model"@),
    ).with("owned_by"@, JsonView::Str(owner)).with("workbuddy_id"@, JsonView::Str(id));
    let named = carry(bare, "name"@, model, "name"@);
    let bounded = carry(named, "max_input_tokens"@, model, "maxInputTokens"@);
    let limited = carry(bounded, "max_output_tokens"@, model, "maxOutputTokens"@);
    carry(limited, "credits"@, model, "credits"@)
}

/// The id of a model as its site gives it; none where it is missing or blank.
pub open spec fn model_id(model: JsonView) -> Option<Seq<char>> {
    match model.text_at("id"@) {
        Some(raw) if trimmed(raw).len() > 0 => Some(trimmed(raw)),
        _ => None,
    }
}

pub open spec fn model_owner(model: JsonView) -> Seq<char> {
    match model.text_at("vendor"@) {
        Some(vendor) => vendor,
        None => "workbuddy"@,
    }
}

/// The entry that binds `model` to `site`; none where the model has no id.
pub open spec fn site_entry(site: WbVariant, model: JsonView) -> Option<JsonView> {
    match model_id(model) {
        Some(id) => Some(entry_tree(site.prefix() + id, id, model_owner(model), model)),
        None => None,
    }
}

/// The entries of the models of a site, in their order.
pub open spec fn site_entries(site: WbVariant, models: Seq<JsonView>) -> Seq<JsonView>
    decreases models.len(),
{
    if models.len() == 0 {
        Seq::empty()
    } else {
        let before = site_entries(site, models.drop_last());
        match site_entry(site, models.last()) {
            Some(entry) => before.push(entry),
            None => before,
        }
    }
}

/// Sets `to` in `entry` to the member `from` of `model`, where there is one.
fn carry_member(entry: Json, to: &str, model: &Json, from: &str) -> (r: Json)
    requires
        entry@ is Object,
    ensures
        r@ == carry(entry@, to@, model@, from@),
        r@ is Object,
{
    match model.get(from) {
        Some(value) => entry.with(to, value.clone()),
        None => entry,
    }
}

/// The entry that offers `model` under the id `exported_id`.
fn model_entry(exported_id: &str, id: &str, owned_by: &str, model: &Json) -> (r: Json)
    ensures
        r@ == entry_tree(exported_id@, id@, owned_by@, model@),
{
    let bare = Json::object().with("id", Json::str(exported_id)).with(
        "object",
        Json::str("model"),
    ).with("owned_by", Json::str(owned_by)).with("workbuddy_id", Json::str(id));
    let named = carry_member(bare, "name", model, "name");
    let bounded = carry_member(named, "max_input_tokens", model, "maxInputTokens");
    let limited = carry_member(bounded, "max_output_tokens", model, "maxOutputTokens");
    carry_member(limited, "credits", model, "credits")
}

/// The entries that bind the models of a site to it, without the models that
/// have no id.
pub fn site_model_entries(variant: WbVariant, models: &[Json]) -> (r: Vec<Json>)
    ensures
        trees(r@) == site_entries(variant, trees(models@)),
{
    let mut entries: Vec<Json> = Vec::new();
    let ghost all = trees(models@);
    let mut i: usize = 0;
    assert(all.take(0) =~= Seq::<JsonView>::empty());
    assert(trees(entries@) =~= Seq::<JsonView>::empty());
    while i < models.len()
        invariant
            i <= models.len(),
            all == trees(models@),
            trees(entries@) == site_entries(variant, all.take(i as int)),
        decreases models.len() - i,
    {
        let model = &models[i];
        let ghost before = entries@;
        assert(all[i as int] == model@);
        assert(all.take(i + 1).drop_last() =~= all.take(i as int));
        if let Some(raw) = model.get_str("id") {
            let id = trim(raw);
            if !id.is_empty() {
                let owned_by = match model.get_str("vendor") {
                    Some(vendor) => vendor,
                    None => "workbuddy",
                };
                let exported = joined(variant.model_prefix(), id);
                let entry = model_entry(exported.as_str(), id, owned_by, model);
                entries.push(entry);
                assert(trees(entries@) =~= trees(before).push(entry@));
            }
        }
        i = i + 1;
    }
    assert(all.take(i as int) =~= all);
    entries
}

/// The models that a site answered with, or why it gave none.
#[derive(Debug)]
pub struct SiteOutcome {
    pub site: WbVariant,
    pub models: Result<Vec<Json>, String>,
}

/// What a [`SiteOutcome`] says.
pub struct OutcomeView {
    pub site: WbVariant,
    pub models: Result<Seq<JsonView>, Seq<char>>,
}

impl View for SiteOutcome {
    type V = OutcomeView;

    open spec fn view(&self) -> OutcomeView {
        OutcomeView {
            site: self.site,
            models: match self.models {
                Ok(models) => Ok(trees(models@)),
                Err(message) => Err(message@),
            },
        }
    }
}

/// The list under construction: its entries, the ids that stand in it without
/// a prefix, and what went wrong.
pub struct Listing {
    pub data: Seq<JsonView>,
    pub plain_ids: Seq<Seq<char>>,
    pub errors: Seq<Seq<char>>,
}

/// `entry` under the id that its site gives the model.
pub open spec fn plain_entry(entry: JsonView) -> JsonView {
    entry.with("id"@, JsonView::Str(entry.text_at("workbuddy_id"@)->Some_0))
}

impl Listing {
    pub open spec fn empty() -> Listing {
        Listing { data: Seq::empty(), plain_ids: Seq::empty(), errors: Seq::empty() }
    }

    /// The list with `entry` added, and in front of it the same without a
    /// prefix where no such entry is listed yet.
    pub open spec fn add_entry(self, entry: JsonView) -> Listing {
        match entry.text_at("workbuddy_id"@) {
            Some(id) if !self.plain_ids.contains(id) => Listing {
                data: self.data.push(plain_entry(entry)).push(entry),
                plain_ids: self.plain_ids.push(id),
                errors: self.errors,
            },
            _ => Listing { data: self.data.push(entry), ..self },
        }
    }

    /// The list with `entries` added one after the other.
    pub open spec fn add_entries(self, entries: Seq<JsonView>) -> Listing
        decreases entries.len(),
    {
        if entries.len() == 0 {
            self
        } else {
            self.add_entries(entries.drop_last()).add_entry(entries.last())
        }
    }

    /// The list with the models of a site added, or with a message that they
    /// could not be had.
    pub open spec fn add_site(self, outcome: OutcomeView) -> Listing {
        match outcome.models {
            Ok(models) => self.add_entries(site_entries(outcome.site, models)),
            Err(message) => Listing {
                errors: self.errors.push(outcome.site.label() + " 模型加载失败: "@ + message),
                ..self
            },
        }
    }
}

/// The list that the outcomes of the sites add up to.
pub open spec fn listing_of(outcomes: Seq<OutcomeView>) -> Listing
    decreases outcomes.len(),
{
    if outcomes.len() == 0 {
        Listing::empty()
    } else {
        listing_of(outcomes.drop_last()).add_site(outcomes.last())
    }
}

pub open spec fn outcome_views(outcomes: Seq<SiteOutcome>) -> Seq<OutcomeView> {
    outcomes.map_values(|outcome: SiteOutcome| outcome@)
}

/// The list of models under construction.
pub struct ModelList {
    data: Vec<Json>,
    plain_ids: Vec<String>,
    errors: Vec<String>,
}

impl View for ModelList {
    type V = Listing;

    closed spec fn view(&self) -> Listing {
        Listing {
            data: trees(self.data@),
            plain_ids: texts(self.plain_ids@),
            errors: texts(self.errors@),
        }
    }
}

/// Tells whether `text` is in `list`.
fn lists(list: &Vec<String>, text: &str) -> (r: bool)
    ensures
        r == texts(list@).contains(text@),
{
    let ghost all = texts(list@);
    let mut i: usize = 0;
    while i < list.len()
        invariant
            i <= list.len(),
            all == texts(list@),
            forall|j: int| 0 <= j < i ==> all[j] != text@,
        decreases list.len() - i,
    {
        assert(all[i as int] == list@[i as int]@);
        if same_text(list[i].as_str(), text) {
            return true;
        }
        i = i + 1;
    }
    false
}

impl ModelList {
    /// The list without entries.
    pub fn new() -> (r: ModelList)
        ensures
            r@ == Listing::empty(),
    {
        let r = ModelList { data: Vec::new(), plain_ids: Vec::new(), errors: Vec::new() };
        assert(r@.data =~= Seq::<JsonView>::empty());
        assert(r@.plain_ids =~= Seq::<Seq<char>>::empty());
        assert(r@.errors =~= Seq::<Seq<char>>::empty());
        r
    }

    fn add_entry(&mut self, entry: &Json)
        requires
            entry@ is Object,
        ensures
            final(self)@ == old(self)@.add_entry(entry@),
    {
        let ghost old_data = self.data@;
        let ghost old_ids = self.plain_ids@;
        if let Some(id) = entry.get_str("workbuddy_id") {
            if !lists(&self.plain_ids, id) {
                let plain = entry.clone().with("id", Json::str(id));
                self.plain_ids.push(id.to_owned());
                self.data.push(plain);
                assert(texts(self.plain_ids@) =~= texts(old_ids).push(id@));
                assert(trees(self.data@) =~= trees(old_data).push(plain_entry(entry@)));
            }
        }
        let ghost mid_data = self.data@;
        self.data.push(entry.clone());
        assert(trees(self.data@) =~= trees(mid_data).push(entry@));
    }

    /// Adds what a site answered with. Every model is listed with the prefix of
    /// the site, and once for both sites without. A site that failed adds a message.
    pub fn add_site(&mut self, outcome: &SiteOutcome)
        ensures
            final(self)@ == old(self)@.add_site(outcome@),
    {
        match &outcome.models {
            Ok(models) => {
                let entries = site_model_entries(outcome.site, models.as_slice());
                let ghost all = trees(entries@);
                let ghost start = self@;
                let mut i: usize = 0;
                assert(all.take(0) =~= Seq::<JsonView>::empty());
                proof {
                    lemma_entries_are_objects(outcome.site, trees(models@));
                }
                while i < entries.len()
                    invariant
                        i <= entries.len(),
                        all == trees(entries@),
                        forall|j: int| 0 <= j < all.len() ==> (#[trigger] all[j]) is Object,
                        self@ == start.add_entries(all.take(i as int)),
                    decreases entries.len() - i,
                {
                    assert(all[i as int] == entries@[i as int]@);
                    assert(all.take(i + 1).drop_last() =~= all.take(i as int));
                    self.add_entry(&entries[i]);
                    i = i + 1;
                }
                assert(all.take(i as int) =~= all);
            },
            Err(message) => {
                let ghost before = self.errors@;
                let head = joined(outcome.site.message_name(), " 模型加载失败: ");
                let error = joined(head.as_str(), message.as_str());
                self.errors.push(error);
                assert(texts(self.errors@) =~= texts(before).push(error@));
            },
        }
    }
}

proof fn lemma_entries_are_objects(site: WbVariant, models: Seq<JsonView>)
    ensures
        forall|j: int|
            0 <= j < site_entries(site, models).len() ==> (#[trigger] site_entries(
                site,
                models,
            )[j]) is Object,
    decreases models.len(),
{
    if models.len() > 0 {
        lemma_entries_are_objects(site, models.drop_last());
    }
}

/// A finished list, as it is sent to a client.
pub open spec fn list_tree(data: Seq<JsonView>) -> JsonView {
    JsonView::empty().with("object"@, JsonView::Str("list"@)).with("data"@, JsonView::Array(data))
}

/// A finished list together with what went wrong.
pub open spec fn report_tree(listing: Listing) -> JsonView {
    list_tree(listing.data).with("errors"@, JsonView::Array(strings_of(listing.errors)))
}

impl ModelList {
    /// The list with the entries alone.
    pub fn into_list(self) -> (r: Json)
        ensures
            r@ == list_tree(self@.data),
    {
        Json::object().with("object", Json::str("list")).with("data", Json::array(self.data))
    }

    /// The list with the messages of the sites that failed.
    pub fn into_report(self) -> (r: Json)
        ensures
            r@ == report_tree(self@),
    {
        let errors = Json::strings(&self.errors);
        self.into_list().with("errors", errors)
    }
}

fn gathered(outcomes: &Vec<SiteOutcome>) -> (r: ModelList)
    ensures
        r@ == listing_of(outcome_views(outcomes@)),
{
    let mut list = ModelList::new();
    let ghost all = outcome_views(outcomes@);
    let mut i: usize = 0;
    assert(all.take(0) =~= Seq::<OutcomeView>::empty());
    while i < outcomes.len()
        invariant
            i <= outcomes.len(),
            all == outcome_views(outcomes@),
            list@ == listing_of(all.take(i as int)),
        decreases outcomes.len() - i,
    {
        assert(all[i as int] == outcomes@[i as int]@);
        assert(all.take(i + 1).drop_last() =~= all.take(i as int));
        list.add_site(&outcomes[i]);
        i = i + 1;
    }
    assert(all.take(i as int) =~= all);
    list
}

/// The models of all sites, with the messages of the sites that failed.
pub fn list_models(outcomes: &Vec<SiteOutcome>) -> (r: Json)
    ensures
        r@ == report_tree(listing_of(outcome_views(outcomes@))),
{
    gathered(outcomes).into_report()
}

/// The models of all sites; a site that failed is left out.
pub fn list_models_quietly(outcomes: &Vec<SiteOutcome>) -> (r: Json)
    ensures
        r@ == list_tree(listing_of(outcome_views(outcomes@)).data),
{
    gathered(outcomes).into_list()
}

/// What a client that asks for the models is refused with, if it is.
pub open spec fn off_reply(enabled: bool) -> Option<ReplyView> {
    if enabled {
        None
    } else {
        Some(openai_reply("2API 代理未开启"@, 404, "proxy_disabled"@))
    }
}

/// The answer to a client that asks for the models while the proxy is off.
pub fn models_refusal(enabled: bool) -> (r: Option<Reply>)
    ensures
        r matches Some(reply) ==> off_reply(enabled) == Some(reply@),
        r is None ==> off_reply(enabled) is None,
        r is Some <==> !enabled,
        r matches Some(reply) ==> reply@ == openai_reply(
            "2API 代理未开启"@,
            404,
            "proxy_disabled"@,
        ),
{
    if enabled {
        None
    } else {
        Some(openai_error("2API 代理未开启", 404, "proxy_disabled"))
    }
}

/// A site whose models are to be fetched, and the account to do so with.
#[derive(Debug)]
pub struct SiteFetch {
    pub site: WbVariant,
    pub account: Json,
}

/// The sites to ask for their models, the domestic one first, each with the
/// account that serves it. A site that no account serves is not asked.
pub open spec fn fetches(accounts: Seq<JsonView>, state: Option<JsonView>) -> Seq<
    (WbVariant, JsonView),
> {
    let of = |site: WbVariant|
        match server_of(accounts, active_of(accounts, state), site) {
            Some(account) => seq![(site, account)],
            None => Seq::empty(),
        };
    of(WbVariant::Cn) + of(WbVariant::Ai)
}

pub open spec fn fetch_views(list: Seq<SiteFetch>) -> Seq<(WbVariant, JsonView)> {
    list.map_values(|fetch: SiteFetch| (fetch.site, fetch.account@))
}

/// The sites to ask for their models, in order, each with the account that serves it.
pub fn sites_to_ask(accounts: &[Json], state_text: Option<&str>) -> (r: Vec<SiteFetch>)
    ensures
        fetch_views(r@) == fetches(trees(accounts@), state_tree(text_of(state_text))),
{
    let mut list: Vec<SiteFetch> = Vec::new();
    let cn = account_for_site(accounts, state_text, WbVariant::Cn);
    let ai = account_for_site(accounts, state_text, WbVariant::Ai);
    if let Some(account) = cn {
        list.push(SiteFetch { site: WbVariant::Cn, account });
    }
    if let Some(account) = ai {
        list.push(SiteFetch { site: WbVariant::Ai, account });
    }
    assert(fetch_views(list@) =~= fetches(trees(accounts@), state_tree(text_of(state_text))));
    list
}

/// A site is asked by an account of its own that has a token, and is asked if
/// and only if there is one; no site is asked twice.
pub proof fn law_sites_are_asked_in_their_own_name(
    accounts: Seq<JsonView>,
    state: Option<JsonView>,
    site: WbVariant,
)
    ensures
        ({
            let asked = fetches(accounts, state);
            &&& forall|i: int|
                0 <= i < asked.len() ==> can_serve((#[trigger] asked[i]).1, asked[i].0)
            &&& (exists|i: int| 0 <= i < asked.len() && (#[trigger] asked[i]).0 == site)
                <==> exists|i: int| 0 <= i < accounts.len() && can_serve(#[trigger] accounts[i], site)
            &&& forall|i: int, j: int|
                0 <= i < j < asked.len() ==> (#[trigger] asked[i]).0 != (#[trigger] asked[j]).0
        }),
{
    law_site_is_served(accounts, state, WbVariant::Cn);
    law_site_is_served(accounts, state, WbVariant::Ai);
    let asked = fetches(accounts, state);
    let cn = server_of(accounts, active_of(accounts, state), WbVariant::Cn);
    let ai = server_of(accounts, active_of(accounts, state), WbVariant::Ai);
    if cn is Some {
        assert(asked[0] == (WbVariant::Cn, cn->Some_0));
    }
    if ai is Some {
        assert(asked.last() == (WbVariant::Ai, ai->Some_0));
        assert(asked[asked.len() - 1].0 == WbVariant::Ai);
    }
}

/// The models in the configuration that a site answers with; none where it
/// has no list of them.
pub open spec fn models_in(config: JsonView) -> Seq<JsonView> {
    match config.member("data"@) {
        Some(data) => match data.items_at("models"@) {
            Some(models) => models,
            None => Seq::empty(),
        },
        None => Seq::empty(),
    }
}

/// The models in the configuration that a site answers with.
pub fn site_models(config: &Json) -> (r: Vec<Json>)
    ensures
        trees(r@) == models_in(config@),
{
    let mut models: Vec<Json> = Vec::new();
    assert(trees(models@) =~= Seq::<JsonView>::empty());
    if let Some(data) = config.get("data") {
        if let Some(list) = data.get("models") {
            if let Some(items) = list.as_array() {
                models = copies(items);
            }
        }
    }
    models
}

fn copies(items: &Vec<Json>) -> (r: Vec<Json>)
    ensures
        trees(r@) == trees(items@),
{
    let mut copy: Vec<Json> = Vec::new();
    let mut i: usize = 0;
    while i < items.len()
        invariant
            i <= items.len(),
            copy.len() == i,
            forall|j: int| 0 <= j < i ==> (#[trigger] copy@[j])@ == items@[j]@,
        decreases items.len() - i,
    {
        copy.push(items[i].clone());
        i = i + 1;
    }
    assert(trees(copy@) =~= trees(items@));
    copy
}

/// Why the answer of a site is refused.
pub open spec fn refusal_of(url: Seq<char>, status: u16, status_text: Seq<char>) -> Option<
    Seq<char>,
> {
    if is_success(status) {
        None
    } else {
        Some("上游 "@ + url + " 返回 "@ + status_text)
    }
}

/// Why the answer of a site is refused: its status, where that is no success.
pub fn refused_answer(url: &str, status: u16, status_text: &str) -> (r: Option<String>)
    ensures
        r is Some <==> refusal_of(url@, status, status_text@) is Some,
        r matches Some(message) ==> refusal_of(url@, status, status_text@) == Some(message@),
        r is Some <==> !is_success(status),
        r matches Some(message) ==> message@ == "上游 "@ + url@ + " 返回 "@ + status_text@,
{
    if 200 <= status && status < 300 {
        None
    } else {
        let asked = joined("上游 ", url);
        let answered = joined(asked.as_str(), " 返回 ");
        Some(joined(answered.as_str(), status_text))
    }
}

/// Where an answer has an array of models, each of them is taken, in its place;
/// where it has none, there are none.
pub proof fn law_all_models_are_taken(config: JsonView, data: JsonView, items: Seq<JsonView>, i: int)
    ensures
        config.member("data"@) == Some(data) && data.member("models"@) == Some(
            JsonView::Array(items),
        ) ==> models_in(config).len() == items.len() && (0 <= i < items.len() ==> models_in(
            config,
        )[i] == items[i]),
        config.member("data"@) is None ==> models_in(config).len() == 0,
        config.member("data"@) == Some(data) && !(data.member("models"@) matches Some(models)
            && models is Array) ==> models_in(config).len() == 0,
{
}

/// A model has an id exactly where its member `id` is a string that is not
/// blank, and it has it without white space around; its owner is its vendor.
pub proof fn law_model(model: JsonView)
    ensures
        model_id(model) == match model.member("id"@) {
            Some(JsonView::Str(id)) => if trimmed(id).len() > 0 {
                Some(trimmed(id))
            } else {
                None
            },
            _ => None,
        },
        model_owner(model) == match model.member("vendor"@) {
            Some(JsonView::Str(vendor)) => vendor,
            _ => "workbuddy"@,
        },
{
}

/// A model with an id is offered by its site under the prefix and the id; one
/// without is passed over.
pub proof fn law_site_entry(site: WbVariant, model: JsonView)
    ensures
        model_id(model) matches Some(id) ==> site_entry(site, model) == Some(
            entry_tree(site.prefix() + id, id, model_owner(model), model),
        ),
        model_id(model) is None ==> site_entry(site, model) is None,
{
}

/// The entries of a list of models are those of each model, in their order.
pub proof fn law_site_entries(site: WbVariant, models: Seq<JsonView>, more: Seq<JsonView>)
    ensures
        site_entries(site, Seq::empty()) == Seq::<JsonView>::empty(),
        models.len() == 1 && model_id(models[0]) is Some ==> site_entries(site, models)
            == seq![site_entry(site, models[0])->Some_0],
        models.len() == 1 && model_id(models[0]) is None ==> site_entries(site, models)
            == Seq::<JsonView>::empty(),
        site_entries(site, models + more) == site_entries(site, models) + site_entries(site, more),
    decreases more.len(),
{
    if more.len() == 0 {
        assert(models + more =~= models);
        assert(site_entries(site, models) + site_entries(site, more) =~= site_entries(site, models));
    } else {
        law_site_entries(site, models, more.drop_last());
        assert((models + more).drop_last() =~= models + more.drop_last());
        assert(site_entries(site, models + more) =~= site_entries(site, models) + site_entries(
            site,
            more,
        ));
    }
    if models.len() == 1 {
        assert(models.drop_last() =~= Seq::<JsonView>::empty());
        assert(site_entries(site, models.drop_last()) =~= Seq::<JsonView>::empty());
        if model_id(models[0]) is Some {
            assert(site_entries(site, models) =~= seq![site_entry(site, models[0])->Some_0]);
        }
    }
}

/// An entry is added behind all others. Where the id that its site gives the
/// model is new, the same entry under that id goes right before it.
pub proof fn law_place_of_an_entry(list: Listing, entry: JsonView, id: Seq<char>)
    requires
        entry.member("workbuddy_id"@) == Some(JsonView::Str(id)),
    ensures
        list.plain_ids.contains(id) ==> list.add_entry(entry).data == list.data + seq![entry]
            && list.add_entry(entry).plain_ids == list.plain_ids,
        !list.plain_ids.contains(id) ==> list.add_entry(entry).data == list.data + seq![
            plain_entry(entry),
            entry,
        ] && list.add_entry(entry).plain_ids == list.plain_ids + seq![id],
        list.add_entry(entry).errors == list.errors,
{
    if !list.plain_ids.contains(id) {
        assert(list.add_entry(entry).data =~= list.data + seq![plain_entry(entry), entry]);
        assert(list.add_entry(entry).plain_ids =~= list.plain_ids + seq![id]);
    } else {
        assert(list.add_entry(entry).data =~= list.data + seq![entry]);
    }
}

/// An entry under the id of its site differs from the entry in nothing but the id.
pub proof fn law_plain_entry(entry: JsonView, id: Seq<char>, key: Seq<char>)
    requires
        entry.member("workbuddy_id"@) == Some(JsonView::Str(id)),
    ensures
        plain_entry(entry).member("id"@) == Some(JsonView::Str(id)),
        key != "id"@ ==> plain_entry(entry).member(key) == entry.member(key),
{
}

/// The list that a client gets is a list with the entries as its data; the
/// report holds the messages beside it. Neither holds anything else.
pub proof fn law_list_tree(listing: Listing, key: Seq<char>)
    ensures
        list_tree(listing.data).member("object"@) == Some(JsonView::Str("list"@)),
        list_tree(listing.data).member("data"@) == Some(JsonView::Array(listing.data)),
        key != "object"@ && key != "data"@ ==> list_tree(listing.data).member(key) is None,
        report_tree(listing).member("object"@) == Some(JsonView::Str("list"@)),
        report_tree(listing).member("data"@) == Some(JsonView::Array(listing.data)),
        report_tree(listing).member("errors"@) matches Some(JsonView::Array(messages))
            && messages.len() == listing.errors.len() && forall|i: int|
            0 <= i < messages.len() ==> #[trigger] messages[i] == JsonView::Str(listing.errors[i]),
        key != "object"@ && key != "data"@ && key != "errors"@ ==> report_tree(listing).member(
            key,
        ) is None,
{
    reveal_strlit("object");
    reveal_strlit("data");
    reveal_strlit("errors");
    assert("object"@[0] == 'o' && "errors"@[0] == 'e' && "data"@.len() == 4);
}

/// The domestic site is asked before the international one, each by the account
/// that serves it.
pub proof fn law_order_of_asking(accounts: Seq<JsonView>, state: Option<JsonView>, i: int)
    requires
        0 <= i < fetches(accounts, state).len(),
    ensures
        server_of(accounts, active_of(accounts, state), fetches(accounts, state)[i].0) == Some(
            fetches(accounts, state)[i].1,
        ),
        i > 0 ==> fetches(accounts, state)[0].0 is Cn && fetches(accounts, state)[i].0 is Ai,
{
}

/// An answer is refused exactly where its status is not from 200 to 299; the
/// refusal names the address and the status.
pub proof fn law_refused_answer(url: Seq<char>, status: u16, status_text: Seq<char>)
    ensures
        200 <= status <= 299 <==> refusal_of(url, status, status_text) is None,
        refusal_of(url, status, status_text) matches Some(message) ==> message == "上游 "@ + url
            + " 返回 "@ + status_text,
{
}

/// The models are refused exactly while the proxy is off, as something that is
/// not there.
pub proof fn law_models_while_off(enabled: bool)
    ensures
        off_reply(enabled) is Some <==> !enabled,
        off_reply(enabled) matches Some(reply) ==> reply.status == 404 && (reply.body.member(
            "error"@,
        ) matches Some(error) && error.member("message"@) == Some(
            JsonView::Str("2API 代理未开启"@),
        ) && error.member("type"@) == Some(JsonView::Str("proxy_disabled"@))),
{
    reveal_strlit("message");
    reveal_strlit("type");
    assert("message"@.len() == 7 && "type"@.len() == 4);
}

/// What the sites answered is seen whole: the site of each, and every model or
/// the message.
pub proof fn law_outcome_views(outcomes: Seq<SiteOutcome>, fetched: Seq<SiteFetch>, i: int, m: int)
    ensures
        outcome_views(outcomes).len() == outcomes.len(),
        0 <= i < outcomes.len() ==> outcome_views(outcomes)[i].site == outcomes[i].site,
        0 <= i < outcomes.len() ==> match outcomes[i].models {
            Ok(models) => outcome_views(outcomes)[i].models is Ok && outcome_views(
                outcomes,
            )[i].models->Ok_0.len() == models@.len() && (0 <= m < models@.len() ==> outcome_views(
                outcomes,
            )[i].models->Ok_0[m] == models@[m]@),
            Err(message) => outcome_views(outcomes)[i].models == Err::<Seq<JsonView>, Seq<char>>(
                message@,
            ),
        },
        fetch_views(fetched).len() == fetched.len(),
        0 <= i < fetched.len() ==> fetch_views(fetched)[i] == (
            fetched[i].site,
            fetched[i].account@,
        ),
{
}

} // verus!
