//! What holds of every list of models that the proxy offers.

use vstd::prelude::*;
use vstd::string::*;

use crate::json::JsonView;
use crate::model::{law_bare_name_is_open, law_prefix_binds, parsed_model, RequestView};
use crate::models::{
    entry_tree, listing_of, model_id, model_owner, plain_entry, site_entries, site_entry,
    Listing, OutcomeView,
};
use crate::text::{is_trimmed, law_trimmed};
use crate::variant::WbVariant;

verus! {

/// The id under which an entry offers its model.
pub open spec fn offered_id(entry: JsonView) -> Seq<char> {
    entry.text_at("id"@)->Some_0
}

/// The id that the site of an entry gives its model.
pub open spec fn own_id(entry: JsonView) -> Seq<char> {
    entry.text_at("workbuddy_id"@)->Some_0
}

/// Whether an entry offers a model under the id that its site gives it.
pub open spec fn is_plain(entry: JsonView) -> bool {
    offered_id(entry) == own_id(entry)
}

/// Whether an entry has both its ids, its own one is a proper name, and the
/// offered one is that name, alone or behind the prefix of a site.
pub open spec fn well_named(entry: JsonView) -> bool {
    &&& entry is Object
    &&& entry.text_at("id"@) is Some
    &&& entry.text_at("workbuddy_id"@) is Some
    &&& own_id(entry).len() > 0
    &&& is_trimmed(own_id(entry))
    &&& is_plain(entry) || offered_id(entry) == WbVariant::Cn.prefix() + own_id(entry) || offered_id(
        entry,
    ) == WbVariant::Ai.prefix() + own_id(entry)
}

proof fn lemma_entry_keys()
    ensures
        "id"@.len() == 2,
        "object"@.len() == 6,
        "owned_by"@.len() == 8,
        "workbuddy_id"@.len() == 12,
        "name"@.len() == 4,
        "max_input_tokens"@.len() == 16,
        "max_output_tokens"@.len() == 17,
        "credits"@.len() == 7,
{
    reveal_strlit("id");
    reveal_strlit("object");
    reveal_strlit("owned_by");
    reveal_strlit("workbuddy_id");
    reveal_strlit("name");
    reveal_strlit("max_input_tokens");
    reveal_strlit("max_output_tokens");
    reveal_strlit("credits");
}

/// An entry names the model by both ids and its owner, and carries the name,
/// the limits and the multiplier of the model just as the site gives them, and
/// nothing else.
pub proof fn law_entry(exported: Seq<char>, id: Seq<char>, owner: Seq<char>, model: JsonView)
    ensures
        entry_tree(exported, id, owner, model) is Object,
        entry_tree(exported, id, owner, model).text_at("id"@) == Some(exported),
        entry_tree(exported, id, owner, model).text_at("object"@) == Some("model"@),
        entry_tree(exported, id, owner, model).text_at("owned_by"@) == Some(owner),
        entry_tree(exported, id, owner, model).text_at("workbuddy_id"@) == Some(id),
        entry_tree(exported, id, owner, model).member("name"@) == model.member("name"@),
        entry_tree(exported, id, owner, model).member("max_input_tokens"@) == model.member(
            "maxInputTokens"@,
        ),
        entry_tree(exported, id, owner, model).member("max_output_tokens"@) == model.member(
            "maxOutputTokens"@,
        ),
        entry_tree(exported, id, owner, model).member("credits"@) == model.member("credits"@),
        forall|key: Seq<char>| #[trigger]
            entry_tree(exported, id, owner, model).member(key) is Some ==> key == "id"@ || key
                == "object"@ || key == "owned_by"@ || key == "workbuddy_id"@ || key == "name"@
                || key == "max_input_tokens"@ || key == "max_output_tokens"@ || key == "credits"@,
{
    lemma_entry_keys();
}

proof fn lemma_prefixes()
    ensures
        WbVariant::Cn.prefix().len() == 3,
        WbVariant::Ai.prefix().len() == 5,
{
    reveal_strlit("cn/");
    reveal_strlit("intl/");
}

/// The entry that a site makes of a model that has an id.
proof fn lemma_site_entry(site: WbVariant, model: JsonView)
    requires
        model_id(model) is Some,
    ensures
        site_entry(site, model) is Some,
        well_named(site_entry(site, model)->Some_0),
        !is_plain(site_entry(site, model)->Some_0),
        own_id(site_entry(site, model)->Some_0) == model_id(model)->Some_0,
        offered_id(site_entry(site, model)->Some_0) == site.prefix() + model_id(model)->Some_0,
{
    let id = model_id(model)->Some_0;
    law_entry(site.prefix() + id, id, model_owner(model), model);
    law_trimmed(model.text_at("id"@)->Some_0);
    lemma_prefixes();
    assert((site.prefix() + id).len() != id.len());
}

proof fn lemma_site_entries(site: WbVariant, models: Seq<JsonView>)
    ensures
        forall|j: int|
            0 <= j < site_entries(site, models).len() ==> well_named(
                #[trigger] site_entries(site, models)[j],
            ) && !is_plain(site_entries(site, models)[j]),
        forall|m: int|
            0 <= m < models.len() && model_id(#[trigger] models[m]) is Some ==> site_entries(
                site,
                models,
            ).contains(site_entry(site, models[m])->Some_0),
    decreases models.len(),
{
    if models.len() > 0 {
        let shorter = models.drop_last();
        let before = site_entries(site, shorter);
        lemma_site_entries(site, shorter);
        if model_id(models.last()) is Some {
            lemma_site_entry(site, models.last());
        }
        let all = site_entries(site, models);
        assert forall|m: int| 0 <= m < models.len() && model_id(#[trigger] models[m]) is Some implies all
            .contains(site_entry(site, models[m])->Some_0) by {
            if m < models.len() - 1 {
                assert(shorter[m] == models[m]);
                let entry = site_entry(site, models[m])->Some_0;
                let k = choose|k: int| 0 <= k < before.len() && before[k] == entry;
                assert(all[k] == entry);
            } else {
                assert(all[all.len() - 1] == site_entry(site, models[m])->Some_0);
            }
        }
    }
}

/// What holds of a list at every point of its construction.
pub open spec fn sound(list: Listing) -> bool {
    sound_parts(list.data, list.plain_ids)
}

/// The entries are well named; the ids without a prefix are those of the
/// entries, and each of them is offered exactly once.
pub open spec fn sound_parts(data: Seq<JsonView>, plain_ids: Seq<Seq<char>>) -> bool {
    &&& forall|i: int| 0 <= i < data.len() ==> well_named(#[trigger] data[i])
    &&& forall|i: int| 0 <= i < data.len() ==> plain_ids.contains(own_id(#[trigger] data[i]))
    &&& forall|k: int|
        0 <= k < plain_ids.len() ==> exists|i: int|
            0 <= i < data.len() && is_plain(#[trigger] data[i]) && own_id(data[i])
                == #[trigger] plain_ids[k]
    &&& forall|i: int, j: int|
        0 <= i < j < data.len() && is_plain(data[i]) && is_plain(data[j]) ==> offered_id(
            #[trigger] data[i],
        ) != offered_id(#[trigger] data[j])
}

proof fn lemma_add_entry(list: Listing, entry: JsonView)
    requires
        sound(list),
        well_named(entry),
        !is_plain(entry),
    ensures
        sound(list.add_entry(entry)),
        list.add_entry(entry).data.contains(entry),
        list.data.is_prefix_of(list.add_entry(entry).data),
{
    let next = list.add_entry(entry);
    let id = own_id(entry);
    lemma_entry_keys();
    let plain = plain_entry(entry);
    assert(is_plain(plain) && well_named(plain) && own_id(plain) == id);
    assert(next.data[next.data.len() - 1] == entry);
    let n = list.data.len() as int;
    if !list.plain_ids.contains(id) {
        assert(next.data[n] == plain);
        assert(next.plain_ids[list.plain_ids.len() as int] == id);
    }
    assert forall|i: int| 0 <= i < next.data.len() implies next.plain_ids.contains(
        own_id(#[trigger] next.data[i]),
    ) by {
        if i < n {
            assert(next.data[i] == list.data[i]);
            let k = choose|k: int|
                0 <= k < list.plain_ids.len() && list.plain_ids[k] == own_id(list.data[i]);
            assert(next.plain_ids[k] == own_id(list.data[i]));
        }
    }
    assert forall|k: int| 0 <= k < next.plain_ids.len() implies exists|i: int|
        0 <= i < next.data.len() && is_plain(#[trigger] next.data[i]) && own_id(next.data[i])
            == #[trigger] next.plain_ids[k] by {
        if k < list.plain_ids.len() {
            assert(next.plain_ids[k] == list.plain_ids[k]);
            let i = choose|i: int|
                0 <= i < list.data.len() && is_plain(#[trigger] list.data[i]) && own_id(
                    list.data[i],
                ) == list.plain_ids[k];
            assert(next.data[i] == list.data[i]);
        }
    }
    assert forall|i: int, j: int|
        0 <= i < j < next.data.len() && is_plain(next.data[i]) && is_plain(
            next.data[j],
        ) implies offered_id(#[trigger] next.data[i]) != offered_id(#[trigger] next.data[j]) by {
        assert(next.data[i] == list.data[i]);
        if j < n {
            assert(next.data[j] == list.data[j]);
        } else {
            assert(list.plain_ids.contains(own_id(list.data[i])));
        }
    }
}

proof fn lemma_add_entries(list: Listing, entries: Seq<JsonView>)
    requires
        sound(list),
        forall|j: int|
            0 <= j < entries.len() ==> well_named(#[trigger] entries[j]) && !is_plain(entries[j]),
    ensures
        sound(list.add_entries(entries)),
        list.data.is_prefix_of(list.add_entries(entries).data),
        forall|j: int|
            0 <= j < entries.len() ==> list.add_entries(entries).data.contains(
                #[trigger] entries[j],
            ),
    decreases entries.len(),
{
    if entries.len() > 0 {
        let shorter = entries.drop_last();
        let before = list.add_entries(shorter);
        let after = list.add_entries(entries);
        assert forall|j: int| 0 <= j < shorter.len() implies well_named(#[trigger] shorter[j])
            && !is_plain(shorter[j]) by {
            assert(shorter[j] == entries[j]);
        }
        lemma_add_entries(list, shorter);
        lemma_add_entry(before, entries.last());
        assert forall|j: int| 0 <= j < entries.len() implies after.data.contains(
            #[trigger] entries[j],
        ) by {
            if j < entries.len() - 1 {
                assert(shorter[j] == entries[j]);
                assert(before.data.contains(shorter[j]));
                let k = choose|k: int| 0 <= k < before.data.len() && before.data[k] == entries[j];
                assert(after.data[k] == entries[j]);
            }
        }
    }
}

proof fn lemma_listing(outcomes: Seq<OutcomeView>)
    ensures
        sound(listing_of(outcomes)),
        forall|k: int, m: int|
            0 <= k < outcomes.len() && outcomes[k].models is Ok && 0 <= m
                < outcomes[k].models->Ok_0.len() && model_id(
                #[trigger] outcomes[k].models->Ok_0[m],
            ) is Some ==> listing_of(outcomes).data.contains(
                site_entry(outcomes[k].site, outcomes[k].models->Ok_0[m])->Some_0,
            ),
    decreases outcomes.len(),
{
    if outcomes.len() == 0 {
        assert(sound(Listing::empty()));
    } else {
        let shorter = outcomes.drop_last();
        let last = outcomes.last();
        let before = listing_of(shorter);
        let after = listing_of(outcomes);
        lemma_listing(shorter);
        if last.models is Ok {
            lemma_site_entries(last.site, last.models->Ok_0);
            lemma_add_entries(before, site_entries(last.site, last.models->Ok_0));
        } else {
            assert(after.data == before.data && after.plain_ids == before.plain_ids);
        }
        assert forall|k: int, m: int|
            0 <= k < outcomes.len() && outcomes[k].models is Ok && 0 <= m
                < outcomes[k].models->Ok_0.len() && model_id(
                #[trigger] outcomes[k].models->Ok_0[m],
            ) is Some implies after.data.contains(
            site_entry(outcomes[k].site, outcomes[k].models->Ok_0[m])->Some_0,
        ) by {
            let entry = site_entry(outcomes[k].site, outcomes[k].models->Ok_0[m])->Some_0;
            if k < outcomes.len() - 1 {
                assert(shorter[k] == outcomes[k]);
                assert(model_id(shorter[k].models->Ok_0[m]) is Some);
                assert(before.data.contains(entry));
                let i = choose|i: int| 0 <= i < before.data.len() && before.data[i] == entry;
                assert(after.data[i] == entry);
            } else {
                let entries = site_entries(last.site, last.models->Ok_0);
                let j = choose|j: int| 0 <= j < entries.len() && entries[j] == entry;
                assert(after.data.contains(entries[j]));
            }
        }
    }
}

/// Every model with an id is offered twice: bound to its site, and left open
/// under the id that the site gives it.
pub proof fn law_every_model_is_offered_twice(outcomes: Seq<OutcomeView>, k: int, m: int)
    requires
        0 <= k < outcomes.len(),
        outcomes[k].models is Ok,
        0 <= m < outcomes[k].models->Ok_0.len(),
        model_id(outcomes[k].models->Ok_0[m]) is Some,
    ensures
        exists|i: int|
            0 <= i < listing_of(outcomes).data.len() && offered_id(
                #[trigger] listing_of(outcomes).data[i],
            ) == outcomes[k].site.prefix() + model_id(outcomes[k].models->Ok_0[m])->Some_0,
        exists|i: int|
            0 <= i < listing_of(outcomes).data.len() && is_plain(
                #[trigger] listing_of(outcomes).data[i],
            ) && offered_id(listing_of(outcomes).data[i]) == model_id(
                outcomes[k].models->Ok_0[m],
            )->Some_0,
{
    let list = listing_of(outcomes);
    let model = outcomes[k].models->Ok_0[m];
    let entry = site_entry(outcomes[k].site, model)->Some_0;
    lemma_listing(outcomes);
    lemma_site_entry(outcomes[k].site, model);
    assert(list.data.contains(entry));
    let i = choose|i: int| 0 <= i < list.data.len() && list.data[i] == entry;
    assert(list.plain_ids.contains(own_id(list.data[i])));
    let p = choose|p: int|
        0 <= p < list.plain_ids.len() && list.plain_ids[p] == own_id(list.data[i]);
    assert(list.plain_ids[p] == model_id(model)->Some_0);
    let j = choose|j: int|
        0 <= j < list.data.len() && is_plain(#[trigger] list.data[j]) && own_id(list.data[j])
            == list.plain_ids[p];
    assert(offered_id(list.data[j]) == model_id(model)->Some_0);
}

/// No id without a prefix is offered twice, though both sites may have it.
pub proof fn law_plain_ids_are_offered_once(outcomes: Seq<OutcomeView>, i: int, j: int)
    requires
        0 <= i < j < listing_of(outcomes).data.len(),
        is_plain(listing_of(outcomes).data[i]),
        is_plain(listing_of(outcomes).data[j]),
    ensures
        offered_id(listing_of(outcomes).data[i]) != offered_id(listing_of(outcomes).data[j]),
{
    lemma_listing(outcomes);
}

/// An id that is offered can be asked for. With a prefix it asks that site for
/// the model; without one it leaves the site open, where the site's own id
/// holds no slash.
pub proof fn law_offers_can_be_asked_for(outcomes: Seq<OutcomeView>, i: int)
    requires
        0 <= i < listing_of(outcomes).data.len(),
    ensures
        ({
            let entry = listing_of(outcomes).data[i];
            &&& is_plain(entry) && !own_id(entry).contains('/') ==> parsed_model(offered_id(entry))
                == Ok::<RequestView, Seq<char>>(RequestView { site: None, model: own_id(entry) })
            &&& !is_plain(entry) ==> exists|site: WbVariant|
                offered_id(entry) == #[trigger] site.prefix() + own_id(entry) && parsed_model(
                    offered_id(entry),
                ) == Ok::<RequestView, Seq<char>>(
                    RequestView { site: Some(site), model: own_id(entry) },
                )
        }),
{
    lemma_listing(outcomes);
    let entry = listing_of(outcomes).data[i];
    assert(well_named(entry));
    law_trimmed(own_id(entry));
    if is_plain(entry) {
        if !own_id(entry).contains('/') {
            law_bare_name_is_open(own_id(entry));
        }
    } else if offered_id(entry) == WbVariant::Cn.prefix() + own_id(entry) {
        law_prefix_binds(WbVariant::Cn, own_id(entry));
    } else {
        law_prefix_binds(WbVariant::Ai, own_id(entry));
    }
}

/// Whether an entry is that of a model of a site that answered, bound to the
/// site or under the id that the site gives it.
pub open spec fn is_offer_of(entry: JsonView, outcomes: Seq<OutcomeView>, k: int, m: int) -> bool {
    &&& 0 <= k < outcomes.len()
    &&& outcomes[k].models is Ok
    &&& 0 <= m < outcomes[k].models->Ok_0.len()
    &&& site_entry(outcomes[k].site, outcomes[k].models->Ok_0[m]) matches Some(bound) && (entry
        == bound || entry == plain_entry(bound))
}

proof fn lemma_site_entries_come_from(site: WbVariant, models: Seq<JsonView>, j: int) -> (m: int)
    requires
        0 <= j < site_entries(site, models).len(),
    ensures
        0 <= m < models.len(),
        site_entry(site, models[m]) == Some(site_entries(site, models)[j]),
    decreases models.len(),
{
    let shorter = models.drop_last();
    if j < site_entries(site, shorter).len() {
        lemma_site_entries_come_from(site, shorter, j)
    } else {
        models.len() - 1
    }
}

/// What adding entries lists was listed before, or is one of the entries, bound
/// or plain.
proof fn lemma_added_entries_come_from(list: Listing, entries: Seq<JsonView>, i: int) -> (j: int)
    requires
        0 <= i < list.add_entries(entries).data.len(),
    ensures
        list.data.len() <= list.add_entries(entries).data.len(),
        i < list.data.len() ==> list.add_entries(entries).data[i] == list.data[i],
        i >= list.data.len() ==> 0 <= j < entries.len() && (list.add_entries(entries).data[i]
            == entries[j] || list.add_entries(entries).data[i] == plain_entry(entries[j])),
    decreases entries.len(),
{
    if entries.len() == 0 {
        0
    } else {
        let shorter = entries.drop_last();
        let before = list.add_entries(shorter);
        if i < before.data.len() {
            lemma_added_entries_come_from(list, shorter, i)
        } else {
            lemma_entries_only_grow(list, shorter);
            entries.len() - 1
        }
    }
}

proof fn lemma_entries_only_grow(list: Listing, entries: Seq<JsonView>)
    ensures
        list.data.len() <= list.add_entries(entries).data.len(),
    decreases entries.len(),
{
    if entries.len() > 0 {
        lemma_entries_only_grow(list, entries.drop_last());
    }
}

/// Nothing else is listed: every entry offers a model of a site that answered.
pub proof fn law_nothing_else_is_offered(outcomes: Seq<OutcomeView>, i: int)
    requires
        0 <= i < listing_of(outcomes).data.len(),
    ensures
        exists|k: int, m: int| is_offer_of(listing_of(outcomes).data[i], outcomes, k, m),
    decreases outcomes.len(),
{
    let entry = listing_of(outcomes).data[i];
    let shorter = outcomes.drop_last();
    let last = outcomes.last();
    let before = listing_of(shorter);
    if last.models is Ok {
        let entries = site_entries(last.site, last.models->Ok_0);
        let j = lemma_added_entries_come_from(before, entries, i);
        if i >= before.data.len() {
            let m = lemma_site_entries_come_from(last.site, last.models->Ok_0, j);
            assert(is_offer_of(entry, outcomes, outcomes.len() - 1, m));
        }
    }
    if i < before.data.len() {
        law_nothing_else_is_offered(shorter, i);
        let (k, m) = choose|k: int, m: int| is_offer_of(before.data[i], shorter, k, m);
        assert(shorter[k] == outcomes[k]);
        assert(is_offer_of(entry, outcomes, k, m));
    }
}

/// What is listed depends on what was listed before, not on what went wrong.
proof fn lemma_errors_aside(list: Listing, other: Listing, entries: Seq<JsonView>)
    requires
        list.data == other.data,
        list.plain_ids == other.plain_ids,
    ensures
        list.add_entries(entries).data == other.add_entries(entries).data,
        list.add_entries(entries).plain_ids == other.add_entries(entries).plain_ids,
        list.add_entries(entries).errors == list.errors,
        other.add_entries(entries).errors == other.errors,
    decreases entries.len(),
{
    if entries.len() > 0 {
        lemma_errors_aside(list, other, entries.drop_last());
    }
}

/// The messages of several sites are those of each, in their order.
proof fn lemma_errors_joined(before: Seq<OutcomeView>, after: Seq<OutcomeView>)
    ensures
        listing_of(before + after).errors == listing_of(before).errors + listing_of(after).errors,
    decreases after.len(),
{
    if after.len() == 0 {
        assert(before + after =~= before);
        assert(listing_of(before).errors + listing_of(after).errors =~= listing_of(before).errors);
    } else {
        let all = before + after;
        let last = after.last();
        lemma_errors_joined(before, after.drop_last());
        assert(all.drop_last() =~= before + after.drop_last());
        assert(all.last() == last);
        if last.models is Ok {
            let entries = site_entries(last.site, last.models->Ok_0);
            let list = listing_of(all.drop_last());
            let other = listing_of(after.drop_last());
            lemma_errors_aside(list, list, entries);
            lemma_errors_aside(other, other, entries);
        } else {
            assert(listing_of(all).errors =~= listing_of(before).errors + listing_of(after).errors);
        }
    }
}

proof fn lemma_failed_site(
    before: Seq<OutcomeView>,
    failed: OutcomeView,
    after: Seq<OutcomeView>,
)
    requires
        failed.models is Err,
    ensures
        listing_of(before.push(failed) + after).data == listing_of(before + after).data,
        listing_of(before.push(failed) + after).plain_ids == listing_of(before + after).plain_ids,
    decreases after.len(),
{
    if after.len() == 0 {
        assert(before.push(failed) + after =~= before.push(failed));
        assert(before + after =~= before);
        assert(before.push(failed).drop_last() =~= before);
    } else {
        let with = before.push(failed) + after;
        let without = before + after;
        let last = after.last();
        lemma_failed_site(before, failed, after.drop_last());
        assert(with.drop_last() =~= before.push(failed) + after.drop_last());
        assert(without.drop_last() =~= before + after.drop_last());
        assert(with.last() == last && without.last() == last);
        if last.models is Ok {
            lemma_errors_aside(
                listing_of(with.drop_last()),
                listing_of(without.drop_last()),
                site_entries(last.site, last.models->Ok_0),
            );
        }
    }
}

/// A site that fails takes nothing from the list, whenever it is asked. It adds
/// one message, which names the site and the reason, in its place among those
/// of the other sites.
pub proof fn law_failed_site_costs_nothing(
    before: Seq<OutcomeView>,
    failed: OutcomeView,
    after: Seq<OutcomeView>,
)
    requires
        failed.models is Err,
    ensures
        listing_of(before.push(failed) + after).data == listing_of(before + after).data,
        listing_of(before + after).errors == listing_of(before).errors + listing_of(after).errors,
        listing_of(before.push(failed) + after).errors == listing_of(before).errors.push(
            failed.site.label() + " 模型加载失败: "@ + failed.models->Err_0,
        ) + listing_of(after).errors,
{
    lemma_failed_site(before, failed, after);
    lemma_errors_joined(before, after);
    lemma_errors_joined(before.push(failed), after);
    assert(before.push(failed).drop_last() =~= before);
}

/// A site that answers adds its entries behind those of the sites before it.
pub proof fn law_sites_in_order(outcomes: Seq<OutcomeView>, next: OutcomeView)
    ensures
        listing_of(Seq::empty()) == Listing::empty(),
        listing_of(outcomes).data.is_prefix_of(listing_of(outcomes.push(next)).data),
        next.models is Ok ==> listing_of(outcomes.push(next)) == listing_of(outcomes).add_entries(
            site_entries(next.site, next.models->Ok_0),
        ),
{
    let all = outcomes.push(next);
    assert(all.drop_last() =~= outcomes);
    lemma_listing(outcomes);
    if next.models is Ok {
        lemma_site_entries(next.site, next.models->Ok_0);
        lemma_add_entries(listing_of(outcomes), site_entries(next.site, next.models->Ok_0));
    }
}

/// Entries are added one after the other.
pub proof fn law_entries_in_order(list: Listing, entries: Seq<JsonView>, next: JsonView)
    ensures
        list.add_entries(Seq::empty()) == list,
        list.add_entries(entries.push(next)) == list.add_entries(entries).add_entry(next),
        Listing::empty().data.len() == 0,
        Listing::empty().plain_ids.len() == 0,
        Listing::empty().errors.len() == 0,
{
    assert(entries.push(next).drop_last() =~= entries);
}

} // verus!
