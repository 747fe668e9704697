//! The query strings of the management interface.

use vstd::prelude::*;
use vstd::string::*;

use crate::text::{
    after_prefix, lemma_first_of, parse_i64, parsed_i64, same_text, split, split_at_each, split_at_first,
    split_once, starts_with, text_of,
};
use crate::text_laws::{law_split_at_first, law_split_finds_the_parts};
use crate::variant::{variant_named, WbVariant};

verus! {

/// The parts of a query; no query at all counts as an empty one.
pub open spec fn parts(query: Option<Seq<char>>) -> Seq<Seq<char>> {
    match query {
        Some(text) => split_at_each(text, '&'),
        None => split_at_each(Seq::empty(), '&'),
    }
}

/// The key and the value of a part; `default` where it has no value.
pub open spec fn key_and_value(part: Seq<char>, default: Seq<char>) -> (Seq<char>, Seq<char>) {
    match split_at_first(part, '=') {
        Some(pair) => pair,
        None => (part, default),
    }
}

/// The value of the first part with the key `key`.
pub open spec fn first_value(list: Seq<Seq<char>>, key: Seq<char>) -> Option<Seq<char>>
    decreases list.len(),
{
    if list.len() == 0 {
        None
    } else if key_and_value(list.first(), Seq::empty()).0 == key {
        Some(key_and_value(list.first(), Seq::empty()).1)
    } else {
        first_value(list.drop_first(), key)
    }
}

/// Whether a part turns the flag `name` on.
pub open spec fn turns_on(part: Seq<char>, name: Seq<char>) -> bool {
    let (key, value) = key_and_value(part, "true"@);
    key == name && (value.len() == 0 || value == "1"@ || value == "true"@ || value == "yes"@)
}

/// The number of days that a part asks for.
pub open spec fn days_in(part: Seq<char>) -> Option<i64> {
    if starts_with(part, "days="@) {
        parsed_i64(part.skip("days="@.len() as int))
    } else {
        None
    }
}

/// The number of days that the first part with one asks for.
pub open spec fn first_days(list: Seq<Seq<char>>) -> Option<i64>
    decreases list.len(),
{
    if list.len() == 0 {
        None
    } else if days_in(list.first()) is Some {
        days_in(list.first())
    } else {
        first_days(list.drop_first())
    }
}

/// The site that a query names.
pub open spec fn site_in(query: Option<Seq<char>>) -> WbVariant {
    variant_named(first_value(parts(query), "variant"@))
}

/// Whether a query turns the flag `name` on.
pub open spec fn flag_in(query: Option<Seq<char>>, name: Seq<char>) -> bool {
    exists|i: int| 0 <= i < parts(query).len() && turns_on(#[trigger] parts(query)[i], name)
}

fn split_query<'a>(query: Option<&'a str>) -> (r: Vec<&'a str>)
    ensures
        r@.map_values(|part: &'a str| part@) == parts(text_of(query)),
{
    proof {
        reveal_strlit("");
        assert(""@ =~= Seq::<char>::empty());
    }
    match query {
        Some(text) => split(text, '&'),
        None => split("", '&'),
    }
}

/// The site that a query names; the domestic one where it names none.
pub fn query_variant(query: Option<&str>) -> (r: WbVariant)
    ensures
        r == site_in(text_of(query)),
        r == variant_named(first_value(parts(text_of(query)), "variant"@)),
{
    let list = split_query(query);
    let ghost all = parts(text_of(query));
    let mut i: usize = 0;
    proof {
        reveal_strlit("");
        assert(""@ =~= Seq::<char>::empty());
        assert(all.skip(0) =~= all);
    }
    while i < list.len()
        invariant
            i <= list.len(),
            all == parts(text_of(query)),
            all == list@.map_values(|part: &str| part@),
            ""@ == Seq::<char>::empty(),
            first_value(all, "variant"@) == first_value(all.skip(i as int), "variant"@),
        decreases list.len() - i,
    {
        let part = list[i];
        let ghost rest = all.skip(i as int);
        assert(rest.first() == part@);
        assert(rest.drop_first() =~= all.skip(i + 1));
        let (key, value) = match split_once(part, '=') {
            Some(pair) => pair,
            None => (part, ""),
        };
        if same_text(key, "variant") {
            return WbVariant::parse(Some(value));
        }
        i = i + 1;
    }
    assert(all.skip(i as int).len() == 0);
    WbVariant::parse(None)
}

/// Tells whether a query turns the flag `name` on: by the name alone, or with
/// the value `1`, `true` or `yes`.
pub fn query_flag_enabled(query: Option<&str>, name: &str) -> (r: bool)
    ensures
        r == flag_in(text_of(query), name@),
        r == exists|i: int|
            0 <= i < parts(text_of(query)).len() && turns_on(
                #[trigger] parts(text_of(query))[i],
                name@,
            ),
{
    let list = split_query(query);
    let ghost all = parts(text_of(query));
    let mut i: usize = 0;
    while i < list.len()
        invariant
            i <= list.len(),
            all == parts(text_of(query)),
            all == list@.map_values(|part: &str| part@),
            forall|j: int| 0 <= j < i ==> !turns_on(#[trigger] all[j], name@),
        decreases list.len() - i,
    {
        let part = list[i];
        assert(all[i as int] == part@);
        let (key, value) = match split_once(part, '=') {
            Some(pair) => pair,
            None => (part, "true"),
        };
        if same_text(key, name) && (value.is_empty() || same_text(value, "1") || same_text(
            value,
            "true",
        ) || same_text(value, "yes")) {
            assert(turns_on(all[i as int], name@));
            return true;
        }
        i = i + 1;
    }
    false
}

/// The number of days that a query asks for, where it asks for one.
pub fn query_days(query: Option<&str>) -> (r: Option<i64>)
    ensures
        r == first_days(parts(text_of(query))),
{
    let list = split_query(query);
    let ghost all = parts(text_of(query));
    let mut i: usize = 0;
    assert(all.skip(0) =~= all);
    while i < list.len()
        invariant
            i <= list.len(),
            all == parts(text_of(query)),
            all == list@.map_values(|part: &str| part@),
            first_days(all) == first_days(all.skip(i as int)),
        decreases list.len() - i,
    {
        let part = list[i];
        let ghost rest = all.skip(i as int);
        assert(rest.first() == part@);
        assert(rest.drop_first() =~= all.skip(i + 1));
        if let Some(digits) = after_prefix(part, "days=") {
            if let Some(days) = parse_i64(digits) {
                return Some(days);
            }
        }
        i = i + 1;
    }
    assert(all.skip(i as int).len() == 0);
    None
}

/// A query is cut at every `&` and nowhere else; one without is a single part.
pub proof fn law_parts(head: Seq<char>, rest: Seq<char>)
    requires
        !head.contains('&'),
    ensures
        parts(Some(head)) == seq![head],
        parts(Some(head + seq!['&'] + rest)) == seq![head] + parts(Some(rest)),
        parts(None) == seq![Seq::<char>::empty()],
{
    lemma_first_of(head, '&');
    law_split_finds_the_parts(head, '&', rest);
    lemma_first_of(head + seq!['&'] + rest, '&');
    lemma_first_of(Seq::empty(), '&');
}

/// The key of a part is what stands before its first `=`, the value what stands
/// behind it. A part without one is a key alone.
pub proof fn law_key_and_value(key: Seq<char>, value: Seq<char>, default: Seq<char>)
    requires
        !key.contains('='),
    ensures
        key_and_value(key + seq!['='] + value, default) == (key, value),
        key_and_value(key, default) == (key, default),
{
    law_split_finds_the_parts(key, '=', value);
    law_split_at_first(key, '=');
}

/// The value of a key is that of the first part with the key.
pub proof fn law_first_value(list: Seq<Seq<char>>, key: Seq<char>, i: int)
    requires
        0 <= i <= list.len(),
        forall|j: int|
            0 <= j < i ==> key_and_value(#[trigger] list[j], Seq::empty()).0 != key,
    ensures
        i == list.len() ==> first_value(list, key) is None,
        i < list.len() && key_and_value(list[i], Seq::empty()).0 == key ==> first_value(list, key)
            == Some(key_and_value(list[i], Seq::empty()).1),
    decreases list.len(),
{
    if i > 0 {
        let rest = list.drop_first();
        assert(list.first() == list[0]);
        assert forall|j: int| 0 <= j < i - 1 implies key_and_value(
            #[trigger] rest[j],
            Seq::empty(),
        ).0 != key by {
            assert(rest[j] == list[j + 1]);
        }
        law_first_value(rest, key, i - 1);
        if i < list.len() {
            assert(rest[i - 1] == list[i]);
        }
    }
}

/// Whether a part names a site.
pub open spec fn names_a_site(part: Seq<char>) -> bool {
    part == "variant"@ || starts_with(part, "variant="@)
}

proof fn lemma_names_a_site(part: Seq<char>)
    ensures
        names_a_site(part) <==> key_and_value(part, Seq::empty()).0 == "variant"@,
        names_a_site(part) ==> (key_and_value(part, Seq::empty()).1 == "ai"@ <==> part
            == "variant=ai"@),
{
    reveal_strlit("variant");
    reveal_strlit("variant=");
    reveal_strlit("variant=ai");
    reveal_strlit("ai");
    let key = "variant"@;
    let word = "variant="@;
    assert(word =~= key + seq!['=']);
    assert("variant=ai"@ =~= key + seq!['='] + "ai"@);
    assert(!key.contains('='));
    law_split_at_first(part, '=');
    if starts_with(part, word) {
        let value = part.skip(8);
        assert(part.take(8) == word);
        assert(part =~= key + seq!['='] + value);
        law_key_and_value(key, value, Seq::empty());
    }
    if part == key {
        law_key_and_value(key, Seq::empty(), Seq::empty());
    }
    if part.contains('=') && key_and_value(part, Seq::empty()).0 == key {
        assert(part.take(8) =~= word);
    }
    if part == "variant=ai"@ {
        assert(part.take(8) =~= word);
        assert(part.skip(8) =~= "ai"@);
    }
}

/// A query asks for the international site exactly where the first of its parts
/// that names a site is `variant=ai`.
pub proof fn law_site_in_a_query(query: Option<Seq<char>>, i: int)
    requires
        0 <= i <= parts(query).len(),
        forall|j: int| 0 <= j < i ==> !names_a_site(#[trigger] parts(query)[j]),
        i < parts(query).len() ==> names_a_site(parts(query)[i]),
    ensures
        i == parts(query).len() ==> site_in(query) is Cn,
        i < parts(query).len() ==> (site_in(query) is Ai <==> parts(query)[i] == "variant=ai"@),
{
    let list = parts(query);
    assert forall|j: int| 0 <= j < i implies key_and_value(#[trigger] list[j], Seq::empty()).0
        != "variant"@ by {
        lemma_names_a_site(list[j]);
    }
    law_first_value(list, "variant"@, i);
    if i < list.len() {
        lemma_names_a_site(list[i]);
    }
}

/// A flag is on by its name alone, by its name with nothing behind the `=`, and
/// by its name with `1`, `true` or `yes` there; by nothing else.
pub proof fn law_what_turns_a_flag_on(part: Seq<char>, name: Seq<char>)
    requires
        !name.contains('='),
    ensures
        turns_on(part, name) <==> part == name || part == name + seq!['='] || part == name + seq![
            '=',
        ] + "1"@ || part == name + seq!['='] + "true"@ || part == name + seq!['='] + "yes"@,
{
    law_split_at_first(part, '=');
    reveal_strlit("true");
    law_key_and_value(name, Seq::empty(), "true"@);
    law_key_and_value(name, "1"@, "true"@);
    law_key_and_value(name, "true"@, "true"@);
    law_key_and_value(name, "yes"@, "true"@);
    assert(name + seq!['='] + Seq::<char>::empty() =~= name + seq!['=']);
    if turns_on(part, name) && part.contains('=') {
        let value = key_and_value(part, "true"@).1;
        assert(part == name + seq!['='] + value);
        if value.len() == 0 {
            assert(part =~= name + seq!['=']);
        }
    }
}

/// A query turns a flag on exactly where one of its parts does.
pub proof fn law_flag_in_a_query(query: Option<Seq<char>>, name: Seq<char>)
    ensures
        flag_in(query, name) <==> exists|i: int|
            0 <= i < parts(query).len() && turns_on(#[trigger] parts(query)[i], name),
{
}

/// Days are asked for as an integer behind `days=`, and in no other way.
pub proof fn law_days(part: Seq<char>, digits: Seq<char>)
    ensures
        days_in("days="@ + digits) == parsed_i64(digits),
        !starts_with(part, "days="@) ==> days_in(part) is None,
{
    assert(("days="@ + digits).take("days="@.len() as int) =~= "days="@);
    assert(("days="@ + digits).skip("days="@.len() as int) =~= digits);
}

/// The first part that asks for days counts.
pub proof fn law_first_days(list: Seq<Seq<char>>, i: int)
    requires
        0 <= i <= list.len(),
        forall|j: int| 0 <= j < i ==> days_in(#[trigger] list[j]) is None,
    ensures
        i == list.len() ==> first_days(list) is None,
        i < list.len() && days_in(list[i]) is Some ==> first_days(list) == days_in(list[i]),
    decreases list.len(),
{
    if i > 0 {
        let rest = list.drop_first();
        assert(list.first() == list[0]);
        assert forall|j: int| 0 <= j < i - 1 implies days_in(#[trigger] rest[j]) is None by {
            assert(rest[j] == list[j + 1]);
        }
        law_first_days(rest, i - 1);
        if i < list.len() {
            assert(rest[i - 1] == list[i]);
        }
    }
}

} // verus!
