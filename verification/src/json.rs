//! JSON values, and the tree of plain values that each stands for.

use vstd::prelude::*;
use vstd::string::*;

use crate::text::{same_text, text_of, texts};

verus! {

/// A number of `serde_json`.
#[verifier::external_type_specification]
#[verifier::external_body]
pub struct ExNumber(serde_json::Number);

/// The integer of 64 bits that a number of `serde_json` holds; none where it
/// holds a number of another kind.
pub uninterp spec fn number_integer(number: serde_json::Number) -> Option<int>;

/// Calls `serde_json::Number::as_u64`, which gives the integer that the number
/// holds where it fits `u64`, and nothing else.
#[verifier::external_body]
fn number_as_u64(number: &serde_json::Number) -> (r: Option<u64>)
    ensures
        r == match number_integer(*number) {
            Some(n) if 0 <= n <= u64::MAX => Some(n as u64),
            _ => None::<u64>,
        },
{
    number.as_u64()
}

/// Calls `serde_json::Number::clone`, which copies the number held.
#[verifier::external_body]
pub(crate) fn copy_number(number: &serde_json::Number) -> (r: serde_json::Number)
    ensures
        r == *number,
{
    number.clone()
}

/// A JSON value. Two values are the same for `==` where they also hold their
/// members in the same order.
#[derive(Debug, PartialEq)]
pub enum Json {
    Null,
    Bool(bool),
    Number(serde_json::Number),
    Str(String),
    Array(Vec<Json>),
    /// The members of an object. Of two with one key the later counts.
    Object(Vec<Member>),
}

/// A member of a JSON object.
#[derive(Debug, PartialEq)]
pub struct Member {
    pub key: String,
    pub value: Json,
}

/// The tree that a JSON value stands for.
pub enum JsonView {
    Null,
    Bool(bool),
    Integer(int),
    /// A number that is no integer of 64 bits.
    Float(serde_json::Number),
    Str(Seq<char>),
    Array(Seq<JsonView>),
    Object(Map<Seq<char>, JsonView>),
}

impl JsonView {
    /// The object without members.
    pub open spec fn empty() -> JsonView {
        JsonView::Object(Map::empty())
    }

    /// Whether a member can be set: an object, or nothing yet.
    pub open spec fn takes_members(self) -> bool {
        self is Object || self is Null
    }

    /// `self` with the member `key` set to `value`; `Null` counts as the empty object.
    pub open spec fn with(self, key: Seq<char>, value: JsonView) -> JsonView {
        match self {
            JsonView::Object(members) => JsonView::Object(members.insert(key, value)),
            JsonView::Null => JsonView::Object(Map::empty().insert(key, value)),
            _ => self,
        }
    }

    /// The member `key` of an object.
    pub open spec fn member(self, key: Seq<char>) -> Option<JsonView> {
        match self {
            JsonView::Object(members) if members.contains_key(key) => Some(members[key]),
            _ => None,
        }
    }

    pub open spec fn text(self) -> Option<Seq<char>> {
        match self {
            JsonView::Str(s) => Some(s),
            _ => None,
        }
    }

    pub open spec fn flag(self) -> Option<bool> {
        match self {
            JsonView::Bool(b) => Some(b),
            _ => None,
        }
    }

    pub open spec fn items(self) -> Option<Seq<JsonView>> {
        match self {
            JsonView::Array(items) => Some(items),
            _ => None,
        }
    }

    /// The member `key`, where it is a string.
    pub open spec fn text_at(self, key: Seq<char>) -> Option<Seq<char>> {
        match self.member(key) {
            Some(value) => value.text(),
            None => None,
        }
    }

    /// The member `key`, where it is a boolean.
    pub open spec fn flag_at(self, key: Seq<char>) -> Option<bool> {
        match self.member(key) {
            Some(value) => value.flag(),
            None => None,
        }
    }

    /// The member `key`, where it is an array.
    pub open spec fn items_at(self, key: Seq<char>) -> Option<Seq<JsonView>> {
        match self.member(key) {
            Some(value) => value.items(),
            None => None,
        }
    }
}

/// The tree of a number.
pub open spec fn number_tree(number: serde_json::Number) -> JsonView {
    match number_integer(number) {
        Some(n) => JsonView::Integer(n),
        None => JsonView::Float(number),
    }
}

/// The tree of `json`.
pub open spec fn tree(json: Json) -> JsonView
    decreases json,
{
    match json {
        Json::Null => JsonView::Null,
        Json::Bool(b) => JsonView::Bool(b),
        Json::Number(n) => number_tree(n),
        Json::Str(s) => JsonView::Str(s@),
        Json::Array(items) => JsonView::Array(
            Seq::new(
                items@.len(),
                |i: int|
                    if 0 <= i < items@.len() {
                        tree(items@[i])
                    } else {
                        JsonView::Null
                    },
            ),
        ),
        Json::Object(members) => JsonView::Object(members_map(members@)),
    }
}

/// The members by their keys, a later one in place of an earlier one.
pub open spec fn members_map(members: Seq<Member>) -> Map<Seq<char>, JsonView>
    decreases members,
{
    if members.len() == 0 {
        Map::empty()
    } else {
        members_map(members.drop_last()).insert(members.last().key@, tree(members.last().value))
    }
}

/// The trees of a list of JSON values.
pub open spec fn trees(list: Seq<Json>) -> Seq<JsonView> {
    list.map_values(|json: Json| json@)
}

/// The strings of a list.
pub open spec fn strings_of(list: Seq<Seq<char>>) -> Seq<JsonView> {
    list.map_values(|s: Seq<char>| JsonView::Str(s))
}

/// The string in `s`; `Null` where there is none.
pub open spec fn optional_string(s: Option<Seq<char>>) -> JsonView {
    match s {
        Some(text) => JsonView::Str(text),
        None => JsonView::Null,
    }
}

/// The tree that an optional JSON value stands for.
pub open spec fn tree_of(json: Option<&Json>) -> Option<JsonView> {
    match json {
        Some(j) => Some(j@),
        None => None,
    }
}

/// The tree that an optional JSON value stands for.
pub open spec fn tree_in(json: Option<Json>) -> Option<JsonView> {
    match json {
        Some(j) => Some(j@),
        None => None,
    }
}

impl View for Json {
    type V = JsonView;

    open spec fn view(&self) -> JsonView {
        tree(*self)
    }
}

/// A key counts by its last member.
proof fn lemma_last_member(members: Seq<Member>, key: Seq<char>, i: int)
    requires
        0 <= i <= members.len(),
        forall|j: int| i <= j < members.len() ==> members[j].key@ != key,
    ensures
        members_map(members).contains_key(key) == members_map(members.take(i)).contains_key(key),
        members_map(members).contains_key(key) ==> members_map(members)[key] == members_map(
            members.take(i),
        )[key],
    decreases members.len(),
{
    if i == members.len() {
        assert(members.take(i) =~= members);
    } else {
        let shorter = members.drop_last();
        lemma_last_member(shorter, key, i);
        assert(shorter.take(i) =~= members.take(i));
    }
}

/// Replacing the last member of a key sets that key.
proof fn lemma_replace_member(members: Seq<Member>, i: int, member: Member)
    requires
        0 <= i < members.len(),
        member.key@ == members[i].key@,
        forall|j: int| i < j < members.len() ==> members[j].key@ != member.key@,
    ensures
        members_map(members.update(i, member)) == members_map(members).insert(
            member.key@,
            tree(member.value),
        ),
    decreases members.len(),
{
    let updated = members.update(i, member);
    let shorter = members.drop_last();
    if i == members.len() - 1 {
        assert(updated.drop_last() =~= shorter);
    } else {
        lemma_replace_member(shorter, i, member);
        assert(updated.drop_last() =~= shorter.update(i, member));
    }
    assert(members_map(updated) =~= members_map(members).insert(member.key@, tree(member.value)));
}

impl Json {
    /// The object without members.
    pub fn object() -> (r: Json)
        ensures
            r@ == JsonView::empty(),
    {
        let members: Vec<Member> = Vec::new();
        assert(members_map(members@) == Map::<Seq<char>, JsonView>::empty());
        Json::Object(members)
    }

    /// The string `s`.
    pub fn str(s: &str) -> (r: Json)
        ensures
            r@ == JsonView::Str(s@),
    {
        Json::Str(s.to_owned())
    }

    /// The array of `items`.
    pub fn array(items: Vec<Json>) -> (r: Json)
        ensures
            r@ == JsonView::Array(trees(items@)),
    {
        let r = Json::Array(items);
        assert(r@->Array_0 =~= trees(items@));
        r
    }

    /// The array of the strings in `list`.
    pub fn strings(list: &Vec<String>) -> (r: Json)
        ensures
            r@ == JsonView::Array(strings_of(texts(list@))),
    {
        let mut items: Vec<Json> = Vec::new();
        let mut i: usize = 0;
        while i < list.len()
            invariant
                i <= list.len(),
                items.len() == i,
                forall|j: int| 0 <= j < i ==> (#[trigger] items@[j])@ == JsonView::Str(list@[j]@),
            decreases list.len() - i,
        {
            items.push(Json::Str(list[i].clone()));
            i = i + 1;
        }
        assert(trees(items@) =~= strings_of(texts(list@)));
        Json::array(items)
    }

    /// The string in `s`; `Null` where there is none.
    pub fn optional_str(s: Option<&str>) -> (r: Json)
        ensures
            r@ == optional_string(text_of(s)),
    {
        match s {
            Some(text) => Json::str(text),
            None => Json::Null,
        }
    }

    /// The position of the member that counts for `key`; the number of members
    /// where there is none.
    fn position(members: &Vec<Member>, key: &str) -> (r: usize)
        ensures
            r <= members.len(),
            r < members.len() ==> {
                &&& members@[r as int].key@ == key@
                &&& members_map(members@).contains_key(key@)
                &&& members_map(members@)[key@] == tree(members@[r as int].value)
                &&& forall|j: int| r < j < members.len() ==> members@[j].key@ != key@
            },
            r == members.len() ==> !members_map(members@).contains_key(key@),
    {
        let mut i: usize = members.len();
        while i > 0
            invariant
                i <= members.len(),
                forall|j: int| i <= j < members.len() ==> members@[j].key@ != key@,
            decreases i,
        {
            if same_text(members[i - 1].key.as_str(), key) {
                proof {
                    lemma_last_member(members@, key@, i as int);
                    let upto = members@.take(i as int);
                    assert(upto.last() == members@[i - 1]);
                }
                return i - 1;
            }
            i = i - 1;
        }
        proof {
            lemma_last_member(members@, key@, 0);
            assert(members@.take(0) =~= Seq::<Member>::empty());
        }
        members.len()
    }

    /// The member `key` of an object.
    pub fn get(&self, key: &str) -> (r: Option<&Json>)
        ensures
            match r {
                Some(value) => self@.member(key@) == Some(value@),
                None => self@.member(key@) is None,
            },
    {
        match self {
            Json::Object(members) => {
                let i: usize = Json::position(members, key);
                if i < members.len() {
                    Some(&members[i].value)
                } else {
                    None
                }
            },
            _ => None,
        }
    }

    /// The text of a string.
    pub fn as_str(&self) -> (r: Option<&str>)
        ensures
            match r {
                Some(s) => self@.text() == Some(s@),
                None => self@.text() is None,
            },
    {
        match self {
            Json::Str(s) => Some(s.as_str()),
            _ => None,
        }
    }

    /// The value of a boolean.
    pub fn as_bool(&self) -> (r: Option<bool>)
        ensures
            r == self@.flag(),
    {
        match self {
            Json::Bool(b) => Some(*b),
            _ => None,
        }
    }

    /// The items of an array.
    pub fn as_array(&self) -> (r: Option<&Vec<Json>>)
        ensures
            match r {
                Some(items) => self@.items() == Some(trees(items@)),
                None => self@.items() is None,
            },
    {
        match self {
            Json::Array(items) => {
                assert(self@->Array_0 =~= trees(items@));
                Some(items)
            },
            _ => None,
        }
    }

    /// The value of an integer, where it fits `u64`.
    pub fn as_u64(&self) -> (r: Option<u64>)
        ensures
            r == match self@ {
                JsonView::Integer(n) if 0 <= n <= u64::MAX => Some(n as u64),
                _ => None::<u64>,
            },
    {
        match self {
            Json::Number(n) => number_as_u64(n),
            _ => None,
        }
    }

    /// The member `key`, where it is a string.
    pub fn get_str(&self, key: &str) -> (r: Option<&str>)
        ensures
            match r {
                Some(s) => self@.text_at(key@) == Some(s@),
                None => self@.text_at(key@) is None,
            },
    {
        match self.get(key) {
            Some(value) => value.as_str(),
            None => None,
        }
    }

    /// The member `key`, where it is a boolean.
    pub fn get_bool(&self, key: &str) -> (r: Option<bool>)
        ensures
            r == self@.flag_at(key@),
    {
        match self.get(key) {
            Some(value) => value.as_bool(),
            None => None,
        }
    }

    /// Sets the member `key`; `Null` becomes an object.
    pub fn set(&mut self, key: &str, value: Json)
        requires
            old(self)@.takes_members(),
        ensures
            final(self)@ == old(self)@.with(key@, value@),
    {
        if let Json::Null = self {
            *self = Json::object();
        }
        if let Json::Object(members) = self {
            let i: usize = Json::position(members, key);
            let member = Member { key: key.to_owned(), value };
            let ghost before = members@;
            if i < members.len() {
                proof {
                    lemma_replace_member(members@, i as int, member);
                }
                members.set(i, member);
            } else {
                members.push(member);
                assert(members@.drop_last() =~= before);
            }
            assert(members_map(members@) == members_map(before).insert(key@, value@));
        }
    }

    /// `self` with the member `key` set; `Null` becomes an object.
    pub fn with(self, key: &str, value: Json) -> (r: Json)
        requires
            self@.takes_members(),
        ensures
            r@ == self@.with(key@, value@),
    {
        let mut json = self;
        json.set(key, value);
        json
    }
}

impl Clone for Member {
    fn clone(&self) -> (r: Self)
        ensures
            r.key@ == self.key@,
            r.value@ == self.value@,
        decreases self,
    {
        Member { key: self.key.clone(), value: self.value.clone() }
    }
}

impl Clone for Json {
    fn clone(&self) -> (r: Self)
        ensures
            r@ == self@,
        decreases self,
    {
        match self {
            Json::Null => Json::Null,
            Json::Bool(b) => Json::Bool(*b),
            Json::Number(n) => Json::Number(copy_number(n)),
            Json::Str(s) => Json::Str(s.clone()),
            Json::Array(items) => {
                let mut copy: Vec<Json> = Vec::new();
                let mut i: usize = 0;
                while i < items.len()
                    invariant
                        i <= items.len(),
                        copy.len() == i,
                        decreases_to!(self => items@),
                        forall|j: int| 0 <= j < i ==> tree(#[trigger] copy@[j]) == tree(items@[j]),
                    decreases items.len() - i,
                {
                    copy.push(items[i].clone());
                    i = i + 1;
                }
                let ghost copied = copy@;
                let r = Json::Array(copy);
                assert forall|j: int| 0 <= j < items@.len() implies r@->Array_0[j]
                    == self@->Array_0[j] by {
                    assert(tree(copied[j]) == tree(items@[j]));
                }
                assert(r@->Array_0 =~= self@->Array_0);
                r
            },
            Json::Object(members) => {
                let mut copy: Vec<Member> = Vec::new();
                let mut i: usize = 0;
                assert(members@.take(0) =~= Seq::<Member>::empty());
                while i < members.len()
                    invariant
                        i <= members.len(),
                        copy.len() == i,
                        decreases_to!(self => members@),
                        members_map(copy@) == members_map(members@.take(i as int)),
                    decreases members.len() - i,
                {
                    let ghost before = copy@;
                    copy.push(members[i].clone());
                    assert(copy@.drop_last() =~= before);
                    assert(members@.take(i + 1).drop_last() =~= members@.take(i as int));
                    i = i + 1;
                }
                assert(members@.take(i as int) =~= members@);
                Json::Object(copy)
            },
        }
    }
}

/// An object has the members of its map; nothing else has members.
pub proof fn law_member(tree: JsonView, key: Seq<char>)
    ensures
        tree matches JsonView::Object(members) ==> tree.member(key) == if members.contains_key(
            key,
        ) {
            Some(members[key])
        } else {
            None
        },
        !(tree is Object) ==> tree.member(key) is None,
        JsonView::empty() is Object,
        JsonView::empty().member(key) is None,
{
}

/// A member that is set is found again, and no other one changes.
pub proof fn law_with(tree: JsonView, key: Seq<char>, value: JsonView, other: Seq<char>)
    requires
        tree is Object || tree is Null,
    ensures
        tree.takes_members(),
        tree.with(key, value) is Object,
        tree.with(key, value).member(key) == Some(value),
        other != key ==> tree.with(key, value).member(other) == tree.member(other),
{
}

/// A value that is neither an object nor nothing takes no members.
pub proof fn law_takes_members(tree: JsonView)
    ensures
        tree.takes_members() <==> tree is Object || tree is Null,
{
}

/// A member is a string, a boolean or an array exactly where it holds one, and
/// is read as what it holds.
pub proof fn law_typed_members(tree: JsonView, key: Seq<char>)
    ensures
        tree.text_at(key) == match tree.member(key) {
            Some(JsonView::Str(text)) => Some(text),
            _ => None,
        },
        tree.flag_at(key) == match tree.member(key) {
            Some(JsonView::Bool(flag)) => Some(flag),
            _ => None,
        },
        tree.items_at(key) == match tree.member(key) {
            Some(JsonView::Array(items)) => Some(items),
            _ => None,
        },
{
}

/// The value that counts for a key is that of the last member with it, and only
/// keys of members have a value.
pub proof fn law_last_member_counts(members: Seq<Member>, key: Seq<char>)
    ensures
        members_map(members).contains_key(key) <==> exists|i: int|
            0 <= i < members.len() && (#[trigger] members[i]).key@ == key,
        forall|i: int|
            0 <= i < members.len() && (#[trigger] members[i]).key@ == key && (forall|j: int|
                i < j < members.len() ==> (#[trigger] members[j]).key@ != key) ==> members_map(
                members,
            )[key] == members[i].value@,
    decreases members.len(),
{
    if members.len() > 0 {
        let shorter = members.drop_last();
        law_last_member_counts(shorter, key);
        if exists|i: int| 0 <= i < shorter.len() && (#[trigger] shorter[i]).key@ == key {
            let i = choose|i: int| 0 <= i < shorter.len() && (#[trigger] shorter[i]).key@ == key;
            assert(members[i].key@ == key);
        }
        if exists|i: int| 0 <= i < members.len() && (#[trigger] members[i]).key@ == key {
            let i = choose|i: int| 0 <= i < members.len() && (#[trigger] members[i]).key@ == key;
            if i < shorter.len() {
                assert(shorter[i].key@ == key);
            } else {
                assert(members.last().key@ == key);
            }
        }
        assert forall|i: int|
            0 <= i < members.len() && (#[trigger] members[i]).key@ == key && (forall|j: int|
                i < j < members.len() ==> (#[trigger] members[j]).key@
                    != key) implies members_map(members)[key] == members[i].value@ by {
            if i < members.len() - 1 {
                assert(members[members.len() - 1].key@ != key);
                assert(shorter[i] == members[i]);
                assert forall|j: int| i < j < shorter.len() implies (#[trigger] shorter[j]).key@
                    != key by {
                    assert(shorter[j] == members[j]);
                }
            }
        }
    }
}

/// A value stands for itself: a scalar for what it holds, an array for its items
/// in order, an object for its members.
pub proof fn law_tree(json: Json)
    ensures
        json is Null <==> json@ is Null,
        json matches Json::Bool(flag) ==> json@ == JsonView::Bool(flag),
        json matches Json::Str(text) ==> json@ == JsonView::Str(text@),
        json matches Json::Array(items) ==> json@ is Array && json@->Array_0.len() == items@.len()
            && forall|i: int|
            0 <= i < items@.len() ==> #[trigger] json@->Array_0[i] == items@[i]@,
        json matches Json::Object(members) ==> json@ == JsonView::Object(members_map(members@)),
        json matches Json::Number(number) ==> json@ is Integer || json@ is Float,
{
}

/// Lists and optional values stand for the trees in them, in order.
pub proof fn law_trees(list: Seq<Json>, words: Seq<Seq<char>>, i: int)
    ensures
        trees(list).len() == list.len(),
        0 <= i < list.len() ==> trees(list)[i] == list[i]@,
        strings_of(words).len() == words.len(),
        0 <= i < words.len() ==> strings_of(words)[i] == JsonView::Str(words[i]),
        optional_string(None) == JsonView::Null,
        0 <= i < words.len() ==> optional_string(Some(words[i])) == JsonView::Str(words[i]),
        tree_in(None) is None,
        0 <= i < list.len() ==> tree_in(Some(list[i])) == Some(list[i]@),
        tree_of(None) is None,
        0 <= i < list.len() ==> tree_of(Some(&list[i])) == Some(list[i]@),
{
}

} // verus!
