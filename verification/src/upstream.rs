//! Requests to the official interfaces: where they go and what they carry.

use vstd::prelude::*;
use vstd::string::*;

use crate::json::{Json, JsonView};
use crate::text::{joined, same_text};
use crate::variant::{variant_of, WbVariant};

verus! {

/// An HTTP header.
#[derive(Debug)]
pub struct Header {
    pub name: String,
    pub value: String,
}

/// The headers of a request, at most one of each name.
#[derive(Debug)]
pub struct Headers {
    list: Vec<Header>,
}

/// The values of the headers by their names, a later one in place of an earlier one.
pub open spec fn headers_map(list: Seq<Header>) -> Map<Seq<char>, Seq<char>>
    decreases list.len(),
{
    if list.len() == 0 {
        Map::empty()
    } else {
        headers_map(list.drop_last()).insert(list.last().name@, list.last().value@)
    }
}

/// Whether no header name occurs twice.
pub open spec fn distinct_names(list: Seq<Header>) -> bool {
    forall|i: int, j: int| 0 <= i < j < list.len() ==> list[i].name@ != list[j].name@
}

impl View for Headers {
    type V = Map<Seq<char>, Seq<char>>;

    closed spec fn view(&self) -> Map<Seq<char>, Seq<char>> {
        headers_map(self.list@)
    }
}

proof fn lemma_headers_map(list: Seq<Header>)
    requires
        distinct_names(list),
    ensures
        forall|i: int|
            0 <= i < list.len() ==> headers_map(list).contains_key((#[trigger] list[i]).name@)
                && headers_map(list)[list[i].name@] == list[i].value@,
        forall|name: Seq<char>| #[trigger]
            headers_map(list).contains_key(name) ==> exists|i: int|
                0 <= i < list.len() && (#[trigger] list[i]).name@ == name,
    decreases list.len(),
{
    if list.len() > 0 {
        let shorter = list.drop_last();
        assert(distinct_names(shorter));
        lemma_headers_map(shorter);
        assert forall|i: int| 0 <= i < list.len() implies headers_map(list).contains_key(
            (#[trigger] list[i]).name@,
        ) && headers_map(list)[list[i].name@] == list[i].value@ by {
            if i < list.len() - 1 {
                assert(shorter[i] == list[i]);
            }
        }
        assert forall|name: Seq<char>| #[trigger]
            headers_map(list).contains_key(name) implies exists|i: int|
            0 <= i < list.len() && (#[trigger] list[i]).name@ == name by {
            if name == list.last().name@ {
                assert(list[list.len() - 1].name@ == name);
            } else {
                assert(headers_map(shorter).contains_key(name));
                let i = choose|i: int| 0 <= i < shorter.len() && (#[trigger] shorter[i]).name@ == name;
                assert(list[i].name@ == name);
            }
        }
    }
}

impl Headers {
    #[verifier::type_invariant]
    spec fn one_of_each(self) -> bool {
        distinct_names(self.list@)
    }

    /// No headers.
    pub fn new() -> (r: Headers)
        ensures
            r@ == Map::<Seq<char>, Seq<char>>::empty(),
    {
        Headers { list: Vec::new() }
    }

    /// The position of the header `name`; the number of headers where there is none.
    fn position(&self, name: &str) -> (r: usize)
        ensures
            r <= self.list.len(),
            r < self.list.len() ==> {
                &&& self.list@[r as int].name@ == name@
                &&& self@.contains_key(name@)
                &&& self@[name@] == self.list@[r as int].value@
            },
            r == self.list.len() ==> !self@.contains_key(name@) && forall|j: int|
                0 <= j < self.list.len() ==> self.list@[j].name@ != name@,
    {
        proof {
            use_type_invariant(self);
            lemma_headers_map(self.list@);
        }
        let mut i: usize = 0;
        while i < self.list.len()
            invariant
                i <= self.list.len(),
                forall|j: int| 0 <= j < i ==> self.list@[j].name@ != name@,
                forall|j: int|
                    0 <= j < self.list.len() ==> self@.contains_key((#[trigger] self.list@[j]).name@)
                        && self@[self.list@[j].name@] == self.list@[j].value@,
            decreases self.list.len() - i,
        {
            if same_text(self.list[i].name.as_str(), name) {
                return i;
            }
            i = i + 1;
        }
        i
    }

    /// The value of the header `name`.
    pub fn get(&self, name: &str) -> (r: Option<&String>)
        ensures
            match r {
                Some(value) => self@.contains_key(name@) && self@[name@] == value@,
                None => !self@.contains_key(name@),
            },
    {
        let i: usize = self.position(name);
        if i < self.list.len() {
            Some(&self.list[i].value)
        } else {
            None
        }
    }

    /// Tells whether there is a header `name`.
    pub fn contains_key(&self, name: &str) -> (r: bool)
        ensures
            r == self@.contains_key(name@),
    {
        self.position(name) < self.list.len()
    }

    /// The headers, each name once.
    pub fn list(&self) -> (r: &Vec<Header>)
        ensures
            headers_map(r@) == self@,
            distinct_names(r@),
    {
        proof {
            use_type_invariant(self);
        }
        &self.list
    }

    /// The headers with `name` added.
    fn with(self, name: &str, value: String) -> (r: Headers)
        requires
            !self@.contains_key(name@),
        ensures
            r@ == self@.insert(name@, value@),
    {
        proof {
            use_type_invariant(&self);
            lemma_headers_map(self.list@);
        }
        let ghost before = self.list@;
        let mut list = self.list;
        list.push(Header { name: name.to_owned(), value });
        assert(list@.drop_last() =~= before);
        assert forall|i: int, j: int| 0 <= i < j < list@.len() implies list@[i].name@
            != list@[j].name@ by {
            assert(list@[i] == before[i]);
            assert(headers_map(before).contains_key(before[i].name@));
        }
        Headers { list }
    }

    /// The headers with `name` added where there is a value for it.
    fn with_some(self, name: &str, value: Option<String>) -> (r: Headers)
        requires
            !self@.contains_key(name@),
        ensures
            r@ == with_optional(
                self@,
                name@,
                match value {
                    Some(v) => Some(v@),
                    None => None,
                },
            ),
    {
        match value {
            Some(v) => self.with(name, v),
            None => self,
        }
    }
}

/// `headers` with `name` set where there is a value for it.
pub open spec fn with_optional(
    headers: Map<Seq<char>, Seq<char>>,
    name: Seq<char>,
    value: Option<Seq<char>>,
) -> Map<Seq<char>, Seq<char>> {
    match value {
        Some(v) => headers.insert(name, v),
        None => headers,
    }
}

/// The organisation that an account belongs to.
pub open spec fn enterprise_of(account: JsonView) -> Option<Seq<char>> {
    match account.text_at("enterpriseId"@) {
        Some(id) => Some(id),
        None => account.text_at("enterprise_id"@),
    }
}

/// The headers that a request on behalf of `account` carries: who asks, as far
/// as the account says so, and for which product.
pub open spec fn headers_for(account: JsonView) -> Map<Seq<char>, Seq<char>> {
    let token = match account.text_at("access_token"@) {
        Some(token) => Some("Bearer "@ + token),
        None => None,
    };
    let fixed = Map::empty().insert("X-Product"@, "SaaS"@).insert(
        "Content-Type"@,
        "application/json"@,
    );
    let signed = with_optional(fixed, "Authorization"@, token);
    let named = with_optional(signed, "X-User-Id"@, account.text_at("uid"@));
    let placed = with_optional(named, "X-Domain"@, account.text_at("domain"@));
    let owned = with_optional(placed, "X-Enterprise-Id"@, enterprise_of(account));
    with_optional(owned, "X-Tenant-Id"@, enterprise_of(account))
}

/// The header names differ from one another.
proof fn lemma_header_names()
    ensures
        "X-Product"@.len() == 9,
        "Content-Type"@.len() == 12,
        "Authorization"@.len() == 13,
        "X-User-Id"@.len() == 9,
        "X-Domain"@.len() == 8,
        "X-Enterprise-Id"@.len() == 15,
        "X-Tenant-Id"@.len() == 11,
        "X-Product"@ != "X-User-Id"@,
{
    reveal_strlit("X-Product");
    reveal_strlit("Content-Type");
    reveal_strlit("Authorization");
    reveal_strlit("X-User-Id");
    reveal_strlit("X-Domain");
    reveal_strlit("X-Enterprise-Id");
    reveal_strlit("X-Tenant-Id");
    assert("X-Product"@[2] != "X-User-Id"@[2]);
}

/// The string member `key` of an account.
pub fn get_str(account: &Json, key: &str) -> (r: Option<String>)
    ensures
        match r {
            Some(s) => account@.text_at(key@) == Some(s@),
            None => account@.text_at(key@) is None,
        },
{
    match account.get_str(key) {
        Some(s) => Some(s.to_owned()),
        None => None,
    }
}

/// The headers that a request on behalf of `account` carries. One whose value
/// the account lacks is left out.
pub fn upstream_headers(account: &Json) -> (r: Headers)
    ensures
        r@ == headers_for(account@),
{
    proof {
        lemma_header_names();
    }
    let token = match account.get_str("access_token") {
        Some(token) => Some(joined("Bearer ", token)),
        None => None,
    };
    let enterprise = match get_str(account, "enterpriseId") {
        Some(id) => Some(id),
        None => get_str(account, "enterprise_id"),
    };
    Headers::new().with("X-Product", "SaaS".to_owned()).with(
        "Content-Type",
        "application/json".to_owned(),
    ).with_some("Authorization", token).with_some("X-User-Id", get_str(account, "uid")).with_some(
        "X-Domain",
        get_str(account, "domain"),
    ).with_some("X-Enterprise-Id", enterprise.clone()).with_some("X-Tenant-Id", enterprise)
}

/// Whether `headers` holds `name` with exactly this value, or not at all.
pub open spec fn holds(
    headers: Map<Seq<char>, Seq<char>>,
    name: Seq<char>,
    value: Option<Seq<char>>,
) -> bool {
    match value {
        Some(v) => headers.contains_key(name) && headers[name] == v,
        None => !headers.contains_key(name),
    }
}

/// Every request names the product and the format. It carries the credentials,
/// the user, the domain and the organisation exactly where the account has
/// them, the organisation under two names, and nothing else.
pub proof fn law_headers(account: JsonView)
    ensures
        holds(headers_for(account), "X-Product"@, Some("SaaS"@)),
        holds(headers_for(account), "Content-Type"@, Some("application/json"@)),
        account.text_at("access_token"@) matches Some(token) ==> holds(
            headers_for(account),
            "Authorization"@,
            Some("Bearer "@ + token),
        ),
        account.text_at("access_token"@) is None ==> holds(
            headers_for(account),
            "Authorization"@,
            None,
        ),
        holds(headers_for(account), "X-User-Id"@, account.text_at("uid"@)),
        holds(headers_for(account), "X-Domain"@, account.text_at("domain"@)),
        holds(headers_for(account), "X-Enterprise-Id"@, enterprise_of(account)),
        holds(headers_for(account), "X-Tenant-Id"@, enterprise_of(account)),
        account.text_at("enterpriseId"@) is Some ==> holds(
            headers_for(account),
            "X-Enterprise-Id"@,
            account.text_at("enterpriseId"@),
        ) && holds(headers_for(account), "X-Tenant-Id"@, account.text_at("enterpriseId"@)),
        account.text_at("enterpriseId"@) is None ==> holds(
            headers_for(account),
            "X-Enterprise-Id"@,
            account.text_at("enterprise_id"@),
        ) && holds(headers_for(account), "X-Tenant-Id"@, account.text_at("enterprise_id"@)),
        forall|name: Seq<char>| #[trigger]
            headers_for(account).contains_key(name) ==> name == "X-Product"@ || name
                == "Content-Type"@ || name == "Authorization"@ || name == "X-User-Id"@ || name
                == "X-Domain"@ || name == "X-Enterprise-Id"@ || name == "X-Tenant-Id"@,
{
    lemma_header_names();
}

/// Where `site` answers chats.
pub open spec fn chat_address(site: WbVariant) -> Seq<char> {
    site.endpoint() + "/v2/chat/completions"@
}

/// Where `site` lists its models.
pub open spec fn models_address(site: WbVariant) -> Seq<char> {
    site.endpoint() + "/v3/config"@
}

/// Where `variant` answers chats.
pub fn chat_url(variant: WbVariant) -> (r: String)
    ensures
        r@ == chat_address(variant),
{
    joined(variant.api_endpoint(), "/v2/chat/completions")
}

/// Where `variant` lists its models.
pub fn models_config_url(variant: WbVariant) -> (r: String)
    ensures
        r@ == models_address(variant),
{
    joined(variant.api_endpoint(), "/v3/config")
}

/// A request to an official interface.
#[derive(Debug)]
pub struct UpstreamRequest {
    pub url: String,
    pub headers: Headers,
}

/// What an [`UpstreamRequest`] says.
pub struct HeadView {
    pub url: Seq<char>,
    pub headers: Map<Seq<char>, Seq<char>>,
}

impl View for UpstreamRequest {
    type V = HeadView;

    open spec fn view(&self) -> HeadView {
        HeadView { url: self.url@, headers: self.headers@ }
    }
}

/// The head of the request that passes a chat on for `account`.
pub open spec fn chat_head(account: JsonView) -> HeadView {
    HeadView { url: chat_address(variant_of(account)), headers: headers_for(account) }
}

/// The head of the request for the models that `account` can use.
pub open spec fn models_head(account: JsonView) -> HeadView {
    HeadView { url: models_address(variant_of(account)), headers: headers_for(account) }
}

/// The head of the request that passes a chat on for `account`: to the site
/// that the account belongs to, in the account's name.
pub fn chat_request(account: &Json) -> (r: UpstreamRequest)
    ensures
        r@ == chat_head(account@),
        r.url@ == chat_address(variant_of(account@)),
        r.headers@ == headers_for(account@),
{
    UpstreamRequest {
        url: chat_url(WbVariant::from_account(account)),
        headers: upstream_headers(account),
    }
}

/// The head of the request for the models that `account` can use.
pub fn models_request(account: &Json) -> (r: UpstreamRequest)
    ensures
        r@ == models_head(account@),
        r.url@ == models_address(variant_of(account@)),
        r.headers@ == headers_for(account@),
{
    UpstreamRequest {
        url: models_config_url(WbVariant::from_account(account)),
        headers: upstream_headers(account),
    }
}

/// The two sites are never addressed alike.
pub proof fn law_sites_apart()
    ensures
        chat_address(WbVariant::Cn) != chat_address(WbVariant::Ai),
        models_address(WbVariant::Cn) != models_address(WbVariant::Ai),
{
    reveal_strlit("https://www.workbuddy.cn");
    reveal_strlit("https://www.workbuddy.ai");
    assert(WbVariant::Cn.endpoint()[22] == 'c');
    assert(WbVariant::Ai.endpoint()[22] == 'a');
    assert(chat_address(WbVariant::Cn)[22] != chat_address(WbVariant::Ai)[22]);
    assert(models_address(WbVariant::Cn)[22] != models_address(WbVariant::Ai)[22]);
}

/// Chats and models of a site are asked for at the site's own address.
pub proof fn law_addresses(site: WbVariant)
    ensures
        chat_address(site) == site.endpoint() + "/v2/chat/completions"@,
        models_address(site) == site.endpoint() + "/v3/config"@,
{
}

/// An account of the international site asks there, every other one at the
/// domestic site, for chats and for models alike and with the same headers.
pub proof fn law_where_an_account_asks(account: JsonView)
    ensures
        account.member("variant"@) == Some(JsonView::Str("ai"@)) ==> chat_head(account).url
            == "https://www.workbuddy.ai"@ + "/v2/chat/completions"@ && models_head(account).url
            == "https://www.workbuddy.ai"@ + "/v3/config"@,
        account.member("variant"@) != Some(JsonView::Str("ai"@)) ==> chat_head(account).url
            == "https://www.workbuddy.cn"@ + "/v2/chat/completions"@ && models_head(account).url
            == "https://www.workbuddy.cn"@ + "/v3/config"@,
        chat_head(account).headers == headers_for(account),
        models_head(account).headers == headers_for(account),
{
}

/// A list of headers without a name twice stands for its names and their values.
pub proof fn law_header_list(list: Seq<Header>, name: Seq<char>)
    requires
        distinct_names(list),
    ensures
        headers_map(list).contains_key(name) <==> exists|i: int|
            0 <= i < list.len() && (#[trigger] list[i]).name@ == name,
        forall|i: int|
            0 <= i < list.len() && (#[trigger] list[i]).name@ == name ==> headers_map(list)[name]
                == list[i].value@,
{
    lemma_headers_map(list);
}

/// The head of a request says its address and its headers.
pub proof fn law_head_view(request: UpstreamRequest)
    ensures
        request@.url == request.url@,
        request@.headers == request.headers@,
{
}

} // verus!
