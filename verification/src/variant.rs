//! The two sites that an account can belong to.

use vstd::prelude::*;
use vstd::string::*;

use crate::json::{Json, JsonView};
use crate::text::same_text;

verus! {

/// Prefix of the model ids that are bound to the domestic site.
pub const PREFIX_CN: &'static str = "cn/";

/// Prefix of the model ids that are bound to the international site.
pub const PREFIX_INTL: &'static str = "intl/";

/// A site: domestic (`Cn`) or international (`Ai`).
#[derive(Debug, Clone, Copy, PartialEq, Eq, Structural)]
pub enum WbVariant {
    Cn,
    Ai,
}

/// The site that a name stands for. Every name but `ai`, and no name at all,
/// stands for the domestic site.
pub open spec fn variant_named(name: Option<Seq<char>>) -> WbVariant {
    if name == Some("ai"@) {
        WbVariant::Ai
    } else {
        WbVariant::Cn
    }
}

/// The site that an account belongs to.
pub open spec fn variant_of(account: JsonView) -> WbVariant {
    variant_named(account.text_at("variant"@))
}

impl WbVariant {
    pub open spec fn name(self) -> Seq<char> {
        match self {
            WbVariant::Cn => "cn"@,
            WbVariant::Ai => "ai"@,
        }
    }

    /// The address under which the site serves its interfaces.
    pub open spec fn endpoint(self) -> Seq<char> {
        match self {
            WbVariant::Cn => "https://www.workbuddy.cn"@,
            WbVariant::Ai => "https://www.workbuddy.ai"@,
        }
    }

    /// The prefix of the model ids that are bound to the site.
    pub open spec fn prefix(self) -> Seq<char> {
        match self {
            WbVariant::Cn => PREFIX_CN@,
            WbVariant::Ai => PREFIX_INTL@,
        }
    }

    /// The name by which messages speak of the site.
    pub open spec fn label(self) -> Seq<char> {
        match self {
            WbVariant::Cn => "Cn"@,
            WbVariant::Ai => "Ai"@,
        }
    }

    /// The site that `raw` names; the domestic one where it names none.
    pub fn parse(raw: Option<&str>) -> (r: WbVariant)
        ensures
            r == variant_named(
                match raw {
                    Some(name) => Some(name@),
                    None => None,
                },
            ),
    {
        match raw {
            Some(name) => if same_text(name, "ai") {
                WbVariant::Ai
            } else {
                WbVariant::Cn
            },
            None => WbVariant::Cn,
        }
    }

    /// The site of `account`, by its member `variant`.
    pub fn from_account(account: &Json) -> (r: WbVariant)
        ensures
            r == variant_of(account@),
    {
        WbVariant::parse(account.get_str("variant"))
    }

    pub fn as_str(self) -> (r: &'static str)
        ensures
            r@ == self.name(),
    {
        match self {
            WbVariant::Cn => "cn",
            WbVariant::Ai => "ai",
        }
    }

    /// The address under which the site serves its interfaces.
    pub fn api_endpoint(self) -> (r: &'static str)
        ensures
            r@ == self.endpoint(),
    {
        match self {
            WbVariant::Cn => "https://www.workbuddy.cn",
            WbVariant::Ai => "https://www.workbuddy.ai",
        }
    }

    /// The prefix of the model ids that are bound to the site.
    pub fn model_prefix(self) -> (r: &'static str)
        ensures
            r@ == self.prefix(),
    {
        match self {
            WbVariant::Cn => PREFIX_CN,
            WbVariant::Ai => PREFIX_INTL,
        }
    }

    /// The name by which messages speak of the site.
    pub fn message_name(self) -> (r: &'static str)
        ensures
            r@ == self.label(),
    {
        match self {
            WbVariant::Cn => "Cn",
            WbVariant::Ai => "Ai",
        }
    }
}

/// A site is found again by its name.
pub proof fn law_variant_name(site: WbVariant)
    ensures
        variant_named(Some(site.name())) == site,
{
    reveal_strlit("cn");
    reveal_strlit("ai");
    assert("cn"@[0] != "ai"@[0]);
}

/// A site is the international one exactly where it is named `ai`, and so is
/// that of an account exactly where its member `variant` is that string.
pub proof fn law_international_by_name_alone(name: Option<Seq<char>>, account: JsonView)
    ensures
        variant_named(name) is Ai <==> name == Some("ai"@),
        variant_of(account) is Ai <==> account.member("variant"@) == Some(JsonView::Str("ai"@)),
{
}

/// The words for a site: its name, its address, its prefix and its label.
pub proof fn law_words_of_a_site(site: WbVariant)
    ensures
        site is Cn ==> site.name() == "cn"@ && site.endpoint() == "https://www.workbuddy.cn"@
            && site.prefix() == "cn/"@ && site.label() == "Cn"@,
        site is Ai ==> site.name() == "ai"@ && site.endpoint() == "https://www.workbuddy.ai"@
            && site.prefix() == "intl/"@ && site.label() == "Ai"@,
{
}

} // verus!
