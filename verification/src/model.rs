//! Model ids as clients send them.

use vstd::prelude::*;
use vstd::string::*;

use crate::json::{Json, JsonView};
use crate::text::{
    after_prefix, cut_back, cut_front, cut_suffixes, ends_in, has_char, is_trimmed, joined, law_trimmed,
    lemma_cut_back_joined, lemma_trimmed_in_steps, starts_with, trim, trim_front, trim_suffixes,
    trimmed, CharClass,
};
use crate::text_laws::{law_cut_back, law_cut_suffixes, law_ends};
use crate::variant::{WbVariant, PREFIX_CN, PREFIX_INTL};

verus! {

/// A model that a client asks for. Without a site any account may serve it.
#[derive(Debug, PartialEq, Eq)]
pub struct ModelRequest {
    pub site: Option<WbVariant>,
    pub model: String,
}

/// What a [`ModelRequest`] asks for.
pub struct RequestView {
    pub site: Option<WbVariant>,
    pub model: Seq<char>,
}

impl View for ModelRequest {
    type V = RequestView;

    open spec fn view(&self) -> RequestView {
        RequestView { site: self.site, model: self.model@ }
    }
}

impl Clone for ModelRequest {
    fn clone(&self) -> (r: Self)
        ensures
            r@ == self@,
    {
        ModelRequest { site: self.site, model: self.model.clone() }
    }
}

impl ModelRequest {
    /// The model id for the body of the upstream request.
    pub fn upstream_model(&self) -> (r: &str)
        ensures
            r@ == self@.model,
    {
        self.model.as_str()
    }
}

/// The request for `model` on `site`, where a model is named at all.
pub open spec fn bound_model(site: WbVariant, model: Seq<char>, missing: Seq<char>) -> Result<
    RequestView,
    Seq<char>,
> {
    if model.len() == 0 {
        Err(missing)
    } else {
        Ok(RequestView { site: Some(site), model })
    }
}

/// The request that a model id stands for, or why it stands for none.
pub open spec fn parsed_model(raw: Seq<char>) -> Result<RequestView, Seq<char>> {
    let id = trimmed(raw);
    if id.len() == 0 {
        Err("model 不能为空"@)
    } else if starts_with(id, PREFIX_CN@) {
        bound_model(WbVariant::Cn, trimmed(id.skip(PREFIX_CN@.len() as int)), "cn/ 后缺少模型名"@)
    } else if starts_with(id, PREFIX_INTL@) {
        bound_model(
            WbVariant::Ai,
            trimmed(id.skip(PREFIX_INTL@.len() as int)),
            "intl/ 后缺少模型名"@,
        )
    } else if id.contains('/') {
        Err("未知模型前缀: "@ + id)
    } else {
        Ok(RequestView { site: None, model: id })
    }
}

/// Reads a model id: `cn/<model>` and `intl/<model>` bind the request to a
/// site, `<model>` leaves it open. Any other id with a slash is refused.
pub fn parse_model(raw: &str) -> (r: Result<ModelRequest, String>)
    ensures
        match r {
            Ok(request) => parsed_model(raw@) == Ok::<RequestView, Seq<char>>(request@),
            Err(message) => parsed_model(raw@) == Err::<RequestView, Seq<char>>(message@),
        },
{
    let id = trim(raw);
    if id.is_empty() {
        return Err("model 不能为空".to_owned());
    }
    if let Some(rest) = after_prefix(id, PREFIX_CN) {
        let model = trim(rest);
        if model.is_empty() {
            return Err("cn/ 后缺少模型名".to_owned());
        }
        return Ok(ModelRequest { site: Some(WbVariant::Cn), model: model.to_owned() });
    }
    if let Some(rest) = after_prefix(id, PREFIX_INTL) {
        let model = trim(rest);
        if model.is_empty() {
            return Err("intl/ 后缺少模型名".to_owned());
        }
        return Ok(ModelRequest { site: Some(WbVariant::Ai), model: model.to_owned() });
    }
    // A slash after any other prefix would be ambiguous.
    if has_char(id, '/') {
        return Err(joined("未知模型前缀: ", id));
    }
    Ok(ModelRequest { site: None, model: id.to_owned() })
}

/// The number in a credit multiplier such as `x3.31 credits`: the text between
/// the marks `x` or `X` in front and the word `credits` behind.
pub open spec fn multiplier_digits(credits: JsonView) -> Option<Seq<char>> {
    match credits.text() {
        Some(raw) if trimmed(raw).len() > 0 => Some(
            trimmed(cut_suffixes(cut_front(trimmed(raw), CharClass::Times), "credits"@)),
        ),
        _ => None,
    }
}

/// The number in the credit multiplier of a model, as text; `None` where the
/// model has no multiplier, or an empty one, or one that is no string.
pub fn multiplier_text(raw: Option<&Json>) -> (r: Option<String>)
    ensures
        match r {
            Some(digits) => raw is Some && multiplier_digits(raw->Some_0@) == Some(digits@),
            None => raw is None || multiplier_digits(raw->Some_0@) is None,
        },
{
    let text = match raw {
        Some(credits) => match credits.as_str() {
            Some(s) => trim(s),
            None => return None,
        },
        None => return None,
    };
    if text.is_empty() {
        return None;
    }
    Some(trim(trim_suffixes(trim_front(text, CharClass::Times), "credits")).to_owned())
}

/// White space around a model id has no meaning.
pub proof fn law_outer_white_space(raw: Seq<char>)
    ensures
        parsed_model(raw) == parsed_model(trimmed(raw)),
{
    law_trimmed(raw);
}

/// A model that is asked for has a name, without white space around it.
pub proof fn law_model_has_name(raw: Seq<char>)
    ensures
        parsed_model(raw) matches Ok(request) ==> request.model.len() > 0 && is_trimmed(
            request.model,
        ),
{
    law_trimmed(raw);
    let id = trimmed(raw);
    law_trimmed(id.skip(PREFIX_CN@.len() as int));
    law_trimmed(id.skip(PREFIX_INTL@.len() as int));
}

/// The prefix of a site in front of a model name, with or without white space
/// around the name, binds the request to that site.
pub proof fn law_prefix_binds(site: WbVariant, name: Seq<char>)
    requires
        trimmed(name).len() > 0,
    ensures
        parsed_model(site.prefix() + name) == Ok::<RequestView, Seq<char>>(
            RequestView { site: Some(site), model: trimmed(name) },
        ),
{
    reveal_strlit("cn/");
    reveal_strlit("intl/");
    let prefix = site.prefix();
    let raw = prefix + name;
    let rest = cut_back(name, CharClass::White);
    assert("cn/"@[0] == 'c' && "intl/"@[0] == 'i');
    assert(raw[0] == prefix[0]);
    lemma_trimmed_in_steps(name);
    lemma_cut_back_joined(prefix, name, CharClass::White);
    let id = trimmed(raw);
    assert(id == prefix + rest);
    assert(id.take(prefix.len() as int) =~= prefix);
    assert(id.skip(prefix.len() as int) =~= rest);
    if site == WbVariant::Ai {
        assert(id.take(3)[0] == 'i');
    }
}

/// A model name without a slash leaves the site open, with or without white
/// space around it.
pub proof fn law_bare_name_is_open(name: Seq<char>)
    requires
        trimmed(name).len() > 0,
        !trimmed(name).contains('/'),
    ensures
        parsed_model(name) == Ok::<RequestView, Seq<char>>(
            RequestView { site: None, model: trimmed(name) },
        ),
{
    reveal_strlit("cn/");
    reveal_strlit("intl/");
    let id = trimmed(name);
    assert("cn/"@[2] == '/' && "intl/"@[4] == '/');
    if starts_with(id, PREFIX_CN@) {
        assert(id[2] == id.take(3)[2]);
    }
    if starts_with(id, PREFIX_INTL@) {
        assert(id[4] == id.take(5)[4]);
    }
}

/// An id with a slash and no known prefix is refused, never taken as open; the
/// refusal names the id.
pub proof fn law_unknown_prefix_refused(raw: Seq<char>)
    requires
        trimmed(raw).contains('/'),
        !starts_with(trimmed(raw), "cn/"@),
        !starts_with(trimmed(raw), "intl/"@),
    ensures
        parsed_model(raw) == Err::<RequestView, Seq<char>>("未知模型前缀: "@ + trimmed(raw)),
{
    reveal_strlit("cn/");
    reveal_strlit("intl/");
    assert(trimmed(raw).len() > 0);
}

/// A blank id is refused, and so is a prefix with nothing but white space behind
/// it; each is told what is missing.
pub proof fn law_missing_name_refused(raw: Seq<char>, blank: Seq<char>)
    requires
        trimmed(blank).len() == 0,
    ensures
        trimmed(raw).len() == 0 ==> parsed_model(raw) == Err::<RequestView, Seq<char>>(
            "model 不能为空"@,
        ),
        parsed_model("cn/"@ + blank) == Err::<RequestView, Seq<char>>("cn/ 后缺少模型名"@),
        parsed_model("intl/"@ + blank) == Err::<RequestView, Seq<char>>("intl/ 后缺少模型名"@),
{
    reveal_strlit("cn/");
    reveal_strlit("intl/");
    lemma_blank_behind("cn/"@, blank);
    lemma_blank_behind("intl/"@, blank);
    assert("cn/"@.skip(3) =~= Seq::<char>::empty());
    assert("intl/"@.skip(5) =~= Seq::<char>::empty());
    assert("cn/"@.take(3) =~= "cn/"@);
    assert("intl/"@.take(5) =~= "intl/"@);
    assert("intl/"@.take(3)[0] == 'i' && "cn/"@[0] == 'c');
}

/// White space behind a word is cut off with nothing left of it.
proof fn lemma_blank_behind(word: Seq<char>, blank: Seq<char>)
    requires
        trimmed(blank).len() == 0,
        word.len() > 0,
        is_trimmed(word),
    ensures
        trimmed(word + blank) == word,
{
    let rest = cut_back(blank, CharClass::White);
    law_cut_back(blank, CharClass::White);
    if rest.len() > 0 {
        lemma_front_of_cut(rest);
        lemma_trimmed_in_steps(blank);
    }
    lemma_cut_back_joined(word, blank, CharClass::White);
    law_trimmed(word);
    assert((word + blank).first() == word.first());
}

/// A text whose last character is no white space is not blank.
proof fn lemma_front_of_cut(s: Seq<char>)
    requires
        s.len() > 0,
        !CharClass::White.has(s.last()),
    ensures
        cut_front(s, CharClass::White).len() > 0,
        cut_front(s, CharClass::White).last() == s.last(),
        trimmed(s).len() > 0,
    decreases s.len(),
{
    if CharClass::White.has(s.first()) {
        lemma_front_of_cut(s.drop_first());
    }
}

/// A multiplier is read without its marks and without the word behind it,
/// whatever the number between them is.
pub proof fn law_multiplier_between_its_marks(marks: Seq<char>, number: Seq<char>)
    requires
        forall|i: int| 0 <= i < marks.len() ==> #[trigger] marks[i] == 'x' || marks[i] == 'X',
        number.len() > 0,
        is_trimmed(number),
        number[0] != 'x',
        number[0] != 'X',
        !ends_in(number, "credits"@),
    ensures
        multiplier_digits(JsonView::Str(marks + number)) == Some(number),
        multiplier_digits(JsonView::Str(marks + number + "credits"@)) == Some(number),
        multiplier_digits(JsonView::Str(marks + number + " credits"@)) == Some(number),
{
    reveal_strlit("credits");
    reveal_strlit(" credits");
    let word = "credits"@;
    let spaced = " credits"@;
    assert(word.last() == 's' && spaced.last() == 's');
    lemma_multiplier_text(marks, number);
    lemma_multiplier_text(marks, number + word);
    lemma_multiplier_text(marks, number + spaced);
    assert(marks + number + word =~= marks + (number + word));
    assert(marks + number + spaced =~= marks + (number + spaced));
    law_cut_suffixes(number, word);
    let gap = number.push(' ');
    assert(number + spaced =~= gap + word);
    assert(gap.last() == ' ');
    law_ends(gap, word);
    if ends_in(gap, word) {
        assert(gap[gap.len() - 7 + 6] == word[6]);
    }
    law_cut_suffixes(gap, word);
    law_trimmed(number);
    assert(gap.drop_last() =~= number);
    assert(gap.first() == number.first());
}

/// Where a text has no white space at its ends and no mark in front, the marks
/// before it are cut off and it is left.
proof fn lemma_multiplier_text(marks: Seq<char>, rest: Seq<char>)
    requires
        forall|i: int| 0 <= i < marks.len() ==> #[trigger] marks[i] == 'x' || marks[i] == 'X',
        rest.len() > 0,
        is_trimmed(rest),
        rest[0] != 'x',
        rest[0] != 'X',
    ensures
        trimmed(marks + rest) == marks + rest,
        cut_front(marks + rest, CharClass::Times) == rest,
    decreases marks.len(),
{
    let all = marks + rest;
    assert(all.last() == rest.last());
    if marks.len() > 0 {
        assert(all.first() == marks[0]);
        let fewer = marks.drop_first();
        assert forall|i: int| 0 <= i < fewer.len() implies #[trigger] fewer[i] == 'x' || fewer[i]
            == 'X' by {
            assert(fewer[i] == marks[i + 1]);
        }
        lemma_multiplier_text(fewer, rest);
        assert(all.drop_first() =~= fewer + rest);
    } else {
        assert(all =~= rest);
    }
    law_trimmed(all);
}

/// Only a string that is not blank holds a multiplier, and white space around it
/// has no meaning.
pub proof fn law_no_multiplier(credits: JsonView, text: Seq<char>)
    ensures
        multiplier_digits(credits) is Some <==> (credits matches JsonView::Str(raw) && trimmed(
            raw,
        ).len() > 0),
        multiplier_digits(JsonView::Str(text)) == multiplier_digits(JsonView::Str(trimmed(text))),
{
    law_trimmed(text);
}

/// A request says its site and its model.
pub proof fn law_request_view(request: ModelRequest)
    ensures
        request@.site == request.site,
        request@.model == request.model@,
{
}

} // verus!
