//! The stored configuration of the proxy: whether it is on.

use vstd::prelude::*;
use vstd::string::*;

use crate::codec::{is_flags, parse_json, parsed_text, pretty_json, pretty_text};
use crate::json::{tree_of, Json, JsonView};
use crate::text::text_of;

verus! {

/// The name of the file that holds the configuration.
pub const PROXY_CONFIG_FILE: &'static str = "openai_proxy.json";

/// A configuration: it holds one setting and nothing else.
pub open spec fn config_tree(enabled: bool) -> JsonView {
    JsonView::empty().with("enabled"@, JsonView::Bool(enabled))
}

/// Whether a configuration turns the proxy on; one that does not say so does.
pub open spec fn turns_on(config: Option<JsonView>) -> bool {
    match config {
        Some(tree) => tree.flag_at("enabled"@) != Some(false),
        None => true,
    }
}

/// The configuration in the text of a configuration file, where the file could
/// be read and holds JSON.
pub open spec fn stored_config(text: Option<Seq<char>>) -> Option<JsonView> {
    match text {
        Some(t) => parsed_text(t),
        None => None,
    }
}

fn config_json(enabled: bool) -> (r: Json)
    ensures
        r@ == config_tree(enabled),
{
    Json::object().with("enabled", Json::Bool(enabled))
}

/// The configuration that holds where none is stored: the proxy is on.
pub fn default_proxy_config() -> (r: Json)
    ensures
        r@ == config_tree(true),
{
    config_json(true)
}

/// The setting of `config`, which is on where `config` does not say otherwise.
fn enabled_in(config: Option<&Json>) -> (r: bool)
    ensures
        r == turns_on(tree_of(config)),
{
    match config {
        Some(json) => match json.get_bool("enabled") {
            Some(enabled) => enabled,
            None => true,
        },
        None => true,
    }
}

/// The configuration that `stored` amounts to: its setting, and the default
/// where it has none.
pub fn merged_config(stored: Option<&Json>) -> (r: Json)
    ensures
        r@ == config_tree(turns_on(tree_of(stored))),
{
    config_json(enabled_in(stored))
}

/// The configuration in the text of the configuration file; `None` stands for
/// a file that cannot be read. A missing or broken file gives the default.
pub fn load_proxy_config(text: Option<&str>) -> (r: Json)
    ensures
        r@ == config_tree(turns_on(stored_config(text_of(text)))),
{
    let stored = match text {
        Some(t) => parse_json(t),
        None => None,
    };
    merged_config(stored.as_ref())
}

/// The text to store for `cfg`. Only the known setting is kept, and it is read
/// back from the text.
pub fn save_proxy_config(cfg: &Json) -> (r: String)
    ensures
        r@ == pretty_text(config_tree(turns_on(Some(cfg@)))),
        stored_config(Some(r@)) == Some(config_tree(turns_on(Some(cfg@)))),
        turns_on(stored_config(Some(r@))) == turns_on(Some(cfg@)),
{
    let enabled = enabled_in(Some(cfg));
    let config = config_json(enabled);
    proof {
        reveal_strlit("enabled");
        assert(config@->Object_0.dom().finite());
        assert(is_flags(config@));
        law_setting_is_kept(enabled);
    }
    pretty_json(&config)
}

/// Tells whether the proxy is on, by the text of the configuration file.
pub fn proxy_enabled(text: Option<&str>) -> (r: bool)
    ensures
        r == turns_on(stored_config(text_of(text))),
{
    proof {
        law_setting_is_kept(turns_on(stored_config(text_of(text))));
    }
    enabled_in(Some(&load_proxy_config(text)))
}

/// A configuration turns the proxy on exactly where its setting does.
pub proof fn law_setting_is_kept(enabled: bool)
    ensures
        turns_on(Some(config_tree(enabled))) == enabled,
{
}

/// The proxy is off exactly where its setting is the boolean `false`; a missing
/// configuration, a missing setting and one of another type leave it on.
pub proof fn law_off_only_by_its_setting(config: JsonView)
    ensures
        turns_on(None),
        !turns_on(Some(config)) <==> config.member("enabled"@) == Some(JsonView::Bool(false)),
{
}

/// A configuration holds its setting and nothing else.
pub proof fn law_configuration(enabled: bool, key: Seq<char>)
    ensures
        config_tree(enabled).member("enabled"@) == Some(JsonView::Bool(enabled)),
        key != "enabled"@ ==> config_tree(enabled).member(key) is None,
{
}

/// What is stored is what the text of the file holds, and nothing where there is
/// no file.
pub proof fn law_stored_config(text: Seq<char>)
    ensures
        stored_config(Some(text)) == parsed_text(text),
        stored_config(None) is None,
{
}

} // verus!
