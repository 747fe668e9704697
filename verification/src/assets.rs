//! The files of the web interface.

use vstd::prelude::*;
use vstd::string::*;

use crate::text::{before_suffix, cut_front, ends_in, trim_front, CharClass};
use crate::text_laws::{law_cut_front, law_ends};

verus! {

/// The page that every path without a file of its own leads to.
pub const INDEX_FILE: &'static str = "index.html";

/// The type under which a file is served, by the end of its path.
pub open spec fn type_of(path: Seq<char>) -> Seq<char> {
    if ends_in(path, ".js"@) || ends_in(path, ".mjs"@) {
        "text/javascript"@
    } else if ends_in(path, ".css"@) {
        "text/css"@
    } else if ends_in(path, ".html"@) {
        "text/html; charset=utf-8"@
    } else if ends_in(path, ".json"@) {
        "application/json"@
    } else if ends_in(path, ".svg"@) {
        "image/svg+xml"@
    } else if ends_in(path, ".png"@) {
        "image/png"@
    } else if ends_in(path, ".ico"@) {
        "image/x-icon"@
    } else if ends_in(path, ".woff2"@) {
        "font/woff2"@
    } else {
        "application/octet-stream"@
    }
}

/// The file that a path of a request asks for.
pub open spec fn file_at(path: Seq<char>) -> Seq<char> {
    if cut_front(path, CharClass::Slash).len() == 0 {
        INDEX_FILE@
    } else {
        cut_front(path, CharClass::Slash)
    }
}

fn ends_with(path: &str, suffix: &str) -> (r: bool)
    ensures
        r == ends_in(path@, suffix@),
{
    before_suffix(path, suffix).is_some()
}

/// The type under which a file is served.
pub fn content_type(path: &str) -> (r: &'static str)
    ensures
        r@ == type_of(path@),
{
    if ends_with(path, ".js") || ends_with(path, ".mjs") {
        "text/javascript"
    } else if ends_with(path, ".css") {
        "text/css"
    } else if ends_with(path, ".html") {
        "text/html; charset=utf-8"
    } else if ends_with(path, ".json") {
        "application/json"
    } else if ends_with(path, ".svg") {
        "image/svg+xml"
    } else if ends_with(path, ".png") {
        "image/png"
    } else if ends_with(path, ".ico") {
        "image/x-icon"
    } else if ends_with(path, ".woff2") {
        "font/woff2"
    } else {
        "application/octet-stream"
    }
}

/// The file that a path of a request asks for: the path without the slashes in
/// front, and the start page where nothing is left.
pub fn asset_path(path: &str) -> (r: String)
    ensures
        r@ == file_at(path@),
{
    let name = trim_front(path, CharClass::Slash);
    if name.is_empty() {
        INDEX_FILE.to_owned()
    } else {
        name.to_owned()
    }
}

/// The head of the answer to a request for a file.
#[derive(Debug, PartialEq, Eq)]
pub struct AssetHead {
    pub status: u16,
    pub content_type: Option<&'static str>,
}

/// What an [`AssetHead`] says.
pub struct AssetView {
    pub status: u16,
    pub content_type: Option<Seq<char>>,
}

impl View for AssetHead {
    type V = AssetView;

    open spec fn view(&self) -> AssetView {
        AssetView {
            status: self.status,
            content_type: match self.content_type {
                Some(name) => Some(name@),
                None => None,
            },
        }
    }
}

/// The head of the answer to a request for the file `name`.
pub open spec fn head_of(name: Seq<char>, found: bool) -> AssetView {
    if found {
        AssetView { status: 200, content_type: Some(type_of(name)) }
    } else {
        AssetView { status: 404, content_type: None }
    }
}

/// The head of the answer to a request for the file `name`, where `found` says
/// whether there was anything to send. The type is that of the file asked for,
/// also where the start page is sent in its place.
pub fn asset_head(name: &str, found: bool) -> (r: AssetHead)
    ensures
        r@ == head_of(name@, found),
        found ==> r.status == 200 && r.content_type is Some && r.content_type->Some_0@ == type_of(
            name@,
        ),
        !found ==> r.status == 404 && r.content_type is None,
{
    if found {
        AssetHead { status: 200, content_type: Some(content_type(name)) }
    } else {
        AssetHead { status: 404, content_type: None }
    }
}

/// A slash in front of a path changes nothing.
pub proof fn law_leading_slash(path: Seq<char>)
    ensures
        file_at(seq!['/'] + path) == file_at(path),
{
    let longer = seq!['/'] + path;
    assert(longer.first() == '/');
    assert(longer.drop_first() =~= path);
}

/// The start page is served as a page.
pub proof fn law_start_page()
    ensures
        file_at(Seq::empty()) == INDEX_FILE@,
        type_of(file_at(Seq::empty())) == "text/html; charset=utf-8"@,
{
    reveal_strlit("index.html");
    reveal_strlit(".js");
    reveal_strlit(".mjs");
    reveal_strlit(".css");
    reveal_strlit(".html");
    let page = "index.html"@;
    assert(page.skip(7)[0] == 't' && ".js"@[0] == '.');
    assert(page.skip(6)[0] == 'h' && ".mjs"@[0] == '.' && ".css"@[0] == '.');
    assert(page.skip(5) =~= ".html"@);
}

/// A text ends otherwise where a character counted from the back differs.
proof fn lemma_other_end(stem: Seq<char>, end: Seq<char>, other: Seq<char>, k: int)
    requires
        0 <= k < end.len(),
        k < other.len(),
        end[end.len() - 1 - k] != other[other.len() - 1 - k],
    ensures
        !ends_in(stem + end, other),
{
    let s = stem + end;
    law_ends(s, other);
    if ends_in(s, other) {
        let i = other.len() - 1 - k;
        assert(s[s.len() - other.len() + i] == other[i]);
        assert(s[s.len() - 1 - k] == end[end.len() - 1 - k]);
    }
}

/// Every file is typed by its ending, whatever stands before it.
pub proof fn law_types_by_ending(stem: Seq<char>)
    ensures
        type_of(stem + ".js"@) == "text/javascript"@,
        type_of(stem + ".mjs"@) == "text/javascript"@,
        type_of(stem + ".css"@) == "text/css"@,
        type_of(stem + ".html"@) == "text/html; charset=utf-8"@,
        type_of(stem + ".json"@) == "application/json"@,
        type_of(stem + ".svg"@) == "image/svg+xml"@,
        type_of(stem + ".png"@) == "image/png"@,
        type_of(stem + ".ico"@) == "image/x-icon"@,
        type_of(stem + ".woff2"@) == "font/woff2"@,
{
    reveal_strlit(".js");
    reveal_strlit(".mjs");
    reveal_strlit(".css");
    reveal_strlit(".html");
    reveal_strlit(".json");
    reveal_strlit(".svg");
    reveal_strlit(".png");
    reveal_strlit(".ico");
    reveal_strlit(".woff2");
    law_ends(stem, ".js"@);
    law_ends(stem, ".mjs"@);
    lemma_other_end(stem, ".mjs"@, ".js"@, 2);
    law_ends(stem, ".css"@);
    lemma_other_end(stem, ".css"@, ".js"@, 1);
    lemma_other_end(stem, ".css"@, ".mjs"@, 1);
    law_ends(stem, ".html"@);
    lemma_other_end(stem, ".html"@, ".js"@, 0);
    lemma_other_end(stem, ".html"@, ".mjs"@, 0);
    lemma_other_end(stem, ".html"@, ".css"@, 0);
    law_ends(stem, ".json"@);
    lemma_other_end(stem, ".json"@, ".js"@, 0);
    lemma_other_end(stem, ".json"@, ".mjs"@, 0);
    lemma_other_end(stem, ".json"@, ".css"@, 0);
    lemma_other_end(stem, ".json"@, ".html"@, 0);
    law_ends(stem, ".svg"@);
    lemma_other_end(stem, ".svg"@, ".js"@, 0);
    lemma_other_end(stem, ".svg"@, ".mjs"@, 0);
    lemma_other_end(stem, ".svg"@, ".css"@, 0);
    lemma_other_end(stem, ".svg"@, ".html"@, 0);
    lemma_other_end(stem, ".svg"@, ".json"@, 0);
    law_ends(stem, ".png"@);
    lemma_other_end(stem, ".png"@, ".js"@, 0);
    lemma_other_end(stem, ".png"@, ".mjs"@, 0);
    lemma_other_end(stem, ".png"@, ".css"@, 0);
    lemma_other_end(stem, ".png"@, ".html"@, 0);
    lemma_other_end(stem, ".png"@, ".json"@, 0);
    lemma_other_end(stem, ".png"@, ".svg"@, 1);
    law_ends(stem, ".ico"@);
    lemma_other_end(stem, ".ico"@, ".js"@, 0);
    lemma_other_end(stem, ".ico"@, ".mjs"@, 0);
    lemma_other_end(stem, ".ico"@, ".css"@, 0);
    lemma_other_end(stem, ".ico"@, ".html"@, 0);
    lemma_other_end(stem, ".ico"@, ".json"@, 0);
    lemma_other_end(stem, ".ico"@, ".svg"@, 0);
    lemma_other_end(stem, ".ico"@, ".png"@, 0);
    law_ends(stem, ".woff2"@);
    lemma_other_end(stem, ".woff2"@, ".js"@, 0);
    lemma_other_end(stem, ".woff2"@, ".mjs"@, 0);
    lemma_other_end(stem, ".woff2"@, ".css"@, 0);
    lemma_other_end(stem, ".woff2"@, ".html"@, 0);
    lemma_other_end(stem, ".woff2"@, ".json"@, 0);
    lemma_other_end(stem, ".woff2"@, ".svg"@, 0);
    lemma_other_end(stem, ".woff2"@, ".png"@, 0);
    lemma_other_end(stem, ".woff2"@, ".ico"@, 0);
}

/// A file with no ending of a known type is plain bytes.
pub proof fn law_unknown_type(path: Seq<char>)
    requires
        !ends_in(path, ".js"@),
        !ends_in(path, ".mjs"@),
        !ends_in(path, ".css"@),
        !ends_in(path, ".html"@),
        !ends_in(path, ".json"@),
        !ends_in(path, ".svg"@),
        !ends_in(path, ".png"@),
        !ends_in(path, ".ico"@),
        !ends_in(path, ".woff2"@),
    ensures
        type_of(path) == "application/octet-stream"@,
{
}

/// A path names its file without the slashes in front; the slashes alone name
/// the start page.
pub proof fn law_file_of_a_path(path: Seq<char>)
    ensures
        path.len() > 0 && path[0] != '/' ==> file_at(path) == path,
        (forall|i: int| 0 <= i < path.len() ==> path[i] == '/') ==> file_at(path) == "index.html"@,
{
    law_cut_front(path, CharClass::Slash);
    let rest = cut_front(path, CharClass::Slash);
    if forall|i: int| 0 <= i < path.len() ==> path[i] == '/' {
        if rest.len() > 0 {
            assert(rest[0] == path[path.len() - rest.len()]);
        }
    }
}

/// What is found is sent with the type of the file asked for; what is not found
/// is said to be missing.
pub proof fn law_asset_head(name: Seq<char>)
    ensures
        head_of(name, true).status == 200,
        head_of(name, true).content_type == Some(type_of(name)),
        head_of(name, false).status == 404,
        head_of(name, false).content_type is None,
{
}

} // verus!
