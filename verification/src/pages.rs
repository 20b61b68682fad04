//! HTML page rendering.
//!
//! Each page a handler can answer with is pinned down as a spec-level
//! character sequence; the exec renderers return exactly those sequences.
//! Paste content is embedded verbatim, between a fixed prefix and suffix.

use vstd::prelude::*;

verus! {

/// The static landing page served at the root path.
pub open spec fn landing_page() -> Seq<char> {
    "<!DOCTYPE html><html><head><title>pastebin</title></head><body><h1>pastebin</h1><form action=\"/upload\" method=\"post\"><textarea name=\"content\"></textarea><button type=\"submit\">upload</button></form></body></html>"@
}

/// The page shown when no paste exists under the requested identifier.
pub open spec fn not_found_page() -> Seq<char> {
    "<!DOCTYPE html><html><head><title>pastebin</title></head><body><h1>paste not found</h1></body></html>"@
}

/// Everything of the paste view that comes before the stored content.
pub open spec fn paste_page_prefix() -> Seq<char> {
    "<!DOCTYPE html><html><head><title>pastebin</title></head><body><pre>"@
}

/// Everything of the paste view that comes after the stored content.
pub open spec fn paste_page_suffix() -> Seq<char> {
    "</pre></body></html>"@
}

/// The paste view: the stored content embedded verbatim in the fixed frame.
pub open spec fn paste_page(content: Seq<char>) -> Seq<char> {
    paste_page_prefix() + content + paste_page_suffix()
}

/// The page rendered for a lookup result: the paste view when a paste was
/// found, the not-found page otherwise.
pub open spec fn fetch_page(found: Option<Seq<char>>) -> Seq<char> {
    match found {
        Option::Some(content) => paste_page(content),
        Option::None => not_found_page(),
    }
}

/// `needle` occurs verbatim, as one contiguous run, inside `page`.
pub open spec fn page_contains(page: Seq<char>, needle: Seq<char>) -> bool {
    exists|i: int|
        0 <= i && i + needle.len() <= page.len() && #[trigger] page.subrange(i, i + needle.len())
            == needle
}

/// The paste view always contains the stored content verbatim.
pub proof fn lemma_paste_page_contains(content: Seq<char>)
    ensures
        page_contains(paste_page(content), content),
{
    let page = paste_page(content);
    let i = paste_page_prefix().len() as int;
    assert(page.subrange(i, i + content.len() as int) =~= content);
}

/// Render the landing page.
pub fn render_landing_page() -> (r: String)
    ensures
        r@ == landing_page(),
{
    String::from_str(
        "<!DOCTYPE html><html><head><title>pastebin</title></head><body><h1>pastebin</h1><form action=\"/upload\" method=\"post\"><textarea name=\"content\"></textarea><button type=\"submit\">upload</button></form></body></html>",
    )
}

/// Render the not-found page.
pub fn render_not_found_page() -> (r: String)
    ensures
        r@ == not_found_page(),
{
    String::from_str(
        "<!DOCTYPE html><html><head><title>pastebin</title></head><body><h1>paste not found</h1></body></html>",
    )
}

/// Render the paste view for the given stored content.
pub fn render_paste_page(content: &str) -> (r: String)
    ensures
        r@ == paste_page(content@),
{
    let mut out = String::from_str(
        "<!DOCTYPE html><html><head><title>pastebin</title></head><body><pre>",
    );
    out.append(content);
    out.append("</pre></body></html>");
    out
}

} // verus!
