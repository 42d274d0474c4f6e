use vstd::prelude::*;
use crate::extract::views;

verus! {

/// The markup of each element of `html`, parsed as a fragment, that matches
/// the CSS selector `css`, in the order `Html::select` yields them (the
/// order the parser created the elements); empty when `css` does not parse. When the fragment is itself one element that matches `css`, that
/// element comes first.
pub uninterp spec fn outer_of(html: Seq<char>, css: Seq<char>) -> Seq<Seq<char>>;

/// The inner markup of each element of the fragment `html` that matches
/// `css`, in the order `Html::select` yields them; empty when `css` does
/// not parse.
pub uninterp spec fn inner_of(html: Seq<char>, css: Seq<char>) -> Seq<Seq<char>>;

/// The descendant text nodes of each element of the fragment `html` that
/// matches `css`, in the order `Html::select` yields them; empty when `css` does
/// not parse.
pub uninterp spec fn texts_of(html: Seq<char>, css: Seq<char>) -> Seq<Seq<Seq<char>>>;

pub open spec fn nested_views(v: Seq<Vec<String>>) -> Seq<Seq<Seq<char>>> {
    v.map_values(|x: Vec<String>| views(x@))
}

/// Relies on scraper's Html::select over Html::parse_fragment, serialising
/// each match with ElementRef::html. Parsing and selecting depend on the
/// two texts alone.
#[verifier::external_body]
pub(crate) fn select_outer(html: &str, css: &str) -> (r: Vec<String>)
    ensures
        views(r@) == outer_of(html@, css@),
{
    let doc = scraper::Html::parse_fragment(html);
    match scraper::Selector::parse(css) {
        Ok(sel) => doc.select(&sel).map(|e| e.html()).collect(),
        Err(_) => Vec::new(),
    }
}

/// Relies on scraper's Html::select over Html::parse_fragment, with
/// ElementRef::inner_html of each match.
#[verifier::external_body]
pub(crate) fn select_inner(html: &str, css: &str) -> (r: Vec<String>)
    ensures
        views(r@) == inner_of(html@, css@),
{
    let doc = scraper::Html::parse_fragment(html);
    match scraper::Selector::parse(css) {
        Ok(sel) => doc.select(&sel).map(|e| e.inner_html()).collect(),
        Err(_) => Vec::new(),
    }
}

/// Relies on scraper's Html::select over Html::parse_fragment, with the
/// text nodes that ElementRef::text yields for each match.
#[verifier::external_body]
pub(crate) fn select_texts(html: &str, css: &str) -> (r: Vec<Vec<String>>)
    ensures
        nested_views(r@) == texts_of(html@, css@),
{
    let doc = scraper::Html::parse_fragment(html);
    match scraper::Selector::parse(css) {
        Ok(sel) => doc.select(&sel).map(|e| e.text().map(|t| t.to_string()).collect()).collect(),
        Err(_) => Vec::new(),
    }
}

} // verus!
