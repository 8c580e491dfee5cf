use vstd::prelude::*;

use crate::error::{Fault, ScloudError};

verus! {

/// The inner HTML of the script elements of a page's HTML text, in document order.
pub uninterp spec fn script_texts_of(html: Seq<char>) -> Seq<Seq<char>>;

/// The `src` attribute (where there is one) of the script elements of a page's
/// HTML text, in document order.
pub uninterp spec fn script_srcs_of(html: Seq<char>) -> Seq<Option<Seq<char>>>;

/// Relies on `scraper::Html::parse_document`, `Selector::parse("script")`,
/// `Html::select` and `ElementRef::inner_html`: the inner HTML of each script
/// element, which depends on the text alone. The selector is fixed and valid.
#[verifier::external_body]
fn script_texts(html: &str) -> (r: Vec<String>)
    ensures
        r@.map_values(|s: String| s@) == script_texts_of(html@),
{
    let document = scraper::Html::parse_document(html);
    match scraper::Selector::parse("script") {
        Ok(selector) => document.select(&selector).map(|e| e.inner_html()).collect(),
        Err(_) => Vec::new(),
    }
}

/// Relies on `scraper::Html::parse_document`, `Selector::parse("script")`,
/// `Html::select` and `ElementRef::attr("src")`: the `src` of each script
/// element, which depends on the text alone. The selector is fixed and valid.
#[verifier::external_body]
fn script_srcs(html: &str) -> (r: Vec<Option<String>>)
    ensures
        r@.map_values(|s: Option<String>| opt_view(s)) == script_srcs_of(html@),
{
    let document = scraper::Html::parse_document(html);
    match scraper::Selector::parse("script") {
        Ok(selector) => document.select(&selector).map(|e| e.attr("src").map(|s| s.to_owned())).collect(),
        Err(_) => Vec::new(),
    }
}

pub open spec fn opt_view(s: Option<String>) -> Option<Seq<char>> {
    match s {
        Some(t) => Some(t@),
        None => None,
    }
}

/// The inner HTML of the page's script elements, in document order.
pub fn page_scripts(html: &str) -> (r: Vec<String>)
    ensures
        r@.map_values(|s: String| s@) == script_texts_of(html@),
{
    script_texts(html)
}

/// The address of the page's last script, which holds the client id in the
/// page's own bundle.
pub open spec fn last_script_src_spec(html: Seq<char>) -> Result<Seq<char>, Fault> {
    let srcs = script_srcs_of(html);
    if srcs.len() == 0 {
        Err(Fault::Missing("client id script"@))
    } else {
        match srcs.last() {
            None => Err(Fault::Missing("client id script src"@)),
            Some(src) => Ok(src),
        }
    }
}

/// The `src` of the page's last script element.
pub fn last_script_src(html: &str) -> (r: Result<String, ScloudError>)
    ensures
        match r {
            Ok(s) => last_script_src_spec(html@) == Ok::<Seq<char>, Fault>(s@),
            Err(e) => last_script_src_spec(html@) == Err::<Seq<char>, Fault>(e.fault()),
        },
{
    let mut srcs = script_srcs(html);
    let ghost all = srcs@;
    match srcs.pop() {
        None => Err(ScloudError::missing("client id script")),
        Some(None) => Err(ScloudError::missing("client id script src")),
        Some(Some(src)) => {
            assert(opt_view(all.last()) == Some(src@));
            Ok(src)
        },
    }
}

} // verus!
