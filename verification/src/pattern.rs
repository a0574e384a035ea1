//! Regular expressions (`regex`) and HTML selection (`scraper`). What a
//! pattern matches or an HTML page holds takes pages to state, so the results
//! are named, as functions of the arguments alone.

use vstd::prelude::*;

verus! {

/// A compile error of the `regex` crate.
#[verifier::external_type_specification]
#[verifier::external_body]
pub struct ExRegexError(regex::Error);

/// Whether `regex::Regex::new(pattern)` succeeds.
pub uninterp spec fn regex_valid(pattern: Seq<char>) -> bool;

/// Whether the compiled `pattern` matches somewhere in `text`.
pub uninterp spec fn regex_match(pattern: Seq<char>, text: Seq<char>) -> bool;

/// The text `regex::Regex::replace_all` gives for `pattern`, `text` and the
/// replacement `rep`.
pub uninterp spec fn regex_replace(pattern: Seq<char>, text: Seq<char>, rep: Seq<char>) -> Seq<
    char,
>;

/// `Regex::new(pattern)` followed by `is_match(text)`. The contract claims
/// that compilation fails exactly when the pattern is invalid and that the
/// answer depends on the pattern and the text alone.
#[verifier::external_body]
pub(crate) fn regex_is_match(pattern: &str, text: &str) -> (r: Result<bool, regex::Error>)
    ensures
        r is Ok <==> regex_valid(pattern@),
        r matches Ok(b) ==> b == regex_match(pattern@, text@),
{
    match regex::Regex::new(pattern) {
        Ok(re) => Ok(re.is_match(text)),
        Err(e) => Err(e),
    }
}

/// `Regex::new(pattern)` followed by `replace_all(text, rep)`. The contract
/// claims that compilation fails exactly when the pattern is invalid and that
/// the replaced text depends on the pattern, text and replacement alone.
#[verifier::external_body]
pub(crate) fn regex_replace_all(pattern: &str, text: &str, rep: &str) -> (r: Result<
    String,
    regex::Error,
>)
    ensures
        r is Ok <==> regex_valid(pattern@),
        r matches Ok(s) ==> s@ == regex_replace(pattern@, text@, rep@),
{
    match regex::Regex::new(pattern) {
        Ok(re) => Ok(re.replace_all(text, rep).into_owned()),
        Err(e) => Err(e),
    }
}

/// The message of a regex compile error (its `Display` text). Nothing is
/// claimed of the text.
#[verifier::external_body]
pub(crate) fn regex_error_message(e: &regex::Error) -> String {
    e.to_string()
}

/// For each element of the HTML document `html` that the CSS selector
/// `selector` matches, in the order in which `scraper`'s `Html::select`
/// yields them (the order of its node arena), the value of its attribute `attr`
/// if it has one; `None` when the selector does not parse.
pub uninterp spec fn html_select_attr_spec(html: Seq<char>, selector: Seq<char>, attr: Seq<char>) -> Option<
    Seq<Option<Seq<char>>>,
>;

/// `Html::parse_document(html)`, `Selector::parse(selector)`, then for each
/// element that `Html::select` yields, `value().attr(attr)`. The contract
/// claims that the result depends on the three arguments alone.
#[verifier::external_body]
pub(crate) fn html_select_attr(html: &str, selector: &str, attr: &str) -> (r: Option<
    Vec<Option<String>>,
>)
    ensures
        r.deep_view() == html_select_attr_spec(html@, selector@, attr@),
{
    let doc = scraper::Html::parse_document(html);
    let sel = match scraper::Selector::parse(selector) {
        Ok(sel) => sel,
        Err(_) => return None,
    };
    let mut found: Vec<Option<String>> = Vec::new();
    for e in doc.select(&sel) {
        found.push(match e.value().attr(attr) {
            Some(v) => Some(v.to_string()),
            None => None,
        });
    }
    Some(found)
}

} // verus!
