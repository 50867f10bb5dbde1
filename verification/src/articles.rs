//! Finding the puzzle's articles in a page, through `scraper`.

use scraper::error::SelectorErrorKind;
use scraper::{Html, Selector};
use vstd::prelude::*;
use vstd::string::*;

verus! {

/// The selector that finds a puzzle's text in its page.
pub const ARTICLE_SELECTOR: &'static str = "article";

/// `scraper::error::SelectorErrorKind`, the reason for which a selector was
/// refused. Nothing inside it is read here.
#[verifier::external_type_specification]
#[verifier::external_body]
pub struct ExSelectorErrorKind(SelectorErrorKind);

/// What `scraper` finds in the page `document` under the CSS selector `selector`:
/// the inner markup of each element that matches, in the order in which
/// `Html::select` yields them, or nothing where `selector` is no selector.
pub uninterp spec fn selected_inner_html(document: Seq<char>, selector: Seq<char>) -> Option<
    Seq<Seq<char>>,
>;

/// The selector was refused. Its view is what `scraper` says of the refusal.
#[derive(Debug)]
pub struct SelectorError {
    details: String,
}

impl View for SelectorError {
    type V = Seq<char>;

    closed spec fn view(&self) -> Seq<char> {
        self.details@
    }
}

impl SelectorError {
    /// What `scraper` says of the refusal.
    pub fn description(&self) -> (text: &str)
        ensures
            text@ == self@,
    {
        self.details.as_str()
    }
}

/// `Selector::parse` on `selector`, `Html::parse_document` on `document`,
/// `Html::select` and, of each element found, `ElementRef::inner_html`. Trusted:
/// the result is the same whenever the two texts are, so it has a name; it is
/// an error exactly where `Selector::parse` refuses `selector`.
#[verifier::external_body]
fn select_inner_html(document: &str, selector: &str) -> (found: Result<
    Vec<String>,
    SelectorErrorKind,
>)
    ensures
        match found {
            Ok(list) => selected_inner_html(document@, selector@) == Some(list.deep_view()),
            Err(_) => selected_inner_html(document@, selector@) is None,
        },
{
    let selector = Selector::parse(selector)?;
    let page = Html::parse_document(document);
    let mut list = Vec::new();
    for element in page.select(&selector) {
        list.push(element.inner_html());
    }
    Ok(list)
}

/// The words of a `SelectorErrorKind`, as its `Display` writes them.
#[verifier::external_body]
fn selector_error_text(error: &SelectorErrorKind) -> String {
    error.to_string()
}

/// The inner markup of every article of the page `body`, as `scraper` finds them.
pub fn article_fragments(body: &str) -> (found: Result<Vec<String>, SelectorError>)
    ensures
        match found {
            Ok(list) => selected_inner_html(body@, ARTICLE_SELECTOR@) == Some(list.deep_view()),
            Err(_) => selected_inner_html(body@, ARTICLE_SELECTOR@) is None,
        },
{
    match select_inner_html(body, ARTICLE_SELECTOR) {
        Ok(list) => Ok(list),
        Err(error) => Err(SelectorError { details: selector_error_text(&error) }),
    }
}

} // verus!
