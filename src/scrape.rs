//! Anti-forgery tokens scraped out of server-rendered pages.
use vstd::prelude::*;

use crate::error::ClientError;

verus! {

/// The value of attribute `attribute` on the first element of the HTML
/// document `html` that the CSS selector `selector` matches; none where no
/// element matches, the element lacks the attribute, or the selector does
/// not parse.
pub uninterp spec fn scraped_attribute(
    html: Seq<char>,
    selector: Seq<char>,
    attribute: Seq<char>,
) -> Option<Seq<char>>;

/// Relies on scraper: Html::parse_document reads the page, Selector::parse
/// the selector, Html::select yields the matching elements in document
/// order, and Element::attr reads the attribute of the first of them.
#[verifier::external_body]
fn first_attribute(html: &str, selector: &str, attribute: &str) -> (r: Option<String>)
    ensures
        match scraped_attribute(html@, selector@, attribute@) {
            Some(v) => r is Some && r->Some_0@ == v,
            None => r is None,
        },
{
    let document = scraper::Html::parse_document(html);
    let selector = scraper::Selector::parse(selector).ok()?;
    let element = document.select(&selector).next()?;
    element.value().attr(attribute).map(String::from)
}

/// A token found, or the markup contract broken.
pub open spec fn extraction(found: Option<Seq<char>>) -> Result<Seq<char>, ClientError> {
    match found {
        Some(v) => Ok(v),
        None => Err(ClientError::UnexpectedResponse),
    }
}

/// Reads attribute `attribute` of the first element that `selector` matches
/// in `document`; fails with `UnexpectedResponse` where there is none.
pub fn extract(document: &str, selector: &str, attribute: &str) -> (r: Result<String, ClientError>)
    ensures
        match extraction(scraped_attribute(document@, selector@, attribute@)) {
            Ok(v) => r is Ok && r->Ok_0@ == v,
            Err(e) => r == Err::<String, ClientError>(e),
        },
{
    match first_attribute(document, selector, attribute) {
        Some(v) => Ok(v),
        None => Err(ClientError::UnexpectedResponse),
    }
}

/// Where the login page carries its token: the `value` of the form input
/// named `authenticity_token`.
pub open spec fn login_token_of(page: Seq<char>) -> Result<Seq<char>, ClientError> {
    extraction(scraped_attribute(page, "input[name=authenticity_token]"@, "value"@))
}

/// Where a course page carries its token: the `content` of the `meta`
/// element named `csrf-token`.
pub open spec fn course_token_of(page: Seq<char>) -> Result<Seq<char>, ClientError> {
    extraction(scraped_attribute(page, "meta[name=csrf-token]"@, "content"@))
}

pub fn login_token(page: &str) -> (r: Result<String, ClientError>)
    ensures
        match login_token_of(page@) {
            Ok(v) => r is Ok && r->Ok_0@ == v,
            Err(e) => r == Err::<String, ClientError>(e),
        },
{
    extract(page, "input[name=authenticity_token]", "value")
}

pub fn course_token(page: &str) -> (r: Result<String, ClientError>)
    ensures
        match course_token_of(page@) {
            Ok(v) => r is Ok && r->Ok_0@ == v,
            Err(e) => r == Err::<String, ClientError>(e),
        },
{
    extract(page, "meta[name=csrf-token]", "content")
}

} // verus!
