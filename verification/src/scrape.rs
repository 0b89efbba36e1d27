use vstd::prelude::*;

verus! {

/// The concatenated text of each node that matches a CSS selector in a
/// document, in document order. A selector that does not parse matches
/// nothing.
pub uninterp spec fn selected_texts(html: Seq<char>, selector: Seq<char>) -> Seq<Seq<char>>;

/// The value of an attribute on each node that matches a CSS selector in a
/// document, in document order; `None` where a matching node lacks the
/// attribute. A selector that does not parse matches nothing.
pub uninterp spec fn selected_attrs(
    html: Seq<char>,
    selector: Seq<char>,
    attr: Seq<char>,
) -> Seq<Option<Seq<char>>>;

/// The inner HTML of each node that matches a CSS selector in a document, in
/// document order. A selector that does not parse matches nothing.
pub uninterp spec fn selected_htmls(html: Seq<char>, selector: Seq<char>) -> Seq<Seq<char>>;

/// Relies on scraper's `Html::parse_document`, `Selector::parse`,
/// `Html::select` and `ElementRef::text`: the joined text of every node the
/// selector matches, a pure function of the document and the selector.
#[verifier::external_body]
pub(crate) fn select_texts(html: &str, selector: &str) -> (r: Vec<String>)
    ensures
        r.deep_view() == selected_texts(html@, selector@),
{
    let doc = scraper::Html::parse_document(html);
    let sel = match scraper::Selector::parse(selector) {
        Ok(s) => s,
        Err(_) => return Vec::new(),
    };
    doc.select(&sel).map(|e| e.text().collect::<String>()).collect()
}

/// Relies on scraper's `Html::parse_document`, `Selector::parse`,
/// `Html::select` and `ElementRef::attr`: the attribute value of every node
/// the selector matches, a pure function of its arguments.
#[verifier::external_body]
pub(crate) fn select_attrs(html: &str, selector: &str, attr: &str) -> (r: Vec<Option<String>>)
    ensures
        r.deep_view() == selected_attrs(html@, selector@, attr@),
{
    let doc = scraper::Html::parse_document(html);
    let sel = match scraper::Selector::parse(selector) {
        Ok(s) => s,
        Err(_) => return Vec::new(),
    };
    doc.select(&sel).map(|e| e.attr(attr).map(|v| v.to_string())).collect()
}

/// Relies on scraper's `Html::parse_document`, `Selector::parse`,
/// `Html::select` and `ElementRef::inner_html`: the inner HTML of every node
/// the selector matches, a pure function of the document and the selector.
#[verifier::external_body]
pub(crate) fn select_htmls(html: &str, selector: &str) -> (r: Vec<String>)
    ensures
        r.deep_view() == selected_htmls(html@, selector@),
{
    let doc = scraper::Html::parse_document(html);
    let sel = match scraper::Selector::parse(selector) {
        Ok(s) => s,
        Err(_) => return Vec::new(),
    };
    doc.select(&sel).map(|e| e.inner_html()).collect()
}

} // verus!
