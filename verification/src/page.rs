//! The page builder of the `build_html` crate, as far as a report uses it.
//!
//! Nothing in this file is proved: each contract states what the crate's
//! source shows of the method that the function calls.

use build_html::Html;
use build_html::HtmlContainer;
use build_html::HtmlPage;
use vstd::prelude::*;

verus! {

/// `build_html::HtmlPage`: a page under construction. It keeps the text of
/// its head and of its body, and the kind of HTML it was made for.
#[verifier::external_type_specification]
#[verifier::external_body]
pub struct ExHtmlPage(HtmlPage);

/// What the page writes before `<head>`: the doctype and the opening `html`
/// tag. It is fixed when the page is made.
pub uninterp spec fn page_opening(page: HtmlPage) -> Seq<char>;

/// The text collected between `<head>` and `</head>`.
pub uninterp spec fn page_head(page: HtmlPage) -> Seq<char>;

/// The text collected between `<body>` and `</body>`.
pub uninterp spec fn page_body(page: HtmlPage) -> Seq<char>;

/// `HtmlPage::new`: an HTML5 page with an empty head and an empty body. Its
/// doctype is `<!DOCTYPE html>` and its `html` tag has no attributes.
#[verifier::external_body]
pub(crate) fn page_new() -> (page: HtmlPage)
    ensures
        page_opening(page) == "<!DOCTYPE html><html>"@,
        page_head(page) == Seq::<char>::empty(),
        page_body(page) == Seq::<char>::empty(),
{
    HtmlPage::new()
}

/// `HtmlPage::add_style`: appends one `style` element without attributes,
/// holding `css` as it is, to the head. The rest of the page stays.
#[verifier::external_body]
pub(crate) fn page_add_style(page: &mut HtmlPage, css: &str)
    ensures
        page_head(*final(page)) == page_head(*old(page)) + "<style>"@ + css@ + "</style>"@,
        page_body(*final(page)) == page_body(*old(page)),
        page_opening(*final(page)) == page_opening(*old(page)),
{
    page.add_style(css)
}

/// `HtmlContainer::add_html` on an `HtmlPage`, with a `String`: a string
/// renders as itself, and the page appends it to its body. The rest of the
/// page stays.
#[verifier::external_body]
pub(crate) fn page_add_html(page: &mut HtmlPage, html: String)
    ensures
        page_body(*final(page)) == page_body(*old(page)) + html@,
        page_head(*final(page)) == page_head(*old(page)),
        page_opening(*final(page)) == page_opening(*old(page)),
{
    page.add_html(html)
}

/// `Html::to_html_string` on an `HtmlPage`: the opening, then the head and the
/// body, each inside its tags, then `</html>`.
#[verifier::external_body]
pub(crate) fn page_to_html_string(page: &HtmlPage) -> (html: String)
    ensures
        html@ == page_opening(*page) + "<head>"@ + page_head(*page) + "</head><body>"@
            + page_body(*page) + "</body></html>"@,
{
    page.to_html_string()
}

} // verus!
