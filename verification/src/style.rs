//! The style of a content node: either the caller's own CSS, taken as it is,
//! or a declaration string assembled from the node's presentation attributes.

use vstd::prelude::*;

verus! {

/// The text of an optional attribute: unset reads as the empty string.
pub open spec fn text_or_empty(field: Option<String>) -> Seq<char> {
    match field {
        Some(s) => s@,
        None => Seq::empty(),
    }
}

/// The number of an optional size in decimal notation; unset reads as the
/// empty string.
pub open spec fn size_or_empty(size: Option<u8>) -> Seq<char> {
    match size {
        Some(n) => crate::decimal::decimal(n as nat),
        None => Seq::empty(),
    }
}

/// The declaration string for the four presentation attributes. It always has
/// the same four declarations in the same order; an unset attribute leaves
/// its value empty.
pub open spec fn synthesized_style(
    text_align: Seq<char>,
    font_family: Seq<char>,
    color: Seq<char>,
    background: Seq<char>,
) -> Seq<char> {
    "text-align: "@ + text_align + "; font-family: "@ + font_family + "; color: "@ + color
        + "; background: "@ + background + ";"@
}

/// The style of a node: the override if there is one, whatever the
/// attributes say, and the synthesized declaration string otherwise.
pub open spec fn resolved_style(
    css: Option<String>,
    text_align: Seq<char>,
    font_family: Seq<char>,
    color: Seq<char>,
    background: Seq<char>,
) -> Seq<char> {
    match css {
        Some(own) => own@,
        None => synthesized_style(text_align, font_family, color, background),
    }
}

/// Takes the text out of an optional attribute.
pub fn unwrap_or_empty(field: Option<String>) -> (res: String)
    ensures
        res@ == text_or_empty(field),
{
    match field {
        Some(s) => s,
        None => String::new(),
    }
}

/// Writes an optional size as text.
pub fn size_text(size: Option<u8>) -> (res: String)
    ensures
        res@ == size_or_empty(size),
{
    match size {
        Some(n) => crate::decimal::decimal_text(n),
        None => String::new(),
    }
}

/// Assembles the declaration string from the four attribute values.
pub fn synthesize_style(text_align: &str, font_family: &str, color: &str, background: &str) -> (res:
    String)
    ensures
        res@ == synthesized_style(text_align@, font_family@, color@, background@),
{
    let mut res = String::from_str("text-align: ");
    res.append(text_align);
    res.append("; font-family: ");
    res.append(font_family);
    res.append("; color: ");
    res.append(color);
    res.append("; background: ");
    res.append(background);
    res.append(";");
    res
}

/// Decides the style of a node once, when the node is built: an override wins
/// over the attributes.
pub fn resolve_style(
    css: Option<String>,
    text_align: &str,
    font_family: &str,
    color: &str,
    background: &str,
) -> (res: String)
    ensures
        res@ == resolved_style(css, text_align@, font_family@, color@, background@),
{
    match css {
        Some(own) => own,
        None => synthesize_style(text_align, font_family, color, background),
    }
}

/// Without any attribute the synthesized style keeps its full shape, each
/// value empty.
pub proof fn lemma_style_of_nothing()
    ensures
        synthesized_style(Seq::empty(), Seq::empty(), Seq::empty(), Seq::empty())
            == "text-align: ; font-family: ; color: ; background: ;"@,
{
    reveal_strlit("text-align: ");
    reveal_strlit("; font-family: ");
    reveal_strlit("; color: ");
    reveal_strlit("; background: ");
    reveal_strlit(";");
    reveal_strlit("text-align: ; font-family: ; color: ; background: ;");
    assert(synthesized_style(Seq::empty(), Seq::empty(), Seq::empty(), Seq::empty())
        =~= "text-align: ; font-family: ; color: ; background: ;"@);
}

/// An override is the style, verbatim, whatever the attributes are.
pub proof fn lemma_override_wins(
    own: String,
    text_align: Seq<char>,
    font_family: Seq<char>,
    color: Seq<char>,
    background: Seq<char>,
)
    ensures
        resolved_style(Some(own), text_align, font_family, color, background) == own@,
{
}

} // verus!
