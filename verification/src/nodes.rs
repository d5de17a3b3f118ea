//! The content nodes of a report. Each holds its text and its presentation
//! attributes, fixes its style when it is built, and renders to one markup
//! fragment. Text, paths and styles are written as given: nothing is escaped
//! or quoted, so a caller who wants a quoted attribute value passes the quotes.

use crate::decimal::{decimal, decimal_text};
use crate::style::{
    lemma_style_of_nothing, resolve_style, resolved_style, size_or_empty, size_text,
    text_or_empty, unwrap_or_empty,
};
use vstd::prelude::*;

verus! {

/// The markup of a heading of rank `level`. The rank is written in decimal
/// into the opening and the closing tag alike, whatever its value.
pub open spec fn header_fragment(level: u8, style: Seq<char>, text: Seq<char>) -> Seq<char> {
    "<h"@ + decimal(level as nat) + " style="@ + style + ">"@ + text + "</h"@ + decimal(
        level as nat,
    ) + ">"@
}

/// The markup of a paragraph.
pub open spec fn paragraph_fragment(style: Seq<char>, text: Seq<char>) -> Seq<char> {
    "<p style="@ + style + ">"@ + text + "</p>"@
}

/// The markup of a figure: the image with its source, its alternative text
/// and its style, then the caption. The caption is both the alternative text
/// and the text of the caption element.
pub open spec fn figure_fragment(path: Seq<char>, caption: Seq<char>, style: Seq<char>) -> Seq<
    char,
> {
    "<figure><img src="@ + path + " alt="@ + caption + " style="@ + style + "><figcaption>"@
        + caption + "</figcaption></figure>"@
}

/// A heading.
#[derive(Debug)]
pub struct Header {
    pub text: String,
    pub level: u8,
    pub text_align: String,
    pub font_family: String,
    pub color: String,
    pub background: String,
    pub style: String,
}

impl Header {
    /// The fragment that this heading renders to.
    pub open spec fn fragment(&self) -> Seq<char> {
        header_fragment(self.level, self.style@, self.text@)
    }

    /// Builds a heading. The rank is not checked: values outside 1 to 6 are
    /// kept and later written into the tag name as they are. An unset
    /// attribute is stored as the empty string; `css`, where given, becomes
    /// the style and the attributes play no part in it.
    pub fn new(
        text: String,
        level: u8,
        text_align: Option<String>,
        font: Option<String>,
        col: Option<String>,
        background: Option<String>,
        css: Option<String>,
    ) -> (res: Header)
        ensures
            res.text@ == text@,
            res.level == level,
            res.text_align@ == text_or_empty(text_align),
            res.font_family@ == text_or_empty(font),
            res.color@ == text_or_empty(col),
            res.background@ == text_or_empty(background),
            res.style@ == resolved_style(
                css,
                text_or_empty(text_align),
                text_or_empty(font),
                text_or_empty(col),
                text_or_empty(background),
            ),
    {
        let text_align = unwrap_or_empty(text_align);
        let font_family = unwrap_or_empty(font);
        let color = unwrap_or_empty(col);
        let background = unwrap_or_empty(background);
        let style = resolve_style(
            css,
            text_align.as_str(),
            font_family.as_str(),
            color.as_str(),
            background.as_str(),
        );
        Header { text, level, text_align, font_family, color, background, style }
    }

    /// Renders the heading.
    pub fn to_html_string(&self) -> (res: String)
        ensures
            res@ == self.fragment(),
    {
        let rank = decimal_text(self.level);
        let mut res = String::from_str("<h");
        res.append(rank.as_str());
        res.append(" style=");
        res.append(self.style.as_str());
        res.append(">");
        res.append(self.text.as_str());
        res.append("</h");
        res.append(rank.as_str());
        res.append(">");
        res
    }
}

/// A paragraph of text.
#[derive(Debug)]
pub struct Paragraph {
    pub text: String,
    pub size: String,
    pub text_align: String,
    pub font_family: String,
    pub color: String,
    pub background: String,
    pub style: String,
}

impl Paragraph {
    /// The fragment that this paragraph renders to.
    pub open spec fn fragment(&self) -> Seq<char> {
        paragraph_fragment(self.style@, self.text@)
    }

    /// Builds a paragraph. An unset attribute is stored as the empty string,
    /// a size as its decimal notation; `css`, where given, becomes the style
    /// and the attributes play no part in it.
    pub fn new(
        text: String,
        size: Option<u8>,
        text_align: Option<String>,
        font_family: Option<String>,
        color: Option<String>,
        background: Option<String>,
        css: Option<String>,
    ) -> (res: Paragraph)
        ensures
            res.text@ == text@,
            res.size@ == size_or_empty(size),
            res.text_align@ == text_or_empty(text_align),
            res.font_family@ == text_or_empty(font_family),
            res.color@ == text_or_empty(color),
            res.background@ == text_or_empty(background),
            res.style@ == resolved_style(
                css,
                text_or_empty(text_align),
                text_or_empty(font_family),
                text_or_empty(color),
                text_or_empty(background),
            ),
    {
        let text_align = unwrap_or_empty(text_align);
        let size = size_text(size);
        let font_family = unwrap_or_empty(font_family);
        let color = unwrap_or_empty(color);
        let background = unwrap_or_empty(background);
        let style = resolve_style(
            css,
            text_align.as_str(),
            font_family.as_str(),
            color.as_str(),
            background.as_str(),
        );
        Paragraph { text, size, text_align, font_family, color, background, style }
    }

    /// Renders the paragraph.
    pub fn to_html_string(&self) -> (res: String)
        ensures
            res@ == self.fragment(),
    {
        let mut res = String::from_str("<p style=");
        res.append(self.style.as_str());
        res.append(">");
        res.append(self.text.as_str());
        res.append("</p>");
        res
    }
}

/// An image with a caption.
#[derive(Debug)]
pub struct Figure {
    pub path: String,
    pub caption: String,
    pub caption_size: String,
    pub caption_font: String,
    pub caption_color: String,
    pub caption_background: String,
    pub style: String,
}

impl Figure {
    /// The fragment that this figure renders to.
    pub open spec fn fragment(&self) -> Seq<char> {
        figure_fragment(self.path@, self.caption@, self.style@)
    }

    /// Builds a figure. A missing caption is the empty string, and so is each
    /// unset caption attribute; a size is stored in decimal notation. The
    /// style is `css` where given; otherwise it is synthesized from the
    /// caption's font, colour and background, with no alignment.
    pub fn new(
        path: String,
        caption: Option<String>,
        caption_size: Option<u8>,
        caption_font: Option<String>,
        caption_color: Option<String>,
        caption_background: Option<String>,
        css: Option<String>,
    ) -> (res: Figure)
        ensures
            res.path@ == path@,
            res.caption@ == text_or_empty(caption),
            res.caption_size@ == size_or_empty(caption_size),
            res.caption_font@ == text_or_empty(caption_font),
            res.caption_color@ == text_or_empty(caption_color),
            res.caption_background@ == text_or_empty(caption_background),
            res.style@ == resolved_style(
                css,
                Seq::empty(),
                text_or_empty(caption_font),
                text_or_empty(caption_color),
                text_or_empty(caption_background),
            ),
    {
        let caption = unwrap_or_empty(caption);
        let caption_size = size_text(caption_size);
        let caption_font = unwrap_or_empty(caption_font);
        let caption_color = unwrap_or_empty(caption_color);
        let caption_background = unwrap_or_empty(caption_background);
        let no_align = String::new();
        let style = resolve_style(
            css,
            no_align.as_str(),
            caption_font.as_str(),
            caption_color.as_str(),
            caption_background.as_str(),
        );
        Figure {
            path,
            caption,
            caption_size,
            caption_font,
            caption_color,
            caption_background,
            style,
        }
    }

    /// Renders the figure.
    pub fn to_html_string(&self) -> (res: String)
        ensures
            res@ == self.fragment(),
    {
        let mut res = String::from_str("<figure><img src=");
        res.append(self.path.as_str());
        res.append(" alt=");
        res.append(self.caption.as_str());
        res.append(" style=");
        res.append(self.style.as_str());
        res.append("><figcaption>");
        res.append(self.caption.as_str());
        res.append("</figcaption></figure>");
        res
    }
}

/// A paragraph built without any attribute and without an override carries
/// the synthesized style in its full shape, each value empty.
pub proof fn lemma_plain_paragraph_style(text: Seq<char>)
    ensures
        resolved_style(
            None,
            text_or_empty(None),
            text_or_empty(None),
            text_or_empty(None),
            text_or_empty(None),
        ) == "text-align: ; font-family: ; color: ; background: ;"@,
        paragraph_fragment(
            resolved_style(
                None,
                text_or_empty(None),
                text_or_empty(None),
                text_or_empty(None),
                text_or_empty(None),
            ),
            text,
        ) == "<p style="@ + "text-align: ; font-family: ; color: ; background: ;"@ + ">"@ + text
            + "</p>"@,
{
    lemma_style_of_nothing();
}

/// A heading built with an override carries it verbatim as its style,
/// whatever the attributes are.
pub proof fn lemma_header_override_verbatim(
    level: u8,
    text: Seq<char>,
    own: String,
    text_align: Option<String>,
    font_family: Option<String>,
    color: Option<String>,
    background: Option<String>,
)
    ensures
        header_fragment(
            level,
            resolved_style(
                Some(own),
                text_or_empty(text_align),
                text_or_empty(font_family),
                text_or_empty(color),
                text_or_empty(background),
            ),
            text,
        ) == header_fragment(level, own@, text),
{
}

/// A figure without a caption has the empty string both as its alternative
/// text and as the text of its caption element: neither is left out.
pub proof fn lemma_figure_without_caption(path: Seq<char>, style: Seq<char>)
    ensures
        figure_fragment(path, text_or_empty(None), style) == "<figure><img src="@ + path
            + " alt="@ + " style="@ + style + "><figcaption>"@ + "</figcaption></figure>"@,
{
    assert(figure_fragment(path, text_or_empty(None), style) =~= "<figure><img src="@ + path
        + " alt="@ + " style="@ + style + "><figcaption>"@ + "</figcaption></figure>"@);
}

} // verus!
