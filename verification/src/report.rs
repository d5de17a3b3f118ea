//! The report: a title, one style buffer and the body's fragments in the
//! order in which they were inserted. Every insertion renders its node at
//! once and keeps only the markup; the page is put together on demand.

use crate::nodes::{figure_fragment, header_fragment, paragraph_fragment, Figure, Header, Paragraph};
use crate::page::{
    page_add_html, page_add_style, page_body, page_head, page_new, page_opening,
    page_to_html_string,
};
use crate::style::{resolved_style, text_or_empty};
use vstd::prelude::*;

verus! {

/// The fragments one after the other, with nothing between them.
pub open spec fn joined(fragments: Seq<Seq<char>>) -> Seq<char>
    decreases fragments.len(),
{
    if fragments.len() == 0 {
        Seq::empty()
    } else {
        joined(fragments.drop_last()) + fragments.last()
    }
}

/// The rule that gives every paragraph the font `name`.
pub open spec fn font_rule(name: Seq<char>) -> Seq<char> {
    "p{font-family:"@ + name + ";}"@
}

/// The rule that gives every paragraph the background `value`.
pub open spec fn background_rule(value: Seq<char>) -> Seq<char> {
    "p{background:"@ + value + ";}"@
}

/// The style rule that comes with a table: the caller's own, or the default.
pub open spec fn table_style(css: Option<String>) -> Seq<char> {
    match css {
        Some(own) => own@,
        None => "table {font-family: Arial; border-collapse: collapse; width: 50%}"@,
    }
}

/// What a report is, apart from how it is stored.
pub struct ReportView {
    pub title: Seq<char>,
    pub style: Seq<char>,
    pub body: Seq<Seq<char>>,
}

impl ReportView {
    /// The report after `css` was appended to its style buffer.
    pub open spec fn with_style(self, css: Seq<char>) -> ReportView {
        ReportView { title: self.title, style: self.style + css, body: self.body }
    }

    /// The report after `fragment` was appended to its body.
    pub open spec fn with_fragment(self, fragment: Seq<char>) -> ReportView {
        ReportView { title: self.title, style: self.style, body: self.body.push(fragment) }
    }

    /// The report after each of `fragments` was appended in turn.
    pub open spec fn with_fragments(self, fragments: Seq<Seq<char>>) -> ReportView
        decreases fragments.len(),
    {
        if fragments.len() == 0 {
            self
        } else {
            self.with_fragments(fragments.drop_last()).with_fragment(fragments.last())
        }
    }

    /// The serialised page: an HTML5 document whose head holds one `style`
    /// element with the whole style buffer, and whose body holds the
    /// fragments in order. The title is not part of the page.
    pub open spec fn html(self) -> Seq<char> {
        "<!DOCTYPE html><html><head><style>"@ + self.style + "</style></head><body>"@ + joined(
            self.body,
        ) + "</body></html>"@
    }
}

/// The texts of the stored fragments.
pub open spec fn texts(body: Seq<String>) -> Seq<Seq<char>> {
    body.map_values(|s: String| s@)
}

/// An HTML report under construction.
pub struct HTMLReport {
    pub title: String,
    pub style: String,
    pub body: Vec<String>,
}

impl View for HTMLReport {
    type V = ReportView;

    open spec fn view(&self) -> ReportView {
        ReportView { title: self.title@, style: self.style@, body: texts(self.body@) }
    }
}

impl HTMLReport {
    /// A report with the given title, an empty body, and `style` as the
    /// start of its style buffer (empty where none is given).
    pub fn new(title: String, style: Option<String>) -> (res: HTMLReport)
        ensures
            res@ == (ReportView {
                title: title@,
                style: text_or_empty(style),
                body: Seq::empty(),
            }),
    {
        let style = crate::style::unwrap_or_empty(style);
        let res = HTMLReport { title, style, body: Vec::new() };
        assert(texts(res.body@) =~= Seq::empty());
        res
    }

    /// Appends `fragment` to the body.
    fn push_fragment(&mut self, fragment: String)
        ensures
            final(self)@ == old(self)@.with_fragment(fragment@),
    {
        self.body.push(fragment);
        assert(texts(self.body@) =~= texts(old(self).body@).push(fragment@));
    }

    /// Appends `css` to the style buffer, with nothing put between the old
    /// text and the new.
    pub fn add_style(&mut self, css: String)
        ensures
            final(self)@ == old(self)@.with_style(css@),
    {
        self.style.append(css.as_str());
    }

    /// Appends the rule that sets the font of every paragraph.
    pub fn set_font(&mut self, fontname: String)
        ensures
            final(self)@ == old(self)@.with_style(font_rule(fontname@)),
    {
        let mut rule = String::from_str("p{font-family:");
        rule.append(fontname.as_str());
        rule.append(";}");
        self.add_style(rule)
    }

    /// Appends the rule that sets the background of every paragraph.
    pub fn set_background(&mut self, background: String)
        ensures
            final(self)@ == old(self)@.with_style(background_rule(background@)),
    {
        let mut rule = String::from_str("p{background:");
        rule.append(background.as_str());
        rule.append(";}");
        self.add_style(rule)
    }

    /// Appends raw CSS to the style buffer, as `add_style` does.
    pub fn insert_css(&mut self, css: String)
        ensures
            final(self)@ == old(self)@.with_style(css@),
    {
        self.add_style(css)
    }

    /// Renders a heading and appends it to the body.
    pub fn add_header(
        &mut self,
        text: String,
        level: u8,
        text_align: Option<String>,
        font_family: Option<String>,
        color: Option<String>,
        background: Option<String>,
        css: Option<String>,
    )
        ensures
            final(self)@ == old(self)@.with_fragment(
                header_fragment(
                    level,
                    resolved_style(
                        css,
                        text_or_empty(text_align),
                        text_or_empty(font_family),
                        text_or_empty(color),
                        text_or_empty(background),
                    ),
                    text@,
                ),
            ),
    {
        let header = Header::new(text, level, text_align, font_family, color, background, css);
        let fragment = header.to_html_string();
        self.push_fragment(fragment)
    }

    /// Renders a paragraph and appends it to the body.
    pub fn add_paragraph(
        &mut self,
        text: String,
        size: Option<u8>,
        text_align: Option<String>,
        font_family: Option<String>,
        color: Option<String>,
        background: Option<String>,
        css: Option<String>,
    )
        ensures
            final(self)@ == old(self)@.with_fragment(
                paragraph_fragment(
                    resolved_style(
                        css,
                        text_or_empty(text_align),
                        text_or_empty(font_family),
                        text_or_empty(color),
                        text_or_empty(background),
                    ),
                    text@,
                ),
            ),
    {
        let paragraph = Paragraph::new(text, size, text_align, font_family, color, background, css);
        let fragment = paragraph.to_html_string();
        self.push_fragment(fragment)
    }

    /// Appends ready-made table markup to the body as it is, and the table's
    /// style rule to the style buffer. The markup is not looked at.
    pub fn add_table(&mut self, html_table: String, css: Option<String>)
        ensures
            final(self)@ == old(self)@.with_fragment(html_table@).with_style(table_style(css)),
    {
        self.push_fragment(html_table);
        let rule = match css {
            Some(own) => own,
            None => String::from_str(
                "table {font-family: Arial; border-collapse: collapse; width: 50%}",
            ),
        };
        self.add_style(rule)
    }

    /// Renders a figure and appends it to the body.
    pub fn add_figure(
        &mut self,
        path: String,
        caption: Option<String>,
        caption_size: Option<u8>,
        caption_font: Option<String>,
        caption_color: Option<String>,
        caption_background: Option<String>,
        css: Option<String>,
    )
        ensures
            final(self)@ == old(self)@.with_fragment(
                figure_fragment(
                    path@,
                    text_or_empty(caption),
                    resolved_style(
                        css,
                        Seq::empty(),
                        text_or_empty(caption_font),
                        text_or_empty(caption_color),
                        text_or_empty(caption_background),
                    ),
                ),
            ),
    {
        let figure = Figure::new(
            path,
            caption,
            caption_size,
            caption_font,
            caption_color,
            caption_background,
            css,
        );
        let fragment = figure.to_html_string();
        self.push_fragment(fragment)
    }

    /// Serialises the report. The report is only read, and the result is
    /// fixed by what the report holds.
    pub fn to_html(&self) -> (res: String)
        ensures
            res@ == self@.html(),
    {
        let mut page = page_new();
        page_add_style(&mut page, self.style.as_str());
        let mut i: usize = 0;
        while i < self.body.len()
            invariant
                i <= self.body.len(),
                page_opening(page) == "<!DOCTYPE html><html>"@,
                page_head(page) == Seq::<char>::empty() + "<style>"@ + self.style@ + "</style>"@,
                page_body(page) == joined(texts(self.body@).take(i as int)),
            decreases self.body.len() - i,
        {
            let fragment = self.body[i].clone();
            page_add_html(&mut page, fragment);
            proof {
                let all = texts(self.body@);
                assert(all.take(i + 1).drop_last() =~= all.take(i as int));
                assert(all.take(i + 1).last() == self.body@[i as int]@);
            }
            i += 1;
        }
        let res = page_to_html_string(&page);
        proof {
            let all = texts(self.body@);
            assert(all.take(i as int) =~= all);
            reveal_strlit("<!DOCTYPE html><html>");
            reveal_strlit("<head>");
            reveal_strlit("<style>");
            reveal_strlit("</style>");
            reveal_strlit("</head><body>");
            reveal_strlit("<!DOCTYPE html><html><head><style>");
            reveal_strlit("</style></head><body>");
            assert("<!DOCTYPE html><html>"@ + "<head>"@ + "<style>"@
                =~= "<!DOCTYPE html><html><head><style>"@);
            assert("</style>"@ + "</head><body>"@ =~= "</style></head><body>"@);
            assert(res@ =~= self@.html());
        }
        res
    }
}

/// Joining distributes over appending one sequence of fragments to another.
pub proof fn lemma_joined_concat(first: Seq<Seq<char>>, second: Seq<Seq<char>>)
    ensures
        joined(first + second) == joined(first) + joined(second),
    decreases second.len(),
{
    if second.len() == 0 {
        assert(first + second =~= first);
        assert(joined(first) + joined(second) =~= joined(first));
    } else {
        lemma_joined_concat(first, second.drop_last());
        assert((first + second).drop_last() =~= first + second.drop_last());
        assert((first + second).last() == second.last());
        assert(joined(first + second) =~= joined(first) + joined(second));
    }
}

/// Any number of insertions, one after the other, leaves the body with what
/// it held before followed by exactly the inserted fragments, in the order
/// of insertion; title and style are untouched, and the serialised body reads
/// the same way.
pub proof fn lemma_insertions_in_order(report: ReportView, fragments: Seq<Seq<char>>)
    ensures
        report.with_fragments(fragments).body == report.body + fragments,
        report.with_fragments(fragments).body.len() == report.body.len() + fragments.len(),
        report.with_fragments(fragments).title == report.title,
        report.with_fragments(fragments).style == report.style,
        joined(report.with_fragments(fragments).body) == joined(report.body) + joined(fragments),
    decreases fragments.len(),
{
    if fragments.len() == 0 {
        assert(report.body + fragments =~= report.body);
    } else {
        lemma_insertions_in_order(report, fragments.drop_last());
        assert(report.with_fragments(fragments).body =~= report.body + fragments);
    }
    lemma_joined_concat(report.body, fragments);
}

/// Starting from an empty body, the serialised page holds the inserted
/// fragments, all of them and nothing else, in the order of insertion.
pub proof fn lemma_html_of_insertions(title: Seq<char>, style: Seq<char>, fragments: Seq<Seq<char>>)
    ensures
        (ReportView { title, style, body: Seq::empty() }).with_fragments(fragments).html()
            == "<!DOCTYPE html><html><head><style>"@ + style + "</style></head><body>"@ + joined(
            fragments,
        ) + "</body></html>"@,
{
    let start = ReportView { title, style, body: Seq::empty() };
    lemma_insertions_in_order(start, fragments);
    assert(start.body + fragments =~= fragments);
}

/// The style buffer only grows at its end: after two additions it is the old
/// text, then the first addition, then the second. The body is untouched.
pub proof fn lemma_styles_accumulate(report: ReportView, first: Seq<char>, second: Seq<char>)
    ensures
        report.with_style(first).with_style(second).style == report.style + first + second,
        report.with_style(first).with_style(second).body == report.body,
        report.with_style(first).with_style(second).title == report.title,
{
}

/// Serialising reads the report and nothing else: two results taken from the
/// same state are the same text.
pub proof fn lemma_html_repeats(report: HTMLReport, once: String, again: String)
    requires
        once@ == report@.html(),
        again@ == report@.html(),
    ensures
        once@ == again@,
{
}

} // verus!
