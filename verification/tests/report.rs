use redocs::HTMLReport;

fn t(text: &str) -> String {
    text.to_string()
}

const HEAD: &str = "<!DOCTYPE html><html><head><style>";
const MID: &str = "</style></head><body>";
const TAIL: &str = "</body></html>";

fn page(style: &str, body: &str) -> String {
    format!("{}{}{}{}{}", HEAD, style, MID, body, TAIL)
}

#[test]
fn new_report_is_empty() {
    let r = HTMLReport::new(t("T"), None);
    assert_eq!(r.title, "T");
    assert_eq!(r.style, "");
    assert!(r.body.is_empty());
    assert_eq!(
        r.to_html(),
        "<!DOCTYPE html><html><head><style></style></head><body></body></html>"
    );
}

#[test]
fn new_report_takes_base_style() {
    let r = HTMLReport::new(t("T"), Some(t("body{margin:0;}")));
    assert_eq!(r.style, "body{margin:0;}");
    assert_eq!(
        r.to_html(),
        "<!DOCTYPE html><html><head><style>body{margin:0;}</style></head><body></body></html>"
    );
}

#[test]
fn title_is_kept_but_not_rendered() {
    let r = HTMLReport::new(t("Quarterly"), None);
    assert_eq!(r.title, "Quarterly");
    assert!(!r.to_html().contains("Quarterly"));
}

#[test]
fn styles_accumulate_in_order() {
    let mut r = HTMLReport::new(t("T"), None);
    r.add_style(t("A;"));
    r.add_style(t("B;"));
    assert_eq!(r.style, "A;B;");
    let html = r.to_html();
    let a = html.find("A;").unwrap();
    let b = html.find("B;").unwrap();
    assert!(a < b);
    assert_eq!(html, page("A;B;", ""));
}

#[test]
fn styles_accumulate_after_base_style() {
    let mut r = HTMLReport::new(t("T"), Some(t("base;")));
    r.add_style(t("A;"));
    r.insert_css(t("B;"));
    assert_eq!(r.style, "base;A;B;");
    assert!(r.body.is_empty());
}

#[test]
fn add_style_puts_no_separator() {
    let mut r = HTMLReport::new(t("T"), None);
    r.add_style(t("a{x:1}"));
    r.add_style(t("b{y:2}"));
    assert_eq!(r.style, "a{x:1}b{y:2}");
}

#[test]
fn set_font_appends_paragraph_rule() {
    let mut r = HTMLReport::new(t("T"), None);
    r.set_font(t("Helvetica"));
    assert_eq!(r.style, "p{font-family:Helvetica;}");
    assert!(r.body.is_empty());
}

#[test]
fn set_background_appends_paragraph_rule() {
    let mut r = HTMLReport::new(t("T"), Some(t("x;")));
    r.set_background(t("#eee"));
    assert_eq!(r.style, "x;p{background:#eee;}");
    assert!(r.body.is_empty());
}

#[test]
fn insert_css_is_add_style() {
    let mut a = HTMLReport::new(t("T"), None);
    let mut b = HTMLReport::new(t("T"), None);
    a.add_style(t("h1{color:red;}"));
    b.insert_css(t("h1{color:red;}"));
    assert_eq!(a.style, b.style);
    assert_eq!(a.to_html(), b.to_html());
}

#[test]
fn insertions_keep_their_order() {
    let mut r = HTMLReport::new(t("T"), None);
    r.add_paragraph(t("one"), None, None, None, None, None, Some(t("s")));
    r.add_header(t("two"), 2, None, None, None, None, Some(t("s")));
    r.add_figure(t("three.png"), None, None, None, None, None, Some(t("s")));
    r.add_table(t("<table>four</table>"), Some(t("")));
    r.add_paragraph(t("five"), None, None, None, None, None, Some(t("s")));
    assert_eq!(r.body.len(), 5);
    assert_eq!(r.body[0], "<p style=s>one</p>");
    assert_eq!(r.body[1], "<h2 style=s>two</h2>");
    assert_eq!(
        r.body[2],
        "<figure><img src=three.png alt= style=s><figcaption></figcaption></figure>"
    );
    assert_eq!(r.body[3], "<table>four</table>");
    assert_eq!(r.body[4], "<p style=s>five</p>");
    let body = r.body.concat();
    assert_eq!(r.to_html(), page("", &body));
}

#[test]
fn many_insertions_give_as_many_fragments() {
    let mut r = HTMLReport::new(t("T"), None);
    let mut expected = String::new();
    for i in 0..40u8 {
        r.add_paragraph(format!("p{}", i), None, None, None, None, None, Some(t("s")));
        expected.push_str(&format!("<p style=s>p{}</p>", i));
    }
    assert_eq!(r.body.len(), 40);
    assert_eq!(r.to_html(), page("", &expected));
}

#[test]
fn insertion_leaves_style_alone() {
    let mut r = HTMLReport::new(t("T"), Some(t("k;")));
    r.add_header(t("h"), 1, None, None, None, None, None);
    r.add_paragraph(t("p"), None, None, None, None, None, None);
    r.add_figure(t("f.png"), None, None, None, None, None, None);
    assert_eq!(r.style, "k;");
    assert_eq!(r.title, "T");
}

#[test]
fn to_html_twice_gives_the_same_text() {
    let mut r = HTMLReport::new(t("T"), Some(t("base;")));
    r.set_font(t("Arial"));
    r.add_header(t("Hi"), 1, None, None, None, None, None);
    r.add_table(t("<table></table>"), None);
    let once = r.to_html();
    let again = r.to_html();
    assert_eq!(once, again);
    assert_eq!(once.matches("<style>").count(), 1);
    assert_eq!(r.body.len(), 2);
}

#[test]
fn to_html_follows_later_changes() {
    let mut r = HTMLReport::new(t("T"), None);
    r.add_paragraph(t("a"), None, None, None, None, None, Some(t("s")));
    assert_eq!(r.to_html(), page("", "<p style=s>a</p>"));
    r.add_style(t("z;"));
    r.add_paragraph(t("b"), None, None, None, None, None, Some(t("s")));
    assert_eq!(r.to_html(), page("z;", "<p style=s>a</p><p style=s>b</p>"));
}

#[test]
fn paragraph_without_attributes_gets_full_shape_style() {
    let mut r = HTMLReport::new(t("T"), None);
    r.add_paragraph(t("Body text"), None, None, None, None, None, None);
    assert_eq!(
        r.body[0],
        "<p style=text-align: ; font-family: ; color: ; background: ;>Body text</p>"
    );
}

#[test]
fn paragraph_with_attributes() {
    let mut r = HTMLReport::new(t("T"), None);
    r.add_paragraph(
        t("Body"),
        Some(12),
        Some(t("justify")),
        Some(t("Verdana")),
        Some(t("black")),
        Some(t("white")),
        None,
    );
    assert_eq!(
        r.body[0],
        "<p style=text-align: justify; font-family: Verdana; color: black; background: white;>Body</p>"
    );
}

#[test]
fn header_override_is_used_verbatim() {
    let mut r = HTMLReport::new(t("T"), None);
    r.add_header(
        t("Hi"),
        1,
        Some(t("center")),
        Some(t("Arial")),
        Some(t("red")),
        Some(t("blue")),
        Some(t("'letter-spacing: 2px'")),
    );
    assert_eq!(r.body[0], "<h1 style='letter-spacing: 2px'>Hi</h1>");
    assert!(!r.body[0].contains("center"));
    assert!(!r.body[0].contains("Arial"));
}

#[test]
fn figure_without_caption_in_report() {
    let mut r = HTMLReport::new(t("T"), None);
    r.add_figure(t("img.png"), None, None, None, None, None, None);
    assert_eq!(
        r.body[0],
        "<figure><img src=img.png alt= style=text-align: ; font-family: ; color: ; background: ;><figcaption></figcaption></figure>"
    );
}

#[test]
fn figure_with_caption_in_report() {
    let mut r = HTMLReport::new(t("T"), None);
    r.add_figure(
        t("img.png"),
        Some(t("Fig. 1")),
        Some(10),
        Some(t("Arial")),
        None,
        None,
        Some(t("'width: 50%'")),
    );
    assert_eq!(
        r.body[0],
        "<figure><img src=img.png alt=Fig. 1 style='width: 50%'><figcaption>Fig. 1</figcaption></figure>"
    );
}

#[test]
fn table_with_default_style() {
    let mut r = HTMLReport::new(t("T"), None);
    r.add_table(t("<table><tr><td>1</td></tr></table>"), None);
    assert_eq!(r.body.len(), 1);
    assert_eq!(r.body[0], "<table><tr><td>1</td></tr></table>");
    assert_eq!(
        r.style,
        "table {font-family: Arial; border-collapse: collapse; width: 50%}"
    );
}

#[test]
fn table_with_own_style() {
    let mut r = HTMLReport::new(t("T"), Some(t("a;")));
    r.add_table(t("<table></table>"), Some(t("table{width:100%}")));
    assert_eq!(r.body[0], "<table></table>");
    assert_eq!(r.style, "a;table{width:100%}");
}

#[test]
fn table_markup_is_not_checked() {
    let mut r = HTMLReport::new(t("T"), None);
    r.add_table(t("not a table"), Some(t("")));
    assert_eq!(r.body[0], "not a table");
    assert_eq!(r.to_html(), page("", "not a table"));
}

#[test]
fn heading_then_paragraph_scenario() {
    let mut r = HTMLReport::new(t("T"), None);
    r.add_header(t("Hi"), 1, None, None, None, None, None);
    r.add_paragraph(t("Body text"), None, None, None, None, None, None);
    let html = r.to_html();
    let style_open = html.find("<style>").unwrap();
    let style_close = html.find("</style>").unwrap();
    let head_close = html.find("</head>").unwrap();
    let heading = html
        .find("<h1 style=text-align: ; font-family: ; color: ; background: ;>Hi</h1>")
        .unwrap();
    let paragraph = html
        .find("<p style=text-align: ; font-family: ; color: ; background: ;>Body text</p>")
        .unwrap();
    assert!(style_open < style_close);
    assert!(style_close < head_close);
    assert!(head_close < heading);
    assert!(heading < paragraph);
    assert_eq!(
        html,
        "<!DOCTYPE html><html><head><style></style></head><body><h1 style=text-align: ; font-family: ; color: ; background: ;>Hi</h1><p style=text-align: ; font-family: ; color: ; background: ;>Body text</p></body></html>"
    );
}

#[test]
fn page_matches_the_page_builder() {
    let mut r = HTMLReport::new(t("T"), Some(t("p{color:red;}")));
    r.add_paragraph(t("x"), None, None, None, None, None, Some(t("s")));
    r.add_table(t("<table></table>"), Some(t("t{}")));
    let mut expected = build_html::HtmlPage::new();
    expected.add_style("p{color:red;}t{}");
    build_html::HtmlContainer::add_raw(&mut expected, "<p style=s>x</p>");
    build_html::HtmlContainer::add_raw(&mut expected, "<table></table>");
    assert_eq!(r.to_html(), build_html::Html::to_html_string(&expected));
}
