use channel_relay::telegram::parsers::{
    parse_formatted_text, parse_message_content, render, FormattedText, MessageBody, SpanKind,
    StyledSpan,
};

fn span(start: usize, end: usize, kind: SpanKind) -> StyledSpan {
    StyledSpan { start_offset: start, end_offset: end, kind }
}

#[test]
fn no_spans_gives_the_text_unchanged() {
    assert_eq!(render("hello world", &vec![]), "hello world");
    assert_eq!(render("", &vec![]), "");
    assert_eq!(render("żółć ✓", &vec![]), "żółć ✓");
}

#[test]
fn one_bold_span_over_the_whole_text() {
    let text = "hello";
    assert_eq!(render(text, &vec![span(0, 5, SpanKind::Bold)]), "<b>hello</b>");
    assert_eq!(render("ж", &vec![span(0, 1, SpanKind::Bold)]), "<b>ж</b>");
}

#[test]
fn closing_markup_comes_before_opening_markup_at_one_offset() {
    let spans = vec![span(0, 3, SpanKind::Bold), span(3, 6, SpanKind::Italic)];
    assert_eq!(render("abcdef", &spans), "<b>abc</b><i>def</i>");
    let reversed = vec![span(3, 6, SpanKind::Italic), span(0, 3, SpanKind::Bold)];
    assert_eq!(render("abcdef", &reversed), "<b>abc</b><i>def</i>");
}

#[test]
fn closes_come_first_with_other_spans_around() {
    let spans = vec![
        span(3, 6, SpanKind::Italic),
        span(0, 6, SpanKind::Underline),
        span(0, 3, SpanKind::Bold),
    ];
    assert_eq!(render("abcdef", &spans), "<u><b>abc</b><i>def</u></i>");
    let more = vec![
        span(1, 3, SpanKind::Code),
        span(3, 4, SpanKind::Strikethrough),
        span(0, 3, SpanKind::Bold),
    ];
    assert_eq!(render("abcd", &more), "<b>a<code>bc</b></code><strike>d</strike>");
}

#[test]
fn nested_spans_close_innermost_first() {
    let spans = vec![span(0, 4, SpanKind::Bold), span(0, 4, SpanKind::Italic)];
    assert_eq!(render("text", &spans), "<b><i>text</i></b>");
    let inner = vec![span(0, 6, SpanKind::Underline), span(2, 4, SpanKind::Code)];
    assert_eq!(render("abcdef", &inner), "<u>ab<code>cd</code>ef</u>");
}

#[test]
fn every_kind_has_its_markup() {
    let t = "x";
    assert_eq!(render(t, &vec![span(0, 1, SpanKind::Italic)]), "<i>x</i>");
    assert_eq!(render(t, &vec![span(0, 1, SpanKind::Code)]), "<code>x</code>");
    assert_eq!(render(t, &vec![span(0, 1, SpanKind::Pre)]), "<pre>x</pre>");
    assert_eq!(render(t, &vec![span(0, 1, SpanKind::PreCode)]), "<pre><code>x</code></pre>");
    assert_eq!(render(t, &vec![span(0, 1, SpanKind::Strikethrough)]), "<strike>x</strike>");
    assert_eq!(render(t, &vec![span(0, 1, SpanKind::Underline)]), "<u>x</u>");
    assert_eq!(render(t, &vec![span(0, 1, SpanKind::Url)]), "<a>x</a>");
    assert_eq!(
        render(t, &vec![span(0, 1, SpanKind::UrlWithHref("https://e.org".to_string()))]),
        "<a href=\"https://e.org\">x</a>"
    );
    assert_eq!(render("tag", &vec![span(0, 3, SpanKind::Hashtag)]), "#tag");
}

#[test]
fn kinds_without_markup_leave_the_text_alone() {
    let spans = vec![span(0, 6, SpanKind::BotCommand), span(7, 9, SpanKind::Unstyled)];
    assert_eq!(render("/start @x", &spans), "/start @x");
}

#[test]
fn offsets_past_the_end_are_clamped() {
    assert_eq!(render("abc", &vec![span(1, 100, SpanKind::Bold)]), "a<b>bc</b>");
    assert_eq!(render("abc", &vec![span(50, 100, SpanKind::Italic)]), "abc</i><i>");
}

#[test]
fn zero_length_span_puts_both_markers_at_one_offset() {
    assert_eq!(render("abc", &vec![span(1, 1, SpanKind::Bold)]), "a</b><b>bc");
}

#[test]
fn offsets_count_characters_not_bytes() {
    assert_eq!(render("żółw", &vec![span(1, 3, SpanKind::Bold)]), "ż<b>ół</b>w");
}

#[test]
fn formatted_text_is_rendered() {
    let ft = FormattedText {
        text: "see link".to_string(),
        entities: vec![span(4, 8, SpanKind::UrlWithHref("u".to_string()))],
    };
    assert_eq!(parse_formatted_text(&ft), "see <a href=\"u\">link</a>");
}

#[test]
fn message_content_keeps_text_and_captions_only() {
    let ft = FormattedText { text: "hi".to_string(), entities: vec![span(0, 2, SpanKind::Bold)] };
    assert_eq!(parse_message_content(&MessageBody::Text(ft.clone())), Some("<b>hi</b>".to_string()));
    assert_eq!(parse_message_content(&MessageBody::Caption(ft)), Some("<b>hi</b>".to_string()));
    assert_eq!(parse_message_content(&MessageBody::NoText), None);
}
