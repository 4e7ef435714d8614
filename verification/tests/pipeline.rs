use distillate::markdown_to_html::{extract_texts, markdown_to_html, transform_events, MdEvent};

#[test]
fn title_is_captured_from_level_1_heading() {
    let (_, title) = markdown_to_html("# Hello World\n\nBody text.");
    assert_eq!(title, Some("Hello World".to_owned()));
}

#[test]
fn no_level_1_heading_leaves_title_absent() {
    let (_, title) = markdown_to_html("Just a paragraph.\n\n## Level two\n");
    assert_eq!(title, None);
}

#[test]
fn last_level_1_heading_wins() {
    let (_, title) = markdown_to_html("# One\n\ntext\n\n# Two\n");
    assert_eq!(title, Some("Two".to_owned()));
}

#[test]
fn body_text_gets_orphan_prevention() {
    let (html, _) = markdown_to_html("Hello world.");
    assert_eq!(html, "<p>Hello\u{00A0}world.</p>\n");
}

#[test]
fn heading_text_is_not_transformed() {
    let (html, title) = markdown_to_html("# A B\n");
    assert_eq!(html, "<h1>A B</h1>\n");
    assert_eq!(title, Some("A B".to_owned()));
}

#[test]
fn each_text_run_is_transformed_independently() {
    let (html, _) = markdown_to_html("a b *c* d e\n");
    assert_eq!(html, "<p>a b\u{00A0}<em>c</em> d\u{00A0}e</p>\n");
}

#[test]
fn code_spans_pass_through_unchanged() {
    // The runs around the code span are transformed independently: each has
    // exactly one space, so each is substituted; the code content is not.
    let (html, _) = markdown_to_html("use `a b` twice\n");
    assert_eq!(html, "<p>use\u{00A0}<code>a b</code>\u{00A0}twice</p>\n");
}

#[test]
fn transform_keeps_structure_and_captures_title() {
    let evs = vec![
        MdEvent::Text("x y z".to_owned()),
        MdEvent::HeadingStart(1),
        MdEvent::Text("The Title".to_owned()),
        MdEvent::HeadingEnd(1),
        MdEvent::Other,
        MdEvent::HeadingStart(2),
        MdEvent::Text("a b".to_owned()),
        MdEvent::HeadingEnd(2),
    ];
    let (out, title) = transform_events(&evs);
    assert_eq!(
        out,
        vec![
            MdEvent::Text("x y\u{00A0}z".to_owned()),
            MdEvent::HeadingStart(1),
            MdEvent::Text("The Title".to_owned()),
            MdEvent::HeadingEnd(1),
            MdEvent::Other,
            MdEvent::HeadingStart(2),
            MdEvent::Text("a\u{00A0}b".to_owned()),
            MdEvent::HeadingEnd(2),
        ]
    );
    assert_eq!(title, Some("The Title".to_owned()));
}

#[test]
fn extract_texts_takes_text_runs_in_order() {
    let evs = vec![
        MdEvent::Other,
        MdEvent::Text("one".to_owned()),
        MdEvent::HeadingStart(1),
        MdEvent::Text("two".to_owned()),
        MdEvent::Other,
        MdEvent::Text("three".to_owned()),
    ];
    let texts = extract_texts(&evs);
    assert_eq!(texts, vec!["one".to_owned(), "two".to_owned(), "three".to_owned()]);
}

#[test]
fn markdown_is_parsed_tolerantly() {
    // Malformed markdown degrades structurally instead of failing; the lone
    // `*` splits the heading into runs, and the last run wins the title.
    let (html, title) = markdown_to_html("# Unclosed *emphasis\n\n[broken link(\n");
    assert!(!html.is_empty());
    assert_eq!(title, Some("emphasis".to_owned()));
}
