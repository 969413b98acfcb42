use preproc::event::{CodeKind, ColumnAlignment, Event, HeadingRank, LinkSubtype, SpanKind};
use preproc::markdown::{parse, serialize};

fn text(content: &str) -> Event {
    Event::Text(content.to_string())
}

fn link(subtype: LinkSubtype, destination: &str, title: &str) -> SpanKind {
    SpanKind::Link(subtype, destination.to_string(), title.to_string())
}

#[test]
fn parse_empty_text() {
    assert_eq!(parse(""), vec![]);
}

#[test]
fn parse_autolink() {
    assert_eq!(
        parse("<fa:star>"),
        vec![
            Event::StartSpan(SpanKind::Paragraph),
            Event::StartSpan(link(LinkSubtype::Autolink, "fa:star", "")),
            text("fa:star"),
            Event::EndSpan(link(LinkSubtype::Autolink, "fa:star", "")),
            Event::EndSpan(SpanKind::Paragraph),
        ]
    );
}

#[test]
fn parse_email_autolink() {
    assert_eq!(
        parse("<a@b.org>"),
        vec![
            Event::StartSpan(SpanKind::Paragraph),
            Event::StartSpan(link(LinkSubtype::Email, "a@b.org", "")),
            text("a@b.org"),
            Event::EndSpan(link(LinkSubtype::Email, "a@b.org", "")),
            Event::EndSpan(SpanKind::Paragraph),
        ]
    );
}

#[test]
fn parse_link_subtypes() {
    let cases = [
        ("[t](http://x \"T\")", LinkSubtype::Inline, "T"),
        ("[t][id]\n\n[id]: http://x", LinkSubtype::Reference, ""),
        ("[t][]\n\n[t]: http://x", LinkSubtype::Collapsed, ""),
        ("[t]\n\n[t]: http://x", LinkSubtype::Shortcut, ""),
    ];
    for (source, subtype, title) in cases {
        assert_eq!(
            parse(source),
            vec![
                Event::StartSpan(SpanKind::Paragraph),
                Event::StartSpan(link(subtype, "http://x", title)),
                text("t"),
                Event::EndSpan(link(subtype, "http://x", title)),
                Event::EndSpan(SpanKind::Paragraph),
            ]
        );
    }
}

#[test]
fn parse_image() {
    assert_eq!(
        parse("![alt](pic.png \"T\")"),
        vec![
            Event::StartSpan(SpanKind::Paragraph),
            Event::StartSpan(SpanKind::Image(LinkSubtype::Inline, "pic.png".to_string(), "T".to_string())),
            text("alt"),
            Event::EndSpan(SpanKind::Image(LinkSubtype::Inline, "pic.png".to_string(), "T".to_string())),
            Event::EndSpan(SpanKind::Paragraph),
        ]
    );
}

#[test]
fn parse_heading_with_attributes() {
    let heading = SpanKind::Heading(
        HeadingRank::H2,
        Some("intro".to_string()),
        vec!["wide".to_string(), "dark".to_string()],
    );
    assert_eq!(
        parse("## Title { #intro .wide .dark }"),
        vec![Event::StartSpan(heading.clone()), text("Title"), Event::EndSpan(heading)]
    );
}

#[test]
fn parse_heading_ranks() {
    let ranks = [
        ("# T", HeadingRank::H1),
        ("## T", HeadingRank::H2),
        ("### T", HeadingRank::H3),
        ("#### T", HeadingRank::H4),
        ("##### T", HeadingRank::H5),
        ("###### T", HeadingRank::H6),
    ];
    for (source, rank) in ranks {
        let heading = SpanKind::Heading(rank, None, vec![]);
        assert_eq!(
            parse(source),
            vec![Event::StartSpan(heading.clone()), text("T"), Event::EndSpan(heading)]
        );
    }
}

#[test]
fn parse_code_blocks() {
    let fenced = SpanKind::CodeBlock(CodeKind::Fenced("math".to_string()));
    assert_eq!(
        parse("```math\nx^2\n```"),
        vec![Event::StartSpan(fenced.clone()), text("x^2\n"), Event::EndSpan(fenced)]
    );
    let indented = SpanKind::CodeBlock(CodeKind::Indented);
    assert_eq!(
        parse("    x^2"),
        vec![Event::StartSpan(indented.clone()), text("x^2"), Event::EndSpan(indented)]
    );
}

#[test]
fn parse_inline_leaves() {
    assert_eq!(
        parse("a `$x$` <b>c</b>[^n]  \nd\ne"),
        vec![
            Event::StartSpan(SpanKind::Paragraph),
            text("a "),
            Event::InlineCode("$x$".to_string()),
            text(" "),
            Event::Html("<b>".to_string()),
            text("c"),
            Event::Html("</b>".to_string()),
            Event::FootnoteReference("n".to_string()),
            Event::HardBreak,
            text("d"),
            Event::SoftBreak,
            text("e"),
            Event::EndSpan(SpanKind::Paragraph),
        ]
    );
}

#[test]
fn parse_emphasis_kinds() {
    assert_eq!(
        parse("*a* **b** ~~c~~"),
        vec![
            Event::StartSpan(SpanKind::Paragraph),
            Event::StartSpan(SpanKind::Emphasis),
            text("a"),
            Event::EndSpan(SpanKind::Emphasis),
            text(" "),
            Event::StartSpan(SpanKind::Strong),
            text("b"),
            Event::EndSpan(SpanKind::Strong),
            text(" "),
            Event::StartSpan(SpanKind::Strikethrough),
            text("c"),
            Event::EndSpan(SpanKind::Strikethrough),
            Event::EndSpan(SpanKind::Paragraph),
        ]
    );
}

#[test]
fn parse_lists_and_tasks() {
    assert_eq!(
        parse("3. [x] done\n4. [ ] open"),
        vec![
            Event::StartSpan(SpanKind::List(Some(3))),
            Event::StartSpan(SpanKind::Item),
            Event::TaskListMarker(true),
            text("done"),
            Event::EndSpan(SpanKind::Item),
            Event::StartSpan(SpanKind::Item),
            Event::TaskListMarker(false),
            text("open"),
            Event::EndSpan(SpanKind::Item),
            Event::EndSpan(SpanKind::List(Some(3))),
        ]
    );
    assert_eq!(
        parse("* a"),
        vec![
            Event::StartSpan(SpanKind::List(None)),
            Event::StartSpan(SpanKind::Item),
            text("a"),
            Event::EndSpan(SpanKind::Item),
            Event::EndSpan(SpanKind::List(None)),
        ]
    );
}

#[test]
fn parse_quote_rule_and_footnote() {
    assert_eq!(
        parse("> q\n\n---\n\n[^n]: note"),
        vec![
            Event::StartSpan(SpanKind::BlockQuote),
            Event::StartSpan(SpanKind::Paragraph),
            text("q"),
            Event::EndSpan(SpanKind::Paragraph),
            Event::EndSpan(SpanKind::BlockQuote),
            Event::Rule,
            Event::StartSpan(SpanKind::FootnoteDefinition("n".to_string())),
            Event::StartSpan(SpanKind::Paragraph),
            text("note"),
            Event::EndSpan(SpanKind::Paragraph),
            Event::EndSpan(SpanKind::FootnoteDefinition("n".to_string())),
        ]
    );
}

#[test]
fn parse_table() {
    let table = SpanKind::Table(vec![
        ColumnAlignment::Unset,
        ColumnAlignment::Left,
        ColumnAlignment::Center,
        ColumnAlignment::Right,
    ]);
    let cell = |content: &str| {
        vec![
            Event::StartSpan(SpanKind::TableCell),
            text(content),
            Event::EndSpan(SpanKind::TableCell),
        ]
    };
    let mut expected = vec![Event::StartSpan(table.clone()), Event::StartSpan(SpanKind::TableHead)];
    for content in ["a", "b", "c", "d"] {
        expected.extend(cell(content));
    }
    expected.push(Event::EndSpan(SpanKind::TableHead));
    expected.push(Event::StartSpan(SpanKind::TableRow));
    for content in ["1", "2", "3", "4"] {
        expected.extend(cell(content));
    }
    expected.push(Event::EndSpan(SpanKind::TableRow));
    expected.push(Event::EndSpan(table));
    assert_eq!(parse("|a|b|c|d|\n|-|:-|:-:|-:|\n|1|2|3|4|"), expected);
}

#[test]
fn parse_does_not_curl_quotes() {
    assert_eq!(
        parse("\"quoted\" -- it's"),
        vec![
            Event::StartSpan(SpanKind::Paragraph),
            text("\"quoted\" -- it's"),
            Event::EndSpan(SpanKind::Paragraph),
        ]
    );
}

#[test]
fn serialize_no_events() {
    assert_eq!(serialize(&vec![]), "");
}

#[test]
fn serialize_html_in_a_paragraph() {
    let events = vec![
        Event::StartSpan(SpanKind::Paragraph),
        Event::Html("<b>".to_string()),
        text("c"),
        Event::Html("</b>".to_string()),
        Event::EndSpan(SpanKind::Paragraph),
    ];
    assert_eq!(serialize(&events), "<b>c</b>");
}

#[test]
fn serialize_links_by_subtype() {
    let cases = [
        (LinkSubtype::Inline, "[t](http://x \"T\")"),
        (LinkSubtype::Reference, "[t](http://x \"T\")"),
        (LinkSubtype::Collapsed, "[t](http://x \"T\")"),
        (LinkSubtype::Shortcut, "[t]\n\n[t]: http://x \"T\""),
        (LinkSubtype::Autolink, "<t>"),
        (LinkSubtype::Email, "<t>"),
    ];
    for (subtype, expected) in cases {
        let events = vec![
            Event::StartSpan(link(subtype, "http://x", "T")),
            text("t"),
            Event::EndSpan(link(subtype, "http://x", "T")),
        ];
        assert_eq!(serialize(&events), expected);
    }
}

#[test]
fn serialize_heading_with_attributes() {
    let heading = SpanKind::Heading(
        HeadingRank::H3,
        Some("intro".to_string()),
        vec!["wide".to_string(), "dark".to_string()],
    );
    let events = vec![Event::StartSpan(heading.clone()), text("Title"), Event::EndSpan(heading)];
    assert_eq!(serialize(&events), "### Title {#intro .wide .dark}");
}

#[test]
fn serialize_blocks_and_leaves() {
    let events = vec![
        Event::StartSpan(SpanKind::List(Some(3))),
        Event::StartSpan(SpanKind::Item),
        Event::TaskListMarker(true),
        text("done"),
        Event::EndSpan(SpanKind::Item),
        Event::EndSpan(SpanKind::List(Some(3))),
        Event::Rule,
        Event::StartSpan(SpanKind::Paragraph),
        Event::StartSpan(SpanKind::Strong),
        text("b"),
        Event::EndSpan(SpanKind::Strong),
        Event::InlineCode("c".to_string()),
        Event::FootnoteReference("n".to_string()),
        Event::StartSpan(SpanKind::Image(LinkSubtype::Inline, "p.png".to_string(), String::new())),
        text("alt"),
        Event::EndSpan(SpanKind::Image(LinkSubtype::Inline, "p.png".to_string(), String::new())),
        Event::EndSpan(SpanKind::Paragraph),
    ];
    assert_eq!(serialize(&events), "3. [x] done\n\n---\n\n**b**`c`[^n]![alt](p.png)");
}

#[test]
fn serialize_table_alignments() {
    let table = SpanKind::Table(vec![
        ColumnAlignment::Unset,
        ColumnAlignment::Left,
        ColumnAlignment::Center,
        ColumnAlignment::Right,
    ]);
    let mut events = vec![Event::StartSpan(table.clone()), Event::StartSpan(SpanKind::TableHead)];
    for content in ["aa", "bb", "cc", "dd"] {
        events.push(Event::StartSpan(SpanKind::TableCell));
        events.push(text(content));
        events.push(Event::EndSpan(SpanKind::TableCell));
    }
    events.push(Event::EndSpan(SpanKind::TableHead));
    events.push(Event::EndSpan(table));
    assert_eq!(serialize(&events), "|aa|bb|cc|dd|\n|--|:-|::|-:|");
}

#[test]
fn parse_then_serialize_keeps_a_plain_chapter() {
    let chapter = "# Title\n\nSome *text* with `code`.\n\n* one\n* two\n\n````rust\nfn main() {}\n````";
    assert_eq!(serialize(&parse(chapter)), chapter);
}

#[test]
fn serialize_heading_ranks() {
    let ranks = [
        (HeadingRank::H1, "# T"),
        (HeadingRank::H2, "## T"),
        (HeadingRank::H3, "### T"),
        (HeadingRank::H4, "#### T"),
        (HeadingRank::H5, "##### T"),
        (HeadingRank::H6, "###### T"),
    ];
    for (rank, expected) in ranks {
        let heading = SpanKind::Heading(rank, None, vec![]);
        let events = vec![Event::StartSpan(heading.clone()), text("T"), Event::EndSpan(heading)];
        assert_eq!(serialize(&events), expected);
    }
}

#[test]
fn serialize_breaks_and_strikethrough() {
    let events = vec![
        Event::StartSpan(SpanKind::Paragraph),
        text("a"),
        Event::SoftBreak,
        Event::StartSpan(SpanKind::Strikethrough),
        text("b"),
        Event::EndSpan(SpanKind::Strikethrough),
        Event::HardBreak,
        Event::StartSpan(SpanKind::Emphasis),
        text("c"),
        Event::EndSpan(SpanKind::Emphasis),
        Event::EndSpan(SpanKind::Paragraph),
    ];
    assert_eq!(serialize(&events), "a\n~~b~~  \n*c*");
}

#[test]
fn serialize_unchecked_task() {
    let events = vec![
        Event::StartSpan(SpanKind::List(None)),
        Event::StartSpan(SpanKind::Item),
        Event::TaskListMarker(false),
        text("open"),
        Event::EndSpan(SpanKind::Item),
        Event::EndSpan(SpanKind::List(None)),
    ];
    assert_eq!(serialize(&events), "* [ ] open");
}

#[test]
fn serialize_footnote_definition() {
    let events = vec![
        Event::StartSpan(SpanKind::FootnoteDefinition("n".to_string())),
        Event::StartSpan(SpanKind::Paragraph),
        text("note"),
        Event::EndSpan(SpanKind::Paragraph),
        Event::EndSpan(SpanKind::FootnoteDefinition("n".to_string())),
    ];
    assert_eq!(serialize(&events), "[^n]: note");
}

#[test]
fn serialize_block_quote() {
    let events = vec![
        Event::StartSpan(SpanKind::BlockQuote),
        Event::StartSpan(SpanKind::Paragraph),
        text("q"),
        Event::EndSpan(SpanKind::Paragraph),
        Event::EndSpan(SpanKind::BlockQuote),
    ];
    assert_eq!(serialize(&events), "\n > \n > q");
}

#[test]
fn serialize_code_blocks() {
    let indented = SpanKind::CodeBlock(CodeKind::Indented);
    let events = vec![Event::StartSpan(indented.clone()), text("x^2"), Event::EndSpan(indented)];
    assert_eq!(serialize(&events), "````\nx^2\n````");
    let fenced = SpanKind::CodeBlock(CodeKind::Fenced("math".to_string()));
    let events = vec![Event::StartSpan(fenced.clone()), text("x^2\n"), Event::EndSpan(fenced)];
    assert_eq!(serialize(&events), "\n````math\nx^2\n````");
}

#[test]
fn serialize_links_without_definition() {
    for subtype in [
        LinkSubtype::ReferenceUnknown,
        LinkSubtype::CollapsedUnknown,
        LinkSubtype::ShortcutUnknown,
    ] {
        let events = vec![
            Event::StartSpan(link(subtype, "http://x", "")),
            text("t"),
            Event::EndSpan(link(subtype, "http://x", "")),
        ];
        assert_eq!(serialize(&events), "[t](http://x)");
    }
}

#[test]
fn serialize_then_parse_gives_the_events_back() {
    let heading = SpanKind::Heading(HeadingRank::H5, Some("id".to_string()), vec!["k".to_string()]);
    let events = vec![
        Event::StartSpan(heading.clone()),
        text("T"),
        Event::EndSpan(heading),
        Event::StartSpan(SpanKind::Paragraph),
        Event::StartSpan(link(LinkSubtype::Inline, "http://x", "T")),
        Event::StartSpan(SpanKind::Strong),
        text("t"),
        Event::EndSpan(SpanKind::Strong),
        Event::EndSpan(link(LinkSubtype::Inline, "http://x", "T")),
        Event::SoftBreak,
        Event::InlineCode("c".to_string()),
        Event::EndSpan(SpanKind::Paragraph),
        Event::Rule,
    ];
    assert_eq!(parse(&serialize(&events)), events);
}
