//! The boundary to the markdown parser and serializer.
//!
//! Reading a chapter into events and writing events back as text is the work
//! of outside crates. Verus does not see that code: what is stated of it here
//! is assumed. The events a text parses to and the text a sequence of events
//! is written as are therefore given names without a definition,
//! [`markdown_events`] and [`markdown_text`], and the rest of the library is
//! proved relative to them.

use crate::event::{CodeKind, ColumnAlignment, Event, EventView, HeadingRank, LinkSubtype, SpanKind};
use pulldown_cmark::Event as Markdown;
use pulldown_cmark::{Alignment, CodeBlockKind, CowStr, HeadingLevel, LinkType, Parser, Tag};
use vstd::prelude::*;

verus! {

/// `pulldown_cmark::Parser`: the parser of one text, which hands out its
/// events one by one. Nothing of its inside is known.
#[verifier::external_type_specification]
#[verifier::external_body]
pub struct ExParser<'a, 'b>(pulldown_cmark::Parser<'a, 'b>);

/// `pulldown_cmark::Tag`: the kind of a span as the parser gives it.
#[verifier::external_type_specification]
#[verifier::external_body]
pub struct ExTag<'a>(pulldown_cmark::Tag<'a>);

/// `pulldown_cmark::LinkType`.
#[verifier::external_type_specification]
#[verifier::external_body]
pub struct ExLinkType(pulldown_cmark::LinkType);

/// `pulldown_cmark::HeadingLevel`.
#[verifier::external_type_specification]
#[verifier::external_body]
pub struct ExHeadingLevel(pulldown_cmark::HeadingLevel);

/// `pulldown_cmark::Alignment`.
#[verifier::external_type_specification]
#[verifier::external_body]
pub struct ExAlignment(pulldown_cmark::Alignment);

/// The events that `text` parses to, with the extensions that the book
/// tool switches on and without smart punctuation.
pub uninterp spec fn markdown_events(text: Seq<char>) -> Seq<EventView>;

/// The events that `parser` has yet to hand out, in order.
pub uninterp spec fn pending(parser: Parser<'_, '_>) -> Seq<EventView>;

/// The text that `events` are written as.
pub uninterp spec fn markdown_text(events: Seq<EventView>) -> Seq<char>;

/// `mdbook::utils::new_cmark_parser` with smart punctuation off. Assumed:
/// the parser's events are a function of the text alone.
#[verifier::external_body]
fn open_parser(text: &str) -> (parser: Parser<'_, '_>)
    ensures
        pending(parser) == markdown_events(text@),
{
    mdbook::utils::new_cmark_parser(text, false)
}

/// `Iterator::next` of `pulldown_cmark::Parser`, the event converted variant
/// by variant. Assumed: the parser hands out the first of its pending events
/// and keeps the rest, and returns `None` once none is pending.
#[verifier::external_body]
fn next_event(parser: &mut Parser<'_, '_>) -> (event: Option<Event>)
    ensures
        match event {
            Some(first) => pending(*old(parser)) == seq![first@] + pending(*final(parser)),
            None => pending(*old(parser)).len() == 0 && pending(*final(parser)).len() == 0,
        },
{
    Some(match parser.next()? {
        Markdown::Start(tag) => Event::StartSpan(span_in(tag)),
        Markdown::End(tag) => Event::EndSpan(span_in(tag)),
        Markdown::Text(text) => Event::Text(text.into_string()),
        Markdown::Code(code) => Event::InlineCode(code.into_string()),
        Markdown::Html(markup) => Event::Html(markup.into_string()),
        Markdown::FootnoteReference(label) => Event::FootnoteReference(label.into_string()),
        Markdown::SoftBreak => Event::SoftBreak,
        Markdown::HardBreak => Event::HardBreak,
        Markdown::Rule => Event::Rule,
        Markdown::TaskListMarker(checked) => Event::TaskListMarker(checked),
    })
}

/// Converts a `pulldown_cmark::Tag`. The kinds of blocks are converted here,
/// the others by [`inline_span_in`].
#[verifier::external_body]
fn span_in(tag: Tag<'_>) -> SpanKind {
    match tag {
        Tag::Paragraph => SpanKind::Paragraph,
        Tag::Heading(level, id, classes) => SpanKind::Heading(rank_in(level), id.map(String::from), classes.into_iter().map(String::from).collect()),
        Tag::BlockQuote => SpanKind::BlockQuote,
        Tag::CodeBlock(CodeBlockKind::Indented) => SpanKind::CodeBlock(CodeKind::Indented),
        Tag::CodeBlock(CodeBlockKind::Fenced(language)) => SpanKind::CodeBlock(CodeKind::Fenced(language.into_string())),
        Tag::List(first) => SpanKind::List(first),
        Tag::Item => SpanKind::Item,
        Tag::FootnoteDefinition(label) => SpanKind::FootnoteDefinition(label.into_string()),
        other => inline_span_in(other),
    }
}

/// Converts a `pulldown_cmark::Tag`. The kinds of tables and of spans within
/// a line are converted here, the others by [`span_in`].
#[verifier::external_body]
fn inline_span_in(tag: Tag<'_>) -> SpanKind {
    match tag {
        Tag::Table(columns) => SpanKind::Table(columns.into_iter().map(alignment_in).collect()),
        Tag::TableHead => SpanKind::TableHead,
        Tag::TableRow => SpanKind::TableRow,
        Tag::TableCell => SpanKind::TableCell,
        Tag::Emphasis => SpanKind::Emphasis,
        Tag::Strong => SpanKind::Strong,
        Tag::Strikethrough => SpanKind::Strikethrough,
        Tag::Link(subtype, destination, title) => SpanKind::Link(subtype_in(subtype), destination.into_string(), title.into_string()),
        Tag::Image(subtype, destination, title) => SpanKind::Image(subtype_in(subtype), destination.into_string(), title.into_string()),
        Tag::Paragraph | Tag::Heading(..) | Tag::BlockQuote | Tag::CodeBlock(_) | Tag::List(_) | Tag::Item | Tag::FootnoteDefinition(_) => span_in(tag),
    }
}

/// Converts a `pulldown_cmark::LinkType`.
#[verifier::external_body]
fn subtype_in(subtype: LinkType) -> LinkSubtype {
    match subtype {
        LinkType::Inline => LinkSubtype::Inline,
        LinkType::Reference => LinkSubtype::Reference,
        LinkType::ReferenceUnknown => LinkSubtype::ReferenceUnknown,
        LinkType::Collapsed => LinkSubtype::Collapsed,
        LinkType::CollapsedUnknown => LinkSubtype::CollapsedUnknown,
        LinkType::Shortcut => LinkSubtype::Shortcut,
        LinkType::ShortcutUnknown => LinkSubtype::ShortcutUnknown,
        LinkType::Autolink => LinkSubtype::Autolink,
        LinkType::Email => LinkSubtype::Email,
    }
}

/// Converts a `pulldown_cmark::HeadingLevel`.
#[verifier::external_body]
fn rank_in(level: HeadingLevel) -> HeadingRank {
    match level {
        HeadingLevel::H1 => HeadingRank::H1,
        HeadingLevel::H2 => HeadingRank::H2,
        HeadingLevel::H3 => HeadingRank::H3,
        HeadingLevel::H4 => HeadingRank::H4,
        HeadingLevel::H5 => HeadingRank::H5,
        HeadingLevel::H6 => HeadingRank::H6,
    }
}

/// Converts a `pulldown_cmark::Alignment`.
#[verifier::external_body]
fn alignment_in(alignment: Alignment) -> ColumnAlignment {
    match alignment {
        Alignment::None => ColumnAlignment::Unset,
        Alignment::Left => ColumnAlignment::Left,
        Alignment::Center => ColumnAlignment::Center,
        Alignment::Right => ColumnAlignment::Right,
    }
}

/// `pulldown_cmark_to_cmark::cmark` into an empty `String`, each event
/// converted variant by variant. Assumed: what is written is a function of
/// the events alone. `cmark` fails only where the writer does, and a
/// `String` never does.
#[verifier::external_body]
fn write_markdown(events: &Vec<Event>) -> (text: String)
    ensures
        text@ == markdown_text(events.deep_view()),
{
    let outside = events.iter().map(|event| match event {
        Event::StartSpan(kind) => Markdown::Start(span_out(kind)),
        Event::EndSpan(kind) => Markdown::End(span_out(kind)),
        Event::Text(text) => Markdown::Text(CowStr::Borrowed(text)),
        Event::InlineCode(code) => Markdown::Code(CowStr::Borrowed(code)),
        Event::Html(markup) => Markdown::Html(CowStr::Borrowed(markup)),
        Event::FootnoteReference(label) => Markdown::FootnoteReference(CowStr::Borrowed(label)),
        Event::SoftBreak => Markdown::SoftBreak,
        Event::HardBreak => Markdown::HardBreak,
        Event::Rule => Markdown::Rule,
        Event::TaskListMarker(checked) => Markdown::TaskListMarker(*checked),
    });
    let mut text = String::new();
    let _ = pulldown_cmark_to_cmark::cmark(outside, &mut text);
    text
}

/// Converts to a `pulldown_cmark::Tag`. The kinds of blocks are converted
/// here, the others by [`inline_span_out`].
#[verifier::external_body]
fn span_out(kind: &SpanKind) -> Tag<'_> {
    match kind {
        SpanKind::Paragraph => Tag::Paragraph,
        SpanKind::Heading(rank, id, classes) => Tag::Heading(rank_out(rank), id.as_deref(), classes.iter().map(String::as_str).collect()),
        SpanKind::BlockQuote => Tag::BlockQuote,
        SpanKind::CodeBlock(CodeKind::Indented) => Tag::CodeBlock(CodeBlockKind::Indented),
        SpanKind::CodeBlock(CodeKind::Fenced(language)) => Tag::CodeBlock(CodeBlockKind::Fenced(CowStr::Borrowed(language))),
        SpanKind::List(first) => Tag::List(*first),
        SpanKind::Item => Tag::Item,
        SpanKind::FootnoteDefinition(label) => Tag::FootnoteDefinition(CowStr::Borrowed(label)),
        other => inline_span_out(other),
    }
}

/// Converts to a `pulldown_cmark::Tag`. The kinds of tables and of spans
/// within a line are converted here, the others by [`span_out`].
#[verifier::external_body]
fn inline_span_out(kind: &SpanKind) -> Tag<'_> {
    match kind {
        SpanKind::Table(columns) => Tag::Table(columns.iter().map(alignment_out).collect()),
        SpanKind::TableHead => Tag::TableHead,
        SpanKind::TableRow => Tag::TableRow,
        SpanKind::TableCell => Tag::TableCell,
        SpanKind::Emphasis => Tag::Emphasis,
        SpanKind::Strong => Tag::Strong,
        SpanKind::Strikethrough => Tag::Strikethrough,
        SpanKind::Link(subtype, destination, title) => Tag::Link(subtype_out(subtype), CowStr::Borrowed(destination), CowStr::Borrowed(title)),
        SpanKind::Image(subtype, destination, title) => Tag::Image(subtype_out(subtype), CowStr::Borrowed(destination), CowStr::Borrowed(title)),
        SpanKind::Paragraph | SpanKind::Heading(..) | SpanKind::BlockQuote | SpanKind::CodeBlock(_) | SpanKind::List(_) | SpanKind::Item | SpanKind::FootnoteDefinition(_) => span_out(kind),
    }
}

/// Converts to a `pulldown_cmark::LinkType`.
#[verifier::external_body]
fn subtype_out(subtype: &LinkSubtype) -> LinkType {
    match subtype {
        LinkSubtype::Inline => LinkType::Inline,
        LinkSubtype::Reference => LinkType::Reference,
        LinkSubtype::ReferenceUnknown => LinkType::ReferenceUnknown,
        LinkSubtype::Collapsed => LinkType::Collapsed,
        LinkSubtype::CollapsedUnknown => LinkType::CollapsedUnknown,
        LinkSubtype::Shortcut => LinkType::Shortcut,
        LinkSubtype::ShortcutUnknown => LinkType::ShortcutUnknown,
        LinkSubtype::Autolink => LinkType::Autolink,
        LinkSubtype::Email => LinkType::Email,
    }
}

/// Converts to a `pulldown_cmark::HeadingLevel`.
#[verifier::external_body]
fn rank_out(rank: &HeadingRank) -> HeadingLevel {
    match rank {
        HeadingRank::H1 => HeadingLevel::H1,
        HeadingRank::H2 => HeadingLevel::H2,
        HeadingRank::H3 => HeadingLevel::H3,
        HeadingRank::H4 => HeadingLevel::H4,
        HeadingRank::H5 => HeadingLevel::H5,
        HeadingRank::H6 => HeadingLevel::H6,
    }
}

/// Converts to a `pulldown_cmark::Alignment`.
#[verifier::external_body]
fn alignment_out(alignment: &ColumnAlignment) -> Alignment {
    match alignment {
        ColumnAlignment::Unset => Alignment::None,
        ColumnAlignment::Left => Alignment::Left,
        ColumnAlignment::Center => Alignment::Center,
        ColumnAlignment::Right => Alignment::Right,
    }
}

/// Parses `text` into its events.
pub fn parse(text: &str) -> (events: Vec<Event>)
    ensures
        events.deep_view() == markdown_events(text@),
{
    let mut parser = open_parser(text);
    let mut events: Vec<Event> = Vec::new();
    assert(events.deep_view() =~= Seq::<EventView>::empty());
    loop
        invariant
            events.deep_view() + pending(parser) == markdown_events(text@),
        ensures
            events.deep_view() == markdown_events(text@),
        decreases pending(parser).len(),
    {
        let ghost before = events.deep_view();
        let ghost waiting = pending(parser);
        match next_event(&mut parser) {
            Some(event) => {
                events.push(event);
                assert(events.deep_view() =~= before.push(event@));
                assert(before.push(event@) + pending(parser) =~= before + waiting);
            },
            None => {
                assert(before + waiting =~= before);
                break ;
            },
        }
    }
    events
}

/// Writes `events` as text.
pub fn serialize(events: &Vec<Event>) -> (text: String)
    ensures
        text@ == markdown_text(events.deep_view()),
{
    write_markdown(events)
}

} // verus!
