//! The event model: one value per unit of structural markup.
//!
//! A chapter is a flat sequence of [`Event`]s. Spans (paragraphs, links, code
//! blocks, ...) are delimited by a `StartSpan`/`EndSpan` pair that carries the
//! [`SpanKind`]; everything else is a leaf. Each executable type has a
//! mathematical view in which strings are sequences of characters; contracts
//! are stated over the views.

use vstd::prelude::*;

verus! {

/// How a link or an image was written in the source text.
#[derive(Clone, Copy, Debug, PartialEq, Eq, Structural)]
pub enum LinkSubtype {
    /// `[text](destination)`
    Inline,
    /// `[text][label]`
    Reference,
    /// `[text][label]` whose label has no definition in the document.
    ReferenceUnknown,
    /// `[text][]`
    Collapsed,
    /// `[text][]` whose label has no definition in the document.
    CollapsedUnknown,
    /// `[text]`
    Shortcut,
    /// `[text]` whose label has no definition in the document.
    ShortcutUnknown,
    /// `<destination>`
    Autolink,
    /// `<name@host>`
    Email,
}

/// The level of a heading, `H1` being the outermost.
#[derive(Clone, Copy, Debug, PartialEq, Eq, Structural)]
pub enum HeadingRank {
    H1,
    H2,
    H3,
    H4,
    H5,
    H6,
}

/// The text alignment of one table column.
#[derive(Clone, Copy, Debug, PartialEq, Eq, Structural)]
pub enum ColumnAlignment {
    /// No alignment was asked for.
    Unset,
    Left,
    Center,
    Right,
}

/// How a code block was written.
#[derive(Clone, Debug, PartialEq, Eq)]
pub enum CodeKind {
    /// Indented by four columns.
    Indented,
    /// Between fences; the string is the language tag behind the opening
    /// fence, possibly empty.
    Fenced(String),
}

/// The structural role of a span, with the attributes of that role.
#[derive(Clone, Debug, PartialEq, Eq)]
pub enum SpanKind {
    Paragraph,
    /// Rank, fragment identifier and classes.
    Heading(HeadingRank, Option<String>, Vec<String>),
    BlockQuote,
    CodeBlock(CodeKind),
    /// The number of the first item if the list is ordered.
    List(Option<u64>),
    Item,
    /// The label by which the footnote is referred to.
    FootnoteDefinition(String),
    /// One alignment per column.
    Table(Vec<ColumnAlignment>),
    TableHead,
    TableRow,
    TableCell,
    Emphasis,
    Strong,
    Strikethrough,
    /// Subtype, destination and title.
    Link(LinkSubtype, String, String),
    /// Subtype, destination and title.
    Image(LinkSubtype, String, String),
}

/// One unit of structural markup.
#[derive(Clone, Debug, PartialEq, Eq)]
pub enum Event {
    /// Opens a span; the events up to the matching `EndSpan` lie inside it.
    StartSpan(SpanKind),
    /// Closes the span that was opened last.
    EndSpan(SpanKind),
    /// A run of text.
    Text(String),
    /// An inline code span.
    InlineCode(String),
    /// Literal HTML.
    Html(String),
    /// A reference to the footnote with this label.
    FootnoteReference(String),
    SoftBreak,
    HardBreak,
    /// A horizontal rule.
    Rule,
    /// The checkbox of a task list item; `true` when it is checked.
    TaskListMarker(bool),
}

/// The view of a [`CodeKind`].
pub enum CodeKindView {
    Indented,
    Fenced(Seq<char>),
}

/// The view of a [`SpanKind`].
pub enum SpanKindView {
    Paragraph,
    Heading(HeadingRank, Option<Seq<char>>, Seq<Seq<char>>),
    BlockQuote,
    CodeBlock(CodeKindView),
    List(Option<u64>),
    Item,
    FootnoteDefinition(Seq<char>),
    Table(Seq<ColumnAlignment>),
    TableHead,
    TableRow,
    TableCell,
    Emphasis,
    Strong,
    Strikethrough,
    Link(LinkSubtype, Seq<char>, Seq<char>),
    Image(LinkSubtype, Seq<char>, Seq<char>),
}

/// The view of an [`Event`].
pub enum EventView {
    StartSpan(SpanKindView),
    EndSpan(SpanKindView),
    Text(Seq<char>),
    InlineCode(Seq<char>),
    Html(Seq<char>),
    FootnoteReference(Seq<char>),
    SoftBreak,
    HardBreak,
    Rule,
    TaskListMarker(bool),
}

impl View for CodeKind {
    type V = CodeKindView;

    open spec fn view(&self) -> CodeKindView {
        match *self {
            CodeKind::Indented => CodeKindView::Indented,
            CodeKind::Fenced(language) => CodeKindView::Fenced(language@),
        }
    }
}

impl DeepView for CodeKind {
    type V = CodeKindView;

    open spec fn deep_view(&self) -> CodeKindView {
        self@
    }
}

impl View for SpanKind {
    type V = SpanKindView;

    open spec fn view(&self) -> SpanKindView {
        match *self {
            SpanKind::Paragraph => SpanKindView::Paragraph,
            SpanKind::Heading(rank, id, classes) => SpanKindView::Heading(
                rank,
                id.deep_view(),
                classes.deep_view(),
            ),
            SpanKind::BlockQuote => SpanKindView::BlockQuote,
            SpanKind::CodeBlock(kind) => SpanKindView::CodeBlock(kind@),
            SpanKind::List(first) => SpanKindView::List(first),
            SpanKind::Item => SpanKindView::Item,
            SpanKind::FootnoteDefinition(label) => SpanKindView::FootnoteDefinition(label@),
            SpanKind::Table(alignments) => SpanKindView::Table(alignments@),
            SpanKind::TableHead => SpanKindView::TableHead,
            SpanKind::TableRow => SpanKindView::TableRow,
            SpanKind::TableCell => SpanKindView::TableCell,
            SpanKind::Emphasis => SpanKindView::Emphasis,
            SpanKind::Strong => SpanKindView::Strong,
            SpanKind::Strikethrough => SpanKindView::Strikethrough,
            SpanKind::Link(subtype, destination, title) => SpanKindView::Link(
                subtype,
                destination@,
                title@,
            ),
            SpanKind::Image(subtype, destination, title) => SpanKindView::Image(
                subtype,
                destination@,
                title@,
            ),
        }
    }
}

impl DeepView for SpanKind {
    type V = SpanKindView;

    open spec fn deep_view(&self) -> SpanKindView {
        self@
    }
}

impl View for Event {
    type V = EventView;

    open spec fn view(&self) -> EventView {
        match *self {
            Event::StartSpan(kind) => EventView::StartSpan(kind@),
            Event::EndSpan(kind) => EventView::EndSpan(kind@),
            Event::Text(text) => EventView::Text(text@),
            Event::InlineCode(code) => EventView::InlineCode(code@),
            Event::Html(markup) => EventView::Html(markup@),
            Event::FootnoteReference(label) => EventView::FootnoteReference(label@),
            Event::SoftBreak => EventView::SoftBreak,
            Event::HardBreak => EventView::HardBreak,
            Event::Rule => EventView::Rule,
            Event::TaskListMarker(checked) => EventView::TaskListMarker(checked),
        }
    }
}

impl DeepView for Event {
    type V = EventView;

    open spec fn deep_view(&self) -> EventView {
        self@
    }
}

} // verus!
