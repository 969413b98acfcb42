//! The preprocessor: the transducer applied to the chapters of a book.

use crate::laws::{lemma_transduced_plain, none_matches};
use crate::markdown::{markdown_events, markdown_text, parse, serialize};
use crate::transducer::{transduce, transduced};
use vstd::prelude::*;

verus! {

/// A chapter of a book, as far as the preprocessor reads it.
#[derive(Clone, Debug, PartialEq, Eq)]
pub struct Chapter {
    /// The text of the chapter.
    pub content: String,
}

/// An item of a book.
#[derive(Clone, Debug, PartialEq, Eq)]
pub enum BookItem {
    Chapter(Chapter),
    /// A separator between groups of chapters.
    Separator,
    /// The title of a part of the book.
    PartTitle(String),
}

/// The view of a [`BookItem`].
pub enum BookItemView {
    Chapter(Seq<char>),
    Separator,
    PartTitle(Seq<char>),
}

impl View for BookItem {
    type V = BookItemView;

    open spec fn view(&self) -> BookItemView {
        match *self {
            BookItem::Chapter(chapter) => BookItemView::Chapter(chapter.content@),
            BookItem::Separator => BookItemView::Separator,
            BookItem::PartTitle(title) => BookItemView::PartTitle(title@),
        }
    }
}

/// The name of the one renderer that the preprocessor works for.
pub open spec fn supported_renderer() -> Seq<char> {
    "html"@
}

/// The text of a chapter after preprocessing: the chapter is parsed, its
/// events go through the transducer, and what comes out is written as text.
pub open spec fn processed(text: Seq<char>) -> Seq<char> {
    markdown_text(transduced(markdown_events(text)))
}

/// The preprocessor.
#[derive(Debug)]
pub struct SiteProc;

impl SiteProc {
    /// The preprocessor. It keeps nothing from one chapter to the next.
    pub fn new() -> SiteProc {
        SiteProc
    }

    /// The name under which the book tool knows the preprocessor.
    pub fn name(&self) -> (name: &'static str)
        ensures
            name@ == "site"@,
    {
        "site"
    }

    /// Whether the preprocessor works for the renderer of this name.
    pub fn supports_renderer(&self, renderer: &str) -> (supported: bool)
        ensures
            supported == (renderer@ == supported_renderer()),
    {
        let asked = String::from_str(renderer);
        let known = String::from_str("html");
        asked == known
    }

    /// Preprocesses the text of one chapter. Each chapter starts from a
    /// fresh transducer.
    pub fn process(&self, text: &str) -> (result: String)
        ensures
            result@ == processed(text@),
    {
        let events = parse(text);
        let output = transduce(events);
        serialize(&output)
    }

    /// Preprocesses the text of `item` where it is a chapter; any other item
    /// is left as it is.
    pub fn visit_book_item(&self, item: &mut BookItem)
        ensures
            final(item)@ == match old(item)@ {
                BookItemView::Chapter(content) => BookItemView::Chapter(processed(content)),
                other => other,
            },
    {
        match item {
            BookItem::Chapter(chapter) => {
                let content = self.process(chapter.content.as_str());
                chapter.content = content;
            },
            _ => {},
        }
    }
}

/// A chapter in which no event matches a rule is parsed and written back:
/// the transducer changes nothing of it.
pub proof fn lemma_processed_plain(text: Seq<char>)
    requires
        none_matches(false, markdown_events(text)),
    ensures
        processed(text) == markdown_text(markdown_events(text)),
{
    lemma_transduced_plain(markdown_events(text));
}

} // verus!
