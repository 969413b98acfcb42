//! A streaming filter over the structural markup events of a book chapter:
//! shorthand notations are expanded into richer markup, everything else
//! passes through in order.
//!
//! - [`event`] holds the event model.
//! - [`shorthand`] holds the vocabulary: the prefixes, the delimiters and the
//!   markup they stand for.
//! - [`recognizer`] decides what one event means in one state.
//! - [`transducer`] folds the recognizer over the events of a chapter.
//! - [`laws`] states what holds of the transducer on every input.
//! - [`markdown`] is the boundary to the parser and the serializer.
//! - [`site`] applies all of it to the chapters of a book.

pub mod event;
pub mod laws;
pub mod markdown;
pub mod recognizer;
pub mod shorthand;
pub mod site;
pub mod transducer;
