//! The shorthand recognizer: what one event means in one state.
//!
//! [`recognize`] inspects a single event together with the state of the
//! transducer and decides what is to be done with it and which state follows.
//! It touches neither the output nor the accumulation buffer; applying the
//! decision is the transducer's part.

use crate::event::{CodeKind, CodeKindView, Event, EventView, LinkSubtype, SpanKind, SpanKindView};
use crate::shorthand::{
    expand, expansion, formula_language, inline_formula, is_formula_language, unwrap_formula,
};
use vstd::prelude::*;

verus! {

/// The states of the transducer.
#[derive(Clone, Copy, Debug, PartialEq, Eq, Structural)]
pub enum State {
    /// Events are inspected and forwarded.
    Default,
    /// Inside a span that a shorthand replaced: events are dropped up to and
    /// including the next end of a span.
    SkipToEnd,
    /// Inside a formula block: text is collected, the rest is dropped.
    Math,
}

/// What is to be done with one event.
#[derive(Clone, Debug, PartialEq, Eq)]
pub enum Action {
    /// Forward the event as it came.
    Pass(Event),
    /// Forward this event in place of the one that came.
    Replace(Event),
    /// Forward this event in place of the span that the incoming event
    /// opens; the rest of that span is to be dropped.
    BeginSuppress(Event),
    /// Forward the inline rendering of this formula in place of the event.
    Typeset(String),
    /// Forward nothing; this text joins the accumulation buffer.
    Accumulate(String),
    /// Forward the display rendering of what the buffer holds, and clear it.
    EndAccumulate,
    /// Forward nothing.
    Drop,
}

/// A decision of the recognizer: the action and the state that follows.
#[derive(Clone, Debug, PartialEq, Eq)]
pub struct Step {
    pub next: State,
    pub action: Action,
}

/// The view of an [`Action`].
pub enum ActionView {
    Pass(EventView),
    Replace(EventView),
    BeginSuppress(EventView),
    Typeset(Seq<char>),
    Accumulate(Seq<char>),
    EndAccumulate,
    Drop,
}

/// The view of a [`Step`].
pub struct StepView {
    pub next: State,
    pub action: ActionView,
}

impl View for Action {
    type V = ActionView;

    open spec fn view(&self) -> ActionView {
        match *self {
            Action::Pass(event) => ActionView::Pass(event@),
            Action::Replace(event) => ActionView::Replace(event@),
            Action::BeginSuppress(event) => ActionView::BeginSuppress(event@),
            Action::Typeset(formula) => ActionView::Typeset(formula@),
            Action::Accumulate(text) => ActionView::Accumulate(text@),
            Action::EndAccumulate => ActionView::EndAccumulate,
            Action::Drop => ActionView::Drop,
        }
    }
}

impl View for Step {
    type V = StepView;

    open spec fn view(&self) -> StepView {
        StepView { next: self.next, action: self.action@ }
    }
}

/// Whether a link of this subtype is resolved through a reference
/// definition. Such links are rewritten to the inline form.
pub open spec fn by_definition(subtype: LinkSubtype) -> bool {
    subtype == LinkSubtype::Reference || subtype == LinkSubtype::Collapsed || subtype
        == LinkSubtype::Shortcut
}

/// Whether `event` matches one of the rewrite rules. The formula rules
/// count only where formulas are supported.
pub open spec fn matches_rule(formulas: bool, event: EventView) -> bool {
    match event {
        EventView::StartSpan(SpanKindView::Link(subtype, destination, _)) => {
            ||| subtype == LinkSubtype::Autolink && expansion(destination) is Some
            ||| by_definition(subtype)
        },
        EventView::EndSpan(SpanKindView::Link(subtype, _, _)) => by_definition(subtype),
        EventView::InlineCode(code) => formulas && inline_formula(code) is Some,
        EventView::StartSpan(SpanKindView::CodeBlock(CodeKindView::Fenced(language))) => {
            formulas && language == formula_language()
        },
        _ => false,
    }
}

/// The decision on `event` in the state `Default`.
pub open spec fn dispatch(formulas: bool, event: EventView) -> StepView {
    match event {
        EventView::StartSpan(SpanKindView::Link(subtype, destination, title)) => {
            if subtype == LinkSubtype::Autolink && expansion(destination) is Some {
                StepView {
                    next: State::SkipToEnd,
                    action: ActionView::BeginSuppress(EventView::Html(expansion(destination)->0)),
                }
            } else if by_definition(subtype) {
                StepView {
                    next: State::Default,
                    action: ActionView::Replace(
                        EventView::StartSpan(
                            SpanKindView::Link(LinkSubtype::Inline, destination, title),
                        ),
                    ),
                }
            } else {
                StepView { next: State::Default, action: ActionView::Pass(event) }
            }
        },
        EventView::EndSpan(SpanKindView::Link(subtype, destination, title)) => {
            if by_definition(subtype) {
                StepView {
                    next: State::Default,
                    action: ActionView::Replace(
                        EventView::EndSpan(
                            SpanKindView::Link(LinkSubtype::Inline, destination, title),
                        ),
                    ),
                }
            } else {
                StepView { next: State::Default, action: ActionView::Pass(event) }
            }
        },
        EventView::InlineCode(code) => {
            if formulas && inline_formula(code) is Some {
                StepView {
                    next: State::Default,
                    action: ActionView::Typeset(inline_formula(code)->0),
                }
            } else {
                StepView { next: State::Default, action: ActionView::Pass(event) }
            }
        },
        EventView::StartSpan(SpanKindView::CodeBlock(CodeKindView::Fenced(language))) => {
            if formulas && language == formula_language() {
                StepView { next: State::Math, action: ActionView::Accumulate(Seq::empty()) }
            } else {
                StepView { next: State::Default, action: ActionView::Pass(event) }
            }
        },
        _ => StepView { next: State::Default, action: ActionView::Pass(event) },
    }
}

/// The decision on `event` in `state`: the transition table of the
/// transducer.
pub open spec fn recognition(state: State, formulas: bool, event: EventView) -> StepView {
    match state {
        State::Default => dispatch(formulas, event),
        State::SkipToEnd => StepView {
            next: if event is EndSpan {
                State::Default
            } else {
                State::SkipToEnd
            },
            action: ActionView::Drop,
        },
        State::Math => match event {
            EventView::Text(text) => StepView {
                next: State::Math,
                action: ActionView::Accumulate(text),
            },
            EventView::EndSpan(_) => StepView {
                next: State::Default,
                action: ActionView::EndAccumulate,
            },
            _ => StepView { next: State::Math, action: ActionView::Drop },
        },
    }
}

/// In the state `Default` an event is forwarded as it came exactly if it
/// matches no rule, and the state stays `Default` then.
pub proof fn lemma_pass_iff_no_rule(formulas: bool, event: EventView)
    ensures
        !matches_rule(formulas, event) <==> dispatch(formulas, event).action == ActionView::Pass(
            event,
        ),
        !matches_rule(formulas, event) ==> dispatch(formulas, event).next == State::Default,
{
}

/// Whether a link of this subtype is resolved through a reference
/// definition.
pub fn is_by_definition(subtype: LinkSubtype) -> (yes: bool)
    ensures
        yes == by_definition(subtype),
{
    subtype == LinkSubtype::Reference || subtype == LinkSubtype::Collapsed || subtype
        == LinkSubtype::Shortcut
}

/// The event that opens (`opens`) or closes a link.
pub open spec fn link_event(
    opens: bool,
    subtype: LinkSubtype,
    destination: Seq<char>,
    title: Seq<char>,
) -> EventView {
    if opens {
        EventView::StartSpan(SpanKindView::Link(subtype, destination, title))
    } else {
        EventView::EndSpan(SpanKindView::Link(subtype, destination, title))
    }
}

/// Decides on the event that opens (`opens`) or closes a link, in the state
/// `Default`. Links are decided alike with and without formulas.
fn recognize_link(
    opens: bool,
    subtype: LinkSubtype,
    destination: String,
    title: String,
) -> (step: Step)
    ensures
        forall|formulas: bool|
            step@ == #[trigger] dispatch(
                formulas,
                link_event(opens, subtype, destination@, title@),
            ),
{
    let markup = if opens && subtype == LinkSubtype::Autolink {
        expand(destination.as_str())
    } else {
        None
    };
    match markup {
        Some(markup) => Step {
            next: State::SkipToEnd,
            action: Action::BeginSuppress(Event::Html(markup)),
        },
        None => {
            let rewrite = is_by_definition(subtype);
            let span = SpanKind::Link(
                if rewrite {
                    LinkSubtype::Inline
                } else {
                    subtype
                },
                destination,
                title,
            );
            let event = if opens {
                Event::StartSpan(span)
            } else {
                Event::EndSpan(span)
            };
            Step {
                next: State::Default,
                action: if rewrite {
                    Action::Replace(event)
                } else {
                    Action::Pass(event)
                },
            }
        },
    }
}

/// Decides on a code span in the state `Default`.
fn recognize_code(formulas: bool, code: String) -> (step: Step)
    ensures
        step@ == dispatch(formulas, EventView::InlineCode(code@)),
{
    let formula = if formulas {
        unwrap_formula(code.as_str())
    } else {
        None
    };
    match formula {
        Some(formula) => Step {
            next: State::Default,
            action: Action::Typeset(String::from_str(formula)),
        },
        None => Step { next: State::Default, action: Action::Pass(Event::InlineCode(code)) },
    }
}

/// Decides on the start of a fenced code block in the state `Default`.
fn recognize_fence(formulas: bool, language: String) -> (step: Step)
    ensures
        step@ == dispatch(
            formulas,
            EventView::StartSpan(SpanKindView::CodeBlock(CodeKindView::Fenced(language@))),
        ),
{
    if formulas && is_formula_language(language.as_str()) {
        Step { next: State::Math, action: Action::Accumulate(String::new()) }
    } else {
        Step {
            next: State::Default,
            action: Action::Pass(Event::StartSpan(SpanKind::CodeBlock(CodeKind::Fenced(language)))),
        }
    }
}

/// Decides what is to be done with `event` in `state`, and which state
/// follows. `formulas` says whether the formula shorthands are recognised.
pub fn recognize(state: State, formulas: bool, event: Event) -> (step: Step)
    ensures
        step@ == recognition(state, formulas, event@),
{
    match state {
        State::Default => match event {
            Event::StartSpan(SpanKind::Link(subtype, destination, title)) => recognize_link(
                true,
                subtype,
                destination,
                title,
            ),
            Event::EndSpan(SpanKind::Link(subtype, destination, title)) => recognize_link(
                false,
                subtype,
                destination,
                title,
            ),
            Event::InlineCode(code) => recognize_code(formulas, code),
            Event::StartSpan(SpanKind::CodeBlock(CodeKind::Fenced(language))) => recognize_fence(
                formulas,
                language,
            ),
            other => Step { next: State::Default, action: Action::Pass(other) },
        },
        State::SkipToEnd => match event {
            Event::EndSpan(_) => Step { next: State::Default, action: Action::Drop },
            _ => Step { next: State::SkipToEnd, action: Action::Drop },
        },
        State::Math => match event {
            Event::Text(text) => Step { next: State::Math, action: Action::Accumulate(text) },
            Event::EndSpan(_) => Step { next: State::Default, action: Action::EndAccumulate },
            _ => Step { next: State::Math, action: Action::Drop },
        },
    }
}

} // verus!
