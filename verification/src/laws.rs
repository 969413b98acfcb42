//! What holds of the transducer on every input.
//!
//! The statements are over [`Machine`], the transition function [`step`] and
//! the fold [`run`], which are what the contracts of the executable
//! transducer speak of.

use crate::event::{CodeKindView, EventView, LinkSubtype, SpanKindView};
use crate::recognizer::{by_definition, lemma_pass_iff_no_rule, link_event, matches_rule, State};
use crate::shorthand::{expansion, formula_language, inline_formula};
use crate::transducer::{
    feed, run, step, transduced, unrendered, FormulaView, Machine, Outcome,
};
use vstd::prelude::*;

verus! {

/// No event of `events` closes a span.
pub open spec fn none_closes(events: Seq<EventView>) -> bool {
    forall|i: int| 0 <= i < events.len() ==> !(#[trigger] events[i] is EndSpan)
}

/// No event of `events` matches a rewrite rule.
pub open spec fn none_matches(formulas: bool, events: Seq<EventView>) -> bool {
    forall|i: int| 0 <= i < events.len() ==> !matches_rule(formulas, #[trigger] events[i])
}

/// The text that `events` carry in their `Text` events, in order.
pub open spec fn text_of(events: Seq<EventView>) -> Seq<char>
    decreases events.len(),
{
    if events.len() == 0 {
        Seq::empty()
    } else {
        let rest = text_of(events.drop_first());
        match events.first() {
            EventView::Text(text) => text + rest,
            _ => rest,
        }
    }
}

/// A request leaves the machine in the state `Default` with an empty buffer,
/// so that the markup handed back is forwarded at once.
pub proof fn lemma_request_is_answered(
    machine: Machine,
    formulas: bool,
    event: EventView,
    markup: Seq<char>,
)
    requires
        machine.valid(formulas),
        step(machine, formulas, event).request is Some,
    ensures
        ({
            let asked = step(machine, formulas, event).machine;
            &&& asked.state == State::Default
            &&& asked.output == machine.output
            &&& step(asked, formulas, EventView::Html(markup)) == (Outcome {
                machine: Machine { output: machine.output.push(EventView::Html(markup)), ..asked },
                request: None,
            })
        }),
{
}

/// The states of a span: from `SkipToEnd` and from `Math` the machine goes
/// on in the same state or back to `Default`, never from one to the other.
pub proof fn lemma_span_states(machine: Machine, formulas: bool, event: EventView)
    ensures
        machine.state == State::SkipToEnd ==> step(machine, formulas, event).machine.state
            != State::Math,
        machine.state == State::Math ==> step(machine, formulas, event).machine.state
            != State::SkipToEnd,
        machine.state != State::Default ==> (step(machine, formulas, event).machine.state
            == State::Default <==> event is EndSpan),
{
}

/// Inside a span that is suppressed or collected nothing is forwarded.
pub proof fn lemma_inside_nothing_is_forwarded(machine: Machine, formulas: bool, event: EventView)
    requires
        machine.state != State::Default,
    ensures
        step(machine, formulas, event).machine.output == machine.output,
{
}

/// The output only grows, and by one event at most: what was forwarded
/// stays where it is.
pub proof fn lemma_output_grows(machine: Machine, formulas: bool, event: EventView)
    ensures
        ({
            let after = step(machine, formulas, event).machine.output;
            after == machine.output || (after.len() == machine.output.len() + 1
                && after.drop_last() == machine.output)
        }),
{
    let after = step(machine, formulas, event).machine.output;
    if after != machine.output {
        assert(after.drop_last() =~= machine.output);
    }
}

/// Feeding a sequence in two parts is feeding it whole.
pub proof fn lemma_run_in_parts(
    machine: Machine,
    formulas: bool,
    head: Seq<EventView>,
    tail: Seq<EventView>,
    render: spec_fn(FormulaView) -> Seq<char>,
)
    ensures
        run(machine, formulas, head + tail, render) == run(
            run(machine, formulas, head, render),
            formulas,
            tail,
            render,
        ),
    decreases head.len(),
{
    if head.len() == 0 {
        assert(head + tail =~= tail);
    } else {
        assert((head + tail).first() == head.first());
        assert((head + tail).drop_first() =~= head.drop_first() + tail);
        lemma_run_in_parts(
            feed(machine, formulas, head.first(), render),
            formulas,
            head.drop_first(),
            tail,
            render,
        );
    }
}

/// Events that match no rule pass through untouched and in order, and
/// leave the machine as it was.
pub proof fn lemma_plain_events_pass(
    machine: Machine,
    formulas: bool,
    events: Seq<EventView>,
    render: spec_fn(FormulaView) -> Seq<char>,
)
    requires
        machine.state == State::Default,
        none_matches(formulas, events),
    ensures
        run(machine, formulas, events, render) == (Machine {
            output: machine.output + events,
            ..machine
        }),
    decreases events.len(),
{
    if events.len() == 0 {
        assert(machine.output + events =~= machine.output);
    } else {
        let first = events.first();
        let rest = events.drop_first();
        assert(!matches_rule(formulas, events[0]));
        lemma_pass_iff_no_rule(formulas, first);
        let next = feed(machine, formulas, first, render);
        assert(next == Machine { output: machine.output.push(first), ..machine });
        assert forall|i: int| 0 <= i < rest.len() implies !matches_rule(
            formulas,
            #[trigger] rest[i],
        ) by {
            assert(rest[i] == events[i + 1]);
        }
        lemma_plain_events_pass(next, formulas, rest, render);
        assert(machine.output.push(first) + rest =~= machine.output + events);
    }
}

/// A chapter without shorthand is forwarded as it is.
pub proof fn lemma_transduced_plain(events: Seq<EventView>)
    requires
        none_matches(false, events),
    ensures
        transduced(events) == events,
{
    lemma_plain_events_pass(Machine::initial(), false, events, unrendered());
    assert(Seq::<EventView>::empty() + events =~= events);
}

/// What the transducer forwards matches no rule: the shorthand notation
/// does not appear in the output.
pub proof fn lemma_step_forwards_no_shorthand(machine: Machine, formulas: bool, event: EventView)
    requires
        none_matches(formulas, machine.output),
    ensures
        none_matches(formulas, step(machine, formulas, event).machine.output),
{
    let after = step(machine, formulas, event).machine.output;
    if after != machine.output {
        lemma_pass_iff_no_rule(formulas, event);
        assert forall|i: int| 0 <= i < after.len() implies !matches_rule(
            formulas,
            #[trigger] after[i],
        ) by {
            if i < machine.output.len() {
                assert(after[i] == machine.output[i]);
            }
        }
    }
}

/// The same of a whole sequence, with the markup of its formulas handed
/// back.
pub proof fn lemma_run_forwards_no_shorthand(
    machine: Machine,
    formulas: bool,
    events: Seq<EventView>,
    render: spec_fn(FormulaView) -> Seq<char>,
)
    requires
        none_matches(formulas, machine.output),
    ensures
        none_matches(formulas, run(machine, formulas, events, render).output),
    decreases events.len(),
{
    if events.len() > 0 {
        let outcome = step(machine, formulas, events.first());
        lemma_step_forwards_no_shorthand(machine, formulas, events.first());
        if let Some(formula) = outcome.request {
            lemma_step_forwards_no_shorthand(
                outcome.machine,
                formulas,
                EventView::Html(render(formula)),
            );
        }
        lemma_run_forwards_no_shorthand(
            feed(machine, formulas, events.first(), render),
            formulas,
            events.drop_first(),
            render,
        );
    }
}

/// Transducing what was transduced changes nothing.
pub proof fn lemma_transduced_again(events: Seq<EventView>)
    ensures
        transduced(transduced(events)) == transduced(events),
{
    lemma_run_forwards_no_shorthand(Machine::initial(), false, events, unrendered());
    lemma_transduced_plain(transduced(events));
}

/// In the state `SkipToEnd` events that close no span leave the machine as
/// it is.
pub proof fn lemma_skipped(
    machine: Machine,
    formulas: bool,
    inner: Seq<EventView>,
    render: spec_fn(FormulaView) -> Seq<char>,
)
    requires
        machine.state == State::SkipToEnd,
        none_closes(inner),
    ensures
        run(machine, formulas, inner, render) == machine,
    decreases inner.len(),
{
    if inner.len() > 0 {
        assert(!(inner[0] is EndSpan));
        assert(feed(machine, formulas, inner.first(), render) == machine);
        assert forall|i: int| 0 <= i < inner.drop_first().len() implies !(
        #[trigger] inner.drop_first()[i] is EndSpan) by {
            assert(inner.drop_first()[i] == inner[i + 1]);
        }
        lemma_skipped(machine, formulas, inner.drop_first(), render);
    }
}

/// A shorthand autolink is replaced, span and all, by its markup: of the
/// events from the one that opens the link to the first that closes a span
/// only the markup is forwarded, and the machine is back in `Default`.
pub proof fn lemma_shorthand_span(
    machine: Machine,
    formulas: bool,
    destination: Seq<char>,
    title: Seq<char>,
    inner: Seq<EventView>,
    closing: SpanKindView,
    render: spec_fn(FormulaView) -> Seq<char>,
)
    requires
        machine.state == State::Default,
        expansion(destination) is Some,
        none_closes(inner),
    ensures
        run(
            machine,
            formulas,
            seq![
                EventView::StartSpan(
                    SpanKindView::Link(LinkSubtype::Autolink, destination, title),
                ),
            ] + inner + seq![EventView::EndSpan(closing)],
            render,
        ) == (Machine {
            output: machine.output.push(EventView::Html(expansion(destination)->0)),
            ..machine
        }),
{
    let opening = EventView::StartSpan(
        SpanKindView::Link(LinkSubtype::Autolink, destination, title),
    );
    let skipping = Machine {
        state: State::SkipToEnd,
        output: machine.output.push(EventView::Html(expansion(destination)->0)),
        ..machine
    };
    lemma_run_in_parts(machine, formulas, seq![opening] + inner, seq![EventView::EndSpan(closing)], render);
    lemma_run_in_parts(machine, formulas, seq![opening], inner, render);
    lemma_run_of_one(machine, formulas, opening, render);
    assert(run(machine, formulas, seq![opening], render) == skipping);
    lemma_skipped(skipping, formulas, inner, render);
    lemma_run_of_one(skipping, formulas, EventView::EndSpan(closing), render);
}

/// Feeding a sequence of one event is feeding that event.
pub proof fn lemma_run_of_one(
    machine: Machine,
    formulas: bool,
    event: EventView,
    render: spec_fn(FormulaView) -> Seq<char>,
)
    ensures
        run(machine, formulas, seq![event], render) == feed(machine, formulas, event, render),
{
    let one = seq![event];
    assert(one.first() == event);
    assert(one.drop_first() =~= Seq::<EventView>::empty());
    assert(run(feed(machine, formulas, event, render), formulas, one.drop_first(), render)
        == feed(machine, formulas, event, render));
}

/// A link that is resolved through a reference definition is forwarded in
/// the inline form, with its destination and title, where it opens and
/// where it closes.
pub proof fn lemma_reference_links_become_inline(
    machine: Machine,
    formulas: bool,
    subtype: LinkSubtype,
    destination: Seq<char>,
    title: Seq<char>,
)
    requires
        machine.state == State::Default,
        by_definition(subtype),
    ensures
        step(
            machine,
            formulas,
            EventView::StartSpan(SpanKindView::Link(subtype, destination, title)),
        ).machine == (Machine {
            output: machine.output.push(
                EventView::StartSpan(SpanKindView::Link(LinkSubtype::Inline, destination, title)),
            ),
            ..machine
        }),
        step(
            machine,
            formulas,
            EventView::EndSpan(SpanKindView::Link(subtype, destination, title)),
        ).machine == (Machine {
            output: machine.output.push(
                EventView::EndSpan(SpanKindView::Link(LinkSubtype::Inline, destination, title)),
            ),
            ..machine
        }),
{
}

/// In the state `Math` events that close no span leave nothing but their
/// text, which joins the buffer.
pub proof fn lemma_collected(
    machine: Machine,
    inner: Seq<EventView>,
    render: spec_fn(FormulaView) -> Seq<char>,
)
    requires
        machine.state == State::Math,
        none_closes(inner),
    ensures
        run(machine, true, inner, render) == (Machine {
            buffer: machine.buffer + text_of(inner),
            ..machine
        }),
    decreases inner.len(),
{
    if inner.len() == 0 {
        assert(machine.buffer + text_of(inner) =~= machine.buffer);
    } else {
        assert(!(inner[0] is EndSpan));
        let next = feed(machine, true, inner.first(), render);
        assert forall|i: int| 0 <= i < inner.drop_first().len() implies !(
        #[trigger] inner.drop_first()[i] is EndSpan) by {
            assert(inner.drop_first()[i] == inner[i + 1]);
        }
        lemma_collected(next, inner.drop_first(), render);
        assert(next.buffer + text_of(inner.drop_first()) =~= machine.buffer + text_of(inner));
    }
}

/// A fenced block tagged as a formula is replaced by one `Html` event, the
/// display rendering of the text inside the block. Nothing else of the
/// block is forwarded.
pub proof fn lemma_formula_block(
    machine: Machine,
    inner: Seq<EventView>,
    closing: SpanKindView,
    render: spec_fn(FormulaView) -> Seq<char>,
)
    requires
        machine.state == State::Default,
        machine.valid(true),
        none_closes(inner),
    ensures
        run(
            machine,
            true,
            seq![
                EventView::StartSpan(
                    SpanKindView::CodeBlock(CodeKindView::Fenced(formula_language())),
                ),
            ] + inner + seq![EventView::EndSpan(closing)],
            render,
        ) == (Machine {
            output: machine.output.push(
                EventView::Html(render(FormulaView { source: text_of(inner), display: true })),
            ),
            ..machine
        }),
{
    let opening = EventView::StartSpan(
        SpanKindView::CodeBlock(CodeKindView::Fenced(formula_language())),
    );
    let collecting = Machine { state: State::Math, ..machine };
    lemma_run_in_parts(machine, true, seq![opening] + inner, seq![EventView::EndSpan(closing)], render);
    lemma_run_in_parts(machine, true, seq![opening], inner, render);
    lemma_run_of_one(machine, true, opening, render);
    assert(machine.buffer + Seq::<char>::empty() =~= machine.buffer);
    assert(run(machine, true, seq![opening], render) == collecting);
    lemma_collected(collecting, inner, render);
    let collected = Machine { buffer: collecting.buffer + text_of(inner), ..collecting };
    assert(collected.buffer =~= text_of(inner));
    lemma_run_of_one(collected, true, EventView::EndSpan(closing), render);
}

/// A code span wrapped in single dollars is replaced by one `Html` event,
/// the inline rendering of what is between the dollars. Any other code span
/// is forwarded as it came.
pub proof fn lemma_inline_formula(
    machine: Machine,
    code: Seq<char>,
    render: spec_fn(FormulaView) -> Seq<char>,
)
    requires
        machine.state == State::Default,
    ensures
        feed(machine, true, EventView::InlineCode(code), render) == (Machine {
            output: machine.output.push(
                match inline_formula(code) {
                    Some(formula) => EventView::Html(
                        render(FormulaView { source: formula, display: false }),
                    ),
                    None => EventView::InlineCode(code),
                },
            ),
            ..machine
        }),
        feed(machine, false, EventView::InlineCode(code), render) == (Machine {
            output: machine.output.push(EventView::InlineCode(code)),
            ..machine
        }),
{
}

/// A stretch of a chapter that the transducer treats as one unit.
pub enum Segment {
    /// An event that matches no rule.
    Plain { event: EventView },
    /// The event that opens (`opens`) or closes a link which is resolved
    /// through a reference definition.
    Link { opens: bool, subtype: LinkSubtype, destination: Seq<char>, title: Seq<char> },
    /// A shorthand autolink: the event that opens it, what lies inside, and
    /// the event that closes it.
    Shorthand {
        destination: Seq<char>,
        title: Seq<char>,
        inner: Seq<EventView>,
        closing: SpanKindView,
    },
    /// A code span that holds a formula.
    InlineFormula { code: Seq<char> },
    /// A fenced block that holds a formula: what lies inside, and the event
    /// that closes it.
    FormulaBlock { inner: Seq<EventView>, closing: SpanKindView },
}

impl Segment {
    /// The segment is what its variant says. The formula segments occur
    /// only where formulas are supported.
    pub open spec fn well_formed(self, formulas: bool) -> bool {
        match self {
            Segment::Plain { event } => !matches_rule(formulas, event),
            Segment::Link { subtype, .. } => by_definition(subtype),
            Segment::Shorthand { destination, inner, .. } => {
                expansion(destination) is Some && none_closes(inner)
            },
            Segment::InlineFormula { code } => formulas && inline_formula(code) is Some,
            Segment::FormulaBlock { inner, .. } => formulas && none_closes(inner),
        }
    }

    /// The events of the segment as they come in.
    pub open spec fn source(self) -> Seq<EventView> {
        match self {
            Segment::Plain { event } => seq![event],
            Segment::Link { opens, subtype, destination, title } => seq![
                link_event(opens, subtype, destination, title),
            ],
            Segment::Shorthand { destination, title, inner, closing } => seq![
                link_event(true, LinkSubtype::Autolink, destination, title),
            ] + inner + seq![EventView::EndSpan(closing)],
            Segment::InlineFormula { code } => seq![EventView::InlineCode(code)],
            Segment::FormulaBlock { inner, closing } => seq![
                EventView::StartSpan(
                    SpanKindView::CodeBlock(CodeKindView::Fenced(formula_language())),
                ),
            ] + inner + seq![EventView::EndSpan(closing)],
        }
    }

    /// The one event that is forwarded for the segment.
    pub open spec fn image(self, render: spec_fn(FormulaView) -> Seq<char>) -> EventView {
        match self {
            Segment::Plain { event } => event,
            Segment::Link { opens, destination, title, .. } => link_event(
                opens,
                LinkSubtype::Inline,
                destination,
                title,
            ),
            Segment::Shorthand { destination, .. } => EventView::Html(expansion(destination)->0),
            Segment::InlineFormula { code } => EventView::Html(
                render(FormulaView { source: inline_formula(code)->0, display: false }),
            ),
            Segment::FormulaBlock { inner, .. } => EventView::Html(
                render(FormulaView { source: text_of(inner), display: true }),
            ),
        }
    }
}

/// The events of `segments` as they come in, one segment after the other.
pub open spec fn sources(segments: Seq<Segment>) -> Seq<EventView>
    decreases segments.len(),
{
    if segments.len() == 0 {
        Seq::empty()
    } else {
        segments.first().source() + sources(segments.drop_first())
    }
}

/// The events that are forwarded for `segments`: one for each, in order.
pub open spec fn images(
    segments: Seq<Segment>,
    render: spec_fn(FormulaView) -> Seq<char>,
) -> Seq<EventView> {
    segments.map_values(|segment: Segment| segment.image(render))
}

/// One segment leaves one event in the output and the machine in the
/// state `Default`.
pub proof fn lemma_segment(
    machine: Machine,
    formulas: bool,
    segment: Segment,
    render: spec_fn(FormulaView) -> Seq<char>,
)
    requires
        machine.state == State::Default,
        machine.valid(formulas),
        segment.well_formed(formulas),
    ensures
        run(machine, formulas, segment.source(), render) == (Machine {
            output: machine.output.push(segment.image(render)),
            ..machine
        }),
{
    match segment {
        Segment::Plain { event } => {
            lemma_pass_iff_no_rule(formulas, event);
            lemma_run_of_one(machine, formulas, event, render);
        },
        Segment::Link { opens, subtype, destination, title } => {
            lemma_run_of_one(
                machine,
                formulas,
                link_event(opens, subtype, destination, title),
                render,
            );
        },
        Segment::Shorthand { destination, title, inner, closing } => {
            lemma_shorthand_span(machine, formulas, destination, title, inner, closing, render);
        },
        Segment::InlineFormula { code } => {
            lemma_run_of_one(machine, formulas, EventView::InlineCode(code), render);
        },
        Segment::FormulaBlock { inner, closing } => {
            lemma_formula_block(machine, inner, closing, render);
        },
    }
}

/// A chapter that is made of well-formed segments is forwarded segment by
/// segment: each leaves its one event, in the order of the chapter, and at
/// the end the machine is in the state `Default` again.
pub proof fn lemma_segments(
    machine: Machine,
    formulas: bool,
    segments: Seq<Segment>,
    render: spec_fn(FormulaView) -> Seq<char>,
)
    requires
        machine.state == State::Default,
        machine.valid(formulas),
        forall|i: int| 0 <= i < segments.len() ==> (#[trigger] segments[i]).well_formed(formulas),
    ensures
        run(machine, formulas, sources(segments), render) == (Machine {
            output: machine.output + images(segments, render),
            ..machine
        }),
    decreases segments.len(),
{
    if segments.len() == 0 {
        assert(machine.output + images(segments, render) =~= machine.output);
    } else {
        let first = segments.first();
        let rest = segments.drop_first();
        let next = Machine { output: machine.output.push(first.image(render)), ..machine };
        assert(first.well_formed(formulas));
        lemma_segment(machine, formulas, first, render);
        lemma_run_in_parts(machine, formulas, first.source(), sources(rest), render);
        assert forall|i: int| 0 <= i < rest.len() implies (#[trigger] rest[i]).well_formed(
            formulas,
        ) by {
            assert(rest[i] == segments[i + 1]);
        }
        lemma_segments(next, formulas, rest, render);
        assert(next.output + images(rest, render) =~= machine.output + images(segments, render));
    }
}

} // verus!
