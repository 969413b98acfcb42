//! The transducer: a single pass over the events of one chapter.
//!
//! The transducer folds the recognizer over the incoming events. It owns the
//! output sequence and the accumulation buffer, and lives for one chapter.
//! Formulas are rendered outside: [`Transducer::push`] hands the formula back
//! to its caller, who has it rendered and gives the markup to
//! [`Transducer::answer`].

use crate::event::{Event, EventView};
use crate::recognizer::{recognition, recognize, Action, ActionView, State, StepView};
use vstd::prelude::*;

verus! {

/// A formula that is to be rendered.
#[derive(Clone, Debug, PartialEq, Eq)]
pub struct Formula {
    /// The formula as the author wrote it.
    pub source: String,
    /// Whether it is set on a line of its own, or within the text.
    pub display: bool,
}

/// The view of a [`Formula`].
pub struct FormulaView {
    pub source: Seq<char>,
    pub display: bool,
}

impl View for Formula {
    type V = FormulaView;

    open spec fn view(&self) -> FormulaView {
        FormulaView { source: self.source@, display: self.display }
    }
}

impl DeepView for Formula {
    type V = FormulaView;

    open spec fn deep_view(&self) -> FormulaView {
        self@
    }
}

/// The transducer as a mathematical value.
pub struct Machine {
    pub state: State,
    /// The text collected since the formula block was entered.
    pub buffer: Seq<char>,
    /// The events forwarded so far, in order.
    pub output: Seq<EventView>,
}

/// What one event does to a machine.
pub struct Outcome {
    pub machine: Machine,
    /// The formula whose rendering is wanted next in the output.
    pub request: Option<FormulaView>,
}

impl Machine {
    /// The machine at the start of a chapter.
    pub open spec fn initial() -> Machine {
        Machine { state: State::Default, buffer: Seq::empty(), output: Seq::empty() }
    }

    /// The buffer is in use only in the state `Math`, and that state is
    /// entered only where formulas are supported.
    pub open spec fn valid(self, formulas: bool) -> bool {
        &&& self.state == State::Math ==> formulas
        &&& self.state != State::Math ==> self.buffer.len() == 0
    }
}

/// Carries out a decision of the recognizer on `machine`.
pub open spec fn apply(machine: Machine, step: StepView) -> Outcome {
    match step.action {
        ActionView::Pass(event) | ActionView::Replace(event) | ActionView::BeginSuppress(
            event,
        ) => Outcome {
            machine: Machine {
                state: step.next,
                buffer: machine.buffer,
                output: machine.output.push(event),
            },
            request: None,
        },
        ActionView::Typeset(source) => Outcome {
            machine: Machine { state: step.next, ..machine },
            request: Some(FormulaView { source, display: false }),
        },
        ActionView::Accumulate(text) => Outcome {
            machine: Machine {
                state: step.next,
                buffer: machine.buffer + text,
                output: machine.output,
            },
            request: None,
        },
        ActionView::EndAccumulate => Outcome {
            machine: Machine { state: step.next, buffer: Seq::empty(), output: machine.output },
            request: Some(FormulaView { source: machine.buffer, display: true }),
        },
        ActionView::Drop => Outcome {
            machine: Machine { state: step.next, ..machine },
            request: None,
        },
    }
}

/// The machine after `event`, and the formula to render, if any.
pub open spec fn step(machine: Machine, formulas: bool, event: EventView) -> Outcome {
    apply(machine, recognition(machine.state, formulas, event))
}

/// The machine after `event` and after the rendering of the formula that
/// the event asked for, if any, came back as an `Html` event. `render` gives
/// the markup of each formula.
pub open spec fn feed(
    machine: Machine,
    formulas: bool,
    event: EventView,
    render: spec_fn(FormulaView) -> Seq<char>,
) -> Machine {
    let outcome = step(machine, formulas, event);
    match outcome.request {
        Some(formula) => step(outcome.machine, formulas, EventView::Html(render(formula))).machine,
        None => outcome.machine,
    }
}

/// The machine after all of `events`, fed in order.
pub open spec fn run(
    machine: Machine,
    formulas: bool,
    events: Seq<EventView>,
    render: spec_fn(FormulaView) -> Seq<char>,
) -> Machine
    decreases events.len(),
{
    if events.len() == 0 {
        machine
    } else {
        run(feed(machine, formulas, events.first(), render), formulas, events.drop_first(), render)
    }
}

/// A rendering for chapters without formulas: it is never consulted.
pub open spec fn unrendered() -> spec_fn(FormulaView) -> Seq<char> {
    |formula: FormulaView| Seq::<char>::empty()
}

/// What the transducer forwards of `events` where formulas are not
/// supported.
pub open spec fn transduced(events: Seq<EventView>) -> Seq<EventView> {
    run(Machine::initial(), false, events, unrendered()).output
}

/// The transducer of one chapter.
#[derive(Debug)]
pub struct Transducer {
    state: State,
    events: Vec<Event>,
    buffer: String,
    formulas: bool,
}

impl View for Transducer {
    type V = Machine;

    closed spec fn view(&self) -> Machine {
        Machine { state: self.state, buffer: self.buffer@, output: self.events.deep_view() }
    }
}

impl Transducer {
    /// Whether the formula shorthands are recognised.
    pub closed spec fn formulas(&self) -> bool {
        self.formulas
    }

    /// A transducer at the start of a chapter, without support for formulas.
    pub fn new() -> (transducer: Transducer)
        ensures
            transducer@ == Machine::initial(),
            !transducer.formulas(),
    {
        let transducer = Transducer {
            state: State::Default,
            events: Vec::new(),
            buffer: String::new(),
            formulas: false,
        };
        assert(transducer.events.deep_view() =~= Seq::<EventView>::empty());
        transducer
    }

    /// A transducer at the start of a chapter that recognises the formula
    /// shorthands.
    pub fn with_formulas() -> (transducer: Transducer)
        ensures
            transducer@ == Machine::initial(),
            transducer.formulas(),
    {
        let transducer = Transducer {
            state: State::Default,
            events: Vec::new(),
            buffer: String::new(),
            formulas: true,
        };
        assert(transducer.events.deep_view() =~= Seq::<EventView>::empty());
        transducer
    }

    /// Takes the next event of the chapter. Where the event completes a
    /// formula, nothing is forwarded and the formula is returned: the caller
    /// has it rendered and hands the markup to [`Transducer::answer`].
    pub fn push(&mut self, event: Event) -> (request: Option<Formula>)
        ensures
            final(self).formulas() == old(self).formulas(),
            final(self)@ == step(old(self)@, old(self).formulas(), event@).machine,
            request.deep_view() == step(old(self)@, old(self).formulas(), event@).request,
            old(self)@.valid(old(self).formulas()) ==> final(self)@.valid(final(self).formulas()),
    {
        let decision = recognize(self.state, self.formulas, event);
        self.state = decision.next;
        match decision.action {
            Action::Pass(forwarded) | Action::Replace(forwarded) | Action::BeginSuppress(
                forwarded,
            ) => {
                self.forward(forwarded);
                None
            },
            Action::Typeset(source) => Some(Formula { source, display: false }),
            Action::Accumulate(text) => {
                self.buffer.append(text.as_str());
                None
            },
            Action::EndAccumulate => {
                let mut source = String::new();
                std::mem::swap(&mut self.buffer, &mut source);
                Some(Formula { source, display: true })
            },
            Action::Drop => None,
        }
    }

    /// Takes the markup of the formula that the last event asked for. It
    /// goes the way of any `Html` event.
    pub fn answer(&mut self, markup: String)
        ensures
            final(self).formulas() == old(self).formulas(),
            final(self)@ == step(
                old(self)@,
                old(self).formulas(),
                EventView::Html(markup@),
            ).machine,
    {
        let _ = self.push(Event::Html(markup));
    }

    /// Appends `event` to the output.
    fn forward(&mut self, event: Event)
        ensures
            final(self).formulas() == old(self).formulas(),
            final(self)@ == (Machine { output: old(self)@.output.push(event@), ..old(self)@ }),
    {
        self.events.push(event);
        assert(self.events.deep_view() =~= old(self).events.deep_view().push(event@));
    }

    /// The state the transducer is in.
    pub fn state(&self) -> (state: State)
        ensures
            state == self@.state,
    {
        self.state
    }

    /// The events forwarded so far.
    pub fn events(&self) -> (events: &Vec<Event>)
        ensures
            events.deep_view() == self@.output,
    {
        &self.events
    }

    /// Ends the chapter and gives the forwarded events. What a span that
    /// was never closed had collected is discarded.
    pub fn into_events(self) -> (events: Vec<Event>)
        ensures
            events.deep_view() == self@.output,
    {
        self.events
    }
}

/// A valid machine stays valid, whatever comes.
pub proof fn lemma_step_keeps_valid(machine: Machine, formulas: bool, event: EventView)
    requires
        machine.valid(formulas),
    ensures
        step(machine, formulas, event).machine.valid(formulas),
{
}

/// Where formulas are not supported, no event asks for a rendering.
pub proof fn lemma_no_request_without_formulas(machine: Machine, event: EventView)
    requires
        machine.valid(false),
    ensures
        step(machine, false, event).request is None,
{
}

/// Sends the events of one chapter through a fresh transducer without
/// support for formulas, and gives what it forwards.
pub fn transduce(events: Vec<Event>) -> (output: Vec<Event>)
    ensures
        output.deep_view() == transduced(events.deep_view()),
{
    let ghost all = events.deep_view();
    let ghost given = events@;
    let mut transducer = Transducer::new();
    assert(all.skip(0) =~= all);
    for event in iter: events.into_iter()
        invariant
            iter.seq() == given,
            all.len() == given.len(),
            forall|i: int| 0 <= i < given.len() ==> all[i] == (#[trigger] given[i])@,
            !transducer.formulas(),
            transducer@.valid(false),
            run(transducer@, false, all.skip(iter.index() as int), unrendered()) == run(
                Machine::initial(),
                false,
                all,
                unrendered(),
            ),
    {
        let ghost before = transducer@;
        let ghost waiting = all.skip(iter.index() as int);
        let _ = transducer.push(event);
        proof {
            lemma_no_request_without_formulas(before, event@);
            lemma_step_keeps_valid(before, false, event@);
            assert(waiting.first() == event@);
            assert(waiting.drop_first() =~= all.skip(iter.index() + 1));
            assert(transducer@ == feed(before, false, event@, unrendered()));
        }
    }
    assert(all.skip(all.len() as int) =~= Seq::<EventView>::empty());
    transducer.into_events()
}

} // verus!
