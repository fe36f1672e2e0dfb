//! The mathematical model of a run: which evaluations were made, and what
//! they leave in the transcript.

use vstd::prelude::*;

verus! {

/// What one evaluation has to show.
pub enum Event {
    /// A value, by its external representation.
    Shown(Seq<char>),
    /// A result that is not meant for display, as a definition gives.
    Silent,
    /// An error, by its description.
    Failed(Seq<char>),
}

/// One evaluation of a run: what it has to show, and the text that it left
/// unconsumed, if any.
pub struct Step {
    pub event: Event,
    pub rest: Option<Seq<char>>,
}

/// The characters that open every line of the transcript.
pub open spec fn value_prefix() -> Seq<char> {
    seq!['=', '>', ' ']
}

/// The characters that open the line of an error.
pub open spec fn error_prefix() -> Seq<char> {
    seq!['=', '>', ' ', 'e', 'r', 'r', 'o', 'r', ':', ' ']
}

/// The line that shows a value.
pub open spec fn value_line(text: Seq<char>) -> Seq<char> {
    value_prefix() + text + seq!['\n']
}

/// The line that reports an error.
pub open spec fn error_line(text: Seq<char>) -> Seq<char> {
    error_prefix() + text + seq!['\n']
}

/// The line that an evaluation leaves in the transcript, if it leaves one.
pub open spec fn line(event: Event) -> Option<Seq<char>> {
    match event {
        Event::Shown(text) => Some(value_line(text)),
        Event::Silent => None,
        Event::Failed(text) => Some(error_line(text)),
    }
}

/// The lines of one evaluation: one or none.
pub open spec fn entry(event: Event) -> Seq<Seq<char>> {
    match line(event) {
        Some(l) => seq![l],
        None => Seq::empty(),
    }
}

/// The text that one evaluation puts on top of the transcript: its line, or
/// nothing.
pub open spec fn added(event: Event) -> Seq<char> {
    match line(event) {
        Some(l) => l,
        None => Seq::empty(),
    }
}

/// The lines that a sequence of evaluations leaves, from the top of the
/// transcript down: the line of the latest evaluation comes first.
pub open spec fn entries(steps: Seq<Step>) -> Seq<Seq<char>>
    decreases steps.len(),
{
    if steps.len() == 0 {
        Seq::empty()
    } else {
        entry(steps.last().event) + entries(steps.drop_last())
    }
}

/// The text that a sequence of evaluations puts on top of the transcript.
pub open spec fn rendered(steps: Seq<Step>) -> Seq<char> {
    entries(steps).flatten()
}

/// Whether the run goes on after `step`: the evaluation succeeded and left
/// text to evaluate.
pub open spec fn goes_on(step: Step) -> bool {
    !(step.event is Failed) && (step.rest matches Some(rest) && rest.len() > 0)
}

/// Where a run on `input` starts: with the whole input, if there is any.
pub open spec fn start_of(input: Seq<char>) -> Option<Seq<char>> {
    if input.len() == 0 {
        None
    } else {
        Some(input)
    }
}

/// Where the run goes after `step`: to the text that the evaluation left,
/// or nowhere, when it failed or left nothing.
pub open spec fn next_of(step: Step) -> Option<Seq<char>> {
    if goes_on(step) {
        step.rest
    } else {
        None
    }
}

/// Whether `steps` are the evaluations of a complete run on `input`:
/// nothing is evaluated when the input is empty; otherwise the run goes
/// from each evaluation to the next, and the last one is the first after
/// which it does not go on.
pub open spec fn is_run(input: Seq<char>, steps: Seq<Step>) -> bool {
    &&& start_of(input) is None <==> steps.len() == 0
    &&& forall|i: int|
        0 <= i < steps.len() ==> (next_of(#[trigger] steps[i]) is Some <==> i + 1 < steps.len())
}

/// The number of evaluations among `steps` that leave no line.
pub open spec fn silent_count(steps: Seq<Step>) -> nat {
    steps.filter(|step: Step| step.event is Silent).len()
}

/// The place of the line of evaluation `i` among `entries(steps)`, counted
/// from the top: as many lines stand above it as later evaluations left.
pub open spec fn place(steps: Seq<Step>, i: int) -> int {
    entries(steps.skip(i + 1)).len() as int
}

} // verus!
