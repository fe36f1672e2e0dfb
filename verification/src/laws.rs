//! What holds of every run: the laws of the transcript, proved from the
//! model.

use crate::trace::{
    added, entries, entry, error_line, error_prefix, goes_on, is_run, line, place, rendered,
    silent_count, start_of, value_line, value_prefix, Event, Step,
};
use vstd::prelude::*;
use vstd::seq_lib::lemma_flatten_concat;

verus! {

/// One more evaluation puts its line, if it has one, on top of the others.
pub proof fn lemma_rendered_push(steps: Seq<Step>, step: Step)
    ensures
        entries(steps.push(step)) == entry(step.event) + entries(steps),
        rendered(steps.push(step)) == added(step.event) + rendered(steps),
{
    assert(steps.push(step).drop_last() =~= steps);
    lemma_flatten_concat(entry(step.event), entries(steps));
    entry(step.event).lemma_flatten_one_element();
}

/// The lines of two stretches of evaluations, one after the other: those of
/// the later stretch stand above those of the earlier.
pub proof fn lemma_entries_concat(earlier: Seq<Step>, later: Seq<Step>)
    ensures
        entries(earlier + later) == entries(later) + entries(earlier),
    decreases later.len(),
{
    if later.len() == 0 {
        assert(earlier + later =~= earlier);
        assert(entries(later) + entries(earlier) =~= entries(earlier));
    } else {
        assert((earlier + later).drop_last() =~= earlier + later.drop_last());
        lemma_entries_concat(earlier, later.drop_last());
        let top = entry(later.last().event);
        let below = entries(later.drop_last());
        assert(top + (below + entries(earlier)) =~= (top + below) + entries(earlier));
    }
}

/// Every evaluation leaves one line, but for the silent ones.
pub proof fn lemma_entries_len(steps: Seq<Step>)
    ensures
        entries(steps).len() + silent_count(steps) == steps.len(),
    decreases steps.len(),
{
    reveal(Seq::filter);
    if steps.len() > 0 {
        lemma_entries_len(steps.drop_last());
    }
}

/// The line of evaluation `i` stands at its place, below the lines of all
/// later evaluations.
pub proof fn lemma_entry_at_place(steps: Seq<Step>, i: int)
    requires
        0 <= i < steps.len(),
    ensures
        line(steps[i].event) matches Some(l) ==> 0 <= place(steps, i) < entries(steps).len()
            && entries(steps)[place(steps, i)] == l,
        forall|j: int|
            i < j < steps.len() && line(steps[j].event) is Some ==> #[trigger] place(steps, j)
                < place(steps, i),
{
    let upto = steps.take(i + 1);
    let after = steps.skip(i + 1);
    assert(steps =~= upto + after);
    lemma_entries_concat(upto, after);
    assert(upto.drop_last() =~= steps.take(i));
    assert forall|j: int|
        i < j < steps.len() && line(steps[j].event) is Some implies #[trigger] place(steps, j)
        < place(steps, i) by {
        let between = after.take(j - i);
        assert(after =~= between + steps.skip(j + 1));
        lemma_entries_concat(between, steps.skip(j + 1));
        assert(between.last() == steps[j]);
    }
}

/// Law of the run without errors. Where none of the `n` evaluations fails,
/// the transcript gains at most `n` lines: one for every evaluation but the
/// silent ones. Each of them opens with `=> ` and shows the value of its
/// evaluation, and the line of a later evaluation stands above the line of
/// an earlier one.
pub proof fn lemma_run_without_error(steps: Seq<Step>)
    requires
        forall|i: int| 0 <= i < steps.len() ==> !((#[trigger] steps[i]).event is Failed),
    ensures
        entries(steps).len() <= steps.len(),
        entries(steps).len() == steps.len() - silent_count(steps),
        forall|j: int|
            0 <= j < entries(steps).len() ==> value_prefix().is_prefix_of(
                #[trigger] entries(steps)[j],
            ),
        forall|i: int|
            0 <= i < steps.len() ==> ((#[trigger] steps[i]).event matches Event::Shown(text)
                ==> 0 <= place(steps, i) < entries(steps).len()
                && entries(steps)[place(steps, i)] == value_line(text)),
        forall|i: int, j: int|
            0 <= i < j < steps.len() && steps[j].event is Shown ==> #[trigger] place(steps, j)
                < #[trigger] place(steps, i),
    decreases steps.len(),
{
    lemma_entries_len(steps);
    assert forall|i: int| 0 <= i < steps.len() implies ((#[trigger] steps[i]).event matches
        Event::Shown(text) ==> 0 <= place(steps, i) < entries(steps).len()
        && entries(steps)[place(steps, i)] == value_line(text)) by {
        lemma_entry_at_place(steps, i);
    }
    assert forall|i: int, j: int|
        0 <= i < j < steps.len() && steps[j].event is Shown implies #[trigger] place(steps, j)
        < #[trigger] place(steps, i) by {
        lemma_entry_at_place(steps, i);
    }
    if steps.len() > 0 {
        let before = steps.drop_last();
        assert forall|i: int| 0 <= i < before.len() implies !((#[trigger] before[i]).event
            is Failed) by {
            assert(before[i] == steps[i]);
        }
        lemma_run_without_error(before);
        assert forall|j: int| 0 <= j < entries(steps).len() implies value_prefix().is_prefix_of(
            #[trigger] entries(steps)[j],
        ) by {
            let top = entry(steps.last().event);
            if j < top.len() {
                assert(entries(steps)[j] == top[j]);
            } else {
                assert(entries(steps)[j] == entries(before)[j - top.len()]);
            }
        }
    }
}

/// Law of the run that an error stops. Where evaluation `k` of a run fails,
/// it is the last one: nothing after it is evaluated and nothing before it
/// failed. The transcript gains the line of the error, which opens with
/// `=> error: `, on top of the lines of the `k - 1` evaluations before it,
/// one for each of them but the silent ones.
pub proof fn lemma_run_with_error(input: Seq<char>, steps: Seq<Step>, k: int)
    requires
        is_run(input, steps),
        1 <= k <= steps.len(),
        steps[k - 1].event is Failed,
    ensures
        steps.len() == k,
        forall|i: int| 0 <= i < k - 1 ==> !((#[trigger] steps[i]).event is Failed),
        steps[k - 1].event matches Event::Failed(text) && entries(steps) == seq![error_line(text)]
            + entries(steps.take(k - 1)),
        error_prefix().is_prefix_of(entries(steps)[0]),
        entries(steps).len() == (k - 1 - silent_count(steps.take(k - 1))) + 1,
{
    assert(!goes_on(steps[k - 1]));
    assert forall|i: int| 0 <= i < k - 1 implies !((#[trigger] steps[i]).event is Failed) by {
        assert(goes_on(steps[i]));
    }
    assert(steps.drop_last() =~= steps.take(k - 1));
    lemma_entries_len(steps.take(k - 1));
}

/// Law of the empty input. A run on an empty input does not start: it has
/// no evaluation, and the transcript gains nothing.
pub proof fn lemma_run_on_empty_input(input: Seq<char>, steps: Seq<Step>)
    requires
        is_run(input, steps),
        input.len() == 0,
    ensures
        start_of(input) is None,
        steps.len() == 0,
        rendered(steps) == Seq::<char>::empty(),
{
}

} // verus!
