//! The evaluation driver, as the decisions of a run: where it starts, and
//! what each answer of the interpreter does to the transcript and to the
//! rest of the run.
//!
//! The calls of the interpreter are not made here. Whoever runs the driver
//! asks [`start`] for the first text, has the interpreter evaluate it, and
//! hands the answer to [`absorb`], which tells the next text; and so on
//! until there is none.

use crate::interpreter::{rest_of, step_of, Answer, Marwood, Value};
use crate::trace::{added, error_line, line, next_of, start_of, value_line};
use vstd::prelude::*;

verus! {

/// The line that shows a value: `=> `, the value's text, a newline.
pub fn format_value(text: &str) -> (shown: String)
    ensures
        shown@ == value_line(text@),
{
    proof {
        reveal_strlit("=> ");
        reveal_strlit("\n");
    }
    let mut shown = String::from_str("=> ");
    shown.append(text);
    shown.append("\n");
    assert(shown@ =~= value_line(text@));
    shown
}

/// The line that reports an error: `=> error: `, the description, a
/// newline.
pub fn format_error(text: &str) -> (shown: String)
    ensures
        shown@ == error_line(text@),
{
    proof {
        reveal_strlit("=> error: ");
        reveal_strlit("\n");
    }
    let mut shown = String::from_str("=> error: ");
    shown.append(text);
    shown.append("\n");
    assert(shown@ =~= error_line(text@));
    shown
}

/// Puts `text` in front of what `output` holds.
pub fn prepend(output: &mut String, text: &str)
    ensures
        final(output)@ == text@ + old(output)@,
{
    let mut grown = String::from_str(text);
    grown.append(output.as_str());
    *output = grown;
}

/// The line that an answer of the interpreter leaves in the transcript:
/// none for the void value.
pub fn render(answer: &Answer<'_>) -> (shown: Option<String>)
    ensures
        match shown {
            Some(text) => line(step_of(*answer).event) == Some(text@),
            None => line(step_of(*answer).event) is None,
        },
{
    match answer {
        Ok((Value::Datum(text), _)) => Some(format_value(text.as_str())),
        Ok((Value::Void, _)) => None,
        Err(error) => Some(format_error(error.message.as_str())),
    }
}

/// Where a run on `input` starts: the text to evaluate first, which is the
/// whole input, or `None` when the input is empty and there is nothing to
/// evaluate.
pub fn start<'a>(input: &'a str) -> (next: Option<&'a str>)
    ensures
        rest_of(next) == start_of(input@),
{
    if input.is_empty() {
        None
    } else {
        Some(input)
    }
}

/// Takes one evaluation into the state of the workbench: the interpreter
/// behind `handle` was given `text` and gave `answer`. The evaluation goes
/// on record; its line, if it has one, goes on top of `output`; and the
/// text to evaluate next is returned, or `None` when the run is over,
/// because the evaluation failed or left nothing.
pub fn absorb<'a>(
    handle: &mut Marwood,
    output: &mut String,
    text: &str,
    answer: &Answer<'a>,
) -> (next: Option<&'a str>)
    ensures
        final(handle).asked() == old(handle).asked().push((text@, step_of(*answer))),
        final(output)@ == added(step_of(*answer).event) + old(output)@,
        rest_of(next) == next_of(step_of(*answer)),
{
    handle.note(text, answer);
    match render(answer) {
        Some(shown) => {
            prepend(output, shown.as_str());
        },
        None => {
            assert(added(step_of(*answer).event) + output@ =~= output@);
        },
    }
    match answer {
        Ok((_, Some(rest))) => {
            if rest.is_empty() {
                None
            } else {
                Some(*rest)
            }
        },
        _ => None,
    }
}

} // verus!
