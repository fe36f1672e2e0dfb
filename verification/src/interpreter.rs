//! The interpreter handle: one Scheme virtual machine, the shape of its
//! answers, and the record of what it was asked.

use crate::trace::{Event, Step};
use vstd::prelude::*;

verus! {

/// The virtual machine of the `marwood` crate. Nothing of its state is
/// visible to the proofs.
#[verifier::external_type_specification]
#[verifier::external_body]
pub struct ExVm(marwood::vm::Vm);

/// `marwood::vm::Vm::new` makes a virtual machine with the built-in
/// procedures and the prelude loaded. Nothing is claimed of it.
pub assume_specification[ marwood::vm::Vm::new ]() -> (vm: marwood::vm::Vm);

/// The result of evaluating one top-level form.
#[derive(Debug, Clone, PartialEq, Eq)]
pub enum Value {
    /// No displayable result: what a definition evaluates to.
    Void,
    /// Any other value, by the external representation that the
    /// interpreter gives it.
    Datum(String),
}

/// Why a form could not be read or evaluated, in the interpreter's words.
#[derive(Debug, Clone, PartialEq, Eq)]
pub struct EvalError {
    pub message: String,
}

/// What the interpreter answers to a text: the value of its first form with
/// the text that was not consumed, if any is left, or an error.
pub type Answer<'a> = Result<(Value, Option<&'a str>), EvalError>;

/// The unconsumed text of an answer, as characters.
pub open spec fn rest_of(rest: Option<&str>) -> Option<Seq<char>> {
    match rest {
        Some(text) => Some(text@),
        None => None,
    }
}

/// The evaluation that an answer of the interpreter stands for.
pub open spec fn step_of(answer: Answer<'_>) -> Step {
    match answer {
        Ok((Value::Datum(text), rest)) => Step { event: Event::Shown(text@), rest: rest_of(rest) },
        Ok((Value::Void, rest)) => Step { event: Event::Silent, rest: rest_of(rest) },
        Err(error) => Step { event: Event::Failed(error.message@), rest: None },
    }
}

/// The interpreter handle. It owns one virtual machine; definitions made by
/// one evaluation stay visible to all later ones on the same handle, and the
/// machine is never reset.
///
/// The machine is called from outside this library: on some programs it
/// never returns, and nothing here could promise that it does. The handle
/// keeps, for the proofs alone, the record of the evaluations that were
/// reported to it.
pub struct Marwood {
    pub vm: marwood::vm::Vm,
    asked: Ghost<Seq<(Seq<char>, Step)>>,
}

impl Marwood {
    /// The evaluations on record for this handle, oldest first: for each
    /// the text that the machine was given, and what came of it.
    pub closed spec fn asked(&self) -> Seq<(Seq<char>, Step)> {
        self.asked@
    }

    /// A handle on a fresh virtual machine: nothing has been evaluated on
    /// it.
    pub fn new() -> (handle: Self)
        ensures
            handle.asked() == Seq::<(Seq<char>, Step)>::empty(),
    {
        Marwood { vm: marwood::vm::Vm::new(), asked: Ghost(Seq::empty()) }
    }

    /// Puts on record that the machine was given `text` and gave `answer`.
    pub(crate) fn note(&mut self, text: &str, answer: &Answer<'_>)
        ensures
            final(self).asked() == old(self).asked().push((text@, step_of(*answer))),
    {
        proof {
            self.asked@ = self.asked@.push((text@, step_of(*answer)));
        }
    }
}

} // verus!
