//! The state of the workbench: the two buffers and the interpreter.

use crate::driver::absorb;
use crate::interpreter::{rest_of, step_of, Answer, Marwood};
use crate::trace::{added, next_of, start_of, Step};
use vstd::prelude::*;

verus! {

/// The program that a new workbench opens with: a sieve of Eratosthenes and
/// a call of it.
pub const EXAMPLE_PROGRAM: &'static str = "(define (filter pred lst)
              (cond
                ((null? lst) '())
                ((pred (car lst))
                 (cons (car lst) (filter pred (cdr lst))))
                (else
                 (filter pred (cdr lst)))))

            (define (sieve limit)
              (define (range start end)
                (if (> start end)
                    '()
                    (cons start (range (+ start 1) end))))

              (define (remove-multiples n lst)
                (filter (lambda (x) (not (= (modulo x n) 0))) lst))

              (define (sieve-helper numbers)
                (if (null? numbers)
                    '()
                    (cons (car numbers)
                          (sieve-helper (remove-multiples (car numbers) (cdr numbers))))))

              (sieve-helper (range 2 limit)))

            (sieve 100)";

/// What the proofs see of a workbench: the text of its two buffers, and
/// the evaluations made on its interpreter, oldest first.
pub struct Buffers {
    pub input: Seq<char>,
    pub output: Seq<char>,
    pub asked: Seq<(Seq<char>, Step)>,
}

/// The workbench: the source text that the user edits, the transcript of
/// results, and the interpreter, which lives as long as the workbench does.
pub struct MarwoodApp {
    input: String,
    output: String,
    marwood: Marwood,
}

impl View for MarwoodApp {
    type V = Buffers;

    closed spec fn view(&self) -> Buffers {
        Buffers { input: self.input@, output: self.output@, asked: self.marwood.asked() }
    }
}

impl Default for MarwoodApp {
    /// A workbench with the example program as input, an empty transcript
    /// and a fresh interpreter.
    fn default() -> (app: Self)
        ensures
            app@.input == EXAMPLE_PROGRAM@,
            app@.output == Seq::<char>::empty(),
            app@.asked == Seq::<(Seq<char>, Step)>::empty(),
    {
        MarwoodApp::new()
    }
}

impl MarwoodApp {
    /// The workbench as it is when the application starts.
    pub fn new() -> (app: Self)
        ensures
            app@.input == EXAMPLE_PROGRAM@,
            app@.output == Seq::<char>::empty(),
            app@.asked == Seq::<(Seq<char>, Step)>::empty(),
    {
        MarwoodApp {
            input: String::from_str(EXAMPLE_PROGRAM),
            output: String::new(),
            marwood: Marwood::new(),
        }
    }

    /// A workbench brought back from stored buffers, with a fresh
    /// interpreter. A buffer that was not stored takes the value it has in
    /// a new workbench.
    pub fn restore(input: Option<String>, output: Option<String>) -> (app: Self)
        ensures
            app@.input == (match input {
                Some(text) => text@,
                None => EXAMPLE_PROGRAM@,
            }),
            app@.output == (match output {
                Some(text) => text@,
                None => Seq::<char>::empty(),
            }),
            app@.asked == Seq::<(Seq<char>, Step)>::empty(),
    {
        let input = match input {
            Some(text) => text,
            None => String::from_str(EXAMPLE_PROGRAM),
        };
        let output = match output {
            Some(text) => text,
            None => String::new(),
        };
        MarwoodApp { input, output, marwood: Marwood::new() }
    }

    /// The source text.
    pub fn input(&self) -> (text: &str)
        ensures
            text@ == self@.input,
    {
        self.input.as_str()
    }

    /// The transcript.
    pub fn output(&self) -> (text: &str)
        ensures
            text@ == self@.output,
    {
        self.output.as_str()
    }

    /// Replaces the source text, as an edit by the user does. The
    /// transcript and the interpreter stay.
    pub fn set_input(&mut self, text: String)
        ensures
            final(self)@.input == text@,
            final(self)@.output == old(self)@.output,
            final(self)@.asked == old(self)@.asked,
    {
        self.input = text;
    }

    /// The interpreter, for the one who makes its calls. The buffers stay;
    /// the workbench keeps the interpreter as the borrower leaves it.
    pub fn interpreter(&mut self) -> (handle: &mut Marwood)
        ensures
            handle.asked() == old(self)@.asked,
            final(self)@.input == old(self)@.input,
            final(self)@.output == old(self)@.output,
            final(self)@.asked == final(handle).asked(),
    {
        &mut self.marwood
    }

    /// Where a run of the source text starts: the text to evaluate first,
    /// or `None` when the source text is empty. Nothing changes.
    pub fn start(&self) -> (next: Option<&str>)
        ensures
            rest_of(next) == start_of(self@.input),
    {
        crate::driver::start(self.input.as_str())
    }

    /// Takes one evaluation of a run into the workbench: its interpreter
    /// was given `text` and gave `answer`. The source text stays; the
    /// evaluation goes on record; the transcript gains its line, if it has
    /// one, on top of what it held, and loses nothing. The text to evaluate
    /// next is returned, or `None` when the run is over.
    pub fn absorb<'a>(&mut self, text: &str, answer: &Answer<'a>) -> (next: Option<&'a str>)
        ensures
            final(self)@.input == old(self)@.input,
            final(self)@.output == added(step_of(*answer).event) + old(self)@.output,
            final(self)@.asked == old(self)@.asked.push((text@, step_of(*answer))),
            rest_of(next) == next_of(step_of(*answer)),
    {
        absorb(&mut self.marwood, &mut self.output, text, answer)
    }
}

} // verus!
