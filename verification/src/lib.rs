//! The evaluation driver behind a small Scheme workbench.
//!
//! The workbench keeps two buffers, the source text that the user edits and
//! a transcript of results, and one interpreter that lives as long as the
//! application does. On request the source text is evaluated form by form,
//! and one line for each result goes on top of the transcript, until the
//! text is used up or a form fails.
//!
//! The library holds the state and takes the decisions: where a run starts,
//! what an answer of the interpreter leaves in the transcript, and whether
//! the run goes on. The application around it makes the calls of the
//! interpreter and hands each answer in.

pub mod app;
pub mod driver;
pub mod interpreter;
pub mod laws;
pub mod trace;

pub use crate::app::MarwoodApp;
pub use crate::interpreter::{Answer, EvalError, Marwood, Value};
