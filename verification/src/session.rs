//! The scripting session: how the outcome of an evaluation is reported to
//! the connection that asked, and what the session remembers of it.

use vstd::prelude::*;
use crate::matrix::{matrix_text, Matrix};

verus! {

/// A value of the engine, ready to be shown.
#[derive(Debug, PartialEq, Eq)]
pub enum Shown {
    /// A matrix, with the text of each of its numbers.
    Matrix(Matrix<String>),
    /// Any other value, as the engine writes it.
    Text(String),
}

/// The text of a value.
pub open spec fn shown_text(value: Shown) -> Seq<char> {
    match value {
        Shown::Matrix(matrix) => matrix_text(matrix@),
        Shown::Text(text) => text@,
    }
}

/// The text of the last value; of the void value where there is none.
pub open spec fn last_text(values: Seq<Shown>, void_text: Seq<char>) -> Seq<char> {
    if values.len() == 0 {
        void_text
    } else {
        shown_text(values.last())
    }
}

/// The line that answers an evaluation: the last value and a line feed, or
/// the failure behind the words `ERROR: Evaluation failed: `.
pub open spec fn response(outcome: Result<Vec<Shown>, String>, void_text: Seq<char>) -> Seq<char> {
    match outcome {
        Ok(values) => last_text(values@, void_text) + "\n"@,
        Err(detail) => "ERROR: Evaluation failed: "@ + detail@ + "\n"@,
    }
}

/// The part of the scripting session that the host keeps: whether the
/// previous evaluation failed.
#[derive(Debug, Clone, Copy, PartialEq, Eq)]
pub struct NetworkScheme {
    prev_was_error: bool,
}

impl View for NetworkScheme {
    type V = bool;

    /// Whether the previous evaluation failed.
    closed spec fn view(&self) -> bool {
        self.prev_was_error
    }
}

impl Shown {
    /// The value as text.
    pub fn display(self) -> (text: String)
        ensures
            text@ == shown_text(self),
    {
        match self {
            Shown::Matrix(matrix) => matrix.display(),
            Shown::Text(text) => text,
        }
    }
}

impl NetworkScheme {
    /// A session in which nothing has failed yet.
    pub fn new_env() -> (session: Self)
        ensures
            !session@,
    {
        NetworkScheme { prev_was_error: false }
    }

    /// Whether the previous evaluation failed.
    pub fn prev_was_error(&self) -> (failed: bool)
        ensures
            failed == self@,
    {
        self.prev_was_error
    }

    /// Reports the outcome of evaluating one expression: the values that
    /// the engine returned, of which the last is shown, or its failure.
    /// `void_text` is what the engine writes for a value that is none.
    /// The session remembers whether the evaluation failed.
    pub fn eval(&mut self, outcome: Result<Vec<Shown>, String>, void_text: &str) -> (line: String)
        ensures
            line@ == response(outcome, void_text@),
            final(self)@ == outcome is Err,
    {
        match outcome {
            Ok(values) => {
                self.prev_was_error = false;
                let mut values = values;
                let mut line = match values.pop() {
                    Some(value) => value.display(),
                    None => void_text.to_owned(),
                };
                line.append("\n");
                line
            },
            Err(detail) => {
                self.prev_was_error = true;
                let mut line = "ERROR: Evaluation failed: ".to_owned();
                line.append(detail.as_str());
                line.append("\n");
                line
            },
        }
    }
}

} // verus!
