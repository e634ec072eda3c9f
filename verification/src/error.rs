//! The two error types: a stable code and a message.

use vstd::prelude::*;
use vstd::string::*;

use crate::model::views;

verus! {

pub struct ErrorView {
    pub code: Seq<char>,
    pub message: Seq<char>,
}

/// `code: message`.
pub open spec fn error_text(error: ErrorView) -> Seq<char> {
    error.code + ": "@ + error.message
}

/// An error of the agent runtime.
#[derive(Clone, Debug, PartialEq, Eq)]
pub struct AgentError {
    pub code: String,
    pub message: String,
}

impl View for AgentError {
    type V = ErrorView;

    open spec fn view(&self) -> ErrorView {
        ErrorView { code: self.code@, message: self.message@ }
    }
}

impl AgentError {
    pub fn new(code: &str, message: &str) -> (r: Self)
        ensures
            r@ == (ErrorView { code: code@, message: message@ }),
    {
        AgentError { code: code.to_owned(), message: message.to_owned() }
    }

    /// The text in which the error is shown.
    pub fn text(&self) -> (r: String)
        ensures
            r@ == error_text(self@),
    {
        let mut r = self.code.clone();
        r.append(": ");
        r.append(self.message.as_str());
        r
    }

    pub fn copy(&self) -> (r: Self)
        ensures
            r@ == self@,
    {
        AgentError { code: self.code.clone(), message: self.message.clone() }
    }
}

/// An error at the boundary of the application.
#[derive(Clone, Debug, PartialEq, Eq)]
pub struct ApplicationError {
    pub code: String,
    pub message: String,
}

impl View for ApplicationError {
    type V = ErrorView;

    open spec fn view(&self) -> ErrorView {
        ErrorView { code: self.code@, message: self.message@ }
    }
}

impl ApplicationError {
    pub fn new(code: &str, message: &str) -> (r: Self)
        ensures
            r@ == (ErrorView { code: code@, message: message@ }),
    {
        ApplicationError { code: code.to_owned(), message: message.to_owned() }
    }

    /// The text in which the error is shown.
    pub fn text(&self) -> (r: String)
        ensures
            r@ == error_text(self@),
    {
        let mut r = self.code.clone();
        r.append(": ");
        r.append(self.message.as_str());
        r
    }

    pub fn copy(&self) -> (r: Self)
        ensures
            r@ == self@,
    {
        ApplicationError { code: self.code.clone(), message: self.message.clone() }
    }
}

/// An agent error keeps its code and its message at the application boundary.
pub fn agent_error(error: AgentError) -> (r: ApplicationError)
    ensures
        r@ == error@,
{
    ApplicationError { code: error.code, message: error.message }
}

/// What a contract says of a result: its value, or the error, by their views.
pub enum Outcome<T> {
    Done(T),
    Failed(ErrorView),
}

pub open spec fn failure<T>(code: Seq<char>, message: Seq<char>) -> Outcome<T> {
    Outcome::Failed(ErrorView { code, message })
}

/// The outcome of a result whose value is of no further interest.
pub open spec fn unit_outcome<E: View<V = ErrorView>>(r: Result<(), E>) -> Outcome<()> {
    match r {
        Ok(_) => Outcome::Done(()),
        Err(e) => Outcome::Failed(e@),
    }
}

/// The outcome of a result, its value taken by its view.
pub open spec fn outcome<T: View, E: View<V = ErrorView>>(r: Result<T, E>) -> Outcome<T::V> {
    match r {
        Ok(v) => Outcome::Done(v@),
        Err(e) => Outcome::Failed(e@),
    }
}

/// The same of a list.
pub open spec fn list_outcome<T: View, E: View<V = ErrorView>>(r: Result<Vec<T>, E>) -> Outcome<
    Seq<T::V>,
> {
    match r {
        Ok(items) => Outcome::Done(views(items@)),
        Err(e) => Outcome::Failed(e@),
    }
}

} // verus!
