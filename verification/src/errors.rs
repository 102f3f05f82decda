//! The two ways in which a run can fail.

use vstd::prelude::*;

verus! {

/// A page could not be fetched: the request failed, the server answered
/// with an error status, or the body did not have the expected shape.
#[derive(Clone, Debug, PartialEq, Eq)]
pub struct FetchError {
    /// What went wrong, for a person to read.
    pub cause: String,
}

/// The output could not be written: the rows could not be encoded, or the
/// file could not be created, appended to or flushed.
#[derive(Clone, Debug, PartialEq, Eq)]
pub struct WriteError {
    /// What went wrong, for a person to read.
    pub cause: String,
}

/// Why a run was aborted.
#[derive(Clone, Debug, PartialEq, Eq)]
pub enum RunError {
    Fetch(FetchError),
    Write(WriteError),
}

/// Why a run was aborted, with the text of the error.
pub enum RunErrorView {
    Fetch(Seq<char>),
    Write(Seq<char>),
}

impl View for FetchError {
    type V = Seq<char>;

    /// A fetch error is its text.
    open spec fn view(&self) -> Seq<char> {
        self.cause@
    }
}

impl View for WriteError {
    type V = Seq<char>;

    /// A write error is its text.
    open spec fn view(&self) -> Seq<char> {
        self.cause@
    }
}

impl View for RunError {
    type V = RunErrorView;

    open spec fn view(&self) -> RunErrorView {
        match *self {
            RunError::Fetch(e) => RunErrorView::Fetch(e@),
            RunError::Write(e) => RunErrorView::Write(e@),
        }
    }
}

impl FetchError {
    /// The text of the error.
    pub fn message(&self) -> (text: String)
        ensures
            text@ == self.cause@,
    {
        self.cause.clone()
    }
}

impl WriteError {
    /// The text of the error.
    pub fn message(&self) -> (text: String)
        ensures
            text@ == self.cause@,
    {
        self.cause.clone()
    }
}

impl RunError {
    /// The text of the underlying error.
    pub fn message(&self) -> (text: String)
        ensures
            text@ == match self@ {
                RunErrorView::Fetch(cause) => cause,
                RunErrorView::Write(cause) => cause,
            },
    {
        match self {
            RunError::Fetch(e) => e.message(),
            RunError::Write(e) => e.message(),
        }
    }
}

} // verus!
