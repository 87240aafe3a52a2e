//! What can go wrong while a configuration file is looked for or written.

use vstd::prelude::*;
use crate::consts::LL_CONFIG;

verus! {

/// The failures this crate reports.
#[derive(Debug, Clone, PartialEq, Eq)]
pub enum LLError {
    /// No configuration file exists at any place that was looked at.
    NotFound,
    /// A configuration file exists but is not a well-formed document; the
    /// text says what the parser objected to.
    ParseError(String),
    /// A file could not be read or written; the text says why.
    IoError(String),
    /// The file that template generation would write is already there.
    AlreadyExists,
}

/// The result of an operation that may fail with an [`LLError`].
pub type LLResult<T> = Result<T, LLError>;

/// An [`LLError`] with its texts as plain sequences of characters.
pub enum LLErrorView {
    NotFound,
    ParseError(Seq<char>),
    IoError(Seq<char>),
    AlreadyExists,
}

impl View for LLError {
    type V = LLErrorView;

    open spec fn view(&self) -> LLErrorView {
        match *self {
            LLError::NotFound => LLErrorView::NotFound,
            LLError::ParseError(text) => LLErrorView::ParseError(text@),
            LLError::IoError(text) => LLErrorView::IoError(text@),
            LLError::AlreadyExists => LLErrorView::AlreadyExists,
        }
    }
}

impl LLErrorView {
    /// The sentence shown to the user for this error.
    pub open spec fn message(self) -> Seq<char> {
        match self {
            LLErrorView::NotFound => LL_CONFIG@ + " not found"@,
            LLErrorView::ParseError(text) => text,
            LLErrorView::IoError(text) => text,
            LLErrorView::AlreadyExists => LL_CONFIG@ + " already exists"@,
        }
    }
}

impl LLError {
    /// The sentence shown to the user for this error.
    pub fn message(&self) -> (text: String)
        ensures
            text@ == self@.message(),
    {
        match self {
            LLError::NotFound => {
                let mut text = LL_CONFIG.to_owned();
                text.append(" not found");
                text
            },
            LLError::ParseError(reason) => reason.clone(),
            LLError::IoError(reason) => reason.clone(),
            LLError::AlreadyExists => {
                let mut text = LL_CONFIG.to_owned();
                text.append(" already exists");
                text
            },
        }
    }
}

} // verus!
