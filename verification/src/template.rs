//! Generation of an example configuration file.
//!
//! The example is written to the well-known file name in the working
//! directory, and only where no file is there yet. As with the search for a
//! configuration file, this module decides and the caller acts.

use vstd::prelude::*;
use crate::config::Config;
use crate::consts::{EXAMPLE_CONFIG, LL_CONFIG};
use crate::error::{LLError, LLErrorView, LLResult};

verus! {

/// What the attempt to generate a template knows so far.
#[derive(Debug, PartialEq, Eq)]
pub enum Attempt {
    /// Nothing has been done yet.
    Start,
    /// The target has been looked at; `exists` says whether a file is
    /// there.
    Checked { exists: bool },
    /// The example has been written, or writing failed; the text says why.
    Written(Result<(), String>),
}

/// [`Attempt`] as plain text.
pub enum AttemptView {
    Start,
    Checked { exists: bool },
    Written(Result<(), Seq<char>>),
}

impl View for Attempt {
    type V = AttemptView;

    open spec fn view(&self) -> AttemptView {
        match *self {
            Attempt::Start => AttemptView::Start,
            Attempt::Checked { exists } => AttemptView::Checked { exists },
            Attempt::Written(Ok(_)) => AttemptView::Written(Ok(())),
            Attempt::Written(Err(reason)) => AttemptView::Written(Err(reason@)),
        }
    }
}

/// What the attempt does next.
#[derive(Debug, PartialEq, Eq)]
pub enum Step {
    /// Find out whether a file exists at this path and come back with
    /// [`Attempt::Checked`].
    CheckExists(String),
    /// Create the file at `path` with exactly `contents` and come back
    /// with [`Attempt::Written`].
    Write { path: String, contents: String },
    /// The attempt is over.
    Done(LLResult<()>),
}

/// [`Step`] as plain text.
pub enum StepView {
    CheckExists(Seq<char>),
    Write { path: Seq<char>, contents: Seq<char> },
    Done(Result<(), LLErrorView>),
}

impl View for Step {
    type V = StepView;

    open spec fn view(&self) -> StepView {
        match *self {
            Step::CheckExists(path) => StepView::CheckExists(path@),
            Step::Write { path, contents } => StepView::Write {
                path: path@,
                contents: contents@,
            },
            Step::Done(Ok(_)) => StepView::Done(Ok(())),
            Step::Done(Err(failure)) => StepView::Done(Err(failure@)),
        }
    }
}

/// The next step of template generation, given what the attempt knows so
/// far. A file that is already there is never overwritten; otherwise the
/// example is written as it is compiled in, and a failure to write is
/// passed on.
pub open spec fn generate_step(attempt: AttemptView) -> StepView {
    match attempt {
        AttemptView::Start => StepView::CheckExists(LL_CONFIG@),
        AttemptView::Checked { exists: true } => StepView::Done(Err(LLErrorView::AlreadyExists)),
        AttemptView::Checked { exists: false } => StepView::Write {
            path: LL_CONFIG@,
            contents: EXAMPLE_CONFIG@,
        },
        AttemptView::Written(Ok(_)) => StepView::Done(Ok(())),
        AttemptView::Written(Err(reason)) => StepView::Done(Err(LLErrorView::IoError(reason))),
    }
}

impl Config {
    /// Decides the next step of writing the example configuration file.
    ///
    /// The caller starts with [`Attempt::Start`], does what the returned
    /// step asks for, and calls again with what came of it, until the
    /// step is [`Step::Done`].
    pub fn generate(attempt: Attempt) -> (step: Step)
        ensures
            step@ == generate_step(attempt@),
    {
        match attempt {
            Attempt::Start => Step::CheckExists(LL_CONFIG.to_owned()),
            Attempt::Checked { exists } => if exists {
                Step::Done(Err(LLError::AlreadyExists))
            } else {
                Step::Write { path: LL_CONFIG.to_owned(), contents: EXAMPLE_CONFIG.to_owned() }
            },
            Attempt::Written(Ok(_)) => Step::Done(Ok(())),
            Attempt::Written(Err(reason)) => Step::Done(Err(LLError::IoError(reason))),
        }
    }
}

/// Template generation writes only where no file exists, and then exactly
/// the compiled-in example; where a file exists it fails and writes
/// nothing.
pub proof fn lemma_never_overwrites(exists: bool)
    ensures
        exists ==> generate_step(AttemptView::Checked { exists }) == StepView::Done(
            Err(LLErrorView::AlreadyExists),
        ),
        !exists ==> generate_step(AttemptView::Checked { exists }) == (StepView::Write {
            path: LL_CONFIG@,
            contents: EXAMPLE_CONFIG@,
        }),
        forall|attempt: AttemptView| #[trigger]
            generate_step(attempt) is Write ==> attempt == (AttemptView::Checked {
                exists: false,
            }),
{
}

} // verus!
