//! The search for a configuration file.
//!
//! The search looks at up to two places: first at the path given on the
//! command line or, without one, at the well-known file name in the working
//! directory; then, only if no file exists there, at the same file name in
//! the per-user configuration directory. This module decides what to look
//! at next and what the search comes to. Looking itself is the caller's
//! part: it reports what it found as a [`Probe`].

use vstd::prelude::*;
use crate::config::{found_view, Config, FoundView, RawFileConfig, RawFileConfigView};
use crate::consts::LL_CONFIG;
use crate::error::{LLError, LLErrorView, LLResult};

verus! {

/// What the caller found at one place.
#[derive(Debug, Clone, PartialEq, Eq)]
pub enum Probe {
    /// No file exists there.
    Missing,
    /// A file exists but could not be read; the text says why.
    Unreadable(String),
    /// A file was read but is not a well-formed configuration; the text
    /// says what the parser objected to.
    Malformed(String),
    /// A file was read and parsed.
    Parsed(RawFileConfig),
}

/// [`Probe`] as plain text.
pub enum ProbeView {
    Missing,
    Unreadable(Seq<char>),
    Malformed(Seq<char>),
    Parsed(RawFileConfigView),
}

impl View for Probe {
    type V = ProbeView;

    open spec fn view(&self) -> ProbeView {
        match *self {
            Probe::Missing => ProbeView::Missing,
            Probe::Unreadable(reason) => ProbeView::Unreadable(reason@),
            Probe::Malformed(reason) => ProbeView::Malformed(reason@),
            Probe::Parsed(found) => ProbeView::Parsed(found@),
        }
    }
}

/// What the search knows so far.
#[derive(Debug, Clone, PartialEq, Eq)]
pub enum Search {
    /// Nothing has been looked at yet.
    Start,
    /// The first place has been looked at.
    Local(Probe),
    /// No file exists at the first place, and the per-user configuration
    /// directory has been looked at; `None` where no such directory could
    /// be determined.
    Home(Option<Probe>),
}

/// [`Search`] as plain text.
pub enum SearchView {
    Start,
    Local(ProbeView),
    Home(Option<ProbeView>),
}

impl View for Search {
    type V = SearchView;

    open spec fn view(&self) -> SearchView {
        match *self {
            Search::Start => SearchView::Start,
            Search::Local(probe) => SearchView::Local(probe@),
            Search::Home(Some(probe)) => SearchView::Home(Some(probe@)),
            Search::Home(None) => SearchView::Home(None),
        }
    }
}

/// What the search does next.
#[derive(Debug, PartialEq, Eq)]
pub enum Next {
    /// Look at this path and come back with [`Search::Local`].
    ProbeLocal(String),
    /// Look for this file name in the per-user configuration directory and
    /// come back with [`Search::Home`].
    ProbeHome(String),
    /// The search is over.
    Done(LLResult<RawFileConfig>),
}

/// [`Next`] as plain text.
pub enum NextView {
    ProbeLocal(Seq<char>),
    ProbeHome(Seq<char>),
    Done(FoundView),
}

impl View for Next {
    type V = NextView;

    open spec fn view(&self) -> NextView {
        match *self {
            Next::ProbeLocal(path) => NextView::ProbeLocal(path@),
            Next::ProbeHome(name) => NextView::ProbeHome(name@),
            Next::Done(found) => NextView::Done(found_view(found)),
        }
    }
}

/// The first place to look at: the path given on the command line, or the
/// well-known file name in the working directory.
pub open spec fn first_candidate(path_input: Option<Seq<char>>) -> Seq<char> {
    match path_input {
        Some(path) => path,
        None => LL_CONFIG@,
    }
}

/// What a search comes to that ends with `probe`.
pub open spec fn outcome(probe: ProbeView) -> FoundView {
    match probe {
        ProbeView::Missing => Err(LLErrorView::NotFound),
        ProbeView::Unreadable(reason) => Err(LLErrorView::IoError(reason)),
        ProbeView::Malformed(reason) => Err(LLErrorView::ParseError(reason)),
        ProbeView::Parsed(found) => Ok(found),
    }
}

/// The next step of the search, given what it knows so far.
///
/// The per-user directory is looked at in exactly one case: no file exists
/// at the first place. A file that exists there ends the search, readable
/// or not, well-formed or not.
pub open spec fn next_step(path_input: Option<Seq<char>>, search: SearchView) -> NextView {
    match search {
        SearchView::Start => NextView::ProbeLocal(first_candidate(path_input)),
        SearchView::Local(ProbeView::Missing) => NextView::ProbeHome(LL_CONFIG@),
        SearchView::Local(probe) => NextView::Done(outcome(probe)),
        SearchView::Home(Some(probe)) => NextView::Done(outcome(probe)),
        SearchView::Home(None) => NextView::Done(Err(LLErrorView::NotFound)),
    }
}

impl Probe {
    /// What a search comes to that ends with this probe.
    pub fn into_result(self) -> (result: LLResult<RawFileConfig>)
        ensures
            found_view(result) == outcome(self@),
    {
        match self {
            Probe::Missing => Err(LLError::NotFound),
            Probe::Unreadable(reason) => Err(LLError::IoError(reason)),
            Probe::Malformed(reason) => Err(LLError::ParseError(reason)),
            Probe::Parsed(found) => Ok(found),
        }
    }
}

impl Config {
    /// Decides the next step of the search for a configuration file.
    ///
    /// `path_input` is the path given on the command line, if any; `search`
    /// is what the search knows so far. The caller starts with
    /// [`Search::Start`], does what the returned step asks for, and calls
    /// again with what it found, until the step is [`Next::Done`].
    pub fn try_from_fs(path_input: Option<&str>, search: Search) -> (next: Next)
        ensures
            next@ == next_step(path_input.deep_view(), search@),
            next is ProbeHome <==> search@ == SearchView::Local(ProbeView::Missing),
    {
        match search {
            Search::Start => match path_input {
                Some(path) => Next::ProbeLocal(path.to_owned()),
                None => Next::ProbeLocal(LL_CONFIG.to_owned()),
            },
            Search::Local(Probe::Missing) => Next::ProbeHome(LL_CONFIG.to_owned()),
            Search::Local(probe) => Next::Done(probe.into_result()),
            Search::Home(Some(probe)) => Next::Done(probe.into_result()),
            Search::Home(None) => Next::Done(Err(LLError::NotFound)),
        }
    }
}

/// What the whole search comes to, given what stands at the first place
/// and, if the per-user directory can be determined, what stands there.
pub open spec fn search_result(local: ProbeView, home: Option<ProbeView>) -> FoundView {
    if local is Missing {
        match home {
            Some(probe) => outcome(probe),
            None => Err(LLErrorView::NotFound),
        }
    } else {
        outcome(local)
    }
}

/// The search is over after at most two places were looked at, and it
/// comes to [`search_result`]: the first step asks for the first place;
/// with what stands there, the next step either ends the search or asks
/// for the per-user directory; with what stands there, the step after
/// that ends the search.
pub proof fn lemma_search_ends(
    path_input: Option<Seq<char>>,
    local: ProbeView,
    home: Option<ProbeView>,
)
    ensures
        next_step(path_input, SearchView::Start) == NextView::ProbeLocal(
            first_candidate(path_input),
        ),
        local !is Missing ==> next_step(path_input, SearchView::Local(local)) == NextView::Done(
            search_result(local, home),
        ),
        local is Missing ==> next_step(path_input, SearchView::Local(local))
            == NextView::ProbeHome(LL_CONFIG@),
        local is Missing ==> next_step(path_input, SearchView::Home(home)) == NextView::Done(
            search_result(local, home),
        ),
{
}

/// A file that exists at the first place ends the search there: the
/// per-user directory is not looked at, and the result is that of the
/// first place alone, an error included.
pub proof fn lemma_existing_local_file_ends_search(
    path_input: Option<Seq<char>>,
    probe: ProbeView,
)
    requires
        probe !is Missing,
    ensures
        next_step(path_input, SearchView::Local(probe)) == NextView::Done(outcome(probe)),
        probe is Parsed || next_step(path_input, SearchView::Local(probe)) matches NextView::Done(
            Err(_),
        ),
{
}

/// The search reports that nothing was found exactly when no file exists
/// at the first place and none in the per-user directory, be it that the
/// directory holds none or that it could not be determined.
pub proof fn lemma_not_found_means_no_file(path_input: Option<Seq<char>>, search: SearchView)
    ensures
        next_step(path_input, search) == NextView::Done(Err(LLErrorView::NotFound)) <==> (search
            == SearchView::Home(None) || search == SearchView::Home(Some(ProbeView::Missing))),
{
}

} // verus!
