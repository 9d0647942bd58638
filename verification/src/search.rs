//! The course of one search, as a machine of states and events.
//!
//! The machine touches no file. Its driver looks the path up, reads files and
//! walks the directory, and reports each outcome as an `Event`; `advance`
//! answers with the text to print, the next state and what to do next. A
//! regular file is read and its matches are printed. For a directory every
//! entry that the pattern of `dir_to_glob_pattern` selects is announced by a
//! header, read, and its matches are printed. Anything else is left alone.
//!
//! A file that cannot be read ends the search with `ReadError`, in a directory
//! as for a single file. An entry that the walk cannot reach is reported and
//! passed over.

use vstd::prelude::*;
use vstd::string::*;
use crate::matcher::{find_in_contents, matches_of};
use crate::render::{file_header, header_of, match_lines, render_results};
use crate::text::push_char;

verus! {

/// What the searched path turned out to be.
#[derive(Clone, Copy, Debug, PartialEq, Eq, Structural)]
pub enum SearchTarget {
    RegularFile,
    Directory,
    /// Neither of the two: nothing is searched and nothing is wrong.
    Other,
}

/// The target for what the file system says of a path.
pub open spec fn target_of(is_file: bool, is_dir: bool) -> SearchTarget {
    if is_file {
        SearchTarget::RegularFile
    } else if is_dir {
        SearchTarget::Directory
    } else {
        SearchTarget::Other
    }
}

/// Classifies a path, once, from what the file system says of it.
pub fn classify(is_file: bool, is_dir: bool) -> (target: SearchTarget)
    ensures
        target == target_of(is_file, is_dir),
{
    if is_file {
        SearchTarget::RegularFile
    } else if is_dir {
        SearchTarget::Directory
    } else {
        SearchTarget::Other
    }
}

/// What can go wrong in a search.
#[derive(Clone, Copy, Debug, PartialEq, Eq, Structural)]
pub enum ErrorKind {
    /// The query or the path was not given.
    MissingArgument,
    /// The path does not exist or cannot be reached.
    PathNotFound,
    /// A file could not be read as text.
    ReadError,
    /// One entry of a directory walk could not be reached.
    EnumerationEntryError,
}

impl ErrorKind {
    /// A fatal error ends the search; the others are reported and passed over.
    pub open spec fn fatal(self) -> bool {
        !(self is EnumerationEntryError)
    }

    /// Whether this error ends the search.
    pub fn is_fatal(&self) -> (fatal: bool)
        ensures
            fatal == self.fatal(),
    {
        match self {
            ErrorKind::EnumerationEntryError => false,
            _ => true,
        }
    }
}

/// Where a search stands.
#[derive(Clone, Copy, Debug, PartialEq, Eq, Structural)]
pub enum State {
    /// The path is being looked up.
    Lookup,
    /// The path is a regular file, which is being read.
    ReadingTarget,
    /// The path is a directory, and the next entry is awaited.
    Walking,
    /// An entry of the directory has been announced and is being read.
    ReadingEntry,
    /// The search is over and nothing went wrong.
    Finished,
    /// The search is over because of a fatal error.
    Failed,
}

/// What the driver reports to the machine.
#[derive(Debug)]
pub enum Event {
    /// The path exists, and this is what it is.
    Found(SearchTarget),
    /// The path could not be looked up.
    NotFound,
    /// The file that was to be read holds this text.
    Contents(String),
    /// The file that was to be read could not be read as text.
    Unreadable,
    /// The walk has reached a file; `quoted` is its path as it is to be shown.
    Entry { quoted: String },
    /// The walk could not reach an entry; `report` describes the failure.
    EntryFailed { report: String },
    /// The walk is over.
    NoMoreEntries,
}

/// What the driver is to do next.
#[derive(Clone, Copy, Debug, PartialEq, Eq, Structural)]
pub enum Action {
    /// Read the searched path, a regular file.
    ReadTarget,
    /// Start the walk with the pattern of the searched directory, and report
    /// its first entry.
    Enumerate,
    /// Read the entry that was reported last.
    ReadEntry,
    /// Report the next entry of the walk.
    NextEntry,
    /// Stop: the state says how the search ended.
    Stop,
}

/// The answer of the machine to one event.
#[derive(Debug)]
pub struct Step {
    pub state: State,
    pub action: Action,
    /// What is to be printed before the action is taken.
    pub output: String,
    /// The error that the event stands for, if it stands for one.
    pub error: Option<ErrorKind>,
}

/// The next state and action for an event, where the event fits the state.
pub open spec fn transition(state: State, event: Event) -> Option<(State, Action)> {
    match state {
        State::Lookup => match event {
            Event::NotFound => Some((State::Failed, Action::Stop)),
            Event::Found(SearchTarget::RegularFile) => Some(
                (State::ReadingTarget, Action::ReadTarget),
            ),
            Event::Found(SearchTarget::Directory) => Some((State::Walking, Action::Enumerate)),
            Event::Found(SearchTarget::Other) => Some((State::Finished, Action::Stop)),
            _ => None,
        },
        State::ReadingTarget => match event {
            Event::Contents(_) => Some((State::Finished, Action::Stop)),
            Event::Unreadable => Some((State::Failed, Action::Stop)),
            _ => None,
        },
        State::Walking => match event {
            Event::Entry { .. } => Some((State::ReadingEntry, Action::ReadEntry)),
            Event::EntryFailed { .. } => Some((State::Walking, Action::NextEntry)),
            Event::NoMoreEntries => Some((State::Finished, Action::Stop)),
            _ => None,
        },
        State::ReadingEntry => match event {
            Event::Contents(_) => Some((State::Walking, Action::NextEntry)),
            Event::Unreadable => Some((State::Failed, Action::Stop)),
            _ => None,
        },
        State::Finished => None,
        State::Failed => None,
    }
}

/// What an event that fits the state gives to print: the matches of a text
/// that was read, the header of an entry, the report of an entry that failed,
/// and nothing otherwise.
pub open spec fn output_of(query: Seq<char>, event: Event) -> Seq<char> {
    match event {
        Event::Contents(text) => match_lines(matches_of(text@, query)),
        Event::Entry { quoted } => header_of(quoted@),
        Event::EntryFailed { report } => report@ + seq!['\n'],
        _ => Seq::empty(),
    }
}

/// The error that an event stands for.
pub open spec fn error_of(event: Event) -> Option<ErrorKind> {
    match event {
        Event::NotFound => Some(ErrorKind::PathNotFound),
        Event::Unreadable => Some(ErrorKind::ReadError),
        Event::EntryFailed { .. } => Some(ErrorKind::EnumerationEntryError),
        _ => None,
    }
}

/// The text printed for the matches of `query` in `contents`: what a search
/// of one file comes to once the file has been read.
pub fn report_matches(contents: &str, query: &str) -> (out: String)
    ensures
        out@ == match_lines(matches_of(contents@, query@)),
{
    let results = find_in_contents(contents, query);
    render_results(&results)
}

/// What there is to print for `event`.
fn output_for(query: &str, event: &Event) -> (out: String)
    ensures
        out@ == output_of(query@, *event),
{
    match event {
        Event::Contents(text) => report_matches(text.as_str(), query),
        Event::Entry { quoted } => file_header(quoted.as_str()),
        Event::EntryFailed { report } => {
            let mut out = String::new();
            out.append(report.as_str());
            push_char(&mut out, '\n');
            assert(out@ =~= report@ + seq!['\n']);
            out
        },
        _ => String::new(),
    }
}

/// The error that `event` stands for.
fn error_for(event: &Event) -> (error: Option<ErrorKind>)
    ensures
        error == error_of(*event),
{
    match event {
        Event::NotFound => Some(ErrorKind::PathNotFound),
        Event::Unreadable => Some(ErrorKind::ReadError),
        Event::EntryFailed { .. } => Some(ErrorKind::EnumerationEntryError),
        _ => None,
    }
}

/// The state and action that follow `event` in `state`, if the event fits.
fn next_of(state: State, event: &Event) -> (next: Option<(State, Action)>)
    ensures
        next == transition(state, *event),
{
    match state {
        State::Lookup => match event {
            Event::NotFound => Some((State::Failed, Action::Stop)),
            Event::Found(SearchTarget::RegularFile) => Some(
                (State::ReadingTarget, Action::ReadTarget),
            ),
            Event::Found(SearchTarget::Directory) => Some((State::Walking, Action::Enumerate)),
            Event::Found(SearchTarget::Other) => Some((State::Finished, Action::Stop)),
            _ => None,
        },
        State::ReadingTarget => match event {
            Event::Contents(_) => Some((State::Finished, Action::Stop)),
            Event::Unreadable => Some((State::Failed, Action::Stop)),
            _ => None,
        },
        State::Walking => match event {
            Event::Entry { .. } => Some((State::ReadingEntry, Action::ReadEntry)),
            Event::EntryFailed { .. } => Some((State::Walking, Action::NextEntry)),
            Event::NoMoreEntries => Some((State::Finished, Action::Stop)),
            _ => None,
        },
        State::ReadingEntry => match event {
            Event::Contents(_) => Some((State::Walking, Action::NextEntry)),
            Event::Unreadable => Some((State::Failed, Action::Stop)),
            _ => None,
        },
        State::Finished => None,
        State::Failed => None,
    }
}

/// Answers one event. Where the event fits the state, the answer holds the
/// state and action of `transition`, the output of `output_of` and the error
/// of `error_of`; where it does not, as for every event after the search has
/// ended, there is none.
pub fn advance(state: State, query: &str, event: &Event) -> (step: Option<Step>)
    ensures
        match transition(state, *event) {
            Some((next, action)) => {
                &&& step is Some
                &&& step->0.state == next
                &&& step->0.action == action
                &&& step->0.output@ == output_of(query@, *event)
                &&& step->0.error == error_of(*event)
            },
            None => step is None,
        },
{
    match next_of(state, event) {
        Some((next, action)) => Some(
            Step {
                state: next,
                action: action,
                output: output_for(query, event),
                error: error_for(event),
            },
        ),
        None => None,
    }
}

/// The query and the path among the arguments of the program, which come
/// after the program's own name. Without both there is nothing to search.
pub fn arguments(args: &Vec<String>) -> (parsed: Result<(String, String), ErrorKind>)
    ensures
        match parsed {
            Ok((query, path)) => args.len() >= 3 && query@ == args[1]@ && path@ == args[2]@,
            Err(kind) => args.len() < 3 && kind == ErrorKind::MissingArgument,
        },
{
    if args.len() < 3 {
        Err(ErrorKind::MissingArgument)
    } else {
        Ok((args[1].clone(), args[2].clone()))
    }
}

/// A search fails exactly when the event stands for a fatal error, and then
/// the driver stops.
pub proof fn lemma_failure_is_fatal(state: State, event: Event)
    ensures
        match transition(state, event) {
            Some((next, action)) => {
                &&& next is Failed <==> (match error_of(event) {
                    Some(kind) => kind.fatal(),
                    None => false,
                })
                &&& next is Failed ==> action == Action::Stop
            },
            None => true,
        },
{
}

/// The path is classified once, before anything is read: what it is can be
/// reported only while it is looked up, and no event leads back there.
pub proof fn lemma_classified_once(state: State, event: Event)
    ensures
        (event is Found || event is NotFound) && transition(state, event) is Some
            ==> state is Lookup,
        match transition(state, event) {
            Some((next, _)) => !(next is Lookup),
            None => true,
        },
{
}

/// Once a search has ended, no event moves it, and whenever the driver is
/// told to stop, the search has ended.
pub proof fn lemma_end_is_final(state: State, event: Event)
    ensures
        (state is Finished || state is Failed) ==> transition(state, event) is None,
        match transition(state, event) {
            Some((next, action)) => (action == Action::Stop) <==> (next is Finished
                || next is Failed),
            None => true,
        },
{
}

/// An entry that the walk cannot reach does not end the walk: its report is
/// printed and the next entry is asked for.
pub proof fn lemma_entry_failure_is_passed_over(query: Seq<char>, report: String)
    ensures
        transition(State::Walking, Event::EntryFailed { report }) == Some(
            (State::Walking, Action::NextEntry),
        ),
        output_of(query, Event::EntryFailed { report }) == report@ + seq!['\n'],
        error_of(Event::EntryFailed { report }) == Some(ErrorKind::EnumerationEntryError),
        !ErrorKind::EnumerationEntryError.fatal(),
{
}

/// A header is printed in a directory only: while a single file is searched,
/// the only output is the lines of its matches.
pub proof fn lemma_single_file_has_no_header(state: State, query: Seq<char>, event: Event)
    requires
        state is Lookup || state is ReadingTarget,
        transition(state, event) is Some,
    ensures
        output_of(query, event) == (match event {
            Event::Contents(text) => match_lines(matches_of(text@, query)),
            _ => Seq::<char>::empty(),
        }),
{
}

} // verus!
