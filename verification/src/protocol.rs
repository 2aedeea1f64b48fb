//! The vocabulary of a run: the states of the migrator, the events that its
//! surroundings report to it, and the actions that it asks of them.

use vstd::prelude::*;
use crate::entry::{Candidate, CandidateView};
use crate::url::UrlError;

verus! {

/// Why a run stops before the listing is exhausted.
#[derive(Clone, Copy, Debug, PartialEq, Eq, Structural)]
pub enum Fatal {
    /// The path of a directory that is to be checked is not valid Unicode.
    PathNotText,
    /// The working directory could not be changed to a confirmed repository.
    EnterFailed,
    /// `git remote get-url` succeeded, and what it wrote gives no new URL.
    BadOutput(UrlError),
    /// An event was reported that the state was not waiting for.
    OutOfTurn,
}

/// Where a run stands.
#[derive(Clone, Debug, PartialEq, Eq)]
pub enum State {
    /// Ready for the next entry of the listing.
    Start,
    /// The repository check on `path` is under way.
    Checking { path: String },
    /// The directory is a repository; the change into it is under way.
    Confirmed,
    /// Inside the repository; the read of its `origin` is under way.
    Entered,
    /// The old URL was read; the write of the new one is under way.
    UrlRead,
    /// The listing is exhausted.
    Completed,
    /// The run was given up.
    Aborted(Fatal),
}

/// What the surroundings report.
#[derive(Clone, Debug, PartialEq, Eq)]
pub enum Event {
    /// The listing yielded an entry.
    Entry(Candidate),
    /// The listing has no further entry.
    EndOfEntries,
    /// The repository check ended; `success` is a zero exit status.
    Checked { success: bool },
    /// The change of working directory ended.
    ChangedDir { ok: bool },
    /// `git remote get-url` ended, having written `stdout`.
    Read { success: bool, stdout: Vec<u8> },
    /// `git remote set-url` ended.
    Written { success: bool },
}

/// What the surroundings are asked to do next.
#[derive(Clone, Debug, PartialEq, Eq)]
pub enum Action {
    /// Run the repository check against `path`, and report `Checked`.
    Check { path: String },
    /// Change the working directory to `path`, and report `ChangedDir`.
    Enter { path: String },
    /// Read `origin` in the working directory, and report `Read`.
    ReadOrigin,
    /// Set `origin` in the working directory to `url`, and report `Written`.
    WriteOrigin { url: String },
    /// Report the next entry of the listing, or its end.
    Next,
    /// End the run with success.
    Finish,
    /// End the run with a failure.
    Abort(Fatal),
}

/// What is announced on the console.
#[derive(Clone, Debug, PartialEq, Eq)]
pub enum Notice {
    /// `path` is being checked.
    Checking { path: String },
    /// The directory is no repository.
    NotARepository,
    /// The repository at `path` is being updated.
    Updating { path: String },
    /// `origin` could not be read.
    ReadFailed,
    /// The new URL could not be set.
    WriteFailed,
    /// The new URL is set.
    Done,
}

/// One move of the migrator.
#[derive(Clone, Debug, PartialEq, Eq)]
pub struct Step {
    /// Where the run stands after the move.
    pub state: State,
    /// What is to be announced, if anything.
    pub notice: Option<Notice>,
    /// What is to be done next.
    pub action: Action,
}

/// The mathematical value of a [`State`].
pub enum StateView {
    Start,
    Checking { path: Seq<char> },
    Confirmed,
    Entered,
    UrlRead,
    Completed,
    Aborted(Fatal),
}

/// The mathematical value of an [`Event`].
pub enum EventView {
    Entry(CandidateView),
    EndOfEntries,
    Checked { success: bool },
    ChangedDir { ok: bool },
    Read { success: bool, stdout: Seq<u8> },
    Written { success: bool },
}

/// The mathematical value of an [`Action`].
pub enum ActionView {
    Check { path: Seq<char> },
    Enter { path: Seq<char> },
    ReadOrigin,
    WriteOrigin { url: Seq<char> },
    Next,
    Finish,
    Abort(Fatal),
}

/// The mathematical value of a [`Notice`].
pub enum NoticeView {
    Checking { path: Seq<char> },
    NotARepository,
    Updating { path: Seq<char> },
    ReadFailed,
    WriteFailed,
    Done,
}

/// The mathematical value of a [`Step`].
pub struct StepView {
    pub state: StateView,
    pub notice: Option<NoticeView>,
    pub action: ActionView,
}

impl View for State {
    type V = StateView;

    open spec fn view(&self) -> StateView {
        match *self {
            State::Start => StateView::Start,
            State::Checking { path } => StateView::Checking { path: path@ },
            State::Confirmed => StateView::Confirmed,
            State::Entered => StateView::Entered,
            State::UrlRead => StateView::UrlRead,
            State::Completed => StateView::Completed,
            State::Aborted(fatal) => StateView::Aborted(fatal),
        }
    }
}

impl View for Event {
    type V = EventView;

    open spec fn view(&self) -> EventView {
        match *self {
            Event::Entry(candidate) => EventView::Entry(candidate@),
            Event::EndOfEntries => EventView::EndOfEntries,
            Event::Checked { success } => EventView::Checked { success },
            Event::ChangedDir { ok } => EventView::ChangedDir { ok },
            Event::Read { success, stdout } => EventView::Read { success, stdout: stdout@ },
            Event::Written { success } => EventView::Written { success },
        }
    }
}

impl View for Action {
    type V = ActionView;

    open spec fn view(&self) -> ActionView {
        match *self {
            Action::Check { path } => ActionView::Check { path: path@ },
            Action::Enter { path } => ActionView::Enter { path: path@ },
            Action::ReadOrigin => ActionView::ReadOrigin,
            Action::WriteOrigin { url } => ActionView::WriteOrigin { url: url@ },
            Action::Next => ActionView::Next,
            Action::Finish => ActionView::Finish,
            Action::Abort(fatal) => ActionView::Abort(fatal),
        }
    }
}

impl View for Notice {
    type V = NoticeView;

    open spec fn view(&self) -> NoticeView {
        match *self {
            Notice::Checking { path } => NoticeView::Checking { path: path@ },
            Notice::NotARepository => NoticeView::NotARepository,
            Notice::Updating { path } => NoticeView::Updating { path: path@ },
            Notice::ReadFailed => NoticeView::ReadFailed,
            Notice::WriteFailed => NoticeView::WriteFailed,
            Notice::Done => NoticeView::Done,
        }
    }
}

impl View for Step {
    type V = StepView;

    open spec fn view(&self) -> StepView {
        StepView {
            state: self.state@,
            notice: match self.notice {
                Some(notice) => Some(notice@),
                None => None,
            },
            action: self.action@,
        }
    }
}

} // verus!
