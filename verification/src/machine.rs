//! The migrator's decisions: from a state and an event to the next state,
//! what to announce and what to do.

use vstd::prelude::*;
use crate::entry::Candidate;
use crate::protocol::{
    Action, ActionView, Event, EventView, Fatal, Notice, NoticeView, State, StateView, Step,
    StepView,
};
use crate::url::{rewrite_output, rewritten_output};

verus! {

/// The move that gives the run up for `fatal`.
pub open spec fn abort_with(fatal: Fatal) -> StepView {
    StepView { state: StateView::Aborted(fatal), notice: None, action: ActionView::Abort(fatal) }
}

/// The move that goes on to the next entry, with `notice` on the way.
pub open spec fn next_entry(notice: Option<NoticeView>) -> StepView {
    StepView { state: StateView::Start, notice, action: ActionView::Next }
}

/// The move that state `state` makes on event `event`.
///
/// An entry that is hidden or no directory is passed over in silence. Any
/// other is checked, entered, read and rewritten in turn; a subcommand that
/// reports failure ends the work on its entry, and the run goes on. The run
/// is given up where a path is not text, where the directory cannot be
/// entered, and where the output of a successful read gives no new URL. A
/// run that has ended stays as it is, and an event that the state does not
/// wait for gives the run up.
pub open spec fn spec_step(state: StateView, event: EventView) -> StepView {
    match (state, event) {
        (StateView::Start, EventView::Entry(candidate)) => {
            if candidate.skipped() {
                next_entry(None)
            } else {
                match candidate.path {
                    Some(path) => StepView {
                        state: StateView::Checking { path },
                        notice: Some(NoticeView::Checking { path }),
                        action: ActionView::Check { path },
                    },
                    None => abort_with(Fatal::PathNotText),
                }
            }
        },
        (StateView::Start, EventView::EndOfEntries) => StepView {
            state: StateView::Completed,
            notice: None,
            action: ActionView::Finish,
        },
        (StateView::Checking { path }, EventView::Checked { success }) => {
            if success {
                StepView {
                    state: StateView::Confirmed,
                    notice: Some(NoticeView::Updating { path }),
                    action: ActionView::Enter { path },
                }
            } else {
                next_entry(Some(NoticeView::NotARepository))
            }
        },
        (StateView::Confirmed, EventView::ChangedDir { ok }) => {
            if ok {
                StepView {
                    state: StateView::Entered,
                    notice: None,
                    action: ActionView::ReadOrigin,
                }
            } else {
                abort_with(Fatal::EnterFailed)
            }
        },
        (StateView::Entered, EventView::Read { success, stdout }) => {
            if success {
                match rewritten_output(stdout) {
                    Ok(url) => StepView {
                        state: StateView::UrlRead,
                        notice: None,
                        action: ActionView::WriteOrigin { url },
                    },
                    Err(e) => abort_with(Fatal::BadOutput(e)),
                }
            } else {
                next_entry(Some(NoticeView::ReadFailed))
            }
        },
        (StateView::UrlRead, EventView::Written { success }) => {
            if success {
                next_entry(Some(NoticeView::Done))
            } else {
                next_entry(Some(NoticeView::WriteFailed))
            }
        },
        (StateView::Completed, _) => StepView {
            state: StateView::Completed,
            notice: None,
            action: ActionView::Finish,
        },
        (StateView::Aborted(fatal), _) => abort_with(fatal),
        _ => abort_with(Fatal::OutOfTurn),
    }
}

/// Gives the run up for `fatal`.
fn abort(fatal: Fatal) -> (step: Step)
    ensures
        step@ == abort_with(fatal),
{
    Step { state: State::Aborted(fatal), notice: None, action: Action::Abort(fatal) }
}

/// Goes on to the next entry in silence.
fn pass() -> (step: Step)
    ensures
        step@ == next_entry(None),
{
    Step { state: State::Start, notice: None, action: Action::Next }
}

/// Goes on to the next entry, announcing `notice`.
fn next(notice: Notice) -> (step: Step)
    ensures
        step@ == next_entry(Some(notice@)),
{
    Step { state: State::Start, notice: Some(notice), action: Action::Next }
}

/// Makes the move of state `Start` on the entry `candidate`.
fn begin(candidate: Candidate) -> (step: Step)
    ensures
        step@ == spec_step(StateView::Start, EventView::Entry(candidate@)),
{
    if candidate.skipped() {
        pass()
    } else {
        match candidate.path {
            Some(path) => Step {
                state: State::Checking { path: path.clone() },
                notice: Some(Notice::Checking { path: path.clone() }),
                action: Action::Check { path },
            },
            None => abort(Fatal::PathNotText),
        }
    }
}

/// Makes the move of state `state` on event `event`.
pub fn step(state: State, event: Event) -> (step: Step)
    ensures
        step@ == spec_step(state@, event@),
{
    match state {
        State::Start => match event {
            Event::Entry(candidate) => begin(candidate),
            Event::EndOfEntries => Step {
                state: State::Completed,
                notice: None,
                action: Action::Finish,
            },
            _ => abort(Fatal::OutOfTurn),
        },
        State::Checking { path } => match event {
            Event::Checked { success } => {
                if success {
                    Step {
                        state: State::Confirmed,
                        notice: Some(Notice::Updating { path: path.clone() }),
                        action: Action::Enter { path },
                    }
                } else {
                    next(Notice::NotARepository)
                }
            },
            _ => abort(Fatal::OutOfTurn),
        },
        State::Confirmed => match event {
            Event::ChangedDir { ok } => {
                if ok {
                    Step { state: State::Entered, notice: None, action: Action::ReadOrigin }
                } else {
                    abort(Fatal::EnterFailed)
                }
            },
            _ => abort(Fatal::OutOfTurn),
        },
        State::Entered => match event {
            Event::Read { success, stdout } => {
                if success {
                    match rewrite_output(stdout) {
                        Ok(url) => Step {
                            state: State::UrlRead,
                            notice: None,
                            action: Action::WriteOrigin { url },
                        },
                        Err(e) => abort(Fatal::BadOutput(e)),
                    }
                } else {
                    next(Notice::ReadFailed)
                }
            },
            _ => abort(Fatal::OutOfTurn),
        },
        State::UrlRead => match event {
            Event::Written { success } => {
                if success {
                    next(Notice::Done)
                } else {
                    next(Notice::WriteFailed)
                }
            },
            _ => abort(Fatal::OutOfTurn),
        },
        State::Completed => Step {
            state: State::Completed,
            notice: None,
            action: Action::Finish,
        },
        State::Aborted(fatal) => abort(fatal),
    }
}

} // verus!
