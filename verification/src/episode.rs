//! What a run does to one entry, from the moment the entry is reported to
//! the moment the migrator asks for the next one or stops, and what holds of
//! every such episode.

use vstd::prelude::*;
use crate::entry::CandidateView;
use crate::machine::{abort_with, next_entry, spec_step};
use crate::protocol::{ActionView, EventView, Fatal, NoticeView, StateView, StepView};
use crate::url::{lemma_rewrite_output_idempotent, rewritten_output, UrlError};
use vstd::utf8::encode_utf8;

verus! {

/// How the surroundings answer while one entry is worked on.
pub struct Replies {
    /// Whether the repository check succeeds.
    pub check: bool,
    /// Whether the working directory can be changed.
    pub enter: bool,
    /// Whether `git remote get-url` succeeds.
    pub read: bool,
    /// What `git remote get-url` writes.
    pub stdout: Seq<u8>,
    /// Whether `git remote set-url` succeeds.
    pub write: bool,
}

impl Replies {
    /// The answers of a later run on the same entry, in which `git` prints
    /// `url` on a line of its own and the write ends as `write` says.
    pub open spec fn printing(self, url: Seq<char>, write: bool) -> Replies {
        Replies { stdout: encode_utf8(url.push('\n')), write, ..self }
    }
}

impl ActionView {
    /// The path that the action checks or enters, if it does either.
    pub open spec fn target(self) -> Option<Seq<char>> {
        match self {
            ActionView::Check { path } => Some(path),
            ActionView::Enter { path } => Some(path),
            _ => None,
        }
    }
}

impl StateView {
    /// The event with which the surroundings answer what the state waits
    /// for, or `None` where the state waits for no answer.
    pub open spec fn answer(self, replies: Replies) -> Option<EventView> {
        match self {
            StateView::Checking { .. } => Some(EventView::Checked { success: replies.check }),
            StateView::Confirmed => Some(EventView::ChangedDir { ok: replies.enter }),
            StateView::Entered => Some(
                EventView::Read { success: replies.read, stdout: replies.stdout },
            ),
            StateView::UrlRead => Some(EventView::Written { success: replies.write }),
            _ => None,
        }
    }

    /// Whether `action` is what a run in this state has asked for: the
    /// action whose answer the state waits for, or the request for the next
    /// entry, or the end of the run.
    pub open spec fn waits_for(self, action: ActionView) -> bool {
        match self {
            StateView::Start => action is Next,
            StateView::Checking { path } => action == (ActionView::Check { path }),
            StateView::Confirmed => action is Enter,
            StateView::Entered => action is ReadOrigin,
            StateView::UrlRead => action is WriteOrigin,
            StateView::Completed => action is Finish,
            StateView::Aborted(fatal) => action == ActionView::Abort(fatal),
        }
    }

    /// How many answers the state is away from the end of an episode, at
    /// most.
    pub open spec fn pending(self) -> nat {
        match self {
            StateView::Checking { .. } => 4,
            StateView::Confirmed => 3,
            StateView::Entered => 2,
            StateView::UrlRead => 1,
            _ => 0,
        }
    }
}

/// The moves from `step` on, each on the answer to the one before, up to
/// the first that waits for no answer.
pub open spec fn follow(step: StepView, replies: Replies) -> Seq<StepView>
    decreases step.state.pending(),
{
    match step.state.answer(replies) {
        Some(event) => seq![step] + follow(spec_step(step.state, event), replies),
        None => seq![step],
    }
}

/// The moves that a run makes on the entry `candidate`, reported to it in
/// state `Start`, where the surroundings answer as `replies` says.
pub open spec fn episode(candidate: CandidateView, replies: Replies) -> Seq<StepView> {
    follow(spec_step(StateView::Start, EventView::Entry(candidate)), replies)
}

/// Whether some move of `steps` runs `git`.
pub open spec fn invokes_tool(steps: Seq<StepView>) -> bool {
    exists|i: int| 0 <= i < steps.len() && (#[trigger] steps[i]).action.invokes_tool()
}

/// Whether some move of `steps` reads or writes a remote.
pub open spec fn touches_remote(steps: Seq<StepView>) -> bool {
    exists|i: int|
        0 <= i < steps.len() && ((#[trigger] steps[i]).action is ReadOrigin
            || steps[i].action is WriteOrigin)
}

/// Whether some move of `steps` writes a remote.
pub open spec fn writes_remote(steps: Seq<StepView>) -> bool {
    exists|i: int| 0 <= i < steps.len() && (#[trigger] steps[i]).action is WriteOrigin
}

/// The URL that the moves of `steps` write to a remote, if they write one.
pub open spec fn url_written(steps: Seq<StepView>) -> Option<Seq<char>> {
    if writes_remote(steps) {
        let i = choose|i: int| 0 <= i < steps.len() && (#[trigger] steps[i]).action is WriteOrigin;
        Some(steps[i].action->url)
    } else {
        None
    }
}

/// Whether the work on `candidate` gets as far as a new URL: the entry is
/// looked at, its path is text, the check, the change of directory and the
/// read succeed, and what was read gives a new URL.
pub open spec fn reaches_write(candidate: CandidateView, replies: Replies) -> bool {
    &&& !candidate.skipped()
    &&& candidate.path is Some
    &&& replies.check
    &&& replies.enter
    &&& replies.read
    &&& rewritten_output(replies.stdout) is Ok
}

/// The moves of an episode that gets as far as a new URL.
pub open spec fn full_episode(path: Seq<char>, url: Seq<char>, written: bool) -> Seq<StepView> {
    seq![
        StepView {
            state: StateView::Checking { path },
            notice: Some(NoticeView::Checking { path }),
            action: ActionView::Check { path },
        },
        StepView {
            state: StateView::Confirmed,
            notice: Some(NoticeView::Updating { path }),
            action: ActionView::Enter { path },
        },
        StepView { state: StateView::Entered, notice: None, action: ActionView::ReadOrigin },
        StepView {
            state: StateView::UrlRead,
            notice: None,
            action: ActionView::WriteOrigin { url },
        },
        next_entry(Some(if written { NoticeView::Done } else { NoticeView::WriteFailed })),
    ]
}

/// State and action go together: after every move the state waits for the
/// answer to the very action that the move asks for.
pub proof fn lemma_state_waits_for_action(state: StateView, event: EventView)
    ensures
        spec_step(state, event).state.waits_for(spec_step(state, event).action),
{
}

/// Within an episode `git` is pointed at no path but that of the entry, and
/// no other directory is entered.
pub proof fn lemma_episode_stays_on_entry(candidate: CandidateView, replies: Replies, i: int)
    requires
        0 <= i < episode(candidate, replies).len(),
    ensures
        episode(candidate, replies)[i].action.target() is Some ==> !candidate.skipped()
            && episode(candidate, replies)[i].action.target() == candidate.path,
{
    reveal_with_fuel(follow, 5);
}

/// A hidden entry is passed over: `git` is never run on its account.
pub proof fn lemma_hidden_entry_untouched(candidate: CandidateView, replies: Replies)
    requires
        candidate.hidden(),
    ensures
        episode(candidate, replies) == seq![next_entry(None)],
        !invokes_tool(episode(candidate, replies)),
{
}

/// An entry that is no directory is passed over: `git` is never run on its
/// account.
pub proof fn lemma_non_directory_untouched(candidate: CandidateView, replies: Replies)
    requires
        !candidate.is_dir,
    ensures
        episode(candidate, replies) == seq![next_entry(None)],
        !invokes_tool(episode(candidate, replies)),
{
}

/// Every episode ends, after five moves at most, with the run ready for
/// the next entry or given up; every move before the last runs `git` or
/// enters the directory.
pub proof fn lemma_episode_ends(candidate: CandidateView, replies: Replies)
    ensures
        1 <= episode(candidate, replies).len() <= 5,
        episode(candidate, replies).last().state is Start || episode(
            candidate,
            replies,
        ).last().state is Aborted,
        forall|i: int|
            0 <= i < episode(candidate, replies).len() - 1 ==> (#[trigger] episode(
                candidate,
                replies,
            )[i]).action.invokes_tool() || episode(candidate, replies)[i].action is Enter,
{
    reveal_with_fuel(follow, 5);
}

/// Where the repository check fails, the directory is announced as no
/// repository and no remote is read or written.
pub proof fn lemma_not_a_repository_left_alone(candidate: CandidateView, replies: Replies)
    requires
        !replies.check,
    ensures
        !touches_remote(episode(candidate, replies)),
        !candidate.skipped() && candidate.path is Some ==> episode(candidate, replies).last()
            == next_entry(Some(NoticeView::NotARepository)),
{
    reveal_with_fuel(follow, 5);
}

/// Where the directory cannot be entered, the run is given up before any
/// remote is read or written.
pub proof fn lemma_enter_failure_is_fatal(candidate: CandidateView, replies: Replies)
    requires
        !candidate.skipped(),
        candidate.path is Some,
        replies.check,
        !replies.enter,
    ensures
        !touches_remote(episode(candidate, replies)),
        episode(candidate, replies).last() == abort_with(Fatal::EnterFailed),
{
    reveal_with_fuel(follow, 5);
}

/// Where the read of `origin` fails, the failure is announced, nothing is
/// written, and the run goes on with the next entry.
pub proof fn lemma_unreadable_remote_left_alone(candidate: CandidateView, replies: Replies)
    requires
        !replies.read,
    ensures
        !writes_remote(episode(candidate, replies)),
        !candidate.skipped() && candidate.path is Some && replies.check && replies.enter
            ==> episode(candidate, replies).last() == next_entry(Some(NoticeView::ReadFailed)),
{
    reveal_with_fuel(follow, 5);
}

/// Where a successful read gives no new URL, the run is given up for that
/// reason, and nothing is written.
pub proof fn lemma_bad_output_is_fatal(
    candidate: CandidateView,
    replies: Replies,
    error: UrlError,
)
    requires
        !candidate.skipped(),
        candidate.path is Some,
        replies.check,
        replies.enter,
        replies.read,
        rewritten_output(replies.stdout) == Err::<Seq<char>, UrlError>(error),
    ensures
        !writes_remote(episode(candidate, replies)),
        episode(candidate, replies).last() == abort_with(Fatal::BadOutput(error)),
{
    reveal_with_fuel(follow, 5);
}

/// A remote is written exactly where the work on the entry gets as far as a
/// new URL, and then the episode is the full one: the URL written is the one
/// derived from what was read, and the outcome of the write is announced.
pub proof fn lemma_write_follows_read(candidate: CandidateView, replies: Replies)
    ensures
        writes_remote(episode(candidate, replies)) <==> reaches_write(candidate, replies),
        reaches_write(candidate, replies) ==> episode(candidate, replies) == full_episode(
            candidate.path.unwrap(),
            rewritten_output(replies.stdout).unwrap(),
            replies.write,
        ),
        url_written(episode(candidate, replies)) == if reaches_write(candidate, replies) {
            Some(rewritten_output(replies.stdout).unwrap())
        } else {
            None
        },
{
    reveal_with_fuel(follow, 5);
    let steps = episode(candidate, replies);
    if reaches_write(candidate, replies) {
        assert(steps[3].action is WriteOrigin);
    }
}

/// A second run changes nothing: where an episode writes a URL, a later
/// episode on the same entry, in which `git` prints that URL on a line of
/// its own and everything before the read goes as before, writes the same
/// URL.
pub proof fn lemma_second_run_writes_same_url(
    candidate: CandidateView,
    replies: Replies,
    write_again: bool,
)
    ensures
        url_written(episode(candidate, replies)) matches Some(url) ==> url_written(
            episode(candidate, replies.printing(url, write_again)),
        ) == Some(url),
{
    lemma_write_follows_read(candidate, replies);
    if let Some(url) = url_written(episode(candidate, replies)) {
        lemma_rewrite_output_idempotent(replies.stdout);
        lemma_write_follows_read(candidate, replies.printing(url, write_again));
    }
}

} // verus!
