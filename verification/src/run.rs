//! A whole run: the episodes of the entries of a listing, one after the
//! other, up to the end of the listing or the first episode that gives the
//! run up.

use vstd::prelude::*;
use crate::entry::CandidateView;
use crate::episode::{episode, follow, lemma_episode_ends, lemma_episode_stays_on_entry, Replies};
use crate::machine::spec_step;
use crate::protocol::{ActionView, EventView, StateView, StepView};
use crate::url::rewritten_output;

verus! {

/// One entry of a listing, and how the surroundings answer while it is
/// worked on.
pub struct Visit {
    pub candidate: CandidateView,
    pub replies: Replies,
}

impl Visit {
    /// Whether the work on the entry gives the run up: the entry is looked
    /// at, and its path is not text, or the check succeeds and then either
    /// the directory cannot be entered or a successful read gives no new
    /// URL.
    pub open spec fn fatal(self) -> bool {
        &&& !self.candidate.skipped()
        &&& {
            ||| self.candidate.path is None
            ||| self.replies.check && !self.replies.enter
            ||| self.replies.check && self.replies.read && rewritten_output(
                self.replies.stdout,
            ) is Err
        }
    }
}

/// The move that ends a run whose listing is exhausted.
pub open spec fn finish() -> StepView {
    StepView { state: StateView::Completed, notice: None, action: ActionView::Finish }
}

/// The moves of a run over `listing`, in the order of the listing.
pub open spec fn run(listing: Seq<Visit>) -> Seq<StepView>
    decreases listing.len(),
{
    if listing.len() == 0 {
        seq![spec_step(StateView::Start, EventView::EndOfEntries)]
    } else {
        let first = episode(listing[0].candidate, listing[0].replies);
        if first.last().state is Start {
            first + run(listing.drop_first())
        } else {
            first
        }
    }
}

/// An episode gives the run up exactly on a fatal visit; on any other it
/// leaves the run ready for the next entry.
pub proof fn lemma_episode_aborts_iff_fatal(visit: Visit)
    ensures
        episode(visit.candidate, visit.replies).last().state is Aborted <==> visit.fatal(),
        episode(visit.candidate, visit.replies).last().state is Start <==> !visit.fatal(),
{
    reveal_with_fuel(follow, 5);
}

/// Every run ends, and its last move either finishes it or gives it up.
pub proof fn lemma_run_ends(listing: Seq<Visit>)
    ensures
        run(listing).len() >= 1,
        run(listing).last().action is Finish || run(listing).last().action is Abort,
    decreases listing.len(),
{
    if listing.len() > 0 {
        lemma_episode_ends(listing[0].candidate, listing[0].replies);
        lemma_run_ends(listing.drop_first());
        reveal_with_fuel(follow, 5);
    }
}

/// A run over a listing without a fatal visit finishes with success, however
/// many of its subcommands report failure.
pub proof fn lemma_run_finishes(listing: Seq<Visit>)
    requires
        forall|k: int| 0 <= k < listing.len() ==> !(#[trigger] listing[k]).fatal(),
    ensures
        run(listing).last() == finish(),
    decreases listing.len(),
{
    if listing.len() > 0 {
        let rest = listing.drop_first();
        assert forall|k: int| 0 <= k < rest.len() implies !(#[trigger] rest[k]).fatal() by {
            assert(rest[k] == listing[k + 1]);
        }
        lemma_episode_aborts_iff_fatal(listing[0]);
        lemma_episode_ends(listing[0].candidate, listing[0].replies);
        lemma_run_finishes(rest);
        lemma_run_ends(rest);
    }
}

/// A run is given up at the first fatal visit of its listing: it ends with
/// the last move of that visit's episode.
pub proof fn lemma_run_stops_at_first_fatal(listing: Seq<Visit>, k: int)
    requires
        0 <= k < listing.len(),
        listing[k].fatal(),
        forall|j: int| 0 <= j < k ==> !(#[trigger] listing[j]).fatal(),
    ensures
        run(listing).last() == episode(listing[k].candidate, listing[k].replies).last(),
        run(listing).last().action is Abort,
    decreases listing.len(),
{
    lemma_episode_aborts_iff_fatal(listing[0]);
    lemma_episode_ends(listing[0].candidate, listing[0].replies);
    reveal_with_fuel(follow, 5);
    if k > 0 {
        let rest = listing.drop_first();
        assert(rest[k - 1] == listing[k]);
        assert forall|j: int| 0 <= j < k - 1 implies !(#[trigger] rest[j]).fatal() by {
            assert(rest[j] == listing[j + 1]);
        }
        lemma_run_stops_at_first_fatal(rest, k - 1);
        lemma_run_ends(rest);
    }
}

/// Whatever a run checks or enters is the path of an entry of the listing
/// that is neither hidden nor a non-directory.
pub proof fn lemma_run_looks_at_visible_directories(listing: Seq<Visit>, i: int)
    requires
        0 <= i < run(listing).len(),
        run(listing)[i].action.target() is Some,
    ensures
        exists|k: int|
            0 <= k < listing.len() && !(#[trigger] listing[k]).candidate.skipped()
                && listing[k].candidate.path == run(listing)[i].action.target(),
    decreases listing.len(),
{
    if listing.len() > 0 {
        let first = episode(listing[0].candidate, listing[0].replies);
        if i < first.len() {
            lemma_episode_stays_on_entry(listing[0].candidate, listing[0].replies, i);
            assert(!listing[0].candidate.skipped());
        } else {
            let rest = listing.drop_first();
            lemma_run_looks_at_visible_directories(rest, i - first.len());
            let k = choose|k: int|
                0 <= k < rest.len() && !(#[trigger] rest[k]).candidate.skipped()
                    && rest[k].candidate.path == run(rest)[i - first.len()].action.target();
            assert(rest[k] == listing[k + 1]);
        }
    }
}

} // verus!
