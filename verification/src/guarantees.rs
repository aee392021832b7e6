//! What holds of every synchronization run, whatever the repository and the
//! network answer.
//!
//! A run is the opening step and the steps that answer a sequence of events.
//! The statements here speak of the operations that a run asks for; what a
//! repository makes of an operation is not theirs to say.

use vstd::prelude::*;
use crate::config::{AuthType, ProviderView};
use crate::credentials::{
    answer_challenge,
    resolve_strategy,
    ChallengeView,
    CredentialStrategyView,
    CredentialView,
};
use crate::git::{
    branch_ref,
    classify,
    creation_message,
    fast_forward_message,
    finish,
    merge_message,
    next,
    remaining,
    restoration_message,
    run,
    trace,
    ActionView,
    CheckoutMode,
    EventView,
    StepView,
    SyncStateView,
    HEAD,
};
use crate::outcome::{CredentialError, MergeAnalysis, SyncError, SyncOutcomeView};

verus! {

/// The states of a run that clones.
pub open spec fn cloning_state(s: SyncStateView) -> bool {
    match s {
        SyncStateView::CheckingCloneEnvironment => true,
        SyncStateView::Cloning => true,
        SyncStateView::DiscardingClone { .. } => true,
        SyncStateView::Finished { outcome } => outcome is Cloned || outcome is Failed,
        _ => false,
    }
}

/// The requests of a run that clones the repository of `p`.
pub open spec fn cloning_action(p: ProviderView, a: Option<ActionView>) -> bool {
    match a {
        None => true,
        Some(ActionView::CheckEnvironment { .. }) => true,
        Some(ActionView::Clone { url, branch, path, label, credentials }) => {
            &&& url == p.url
            &&& branch == p.branch
            &&& path == p.sync_dir
            &&& label == p.name
            &&& resolve_strategy(p.auth) == Ok::<CredentialStrategyView, SyncError>(credentials)
        },
        Some(ActionView::DiscardPartialClone { path }) => path == p.sync_dir,
        _ => false,
    }
}

/// The states of a run that does not clone.
pub open spec fn pulling_state(s: SyncStateView) -> bool {
    match s {
        SyncStateView::CheckingCloneEnvironment => false,
        SyncStateView::Cloning => false,
        SyncStateView::DiscardingClone { .. } => false,
        SyncStateView::Finished { outcome } => !(outcome is Cloned),
        _ => true,
    }
}

/// The requests of a run that does not clone.
pub open spec fn pulling_action(a: Option<ActionView>) -> bool {
    match a {
        Some(ActionView::Clone { .. }) => false,
        Some(ActionView::DiscardPartialClone { .. }) => false,
        _ => true,
    }
}

/// The trace of a run is the trace of the run without its last event,
/// followed by what the run asked for on that event.
pub proof fn trace_extends(p: ProviderView, is_dir: bool, events: Seq<EventView>)
    requires
        events.len() > 0,
    ensures
        trace(p, is_dir, events).len() == trace(p, is_dir, events.drop_last()).len() + 1,
        forall|i: int|
            0 <= i < trace(p, is_dir, events.drop_last()).len() ==> #[trigger] trace(
                p,
                is_dir,
                events,
            )[i] == trace(p, is_dir, events.drop_last())[i],
        trace(p, is_dir, events)[trace(p, is_dir, events.drop_last()).len() as int] == run(
            p,
            is_dir,
            events,
        ).action,
{
}

/// Where no directory stands at the place of the checkout, the run clones
/// and does nothing else: it asks for a check of the environment, for the
/// clone of the tracked branch from the address of the provider into that
/// place, or for the removal of a clone that failed, and it ends as cloned
/// or as failed. It never opens, fetches or merges.
pub proof fn missing_directory_only_clones(p: ProviderView, events: Seq<EventView>)
    ensures
        cloning_state(run(p, false, events).state),
        forall|i: int|
            0 <= i < trace(p, false, events).len() ==> cloning_action(
                p,
                #[trigger] trace(p, false, events)[i],
            ),
    decreases events.len(),
{
    if events.len() > 0 {
        missing_directory_only_clones(p, events.drop_last());
        trace_extends(p, false, events);
    }
}

/// The entries of a trace are what the run asked for after none, one, two
/// and so on of its events.
pub proof fn trace_follows_run(p: ProviderView, is_dir: bool, events: Seq<EventView>, i: int)
    requires
        0 <= i <= events.len(),
    ensures
        trace(p, is_dir, events).len() == events.len() + 1,
        trace(p, is_dir, events)[i] == run(p, is_dir, events.take(i)).action,
    decreases events.len(),
{
    if events.len() > 0 {
        trace_follows_run(p, is_dir, events.drop_last(), 0);
        if i < events.len() {
            trace_follows_run(p, is_dir, events.drop_last(), i);
            assert(events.drop_last().take(i) =~= events.take(i));
        } else {
            assert(events.take(i) =~= events);
        }
    } else {
        assert(events.take(i) =~= events);
    }
}

/// Once the clone has been asked for, the run is about to end: it may still
/// ask for the removal of what a failed clone left, and for nothing else.
proof fn after_the_clone(p: ProviderView, events: Seq<EventView>, i: int, j: int)
    requires
        0 <= i < j <= events.len(),
        run(p, false, events.take(i)).state is Cloning,
    ensures
        run(p, false, events.take(j)).state is DiscardingClone || run(
            p,
            false,
            events.take(j),
        ).state is Finished,
    decreases j - i,
{
    assert(events.take(j).drop_last() =~= events.take(j - 1));
    if i < j - 1 {
        after_the_clone(p, events, i, j - 1);
    }
}

/// A run asks for the clone once at most.
pub proof fn clone_is_asked_for_once(p: ProviderView, events: Seq<EventView>, i: int, j: int)
    requires
        0 <= i < j <= events.len(),
        trace(p, false, events)[i] matches Some(ActionView::Clone { .. }),
    ensures
        !(trace(p, false, events)[j] matches Some(ActionView::Clone { .. })),
{
    trace_follows_run(p, false, events, i);
    trace_follows_run(p, false, events, j);
    after_the_clone(p, events, i, j);
}

/// A clone that completes ends the run as cloned.
pub proof fn completed_clone_is_cloned(p: ProviderView, events: Seq<EventView>)
    requires
        run(p, false, events).state is Cloning,
    ensures
        run(p, false, events.push(EventView::Completed)) == finish(SyncOutcomeView::Cloned),
{
    let longer = events.push(EventView::Completed);
    assert(longer.drop_last() =~= events);
}

/// Where a directory stands at the place of the checkout, the run never
/// clones and never ends as cloned.
pub proof fn existing_directory_never_clones(p: ProviderView, events: Seq<EventView>)
    ensures
        pulling_state(run(p, true, events).state),
        forall|i: int|
            0 <= i < trace(p, true, events).len() ==> pulling_action(
                #[trigger] trace(p, true, events)[i],
            ),
    decreases events.len(),
{
    if events.len() > 0 {
        existing_directory_never_clones(p, events.drop_last());
        trace_extends(p, true, events);
    }
}

/// The states of a run that has looked at the repository and the remote
/// and has changed neither a reference nor the working tree.
pub open spec fn reading_state(s: SyncStateView) -> bool {
    match s {
        SyncStateView::Opening => true,
        SyncStateView::CheckingFetchEnvironment => true,
        SyncStateView::Fetching => true,
        SyncStateView::FindingBranch { .. } => true,
        SyncStateView::FindingMergeBase { .. } => true,
        SyncStateView::Finished { outcome } => outcome is UpToDate,
        _ => false,
    }
}

/// The requests that change neither a reference nor the working tree.
pub open spec fn reading_action(a: Option<ActionView>) -> bool {
    match a {
        None => true,
        Some(ActionView::CheckEnvironment { .. }) => true,
        Some(ActionView::OpenRepository { .. }) => true,
        Some(ActionView::Fetch { .. }) => true,
        Some(ActionView::FindReference { .. }) => true,
        Some(ActionView::FindMergeBase { .. }) => true,
        _ => false,
    }
}

/// A local head that is the fetched commit is up to date, whatever the
/// merge base is said to be, and the run ends there.
pub proof fn same_commit_is_up_to_date(
    p: ProviderView,
    fetched: Seq<char>,
    base: Option<Seq<char>>,
)
    ensures
        classify(Some(fetched), fetched, base) == MergeAnalysis::UpToDate,
        next(
            p,
            SyncStateView::FindingBranch { fetched },
            EventView::Lookup(Some(fetched)),
        ) == finish(SyncOutcomeView::UpToDate),
        next(
            p,
            SyncStateView::FindingMergeBase { local: fetched, fetched },
            EventView::Lookup(base),
        ) == finish(SyncOutcomeView::UpToDate),
{
}

/// A run that ends as up to date, and any run that is still finding out
/// what to do, has opened, fetched and looked up, and has asked for nothing
/// else: no reference was set, nothing was checked out, nothing committed.
pub proof fn up_to_date_changes_nothing(p: ProviderView, is_dir: bool, events: Seq<EventView>)
    requires
        reading_state(run(p, is_dir, events).state),
    ensures
        forall|i: int|
            0 <= i < trace(p, is_dir, events).len() ==> reading_action(
                #[trigger] trace(p, is_dir, events)[i],
            ),
    decreases events.len(),
{
    if events.len() > 0 {
        up_to_date_changes_nothing(p, is_dir, events.drop_last());
        trace_extends(p, is_dir, events);
    }
}

/// A run that finds the local branch at the fetched commit ends there as up
/// to date, and has asked for nothing on its way that sets a reference,
/// checks out or commits.
pub proof fn same_commit_ends_the_run_unchanged(
    p: ProviderView,
    is_dir: bool,
    events: Seq<EventView>,
    fetched: Seq<char>,
)
    requires
        run(p, is_dir, events).state == (SyncStateView::FindingBranch { fetched }),
    ensures
        run(p, is_dir, events.push(EventView::Lookup(Some(fetched)))) == finish(
            SyncOutcomeView::UpToDate,
        ),
        forall|i: int|
            0 <= i < trace(p, is_dir, events.push(EventView::Lookup(Some(fetched)))).len()
                ==> reading_action(
                #[trigger] trace(p, is_dir, events.push(EventView::Lookup(Some(fetched))))[i],
            ),
{
    let longer = events.push(EventView::Lookup(Some(fetched)));
    assert(longer.drop_last() =~= events);
    up_to_date_changes_nothing(p, is_dir, longer);
}

/// Where there is no local branch, the branch is created at the fetched
/// commit, made the head and checked out over whatever is in the way; the
/// run ends as fast-forwarded from nothing, or flags the paths that the
/// checkout found in conflict.
pub proof fn missing_branch_is_created(
    p: ProviderView,
    fetched: Seq<char>,
    paths: Seq<Seq<char>>,
)
    ensures
        ({
            let created = next(
                p,
                SyncStateView::FindingBranch { fetched },
                EventView::Lookup(None),
            );
            let headed = next(p, created.state, EventView::Completed);
            let checked_out = next(p, headed.state, EventView::Completed);
            &&& created.action == Some(
                ActionView::SetReference {
                    name: branch_ref(p.branch),
                    target: fetched,
                    create: true,
                    log_message: creation_message(p.branch, fetched),
                },
            )
            &&& headed.action == Some(ActionView::SetHead { name: branch_ref(p.branch) })
            &&& checked_out.action == Some(
                ActionView::CheckoutHead { mode: CheckoutMode::ForceTolerant },
            )
            &&& next(p, checked_out.state, EventView::Completed) == finish(
                SyncOutcomeView::FastForwarded(None, fetched),
            )
            &&& next(p, checked_out.state, EventView::Conflicts(paths)) == finish(
                SyncOutcomeView::ConflictDetected(paths),
            )
        }),
{
}

/// Where the local head is an ancestor of the fetched commit and not that
/// commit itself, which the merge base tells by being the local head, the
/// local branch is moved to the fetched commit, under a log entry that names
/// the branch, the commit it leaves and the commit it moves to, made the
/// head and checked out over local modifications, and the run ends as
/// fast-forwarded from the one to the other.
pub proof fn ancestor_is_fast_forwarded(p: ProviderView, local: Seq<char>, fetched: Seq<char>)
    requires
        local != fetched,
    ensures
        classify(Some(local), fetched, Some(local)) == MergeAnalysis::FastForwardable,
        ({
            let moved = next(
                p,
                SyncStateView::FindingMergeBase { local, fetched },
                EventView::Lookup(Some(local)),
            );
            let headed = next(p, moved.state, EventView::Completed);
            let checked_out = next(p, headed.state, EventView::Completed);
            &&& moved.action == Some(
                ActionView::SetReference {
                    name: branch_ref(p.branch),
                    target: fetched,
                    create: false,
                    log_message: fast_forward_message(branch_ref(p.branch), local, fetched),
                },
            )
            &&& headed.action == Some(ActionView::SetHead { name: branch_ref(p.branch) })
            &&& checked_out.action == Some(ActionView::CheckoutHead { mode: CheckoutMode::Force })
            &&& next(p, checked_out.state, EventView::Completed) == finish(
                SyncOutcomeView::FastForwarded(Some(local), fetched),
            )
        }),
{
}

/// A fast-forward moves the branch and the working tree together or not at
/// all. Where the moved branch cannot be made the head, the branch is asked
/// to be put back to the commit it was at, and the run ends as failed.
pub proof fn failed_head_puts_the_branch_back(
    p: ProviderView,
    local: Seq<char>,
    fetched: Seq<char>,
    failure: EventView,
    answer: EventView,
)
    requires
        !(failure is Completed),
    ensures
        ({
            let restoring = next(
                p,
                SyncStateView::SettingHead { old: Some(local), new: fetched },
                failure,
            );
            &&& restoring.action == Some(
                ActionView::SetReference {
                    name: branch_ref(p.branch),
                    target: local,
                    create: false,
                    log_message: restoration_message(branch_ref(p.branch), local),
                },
            )
            &&& next(p, restoring.state, answer) == finish(
                SyncOutcomeView::Failed(SyncError::CommitFailed),
            )
        }),
{
}

/// Where the checkout of the moved branch fails, the branch is asked to be
/// put back to the commit it was at and, once it is, the working tree to be
/// checked out again at that commit; then the run ends as failed. Where the
/// branch cannot be put back, the run ends as failed at once.
pub proof fn failed_checkout_puts_branch_and_tree_back(
    p: ProviderView,
    local: Seq<char>,
    fetched: Seq<char>,
    failure: EventView,
    answer: EventView,
)
    requires
        !(failure is Completed),
        !(failure is Conflicts),
    ensures
        ({
            let restoring = next(
                p,
                SyncStateView::CheckingOutBranch { old: Some(local), new: fetched },
                failure,
            );
            let tree = next(p, restoring.state, EventView::Completed);
            &&& restoring.action == Some(
                ActionView::SetReference {
                    name: branch_ref(p.branch),
                    target: local,
                    create: false,
                    log_message: restoration_message(branch_ref(p.branch), local),
                },
            )
            &&& tree.action == Some(ActionView::CheckoutHead { mode: CheckoutMode::Force })
            &&& next(p, tree.state, answer) == finish(
                SyncOutcomeView::Failed(SyncError::CommitFailed),
            )
            &&& !(answer is Completed) ==> next(p, restoring.state, answer) == finish(
                SyncOutcomeView::Failed(SyncError::CommitFailed),
            )
        }),
{
}

/// Where a branch that was created cannot be made the head or checked out,
/// it is asked to be removed again, and the run ends as failed.
pub proof fn failed_creation_removes_the_branch(
    p: ProviderView,
    fetched: Seq<char>,
    failure: EventView,
    answer: EventView,
)
    requires
        !(failure is Completed),
    ensures
        ({
            let unheaded = next(
                p,
                SyncStateView::SettingHead { old: None, new: fetched },
                failure,
            );
            let unchecked = next(
                p,
                SyncStateView::CheckingOutBranch { old: None, new: fetched },
                failure,
            );
            let removal = Some(ActionView::DeleteReference { name: branch_ref(p.branch) });
            &&& unheaded.action == removal
            &&& next(p, unheaded.state, answer) == finish(
                SyncOutcomeView::Failed(SyncError::CommitFailed),
            )
            &&& !(failure is Conflicts) ==> unchecked.action == removal && next(
                p,
                unchecked.state,
                answer,
            ) == finish(SyncOutcomeView::Failed(SyncError::CommitFailed))
        }),
{
}

/// A move of the branch that fails itself leaves the branch where it was:
/// the run ends as failed and asks for nothing.
pub proof fn failed_move_ends_the_run(
    p: ProviderView,
    old: Option<Seq<char>>,
    fetched: Seq<char>,
    failure: EventView,
)
    requires
        !(failure is Completed),
    ensures
        next(p, SyncStateView::SettingBranch { old, new: fetched }, failure) == finish(
            SyncOutcomeView::Failed(SyncError::CommitFailed),
        ),
{
}

/// Where the histories have diverged, which the merge base tells by being
/// neither commit, and their trees merge without conflict, a merge commit is
/// asked for whose parents are the local head and the fetched commit, in
/// that order, and whose message names both; it is checked out over what
/// the working tree holds, so that the working tree is that of the merge,
/// and the run ends as merged with the commit that was made.
pub proof fn clean_merge_is_committed(
    p: ProviderView,
    local: Seq<char>,
    fetched: Seq<char>,
    base: Seq<char>,
    commit: Seq<char>,
)
    requires
        local != fetched,
        base != local,
        base != fetched,
    ensures
        classify(Some(local), fetched, Some(base)) == MergeAnalysis::Divergent,
        ({
            let merging = next(
                p,
                SyncStateView::FindingMergeBase { local, fetched },
                EventView::Lookup(Some(base)),
            );
            let committing = next(p, merging.state, EventView::Completed);
            let checking_out = next(p, committing.state, EventView::Commit(commit));
            &&& merging.action == Some(
                ActionView::MergeTrees { ancestor: base, ours: local, theirs: fetched },
            )
            &&& committing.action == Some(
                ActionView::Commit {
                    update_ref: HEAD@,
                    message: merge_message(fetched, local),
                    first_parent: local,
                    second_parent: fetched,
                },
            )
            &&& checking_out.action == Some(
                ActionView::CheckoutHead { mode: CheckoutMode::Force },
            )
            &&& next(p, checking_out.state, EventView::Completed) == finish(
                SyncOutcomeView::Merged(commit),
            )
        }),
{
}

/// Diverged histories without a common ancestor cannot be merged.
pub proof fn unrelated_histories_fail(p: ProviderView, local: Seq<char>, fetched: Seq<char>)
    requires
        local != fetched,
    ensures
        next(
            p,
            SyncStateView::FindingMergeBase { local, fetched },
            EventView::Lookup(None),
        ) == finish(SyncOutcomeView::Failed(SyncError::MergeBaseNotFound)),
{
}

/// The states of a run that has changed no reference and made no commit.
pub open spec fn merging_state(s: SyncStateView) -> bool {
    match s {
        SyncStateView::Opening => true,
        SyncStateView::CheckingFetchEnvironment => true,
        SyncStateView::Fetching => true,
        SyncStateView::FindingBranch { .. } => true,
        SyncStateView::FindingMergeBase { .. } => true,
        SyncStateView::MergingTrees { .. } => true,
        SyncStateView::ShowingConflicts { .. } => true,
        _ => false,
    }
}

/// The requests that change no reference and make no commit.
pub open spec fn merging_action(a: Option<ActionView>) -> bool {
    match a {
        Some(ActionView::MergeTrees { .. }) => true,
        Some(ActionView::CheckoutIndex) => true,
        _ => reading_action(a),
    }
}

/// A merge that leaves paths in conflict is written to the working tree as
/// it is, conflicts included.
pub proof fn conflicting_merge_is_shown(
    p: ProviderView,
    local: Seq<char>,
    fetched: Seq<char>,
    paths: Seq<Seq<char>>,
)
    ensures
        next(
            p,
            SyncStateView::MergingTrees { local, fetched },
            EventView::Conflicts(paths),
        ) == (StepView {
            state: SyncStateView::ShowingConflicts { paths },
            action: Some(ActionView::CheckoutIndex),
        }),
{
}

/// A run that has come to show the conflicts of a merge has set no
/// reference and made no commit, and will not: whatever comes of writing the
/// conflicts out, the run ends with the conflicting paths and asks for
/// nothing more.
pub proof fn conflicts_are_left_to_the_user(
    p: ProviderView,
    is_dir: bool,
    events: Seq<EventView>,
    answer: EventView,
)
    requires
        merging_state(run(p, is_dir, events).state),
    ensures
        forall|i: int|
            0 <= i < trace(p, is_dir, events).len() ==> merging_action(
                #[trigger] trace(p, is_dir, events)[i],
            ),
        run(p, is_dir, events).state matches SyncStateView::ShowingConflicts { paths } ==> run(
            p,
            is_dir,
            events.push(answer),
        ) == finish(SyncOutcomeView::ConflictDetected(paths)),
    decreases events.len(),
{
    if events.len() > 0 {
        conflicts_are_left_to_the_user(p, is_dir, events.drop_last(), answer);
        trace_extends(p, is_dir, events);
    }
    assert(events.push(answer).drop_last() =~= events);
}

/// The requests that hand no credentials to the remote and read none.
pub open spec fn anonymous_action(a: Option<ActionView>) -> bool {
    match a {
        Some(ActionView::CheckEnvironment { .. }) => false,
        Some(ActionView::Clone { credentials, .. }) => credentials is Anonymous,
        Some(ActionView::Fetch { credentials, .. }) => credentials is Anonymous,
        _ => true,
    }
}

/// A token whose variable names do not both carry the sentinel resolves to
/// anonymous transport. No run for it asks to look at the environment, every
/// transfer it asks for is anonymous, and a challenge is answered with a
/// refusal and never with credentials.
pub proof fn unmarked_token_reads_nothing(p: ProviderView, is_dir: bool, events: Seq<EventView>)
    requires
        p.auth.kind == AuthType::Token,
        p.auth.username is Some,
        p.auth.password is Some,
        !p.auth.valid_cred(),
    ensures
        resolve_strategy(p.auth) == Ok::<CredentialStrategyView, SyncError>(
            CredentialStrategyView::Anonymous,
        ),
        forall|found: ChallengeView| #[trigger]
            answer_challenge(CredentialStrategyView::Anonymous, found) == Err::<
                CredentialView,
                CredentialError,
            >(CredentialError::Required),
        forall|i: int|
            0 <= i < trace(p, is_dir, events).len() ==> anonymous_action(
                #[trigger] trace(p, is_dir, events)[i],
            ),
    decreases events.len(),
{
    if events.len() > 0 {
        unmarked_token_reads_nothing(p, is_dir, events.drop_last());
        trace_extends(p, is_dir, events);
    }
}

/// Every answer brings a run that is not over closer to its end, and a run
/// that asks for nothing more is over.
pub proof fn every_step_advances(p: ProviderView, state: SyncStateView, event: EventView)
    ensures
        !(state is Finished) ==> remaining(next(p, state, event).state) < remaining(state),
        next(p, state, event).action is None <==> next(p, state, event).state is Finished,
{
}

/// A run is over after ten answers at the latest, and from then on no
/// answer changes its outcome.
pub proof fn run_ends(p: ProviderView, is_dir: bool, events: Seq<EventView>)
    ensures
        events.len() + remaining(run(p, is_dir, events).state) <= 10 || run(
            p,
            is_dir,
            events,
        ).state is Finished,
        events.len() >= 10 ==> run(p, is_dir, events).state is Finished,
        run(p, is_dir, events).action is None <==> run(p, is_dir, events).state is Finished,
        forall|answer: EventView|
            run(p, is_dir, events).state is Finished ==> #[trigger] run(
                p,
                is_dir,
                events.push(answer),
            ) == run(p, is_dir, events),
    decreases events.len(),
{
    if events.len() > 0 {
        run_ends(p, is_dir, events.drop_last());
    }
    let over = run(p, is_dir, events);
    assert forall|answer: EventView| over.state is Finished implies #[trigger] run(
        p,
        is_dir,
        events.push(answer),
    ) == over by {
        assert(events.push(answer).drop_last() =~= events);
    }
}

/// Where no directory stands at the place of the checkout, the policy of
/// the provider is valid and every operation completes, the run ends as
/// cloned.
pub proof fn undisturbed_clone_is_cloned(p: ProviderView, events: Seq<EventView>)
    requires
        p.auth.well_formed(),
        forall|i: int| 0 <= i < events.len() ==> events[i] is Completed,
        run(p, false, events).state is Finished,
    ensures
        run(p, false, events) == finish(SyncOutcomeView::Cloned),
{
    undisturbed_clone_is_cloning(p, events);
}

/// While every operation completes, a run over a place without a directory
/// is on its way to be cloned.
proof fn undisturbed_clone_is_cloning(p: ProviderView, events: Seq<EventView>)
    requires
        p.auth.well_formed(),
        forall|i: int| 0 <= i < events.len() ==> events[i] is Completed,
    ensures
        run(p, false, events).state is CheckingCloneEnvironment || run(
            p,
            false,
            events,
        ).state is Cloning || run(p, false, events) == finish(SyncOutcomeView::Cloned),
    decreases events.len(),
{
    if events.len() > 0 {
        undisturbed_clone_is_cloning(p, events.drop_last());
    }
}

/// A clone that does not complete is discarded before the run ends as
/// failed: what it left at the place of the checkout is asked to be removed,
/// so that a later run finds no directory there and clones again.
pub proof fn failed_clone_is_discarded(p: ProviderView, failure: EventView, answer: EventView)
    requires
        !(failure is Completed),
    ensures
        ({
            let discarding = next(p, SyncStateView::Cloning, failure);
            let over = next(p, discarding.state, answer);
            &&& discarding.action == Some(ActionView::DiscardPartialClone { path: p.sync_dir })
            &&& over.action is None
            &&& over.state matches SyncStateView::Finished { outcome } && outcome is Failed
        }),
{
}

} // verus!
