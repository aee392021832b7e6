//! The synchronization of one provider, as a conversation.
//!
//! The orchestrator never touches a repository or the network. It asks for
//! one operation at a time, an [`Action`], and is told what came of it, an
//! [`Event`]. [`download`] opens the conversation from a probe of the local
//! directory, [`step`] continues it, and it is over when a step asks for
//! nothing more: the state then holds the [`SyncOutcome`]. [`synchronize`]
//! holds the whole conversation with a function that performs the
//! operations, and [`synchronize_all`] does so for one provider after the
//! other.
//!
//! A missing directory is cloned into. An existing one is opened, the tracked
//! branch is fetched, and the local branch is brought up to the fetched
//! commit: created where it does not exist, left alone where it holds the
//! commit already, moved forward where it is an ancestor, merged otherwise.
//! A branch that was moved or created is put back or removed again where
//! the head or the working tree cannot follow it.

use vstd::pervasive::unreached;
use vstd::prelude::*;
use vstd::string::*;
use crate::config::{Provider, ProviderView};
use crate::credentials::{resolve_strategy, CredentialStrategy, CredentialStrategyView};
use crate::outcome::{
    CommitId,
    CredentialError,
    MergeAnalysis,
    SyncError,
    SyncOutcome,
    SyncOutcomeView,
};

verus! {

/// How a checkout treats what is in the working tree.
#[derive(Clone, Copy, Debug, PartialEq, Eq, Structural)]
pub enum CheckoutMode {
    /// Local modifications are overwritten.
    Force,
    /// Local modifications are overwritten, and files in the way are
    /// reported as conflicts, in merge style, instead of failing the checkout.
    ForceTolerant,
}

/// One operation on the repository or the network that the caller is asked
/// to perform.
#[derive(Clone, Debug, PartialEq, Eq)]
pub enum Action {
    /// See whether both environment variables are set, without keeping what
    /// they hold.
    CheckEnvironment { username_var: String, password_var: String },
    /// Clone `branch` of the repository at `url` into `path`, reporting
    /// progress under `label`.
    Clone {
        url: String,
        branch: String,
        path: String,
        label: String,
        credentials: CredentialStrategy,
    },
    /// Remove what a failed clone left at `path`.
    DiscardPartialClone { path: String },
    /// Open the repository at `path`.
    OpenRepository { path: String },
    /// Fetch `branch`, and no other branch, from `remote`, together with all
    /// tags if `all_tags` is set, and report the commit that was fetched.
    Fetch { remote: String, branch: String, all_tags: bool, credentials: CredentialStrategy },
    /// Look up the commit that the reference `name` points at.
    FindReference { name: String },
    /// Find the best common ancestor of two commits.
    FindMergeBase { ours: CommitId, theirs: CommitId },
    /// Point the reference `name` at `target`: an existing reference is
    /// moved, and with `create` it is made anew, replacing any of that name.
    SetReference { name: String, target: CommitId, create: bool, log_message: String },
    /// Remove the reference `name`.
    DeleteReference { name: String },
    /// Make the reference `name` the head of the repository.
    SetHead { name: String },
    /// Bring the working tree to the head of the repository.
    CheckoutHead { mode: CheckoutMode },
    /// Merge the trees of `ours` and `theirs` over that of `ancestor`, in
    /// memory, and report the paths in conflict, if any.
    MergeTrees { ancestor: CommitId, ours: CommitId, theirs: CommitId },
    /// Write the merge just made, conflicts included, to the working tree.
    CheckoutIndex,
    /// Commit the merge just made under the configured identity, with these
    /// two parents, and move `update_ref` to the new commit.
    Commit { update_ref: String, message: String, first_parent: CommitId, second_parent: CommitId },
}

/// The mathematical model of an [`Action`].
pub enum ActionView {
    CheckEnvironment { username_var: Seq<char>, password_var: Seq<char> },
    Clone {
        url: Seq<char>,
        branch: Seq<char>,
        path: Seq<char>,
        label: Seq<char>,
        credentials: CredentialStrategyView,
    },
    DiscardPartialClone { path: Seq<char> },
    OpenRepository { path: Seq<char> },
    Fetch {
        remote: Seq<char>,
        branch: Seq<char>,
        all_tags: bool,
        credentials: CredentialStrategyView,
    },
    FindReference { name: Seq<char> },
    FindMergeBase { ours: Seq<char>, theirs: Seq<char> },
    SetReference { name: Seq<char>, target: Seq<char>, create: bool, log_message: Seq<char> },
    DeleteReference { name: Seq<char> },
    SetHead { name: Seq<char> },
    CheckoutHead { mode: CheckoutMode },
    MergeTrees { ancestor: Seq<char>, ours: Seq<char>, theirs: Seq<char> },
    CheckoutIndex,
    Commit {
        update_ref: Seq<char>,
        message: Seq<char>,
        first_parent: Seq<char>,
        second_parent: Seq<char>,
    },
}

impl View for Action {
    type V = ActionView;

    open spec fn view(&self) -> ActionView {
        match self {
            Action::CheckEnvironment { username_var, password_var } => {
                ActionView::CheckEnvironment {
                    username_var: username_var@,
                    password_var: password_var@,
                }
            },
            Action::Clone { url, branch, path, label, credentials } => ActionView::Clone {
                url: url@,
                branch: branch@,
                path: path@,
                label: label@,
                credentials: credentials@,
            },
            Action::DiscardPartialClone { path } => ActionView::DiscardPartialClone {
                path: path@,
            },
            Action::OpenRepository { path } => ActionView::OpenRepository { path: path@ },
            Action::Fetch { remote, branch, all_tags, credentials } => ActionView::Fetch {
                remote: remote@,
                branch: branch@,
                all_tags: *all_tags,
                credentials: credentials@,
            },
            Action::FindReference { name } => ActionView::FindReference { name: name@ },
            Action::FindMergeBase { ours, theirs } => ActionView::FindMergeBase {
                ours: ours@,
                theirs: theirs@,
            },
            Action::SetReference { name, target, create, log_message } => {
                ActionView::SetReference {
                    name: name@,
                    target: target@,
                    create: *create,
                    log_message: log_message@,
                }
            },
            Action::DeleteReference { name } => ActionView::DeleteReference { name: name@ },
            Action::SetHead { name } => ActionView::SetHead { name: name@ },
            Action::CheckoutHead { mode } => ActionView::CheckoutHead { mode: *mode },
            Action::MergeTrees { ancestor, ours, theirs } => ActionView::MergeTrees {
                ancestor: ancestor@,
                ours: ours@,
                theirs: theirs@,
            },
            Action::CheckoutIndex => ActionView::CheckoutIndex,
            Action::Commit { update_ref, message, first_parent, second_parent } => {
                ActionView::Commit {
                    update_ref: update_ref@,
                    message: message@,
                    first_parent: first_parent@,
                    second_parent: second_parent@,
                }
            },
        }
    }
}

impl DeepView for Action {
    type V = ActionView;

    open spec fn deep_view(&self) -> ActionView {
        self@
    }
}

/// What came of the operation that was asked for last.
#[derive(Clone, Debug, PartialEq, Eq)]
pub enum Event {
    /// It succeeded and there is nothing to report.
    Completed,
    /// It failed.
    Failed,
    /// The transfer failed because the credential strategy had no answer to
    /// a challenge.
    AuthFailed(CredentialError),
    /// It succeeded and made or found this commit.
    Commit(CommitId),
    /// The lookup gave this commit, or found none.
    Lookup(Option<CommitId>),
    /// It went through and left these paths in conflict.
    Conflicts(Vec<String>),
}

/// The mathematical model of an [`Event`].
pub enum EventView {
    Completed,
    Failed,
    AuthFailed(CredentialError),
    Commit(Seq<char>),
    Lookup(Option<Seq<char>>),
    Conflicts(Seq<Seq<char>>),
}

impl View for Event {
    type V = EventView;

    open spec fn view(&self) -> EventView {
        match self {
            Event::Completed => EventView::Completed,
            Event::Failed => EventView::Failed,
            Event::AuthFailed(e) => EventView::AuthFailed(*e),
            Event::Commit(id) => EventView::Commit(id@),
            Event::Lookup(id) => EventView::Lookup(id.deep_view()),
            Event::Conflicts(paths) => EventView::Conflicts(paths.deep_view()),
        }
    }
}

/// Where the conversation stands: which answer is awaited, and what has to
/// be remembered until it comes.
#[derive(Clone, Debug, PartialEq, Eq)]
pub enum SyncState {
    /// Awaiting the check of the environment before a clone.
    CheckingCloneEnvironment,
    /// Awaiting the clone.
    Cloning,
    /// Awaiting the removal of what a failed clone left behind.
    DiscardingClone { reason: SyncError },
    /// Awaiting the opening of the repository.
    Opening,
    /// Awaiting the check of the environment before a fetch.
    CheckingFetchEnvironment,
    /// Awaiting the fetch.
    Fetching,
    /// Awaiting the lookup of the local branch.
    FindingBranch { fetched: CommitId },
    /// Awaiting the merge base of the local head and the fetched commit.
    FindingMergeBase { local: CommitId, fetched: CommitId },
    /// Awaiting the move, or the creation where `old` is `None`, of the
    /// local branch.
    SettingBranch { old: Option<CommitId>, new: CommitId },
    /// Awaiting the local branch to become the head.
    SettingHead { old: Option<CommitId>, new: CommitId },
    /// Awaiting the checkout of the branch that moved.
    CheckingOutBranch { old: Option<CommitId>, new: CommitId },
    /// Awaiting the local branch to be put back where it was, after a move
    /// that could not be completed. `tree` says that the working tree has
    /// to be put back after it.
    RestoringBranch { reason: SyncError, tree: bool },
    /// Awaiting the working tree to be put back where it was.
    RestoringTree { reason: SyncError },
    /// Awaiting the merge of the trees.
    MergingTrees { local: CommitId, fetched: CommitId },
    /// Awaiting the conflicts to be written to the working tree.
    ShowingConflicts { paths: Vec<String> },
    /// Awaiting the merge commit.
    Committing,
    /// Awaiting the checkout of the merge commit.
    CheckingOutMerge { commit: CommitId },
    /// The run is over.
    Finished { outcome: SyncOutcome },
}

/// The mathematical model of a [`SyncState`].
pub enum SyncStateView {
    CheckingCloneEnvironment,
    Cloning,
    DiscardingClone { reason: SyncError },
    Opening,
    CheckingFetchEnvironment,
    Fetching,
    FindingBranch { fetched: Seq<char> },
    FindingMergeBase { local: Seq<char>, fetched: Seq<char> },
    SettingBranch { old: Option<Seq<char>>, new: Seq<char> },
    SettingHead { old: Option<Seq<char>>, new: Seq<char> },
    CheckingOutBranch { old: Option<Seq<char>>, new: Seq<char> },
    RestoringBranch { reason: SyncError, tree: bool },
    RestoringTree { reason: SyncError },
    MergingTrees { local: Seq<char>, fetched: Seq<char> },
    ShowingConflicts { paths: Seq<Seq<char>> },
    Committing,
    CheckingOutMerge { commit: Seq<char> },
    Finished { outcome: SyncOutcomeView },
}

impl View for SyncState {
    type V = SyncStateView;

    open spec fn view(&self) -> SyncStateView {
        match self {
            SyncState::CheckingCloneEnvironment => SyncStateView::CheckingCloneEnvironment,
            SyncState::Cloning => SyncStateView::Cloning,
            SyncState::DiscardingClone { reason } => SyncStateView::DiscardingClone {
                reason: *reason,
            },
            SyncState::Opening => SyncStateView::Opening,
            SyncState::CheckingFetchEnvironment => SyncStateView::CheckingFetchEnvironment,
            SyncState::Fetching => SyncStateView::Fetching,
            SyncState::FindingBranch { fetched } => SyncStateView::FindingBranch {
                fetched: fetched@,
            },
            SyncState::FindingMergeBase { local, fetched } => SyncStateView::FindingMergeBase {
                local: local@,
                fetched: fetched@,
            },
            SyncState::SettingBranch { old, new } => SyncStateView::SettingBranch {
                old: old.deep_view(),
                new: new@,
            },
            SyncState::SettingHead { old, new } => SyncStateView::SettingHead {
                old: old.deep_view(),
                new: new@,
            },
            SyncState::CheckingOutBranch { old, new } => SyncStateView::CheckingOutBranch {
                old: old.deep_view(),
                new: new@,
            },
            SyncState::RestoringBranch { reason, tree } => SyncStateView::RestoringBranch {
                reason: *reason,
                tree: *tree,
            },
            SyncState::RestoringTree { reason } => SyncStateView::RestoringTree {
                reason: *reason,
            },
            SyncState::MergingTrees { local, fetched } => SyncStateView::MergingTrees {
                local: local@,
                fetched: fetched@,
            },
            SyncState::ShowingConflicts { paths } => SyncStateView::ShowingConflicts {
                paths: paths.deep_view(),
            },
            SyncState::Committing => SyncStateView::Committing,
            SyncState::CheckingOutMerge { commit } => SyncStateView::CheckingOutMerge {
                commit: commit@,
            },
            SyncState::Finished { outcome } => SyncStateView::Finished { outcome: outcome@ },
        }
    }
}

/// One turn of the conversation: the state it leads to, and the operation
/// to perform next, if there is one.
#[derive(Clone, Debug, PartialEq, Eq)]
pub struct Step {
    pub state: SyncState,
    pub action: Option<Action>,
}

/// The mathematical model of a [`Step`].
pub struct StepView {
    pub state: SyncStateView,
    pub action: Option<ActionView>,
}

impl View for Step {
    type V = StepView;

    open spec fn view(&self) -> StepView {
        StepView { state: self.state@, action: self.action.deep_view() }
    }
}

impl Step {
    /// The outcome of the run, once it is over.
    pub fn outcome(&self) -> (r: Option<&SyncOutcome>)
        ensures
            match r {
                Some(o) => self.state@ == (SyncStateView::Finished { outcome: o@ }),
                None => !(self.state@ is Finished),
            },
    {
        match &self.state {
            SyncState::Finished { outcome } => Some(outcome),
            _ => None,
        }
    }
}

/// The name of the remote that a pull fetches from.
pub const REMOTE: &'static str = "origin";

/// The reference that a merge commit moves.
pub const HEAD: &'static str = "HEAD";

/// What the full name of a local branch starts with.
pub const BRANCH_PREFIX: &'static str = "refs/heads/";

/// The full name of the local branch `branch`.
pub open spec fn branch_ref(branch: Seq<char>) -> Seq<char> {
    BRANCH_PREFIX@ + branch
}

/// The reference log entry of a branch `name` that is moved forward from
/// `old` to `new`.
pub open spec fn fast_forward_message(name: Seq<char>, old: Seq<char>, new: Seq<char>) -> Seq<
    char,
> {
    "Fast-Forward: Setting "@ + name + " from id: "@ + old + " to id: "@ + new
}

/// The reference log entry of a branch `name` that is put back to `id`.
pub open spec fn restoration_message(name: Seq<char>, id: Seq<char>) -> Seq<char> {
    "Fast-Forward: Restoring "@ + name + " to id: "@ + id
}

/// The reference log entry of a branch `branch` that is created at `id`.
pub open spec fn creation_message(branch: Seq<char>, id: Seq<char>) -> Seq<char> {
    "Setting "@ + branch + " to "@ + id
}

/// The message of the commit that merges `theirs` into `ours`.
pub open spec fn merge_message(theirs: Seq<char>, ours: Seq<char>) -> Seq<char> {
    "Merge: "@ + theirs + " into "@ + ours
}

/// The step that ends a run with `outcome`.
pub open spec fn finish(outcome: SyncOutcomeView) -> StepView {
    StepView { state: SyncStateView::Finished { outcome }, action: None }
}

/// The request to clone the repository of `p` with `credentials`.
pub open spec fn clone_with(p: ProviderView, credentials: CredentialStrategyView) -> StepView {
    StepView {
        state: SyncStateView::Cloning,
        action: Some(
            ActionView::Clone {
                url: p.url,
                branch: p.branch,
                path: p.sync_dir,
                label: p.name,
                credentials,
            },
        ),
    }
}

/// The request to fetch the tracked branch of `p` with `credentials`.
pub open spec fn fetch_with(p: ProviderView, credentials: CredentialStrategyView) -> StepView {
    StepView {
        state: SyncStateView::Fetching,
        action: Some(
            ActionView::Fetch {
                remote: REMOTE@,
                branch: p.branch,
                all_tags: true,
                credentials,
            },
        ),
    }
}

/// The clone of `p`, once its credentials are known to be at hand.
pub open spec fn clone_request(p: ProviderView) -> StepView {
    match resolve_strategy(p.auth) {
        Err(e) => finish(SyncOutcomeView::Failed(e)),
        Ok(s) => clone_with(p, s),
    }
}

/// The fetch for `p`, once its credentials are known to be at hand.
pub open spec fn fetch_request(p: ProviderView) -> StepView {
    match resolve_strategy(p.auth) {
        Err(e) => finish(SyncOutcomeView::Failed(e)),
        Ok(s) => fetch_with(p, s),
    }
}

/// How the clone path opens: an invalid policy ends the run, credentials
/// from the environment are checked for before anything is transferred, and
/// otherwise the clone is asked for.
pub open spec fn begin_clone(p: ProviderView) -> StepView {
    match resolve_strategy(p.auth) {
        Err(e) => finish(SyncOutcomeView::Failed(e)),
        Ok(s) => match s {
            CredentialStrategyView::Environment { username_var, password_var } => StepView {
                state: SyncStateView::CheckingCloneEnvironment,
                action: Some(ActionView::CheckEnvironment { username_var, password_var }),
            },
            _ => clone_with(p, s),
        },
    }
}

/// How the fetch of the pull path opens, in the same way as the clone.
pub open spec fn begin_fetch(p: ProviderView) -> StepView {
    match resolve_strategy(p.auth) {
        Err(e) => finish(SyncOutcomeView::Failed(e)),
        Ok(s) => match s {
            CredentialStrategyView::Environment { username_var, password_var } => StepView {
                state: SyncStateView::CheckingFetchEnvironment,
                action: Some(ActionView::CheckEnvironment { username_var, password_var }),
            },
            _ => fetch_with(p, s),
        },
    }
}

/// How the pull path opens: with the repository.
pub open spec fn begin_pull(p: ProviderView) -> StepView {
    StepView {
        state: SyncStateView::Opening,
        action: Some(ActionView::OpenRepository { path: p.sync_dir }),
    }
}

/// How a run opens: a directory at the place of the checkout is taken for a
/// repository and pulled into, anything else is cloned over.
pub open spec fn start(p: ProviderView, is_dir: bool) -> StepView {
    if is_dir {
        begin_pull(p)
    } else {
        begin_clone(p)
    }
}

/// How a failed clone is wound up.
pub open spec fn discard_clone(p: ProviderView, reason: SyncError) -> StepView {
    StepView {
        state: SyncStateView::DiscardingClone { reason },
        action: Some(ActionView::DiscardPartialClone { path: p.sync_dir }),
    }
}

/// How the local branch relates to the fetched commit.
///
/// `local` is the head of the local branch, if the branch exists, and `base`
/// the best common ancestor of that head and `fetched`, if they have one. A
/// base that is the fetched commit itself says that the local history holds
/// the fetched commit; a base that is the local head says that the local head
/// is an ancestor of the fetched commit.
pub open spec fn classify(
    local: Option<Seq<char>>,
    fetched: Seq<char>,
    base: Option<Seq<char>>,
) -> MergeAnalysis {
    match local {
        None => MergeAnalysis::Unborn,
        Some(l) => if l == fetched || base == Some(fetched) {
            MergeAnalysis::UpToDate
        } else if base == Some(l) {
            MergeAnalysis::FastForwardable
        } else {
            MergeAnalysis::Divergent
        },
    }
}

/// How a branch is brought to the fetched commit without a merge: the branch
/// is moved, or created where there was none, and the later steps make it the
/// head and check it out. Where one of those fails, the branch is put back.
pub open spec fn fast_forward_step(
    p: ProviderView,
    old: Option<Seq<char>>,
    new: Seq<char>,
) -> StepView {
    StepView {
        state: SyncStateView::SettingBranch { old, new },
        action: Some(
            ActionView::SetReference {
                name: branch_ref(p.branch),
                target: new,
                create: old is None,
                log_message: match old {
                    None => creation_message(p.branch, new),
                    Some(l) => fast_forward_message(branch_ref(p.branch), l, new),
                },
            },
        ),
    }
}

/// How a move of the local branch that could not be completed is undone:
/// the branch is put back to `old`, or removed where there was none before.
/// `tree` says whether a checkout was tried, so that the working tree of a
/// branch that was there before has to be put back too.
pub open spec fn restore_branch(
    p: ProviderView,
    old: Option<Seq<char>>,
    reason: SyncError,
    tree: bool,
) -> StepView {
    StepView {
        state: SyncStateView::RestoringBranch { reason, tree: tree && old is Some },
        action: Some(
            match old {
                Some(l) => ActionView::SetReference {
                    name: branch_ref(p.branch),
                    target: l,
                    create: false,
                    log_message: restoration_message(branch_ref(p.branch), l),
                },
                None => ActionView::DeleteReference { name: branch_ref(p.branch) },
            },
        ),
    }
}

/// How a merge of two diverged histories opens.
pub open spec fn normal_merge_step(
    local: Seq<char>,
    fetched: Seq<char>,
    base: Seq<char>,
) -> StepView {
    StepView {
        state: SyncStateView::MergingTrees { local, fetched },
        action: Some(ActionView::MergeTrees { ancestor: base, ours: local, theirs: fetched }),
    }
}

/// What is done about a local head `local` and a fetched commit once
/// their merge base is known.
pub open spec fn merge_step(
    p: ProviderView,
    local: Seq<char>,
    fetched: Seq<char>,
    base: Option<Seq<char>>,
) -> StepView {
    match classify(Some(local), fetched, base) {
        MergeAnalysis::UpToDate => finish(SyncOutcomeView::UpToDate),
        MergeAnalysis::FastForwardable => fast_forward_step(p, Some(local), fetched),
        _ => match base {
            Some(b) => normal_merge_step(local, fetched, b),
            None => finish(SyncOutcomeView::Failed(SyncError::MergeBaseNotFound)),
        },
    }
}

/// The step that answers `event` in `state`.
///
/// Every state awaits the result of one operation. The events that tell of
/// its success lead on; any other event is taken for its failure. Where a
/// failed clone is being removed, the working tree is being put back or
/// conflicts are being written out, the run ends in the same way whatever
/// the answer is.
pub open spec fn next(p: ProviderView, state: SyncStateView, event: EventView) -> StepView {
    match state {
        SyncStateView::CheckingCloneEnvironment => match event {
            EventView::Completed => clone_request(p),
            _ => finish(SyncOutcomeView::Failed(SyncError::CredentialMissing)),
        },
        SyncStateView::Cloning => match event {
            EventView::Completed => finish(SyncOutcomeView::Cloned),
            EventView::AuthFailed(e) => discard_clone(p, SyncError::of_credential(e)),
            _ => discard_clone(p, SyncError::NetworkFetchFailed),
        },
        SyncStateView::DiscardingClone { reason } => finish(SyncOutcomeView::Failed(reason)),
        SyncStateView::Opening => match event {
            EventView::Completed => begin_fetch(p),
            _ => finish(SyncOutcomeView::Failed(SyncError::RepositoryOpenFailed)),
        },
        SyncStateView::CheckingFetchEnvironment => match event {
            EventView::Completed => fetch_request(p),
            _ => finish(SyncOutcomeView::Failed(SyncError::CredentialMissing)),
        },
        SyncStateView::Fetching => match event {
            EventView::Commit(fetched) => StepView {
                state: SyncStateView::FindingBranch { fetched },
                action: Some(ActionView::FindReference { name: branch_ref(p.branch) }),
            },
            EventView::AuthFailed(e) => finish(
                SyncOutcomeView::Failed(SyncError::of_credential(e)),
            ),
            _ => finish(SyncOutcomeView::Failed(SyncError::NetworkFetchFailed)),
        },
        SyncStateView::FindingBranch { fetched } => match event {
            EventView::Lookup(None) => fast_forward_step(p, None, fetched),
            EventView::Lookup(Some(local)) => if local == fetched {
                finish(SyncOutcomeView::UpToDate)
            } else {
                StepView {
                    state: SyncStateView::FindingMergeBase { local, fetched },
                    action: Some(ActionView::FindMergeBase { ours: local, theirs: fetched }),
                }
            },
            _ => finish(SyncOutcomeView::Failed(SyncError::RepositoryOpenFailed)),
        },
        SyncStateView::FindingMergeBase { local, fetched } => match event {
            EventView::Lookup(base) => merge_step(p, local, fetched, base),
            _ => finish(SyncOutcomeView::Failed(SyncError::MergeBaseNotFound)),
        },
        SyncStateView::SettingBranch { old, new } => match event {
            EventView::Completed => StepView {
                state: SyncStateView::SettingHead { old, new },
                action: Some(ActionView::SetHead { name: branch_ref(p.branch) }),
            },
            _ => finish(SyncOutcomeView::Failed(SyncError::CommitFailed)),
        },
        SyncStateView::SettingHead { old, new } => match event {
            EventView::Completed => StepView {
                state: SyncStateView::CheckingOutBranch { old, new },
                action: Some(
                    ActionView::CheckoutHead {
                        mode: if old is None {
                            CheckoutMode::ForceTolerant
                        } else {
                            CheckoutMode::Force
                        },
                    },
                ),
            },
            _ => restore_branch(p, old, SyncError::CommitFailed, false),
        },
        SyncStateView::CheckingOutBranch { old, new } => match event {
            EventView::Completed => finish(SyncOutcomeView::FastForwarded(old, new)),
            EventView::Conflicts(paths) => finish(SyncOutcomeView::ConflictDetected(paths)),
            _ => restore_branch(p, old, SyncError::CommitFailed, true),
        },
        SyncStateView::RestoringBranch { reason, tree } => match event {
            EventView::Completed => if tree {
                StepView {
                    state: SyncStateView::RestoringTree { reason },
                    action: Some(ActionView::CheckoutHead { mode: CheckoutMode::Force }),
                }
            } else {
                finish(SyncOutcomeView::Failed(reason))
            },
            _ => finish(SyncOutcomeView::Failed(reason)),
        },
        SyncStateView::RestoringTree { reason } => finish(SyncOutcomeView::Failed(reason)),
        SyncStateView::MergingTrees { local, fetched } => match event {
            EventView::Completed => StepView {
                state: SyncStateView::Committing,
                action: Some(
                    ActionView::Commit {
                        update_ref: HEAD@,
                        message: merge_message(fetched, local),
                        first_parent: local,
                        second_parent: fetched,
                    },
                ),
            },
            EventView::Conflicts(paths) => StepView {
                state: SyncStateView::ShowingConflicts { paths },
                action: Some(ActionView::CheckoutIndex),
            },
            _ => finish(SyncOutcomeView::Failed(SyncError::CommitFailed)),
        },
        SyncStateView::ShowingConflicts { paths } => finish(
            SyncOutcomeView::ConflictDetected(paths),
        ),
        SyncStateView::Committing => match event {
            EventView::Commit(commit) => StepView {
                state: SyncStateView::CheckingOutMerge { commit },
                action: Some(ActionView::CheckoutHead { mode: CheckoutMode::Force }),
            },
            _ => finish(SyncOutcomeView::Failed(SyncError::CommitFailed)),
        },
        SyncStateView::CheckingOutMerge { commit } => match event {
            EventView::Completed => finish(SyncOutcomeView::Merged(commit)),
            _ => finish(SyncOutcomeView::Failed(SyncError::CommitFailed)),
        },
        SyncStateView::Finished { outcome } => finish(outcome),
    }
}

/// Where a run stands after `events`, the answers to its requests in the
/// order in which they came.
pub open spec fn run(p: ProviderView, is_dir: bool, events: Seq<EventView>) -> StepView
    decreases events.len(),
{
    if events.len() == 0 {
        start(p, is_dir)
    } else {
        next(p, run(p, is_dir, events.drop_last()).state, events.last())
    }
}

/// Everything a run has asked for up to and including its answer to the
/// last of `events`, in order. An entry is `None` where the run asked for
/// nothing more.
pub open spec fn trace(p: ProviderView, is_dir: bool, events: Seq<EventView>) -> Seq<
    Option<ActionView>,
>
    decreases events.len(),
{
    if events.len() == 0 {
        seq![start(p, is_dir).action]
    } else {
        trace(p, is_dir, events.drop_last()).push(run(p, is_dir, events).action)
    }
}

/// The full name of the local branch `branch`.
fn branch_ref_name(branch: &String) -> (r: String)
    ensures
        r@ == branch_ref(branch@),
{
    String::from_str(BRANCH_PREFIX).concat(branch.as_str())
}

/// Ends a run with `outcome`.
fn finished(outcome: SyncOutcome) -> (r: Step)
    ensures
        r@ == finish(outcome@),
{
    Step { state: SyncState::Finished { outcome }, action: None }
}

/// Asks for the clone of the repository of `provider` with `credentials`.
fn request_clone(provider: &Provider, credentials: CredentialStrategy) -> (r: Step)
    ensures
        r@ == clone_with(provider@, credentials@),
{
    Step {
        state: SyncState::Cloning,
        action: Some(
            Action::Clone {
                url: provider.url.clone(),
                branch: provider.branch.clone(),
                path: provider.sync_dir.clone(),
                label: provider.name.clone(),
                credentials,
            },
        ),
    }
}

/// Asks for the fetch of the tracked branch of `provider` with `credentials`.
fn request_fetch(provider: &Provider, credentials: CredentialStrategy) -> (r: Step)
    ensures
        r@ == fetch_with(provider@, credentials@),
{
    Step {
        state: SyncState::Fetching,
        action: Some(
            Action::Fetch {
                remote: String::from_str(REMOTE),
                branch: provider.branch.clone(),
                all_tags: true,
                credentials,
            },
        ),
    }
}

/// Winds up a clone that failed for `reason`.
fn discard(provider: &Provider, reason: SyncError) -> (r: Step)
    ensures
        r@ == discard_clone(provider@, reason),
{
    Step {
        state: SyncState::DiscardingClone { reason },
        action: Some(Action::DiscardPartialClone { path: provider.sync_dir.clone() }),
    }
}

/// Opens the synchronization of `provider`. `is_dir` says whether there is a
/// directory at `provider.sync_dir`: then the run pulls, else it clones.
pub fn download(provider: &Provider, is_dir: bool) -> (r: Step)
    ensures
        r@ == start(provider@, is_dir),
{
    if is_dir {
        pull(provider)
    } else {
        clone(provider)
    }
}

/// Opens the pull path: the repository at the place of the checkout is
/// opened.
pub fn pull(provider: &Provider) -> (r: Step)
    ensures
        r@ == begin_pull(provider@),
{
    Step {
        state: SyncState::Opening,
        action: Some(Action::OpenRepository { path: provider.sync_dir.clone() }),
    }
}

/// Opens the clone path: the credential policy is resolved and either the
/// environment is checked or the clone is asked for.
pub fn clone(provider: &Provider) -> (r: Step)
    ensures
        r@ == begin_clone(provider@),
{
    match CredentialStrategy::resolve(&provider.auth) {
        Err(e) => finished(SyncOutcome::Failed(e)),
        Ok(strategy) => match strategy {
            CredentialStrategy::Environment { username_var, password_var } => Step {
                state: SyncState::CheckingCloneEnvironment,
                action: Some(Action::CheckEnvironment { username_var, password_var }),
            },
            other => request_clone(provider, other),
        },
    }
}

/// Opens the fetch of the pull path: the credential policy is resolved and
/// either the environment is checked or the fetch is asked for.
pub fn fetch(provider: &Provider) -> (r: Step)
    ensures
        r@ == begin_fetch(provider@),
{
    match CredentialStrategy::resolve(&provider.auth) {
        Err(e) => finished(SyncOutcome::Failed(e)),
        Ok(strategy) => match strategy {
            CredentialStrategy::Environment { username_var, password_var } => Step {
                state: SyncState::CheckingFetchEnvironment,
                action: Some(Action::CheckEnvironment { username_var, password_var }),
            },
            other => request_fetch(provider, other),
        },
    }
}

/// Classifies the relation of the local branch to the fetched commit.
pub fn analyze(local: Option<&CommitId>, fetched: &CommitId, base: Option<&CommitId>) -> (r:
    MergeAnalysis)
    ensures
        r == classify(local.deep_view(), fetched@, base.deep_view()),
{
    match local {
        None => MergeAnalysis::Unborn,
        Some(l) => {
            if l.same(fetched) {
                return MergeAnalysis::UpToDate;
            }
            match base {
                Some(b) => {
                    if b.same(fetched) {
                        MergeAnalysis::UpToDate
                    } else if b.same(l) {
                        MergeAnalysis::FastForwardable
                    } else {
                        MergeAnalysis::Divergent
                    }
                },
                None => MergeAnalysis::Divergent,
            }
        },
    }
}

/// Brings the local branch of `provider` from `old`, if it exists, to `new`
/// without a merge.
pub fn fast_forward(provider: &Provider, old: Option<CommitId>, new: CommitId) -> (r: Step)
    ensures
        r@ == fast_forward_step(provider@, old.deep_view(), new@),
{
    let name = branch_ref_name(&provider.branch);
    let create = old.is_none();
    let log_message = match &old {
        None => String::from_str("Setting ").concat(provider.branch.as_str()).concat(
            " to ",
        ).concat(new.hex.as_str()),
        Some(l) => String::from_str("Fast-Forward: Setting ").concat(name.as_str()).concat(
            " from id: ",
        ).concat(l.hex.as_str()).concat(" to id: ").concat(new.hex.as_str()),
    };
    let target = new.clone();
    Step {
        state: SyncState::SettingBranch { old, new },
        action: Some(Action::SetReference { name, target, create, log_message }),
    }
}

/// Undoes a move of the local branch of `provider` that could not be
/// completed for `reason`: the branch is put back to `old`, or removed where
/// there was none before. `tree` says whether a checkout was tried.
pub fn restore(provider: &Provider, old: Option<CommitId>, reason: SyncError, tree: bool) -> (r:
    Step)
    ensures
        r@ == restore_branch(provider@, old.deep_view(), reason, tree),
{
    let name = branch_ref_name(&provider.branch);
    match old {
        Some(target) => {
            let log_message = String::from_str("Fast-Forward: Restoring ").concat(
                name.as_str(),
            ).concat(" to id: ").concat(target.hex.as_str());
            Step {
                state: SyncState::RestoringBranch { reason, tree },
                action: Some(Action::SetReference { name, target, create: false, log_message }),
            }
        },
        None => Step {
            state: SyncState::RestoringBranch { reason, tree: false },
            action: Some(Action::DeleteReference { name }),
        },
    }
}

/// Opens the merge of the diverged commits `local` and `fetched` over their
/// merge base.
pub fn normal_merge(local: CommitId, fetched: CommitId, base: CommitId) -> (r: Step)
    ensures
        r@ == normal_merge_step(local@, fetched@, base@),
{
    let ours = local.clone();
    let theirs = fetched.clone();
    Step {
        state: SyncState::MergingTrees { local, fetched },
        action: Some(Action::MergeTrees { ancestor: base, ours, theirs }),
    }
}

/// Decides what is done about the local head and the fetched commit, given
/// their merge base: nothing, a fast-forward, or a merge.
pub fn merge(provider: &Provider, local: CommitId, fetched: CommitId, base: Option<CommitId>) -> (r:
    Step)
    ensures
        r@ == merge_step(provider@, local@, fetched@, base.deep_view()),
{
    match analyze(Some(&local), &fetched, base.as_ref()) {
        MergeAnalysis::UpToDate => finished(SyncOutcome::UpToDate),
        MergeAnalysis::FastForwardable => fast_forward(provider, Some(local), fetched),
        _ => match base {
            Some(b) => normal_merge(local, fetched, b),
            None => finished(SyncOutcome::Failed(SyncError::MergeBaseNotFound)),
        },
    }
}

/// Continues the synchronization of `provider`: `event` tells what came of
/// the operation that `state` awaits.
pub fn step(provider: &Provider, state: SyncState, event: Event) -> (r: Step)
    ensures
        r@ == next(provider@, state@, event@),
{
    match state {
        SyncState::CheckingCloneEnvironment => match event {
            Event::Completed => match CredentialStrategy::resolve(&provider.auth) {
                Err(e) => finished(SyncOutcome::Failed(e)),
                Ok(strategy) => request_clone(provider, strategy),
            },
            _ => finished(SyncOutcome::Failed(SyncError::CredentialMissing)),
        },
        SyncState::Cloning => match event {
            Event::Completed => finished(SyncOutcome::Cloned),
            Event::AuthFailed(e) => discard(provider, SyncError::from_credential(e)),
            _ => discard(provider, SyncError::NetworkFetchFailed),
        },
        SyncState::DiscardingClone { reason } => finished(SyncOutcome::Failed(reason)),
        SyncState::Opening => match event {
            Event::Completed => fetch(provider),
            _ => finished(SyncOutcome::Failed(SyncError::RepositoryOpenFailed)),
        },
        SyncState::CheckingFetchEnvironment => match event {
            Event::Completed => match CredentialStrategy::resolve(&provider.auth) {
                Err(e) => finished(SyncOutcome::Failed(e)),
                Ok(strategy) => request_fetch(provider, strategy),
            },
            _ => finished(SyncOutcome::Failed(SyncError::CredentialMissing)),
        },
        SyncState::Fetching => match event {
            Event::Commit(fetched) => Step {
                state: SyncState::FindingBranch { fetched },
                action: Some(Action::FindReference { name: branch_ref_name(&provider.branch) }),
            },
            Event::AuthFailed(e) => finished(SyncOutcome::Failed(SyncError::from_credential(e))),
            _ => finished(SyncOutcome::Failed(SyncError::NetworkFetchFailed)),
        },
        SyncState::FindingBranch { fetched } => match event {
            Event::Lookup(None) => fast_forward(provider, None, fetched),
            Event::Lookup(Some(local)) => {
                if local.same(&fetched) {
                    finished(SyncOutcome::UpToDate)
                } else {
                    let ours = local.clone();
                    let theirs = fetched.clone();
                    Step {
                        state: SyncState::FindingMergeBase { local, fetched },
                        action: Some(Action::FindMergeBase { ours, theirs }),
                    }
                }
            },
            _ => finished(SyncOutcome::Failed(SyncError::RepositoryOpenFailed)),
        },
        SyncState::FindingMergeBase { local, fetched } => match event {
            Event::Lookup(base) => merge(provider, local, fetched, base),
            _ => finished(SyncOutcome::Failed(SyncError::MergeBaseNotFound)),
        },
        SyncState::SettingBranch { old, new } => match event {
            Event::Completed => Step {
                state: SyncState::SettingHead { old, new },
                action: Some(Action::SetHead { name: branch_ref_name(&provider.branch) }),
            },
            _ => finished(SyncOutcome::Failed(SyncError::CommitFailed)),
        },
        SyncState::SettingHead { old, new } => match event {
            Event::Completed => {
                let mode = if old.is_none() {
                    CheckoutMode::ForceTolerant
                } else {
                    CheckoutMode::Force
                };
                Step {
                    state: SyncState::CheckingOutBranch { old, new },
                    action: Some(Action::CheckoutHead { mode }),
                }
            },
            _ => restore(provider, old, SyncError::CommitFailed, false),
        },
        SyncState::CheckingOutBranch { old, new } => match event {
            Event::Completed => finished(SyncOutcome::FastForwarded(old, new)),
            Event::Conflicts(paths) => finished(SyncOutcome::ConflictDetected(paths)),
            _ => restore(provider, old, SyncError::CommitFailed, true),
        },
        SyncState::RestoringBranch { reason, tree } => match event {
            Event::Completed => {
                if tree {
                    Step {
                        state: SyncState::RestoringTree { reason },
                        action: Some(Action::CheckoutHead { mode: CheckoutMode::Force }),
                    }
                } else {
                    finished(SyncOutcome::Failed(reason))
                }
            },
            _ => finished(SyncOutcome::Failed(reason)),
        },
        SyncState::RestoringTree { reason } => finished(SyncOutcome::Failed(reason)),
        SyncState::MergingTrees { local, fetched } => match event {
            Event::Completed => {
                let message = String::from_str("Merge: ").concat(fetched.hex.as_str()).concat(
                    " into ",
                ).concat(local.hex.as_str());
                Step {
                    state: SyncState::Committing,
                    action: Some(
                        Action::Commit {
                            update_ref: String::from_str(HEAD),
                            message,
                            first_parent: local,
                            second_parent: fetched,
                        },
                    ),
                }
            },
            Event::Conflicts(paths) => Step {
                state: SyncState::ShowingConflicts { paths },
                action: Some(Action::CheckoutIndex),
            },
            _ => finished(SyncOutcome::Failed(SyncError::CommitFailed)),
        },
        SyncState::ShowingConflicts { paths } => finished(SyncOutcome::ConflictDetected(paths)),
        SyncState::Committing => match event {
            Event::Commit(commit) => Step {
                state: SyncState::CheckingOutMerge { commit },
                action: Some(Action::CheckoutHead { mode: CheckoutMode::Force }),
            },
            _ => finished(SyncOutcome::Failed(SyncError::CommitFailed)),
        },
        SyncState::CheckingOutMerge { commit } => match event {
            Event::Completed => finished(SyncOutcome::Merged(commit)),
            _ => finished(SyncOutcome::Failed(SyncError::CommitFailed)),
        },
        SyncState::Finished { outcome } => finished(outcome),
    }
}

/// The models of `events`, in order.
pub open spec fn views_of(events: Seq<Event>) -> Seq<EventView> {
    events.map_values(|e: Event| e@)
}

/// An upper bound on the number of operations that a run in `state` will
/// still ask for.
pub open spec fn remaining(state: SyncStateView) -> nat {
    match state {
        SyncStateView::Opening => 10,
        SyncStateView::CheckingFetchEnvironment => 9,
        SyncStateView::Fetching => 8,
        SyncStateView::FindingBranch { .. } => 7,
        SyncStateView::FindingMergeBase { .. } => 6,
        SyncStateView::SettingBranch { .. } => 5,
        SyncStateView::SettingHead { .. } => 4,
        SyncStateView::CheckingOutBranch { .. } => 3,
        SyncStateView::RestoringBranch { .. } => 2,
        SyncStateView::RestoringTree { .. } => 1,
        SyncStateView::MergingTrees { .. } => 3,
        SyncStateView::ShowingConflicts { .. } => 1,
        SyncStateView::Committing => 2,
        SyncStateView::CheckingOutMerge { .. } => 1,
        SyncStateView::CheckingCloneEnvironment => 3,
        SyncStateView::Cloning => 2,
        SyncStateView::DiscardingClone { .. } => 1,
        SyncStateView::Finished { .. } => 0,
    }
}

/// `perform` was asked for `asked` on behalf of `provider`, one operation
/// after the other as the run came to them, and answered with `answers`.
pub open spec fn conducted<F: Fn(&Provider, Action) -> Event>(
    perform: F,
    provider: &Provider,
    is_dir: bool,
    asked: Seq<Action>,
    answers: Seq<Event>,
) -> bool {
    &&& asked.len() == answers.len()
    &&& forall|i: int|
        0 <= i < asked.len() ==> {
            &&& run(provider@, is_dir, views_of(answers).take(i)).action == Some(
                (#[trigger] asked[i])@,
            )
            &&& call_ensures(perform, (provider, asked[i]), answers[i])
        }
}

/// Synchronizes `provider` from beginning to end. `is_dir` says whether
/// there is a directory at `provider.sync_dir`, and `perform` carries out one
/// operation on the repository or the network for the provider it is given
/// and tells what came of it.
///
/// The outcome is the one that the run arrives at over the answers of
/// `perform`, each given to the operation that the run asked for at that
/// point. The run asks for at most ten operations.
pub fn synchronize<F: Fn(&Provider, Action) -> Event>(
    provider: &Provider,
    is_dir: bool,
    perform: &F,
) -> (outcome: SyncOutcome)
    requires
        forall|a: Action| call_requires(*perform, (provider, a)),
    ensures
        exists|asked: Seq<Action>, answers: Seq<Event>|
            {
                &&& #[trigger] conducted(*perform, provider, is_dir, asked, answers)
                &&& answers.len() <= 10
                &&& run(provider@, is_dir, views_of(answers)) == finish(outcome@)
            },
{
    let mut current = download(provider, is_dir);
    let ghost mut asked: Seq<Action> = Seq::empty();
    let ghost mut answers: Seq<Event> = Seq::empty();
    proof {
        assert(views_of(answers) =~= Seq::<EventView>::empty());
    }
    loop
        invariant
            forall|a: Action| call_requires(*perform, (provider, a)),
            conducted(*perform, provider, is_dir, asked, answers),
            current@ == run(provider@, is_dir, views_of(answers)),
            current@.action is None <==> current@.state is Finished,
            answers.len() + remaining(current@.state) <= 10,
        decreases remaining(current@.state),
    {
        let Step { state, action } = current;
        let operation = match action {
            Some(operation) => operation,
            None => {
                return match state {
                    SyncState::Finished { outcome } => outcome,
                    _ => unreached(),
                };
            },
        };
        let ghost before = views_of(answers);
        let ghost request = operation;
        let answer = perform(provider, operation);
        current = step(provider, state, answer);
        proof {
            let after = views_of(answers.push(answer));
            assert(after =~= before.push(answer@));
            assert(after.drop_last() =~= before);
            assert forall|i: int| 0 <= i < asked.len() + 1 implies {
                &&& run(provider@, is_dir, after.take(i)).action == Some(
                    (#[trigger] asked.push(request)[i])@,
                )
                &&& call_ensures(
                    *perform,
                    (provider, asked.push(request)[i]),
                    answers.push(answer)[i],
                )
            } by {
                assert(after.take(i) =~= before.take(i));
                if i == asked.len() {
                    assert(before.take(i) =~= before);
                }
            }
            asked = asked.push(request);
            answers = answers.push(answer);
        }
    }
}

/// The outcome `outcome` is what synchronizing `provider` came to, with
/// `is_dir` asked about its directory and `perform` to carry out the
/// operations.
pub open spec fn synchronized<P: Fn(&Provider) -> bool, F: Fn(&Provider, Action) -> Event>(
    is_dir: P,
    perform: F,
    provider: &Provider,
    outcome: SyncOutcome,
) -> bool {
    exists|dir: bool, asked: Seq<Action>, answers: Seq<Event>|
        {
            &&& call_ensures(is_dir, (provider,), dir)
            &&& #[trigger] conducted(perform, provider, dir, asked, answers)
            &&& answers.len() <= 10
            &&& run(provider@, dir, views_of(answers)) == finish(outcome@)
        }
}

/// Synchronizes every provider of `providers`, in order, and returns their
/// outcomes in that order. `is_dir` says of a provider whether there is a
/// directory at its `sync_dir`, and `perform` carries out one operation for
/// the provider it is given.
///
/// Every provider is synchronized once and to its end, whatever became of
/// the providers before it.
pub fn synchronize_all<P: Fn(&Provider) -> bool, F: Fn(&Provider, Action) -> Event>(
    providers: &[Provider],
    is_dir: &P,
    perform: &F,
) -> (outcomes: Vec<SyncOutcome>)
    requires
        forall|p: &Provider| call_requires(*is_dir, (p,)),
        forall|p: &Provider, a: Action| call_requires(*perform, (p, a)),
    ensures
        outcomes.len() == providers.len(),
        forall|i: int|
            0 <= i < providers.len() ==> synchronized(
                *is_dir,
                *perform,
                &providers[i],
                #[trigger] outcomes[i],
            ),
{
    let mut outcomes: Vec<SyncOutcome> = Vec::new();
    let mut done: usize = 0;
    while done < providers.len()
        invariant
            forall|p: &Provider| call_requires(*is_dir, (p,)),
            forall|p: &Provider, a: Action| call_requires(*perform, (p, a)),
            done <= providers.len(),
            outcomes.len() == done,
            forall|i: int|
                0 <= i < done ==> synchronized(
                    *is_dir,
                    *perform,
                    &providers[i],
                    #[trigger] outcomes[i],
                ),
        decreases providers.len() - done,
    {
        let provider = &providers[done];
        let dir = is_dir(provider);
        let outcome = synchronize(provider, dir, perform);
        assert(synchronized(*is_dir, *perform, provider, outcome));
        outcomes.push(outcome);
        done = done + 1;
    }
    outcomes
}

} // verus!
