//! What a synchronization run can amount to: commit identifiers, the ways a
//! run can fail, how a local branch relates to a fetched commit, and the
//! outcome reported for one provider.

use vstd::prelude::*;

verus! {

/// The identifier of a commit, in the textual form the repository gives it.
///
/// The orchestrator never looks inside an identifier: it compares two of them
/// and quotes them in log messages.
#[derive(Debug, PartialEq, Eq)]
pub struct CommitId {
    pub hex: String,
}

impl View for CommitId {
    type V = Seq<char>;

    open spec fn view(&self) -> Seq<char> {
        self.hex@
    }
}

impl DeepView for CommitId {
    type V = Seq<char>;

    open spec fn deep_view(&self) -> Seq<char> {
        self.hex@
    }
}

impl Clone for CommitId {
    fn clone(&self) -> (r: Self)
        ensures
            r@ == self@,
    {
        CommitId { hex: self.hex.clone() }
    }
}

impl CommitId {
    pub fn new(hex: String) -> (r: Self)
        ensures
            r@ == hex@,
    {
        CommitId { hex }
    }

    /// Whether two identifiers name the same commit.
    pub fn same(&self, other: &CommitId) -> (r: bool)
        ensures
            r == (self@ == other@),
    {
        self.hex == other.hex
    }
}

/// Why the credentials of a provider could not answer a challenge.
#[derive(Clone, Copy, Debug, PartialEq, Eq, Structural)]
pub enum CredentialError {
    /// An environment variable that holds a credential is unset.
    Missing,
    /// The key or the user name the strategy relies on cannot be had.
    Rejected,
    /// The remote asks for credentials and the provider has none.
    Required,
}

/// The ways in which synchronizing one provider can fail.
#[derive(Clone, Copy, Debug, PartialEq, Eq, Structural)]
pub enum SyncError {
    ConfigInvalid,
    CredentialMissing,
    AuthRejected,
    AuthRequired,
    RepositoryOpenFailed,
    NetworkFetchFailed,
    MergeBaseNotFound,
    CommitFailed,
}

impl SyncError {
    /// The failure of a run whose credentials failed with `e`.
    pub open spec fn of_credential(e: CredentialError) -> SyncError {
        match e {
            CredentialError::Missing => SyncError::CredentialMissing,
            CredentialError::Rejected => SyncError::AuthRejected,
            CredentialError::Required => SyncError::AuthRequired,
        }
    }

    pub fn from_credential(e: CredentialError) -> (r: SyncError)
        ensures
            r == SyncError::of_credential(e),
    {
        match e {
            CredentialError::Missing => SyncError::CredentialMissing,
            CredentialError::Rejected => SyncError::AuthRejected,
            CredentialError::Required => SyncError::AuthRequired,
        }
    }
}

/// How the local branch relates to the commit that was fetched.
#[derive(Clone, Copy, Debug, PartialEq, Eq, Structural)]
pub enum MergeAnalysis {
    /// The local history already holds the fetched commit.
    UpToDate,
    /// The local head is an ancestor of the fetched commit.
    FastForwardable,
    /// Each side has commits the other lacks.
    Divergent,
    /// There is no local branch yet.
    Unborn,
}

/// What one synchronization run amounted to.
#[derive(Clone, Debug, PartialEq, Eq)]
pub enum SyncOutcome {
    /// The repository was cloned afresh.
    Cloned,
    /// Nothing had to change.
    UpToDate,
    /// The branch moved from the first commit, if it had one, to the second.
    FastForwarded(Option<CommitId>, CommitId),
    /// A merge commit with this identifier joins both histories.
    Merged(CommitId),
    /// These paths are in conflict and wait for the user.
    ConflictDetected(Vec<String>),
    Failed(SyncError),
}

/// The mathematical model of a [`SyncOutcome`].
pub enum SyncOutcomeView {
    Cloned,
    UpToDate,
    FastForwarded(Option<Seq<char>>, Seq<char>),
    Merged(Seq<char>),
    ConflictDetected(Seq<Seq<char>>),
    Failed(SyncError),
}

impl View for SyncOutcome {
    type V = SyncOutcomeView;

    open spec fn view(&self) -> SyncOutcomeView {
        match self {
            SyncOutcome::Cloned => SyncOutcomeView::Cloned,
            SyncOutcome::UpToDate => SyncOutcomeView::UpToDate,
            SyncOutcome::FastForwarded(old, new) => SyncOutcomeView::FastForwarded(
                old.deep_view(),
                new@,
            ),
            SyncOutcome::Merged(id) => SyncOutcomeView::Merged(id@),
            SyncOutcome::ConflictDetected(paths) => SyncOutcomeView::ConflictDetected(
                paths.deep_view(),
            ),
            SyncOutcome::Failed(e) => SyncOutcomeView::Failed(*e),
        }
    }
}

} // verus!
