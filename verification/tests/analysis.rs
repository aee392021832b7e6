use glone::git::analyze;
use glone::outcome::{CommitId, MergeAnalysis};

fn id(text: &str) -> CommitId {
    CommitId::new(text.to_string())
}

#[test]
fn no_local_branch_is_unborn() {
    assert_eq!(analyze(None, &id("f00d"), None), MergeAnalysis::Unborn);
    assert_eq!(analyze(None, &id("f00d"), Some(&id("f00d"))), MergeAnalysis::Unborn);
}

#[test]
fn same_commit_is_up_to_date() {
    assert_eq!(analyze(Some(&id("f00d")), &id("f00d"), None), MergeAnalysis::UpToDate);
    assert_eq!(
        analyze(Some(&id("f00d")), &id("f00d"), Some(&id("f00d"))),
        MergeAnalysis::UpToDate
    );
    assert_eq!(
        analyze(Some(&id("f00d")), &id("f00d"), Some(&id("0001"))),
        MergeAnalysis::UpToDate
    );
}

#[test]
fn local_history_that_holds_the_fetched_commit_is_up_to_date() {
    assert_eq!(
        analyze(Some(&id("beef")), &id("f00d"), Some(&id("f00d"))),
        MergeAnalysis::UpToDate
    );
}

#[test]
fn local_head_that_is_an_ancestor_can_be_fast_forwarded() {
    assert_eq!(
        analyze(Some(&id("beef")), &id("f00d"), Some(&id("beef"))),
        MergeAnalysis::FastForwardable
    );
}

#[test]
fn any_other_base_means_divergence() {
    assert_eq!(
        analyze(Some(&id("beef")), &id("f00d"), Some(&id("0001"))),
        MergeAnalysis::Divergent
    );
}

#[test]
fn no_base_means_divergence() {
    assert_eq!(analyze(Some(&id("beef")), &id("f00d"), None), MergeAnalysis::Divergent);
}

#[test]
fn identifiers_compare_by_their_text() {
    assert!(id("beef").same(&id("beef")));
    assert!(!id("beef").same(&id("beee")));
    assert!(!id("beef").same(&id("BEEF")));
    assert!(!id("").same(&id("0")));
    assert_eq!(id("beef").clone(), id("beef"));
}
