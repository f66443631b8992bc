use linear_tasks::merge::{contains_identifier, extend_unseen, merge};
use linear_tasks::queries::structs::active_issues::{
    Issue, IssueHistoryConnection, IssueLabelConnection, WorkflowState,
};
use linear_tasks::queries::structs::schema::DateTime;

fn issue(identifier: &str, title: &str, state: &str) -> Issue {
    Issue {
        description: None,
        history: IssueHistoryConnection { nodes: Vec::new() },
        title: title.to_string(),
        labels: IssueLabelConnection { nodes: Vec::new() },
        priority: 2,
        updated_at: DateTime("2023-05-01T10:00:00.000Z".to_string()),
        number: 1,
        completed_at: None,
        canceled_at: None,
        state: WorkflowState {
            name: state.to_string(),
            id: "state".to_string(),
            updated_at: DateTime("2023-04-01T10:00:00.000Z".to_string()),
        },
        assignee: None,
        priority_label: "High".to_string(),
        identifier: identifier.to_string(),
    }
}

fn identifiers(issues: &[Issue]) -> Vec<&str> {
    issues.iter().map(|issue| issue.identifier.as_str()).collect()
}

#[test]
fn merge_of_nothing_is_empty() {
    assert!(merge(Vec::new(), Vec::new(), Vec::new()).is_empty());
}

#[test]
fn merge_keeps_the_order_done_active_todo() {
    let merged = merge(
        vec![issue("AWA-3", "c", "Done"), issue("AWA-1", "a", "Done")],
        vec![issue("AWA-9", "i", "In Review")],
        vec![issue("AWA-5", "e", "Todo"), issue("AWA-4", "d", "Backlog")],
    );
    assert_eq!(identifiers(&merged), vec!["AWA-3", "AWA-1", "AWA-9", "AWA-5", "AWA-4"]);
}

#[test]
fn merge_keeps_the_active_copy_of_an_issue_that_is_also_open() {
    let active = issue("AWA-7", "from the active query", "In Progress");
    let todo = issue("AWA-7", "from the open query", "In Progress");
    let merged = merge(Vec::new(), vec![active.clone()], vec![todo]);
    assert_eq!(merged.len(), 1);
    assert_eq!(merged[0], active);
    assert_eq!(merged[0].title, "from the active query");
}

#[test]
fn merge_keeps_the_done_copy_of_an_issue_that_is_also_open() {
    let done = issue("AWA-2", "from the done query", "Done");
    let merged = merge(
        vec![done.clone()],
        vec![issue("AWA-3", "active", "In Review")],
        vec![issue("AWA-4", "open", "Todo"), issue("AWA-2", "from the open query", "Todo")],
    );
    assert_eq!(identifiers(&merged), vec!["AWA-2", "AWA-3", "AWA-4"]);
    assert_eq!(merged[0], done);
}

#[test]
fn merge_drops_a_repeat_within_the_open_issues() {
    let merged = merge(
        Vec::new(),
        Vec::new(),
        vec![
            issue("AWA-1", "first", "Todo"),
            issue("AWA-2", "other", "Todo"),
            issue("AWA-1", "second", "Todo"),
        ],
    );
    assert_eq!(identifiers(&merged), vec!["AWA-1", "AWA-2"]);
    assert_eq!(merged[0].title, "first");
}

#[test]
fn merge_yields_each_identifier_once() {
    let merged = merge(
        vec![issue("AWA-1", "a", "Done"), issue("AWA-2", "b", "Done")],
        vec![issue("AWA-3", "c", "In Progress"), issue("AWA-4", "d", "In Review")],
        vec![
            issue("AWA-3", "c again", "In Progress"),
            issue("AWA-5", "e", "Todo"),
            issue("AWA-1", "a again", "Done"),
            issue("AWA-5", "e again", "Todo"),
            issue("AWA-4", "d again", "In Review"),
        ],
    );
    let found = identifiers(&merged);
    assert_eq!(found, vec!["AWA-1", "AWA-2", "AWA-3", "AWA-4", "AWA-5"]);
    for (i, a) in found.iter().enumerate() {
        for b in &found[i + 1..] {
            assert_ne!(a, b);
        }
    }
}

#[test]
fn merge_does_not_look_for_repeats_among_done_and_active() {
    let merged = merge(
        vec![issue("AWA-1", "done", "Done")],
        vec![issue("AWA-1", "active", "In Progress")],
        vec![issue("AWA-1", "open", "Todo")],
    );
    assert_eq!(identifiers(&merged), vec!["AWA-1", "AWA-1"]);
    assert_eq!(merged[0].title, "done");
    assert_eq!(merged[1].title, "active");
}

#[test]
fn merge_compares_identifiers_letter_for_letter() {
    let merged = merge(
        Vec::new(),
        vec![issue("AWA-1", "upper", "In Progress")],
        vec![issue("awa-1", "lower", "Todo"), issue("AWA-10", "longer", "Todo")],
    );
    assert_eq!(identifiers(&merged), vec!["AWA-1", "awa-1", "AWA-10"]);
}

#[test]
fn contains_identifier_finds_what_is_there() {
    let issues = vec![issue("AWA-1", "a", "Todo"), issue("AWA-2", "b", "Todo")];
    assert!(contains_identifier(&issues, &"AWA-2".to_string()));
    assert!(!contains_identifier(&issues, &"AWA-3".to_string()));
    assert!(!contains_identifier(&Vec::new(), &"AWA-1".to_string()));
}

#[test]
fn extend_unseen_appends_what_is_new() {
    let mut kept = vec![issue("AWA-1", "kept", "Todo")];
    extend_unseen(
        &mut kept,
        vec![issue("AWA-2", "new", "Todo"), issue("AWA-1", "seen", "Todo")],
    );
    assert_eq!(identifiers(&kept), vec!["AWA-1", "AWA-2"]);
    assert_eq!(kept[0].title, "kept");
}
