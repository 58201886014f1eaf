use git_control::graph::{
    build_commit_graph_rows, commit_action_label, graph_lane_color, merge_target_lane,
    CommitGraphRow,
};
use git_control::model::CommitEntry;
use git_control::widgets::Rgb;

fn commit(oid: &str, parents: &[&str]) -> CommitEntry {
    CommitEntry {
        oid: oid.to_owned(),
        id: oid.to_owned(),
        summary: String::new(),
        author: String::new(),
        timestamp: String::new(),
        parents: parents.iter().map(|p| p.to_string()).collect(),
        branch_labels: Vec::new(),
    }
}

fn row(lane: usize, lane_count: usize, parent_count: usize) -> CommitGraphRow {
    CommitGraphRow {
        lane,
        lane_count,
        parent_count,
    }
}

#[test]
fn straight_history_has_one_lane() {
    let commits = vec![commit("c", &["b"]), commit("b", &["a"]), commit("a", &[])];
    assert_eq!(
        build_commit_graph_rows(&commits),
        vec![row(0, 1, 1), row(0, 1, 1), row(0, 1, 0)]
    );
    assert!(build_commit_graph_rows(&Vec::new()).is_empty());
}

#[test]
fn merges_open_lanes_to_the_right() {
    let commits = vec![
        commit("m", &["a", "b", "c"]),
        commit("b", &["root"]),
        commit("a", &["root"]),
        commit("c", &["root"]),
        commit("root", &[]),
    ];
    assert_eq!(
        build_commit_graph_rows(&commits),
        vec![row(0, 1, 3), row(1, 3, 1), row(0, 3, 1), row(2, 3, 1), row(0, 3, 0)]
    );
}

#[test]
fn unrelated_commits_get_a_lane_of_their_own() {
    let commits = vec![commit("x", &["p"]), commit("y", &["q"]), commit("p", &[])];
    assert_eq!(
        build_commit_graph_rows(&commits),
        vec![row(0, 1, 1), row(1, 2, 1), row(0, 2, 0)]
    );
}

#[test]
fn merges_are_drawn_towards_their_last_parent() {
    assert_eq!(merge_target_lane(&row(0, 3, 3)), Some(2));
    assert_eq!(merge_target_lane(&row(0, 1, 3)), None);
    assert_eq!(merge_target_lane(&row(1, 4, 2)), Some(2));
    assert_eq!(merge_target_lane(&row(0, 4, 1)), None);
    assert_eq!(merge_target_lane(&row(usize::MAX, usize::MAX, 2)), None);
}

#[test]
fn lane_colours_repeat() {
    let first = Rgb { r: 0, g: 122, b: 255 };
    assert_eq!(graph_lane_color(0), first);
    assert_eq!(graph_lane_color(1), Rgb { r: 175, g: 82, b: 222 });
    assert_eq!(graph_lane_color(2), Rgb { r: 255, g: 149, b: 0 });
    assert_eq!(graph_lane_color(3), Rgb { r: 52, g: 199, b: 89 });
    assert_eq!(graph_lane_color(4), Rgb { r: 255, g: 59, b: 48 });
    assert_eq!(graph_lane_color(5), Rgb { r: 90, g: 200, b: 250 });
    assert_eq!(graph_lane_color(6), Rgb { r: 88, g: 86, b: 214 });
    assert_eq!(graph_lane_color(7), Rgb { r: 255, g: 204, b: 0 });
    assert_eq!(graph_lane_color(8), first);
}

#[test]
fn commits_are_labelled_by_their_first_word() {
    for (summary, label) in [
        ("Merge branch 'x'", "merge"),
        ("Revert \"y\"", "revert"),
        ("fix: crash", "fix"),
        ("Fixes #1", "fix"),
        ("feat(ui): rail", "feature"),
        ("refactor::", "refactor"),
        ("docs: x", "docs"),
        ("tests: x", "test"),
        ("chore: x", "chore"),
        ("CI: x", "ci"),
        ("perf: x", "perf"),
        ("initial", "commit"),
        ("", "commit"),
        (":fix", "commit"),
        ("  feat x", "feature"),
    ] {
        assert_eq!(commit_action_label(summary), label);
    }
}
