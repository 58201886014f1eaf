use git2::Status as Flag;
use git_control::clock::{format_git_time, time_or_unknown};
use git_control::collect::{
    branch_label, build_branch_labels_map, collect_branches, collect_changes, collect_commits,
    collect_conflicts, collect_recovery, labels_at, recovery_positions, walked_commits,
    HISTORY_LIMIT, RECOVERY_LIMIT,
};
use git_control::git_error::GitError;
use git_control::git_service::{
    current_branch_name, descends_into, is_repo_marker, next_step_hint, summaries_that_load,
    GitService,
};
use git_control::object_id::short_id;
use git_control::paths::{name_of_repo, PathPart, RepoPath};
use git_control::readings::{
    HeadInfo, RawBranch, RawCommit, RawConflict, RawRef, RawReflogEntry, RepoFacts, RepoReading,
    StatusEntry, WalkEntry,
};
use git_control::status;
use git_control::status::{describe_status, is_staged, is_unstaged, Status};

fn text(s: &str) -> Option<String> {
    Some(s.to_owned())
}

fn normal(name: &[u8]) -> PathPart {
    PathPart::Normal(name.to_vec())
}

fn repo_path(shown: &str, names: &[&str]) -> RepoPath {
    let mut parts = vec![PathPart::Root];
    for name in names {
        parts.push(normal(name.as_bytes()));
    }
    RepoPath {
        text: shown.to_owned(),
        parts,
    }
}

fn status(bits: Flag) -> Status {
    Status { bits: bits.bits() }
}

fn seen(path: &str, bits: Flag) -> StatusEntry {
    StatusEntry {
        path: text(path),
        status: status(bits),
    }
}

#[test]
fn flags_are_those_of_the_repository_library() {
    for (ours, theirs) in [
        (status::INDEX_NEW, Flag::INDEX_NEW),
        (status::INDEX_MODIFIED, Flag::INDEX_MODIFIED),
        (status::INDEX_DELETED, Flag::INDEX_DELETED),
        (status::INDEX_RENAMED, Flag::INDEX_RENAMED),
        (status::INDEX_TYPECHANGE, Flag::INDEX_TYPECHANGE),
        (status::WT_NEW, Flag::WT_NEW),
        (status::WT_MODIFIED, Flag::WT_MODIFIED),
        (status::WT_DELETED, Flag::WT_DELETED),
        (status::WT_RENAMED, Flag::WT_RENAMED),
        (status::WT_TYPECHANGE, Flag::WT_TYPECHANGE),
        (status::CONFLICTED, Flag::CONFLICTED),
    ] {
        assert_eq!(ours, theirs.bits());
        let one = Status { bits: ours };
        assert!(one.contains(ours));
        assert!(!one.contains(ours << 1));
        assert_eq!(one.is_conflicted(), theirs.is_conflicted());
    }
}

#[test]
fn files_are_staged_unstaged_or_both() {
    let staged = [
        Flag::INDEX_NEW,
        Flag::INDEX_MODIFIED,
        Flag::INDEX_DELETED,
        Flag::INDEX_RENAMED,
        Flag::INDEX_TYPECHANGE,
    ];
    let unstaged = [
        Flag::WT_NEW,
        Flag::WT_MODIFIED,
        Flag::WT_DELETED,
        Flag::WT_RENAMED,
        Flag::WT_TYPECHANGE,
    ];
    for flag in staged {
        assert!(is_staged(status(flag)));
        assert!(!is_unstaged(status(flag)));
    }
    for flag in unstaged {
        assert!(!is_staged(status(flag)));
        assert!(is_unstaged(status(flag)));
    }
    let both = status(Flag::INDEX_MODIFIED | Flag::WT_MODIFIED);
    assert!(is_staged(both) && is_unstaged(both));
    for flag in [Flag::CURRENT, Flag::IGNORED, Flag::CONFLICTED] {
        assert!(!is_staged(status(flag)));
        assert!(!is_unstaged(status(flag)));
    }
}

#[test]
fn statuses_have_words() {
    for (flags, word) in [
        (Flag::CONFLICTED | Flag::WT_NEW, "conflicted"),
        (Flag::WT_NEW | Flag::WT_MODIFIED, "new"),
        (Flag::INDEX_NEW, "new"),
        (Flag::INDEX_MODIFIED | Flag::WT_DELETED, "modified"),
        (Flag::WT_MODIFIED, "modified"),
        (Flag::WT_DELETED | Flag::INDEX_RENAMED, "deleted"),
        (Flag::INDEX_DELETED, "deleted"),
        (Flag::WT_RENAMED | Flag::WT_TYPECHANGE, "renamed"),
        (Flag::INDEX_RENAMED, "renamed"),
        (Flag::WT_TYPECHANGE, "typechange"),
        (Flag::INDEX_TYPECHANGE, "typechange"),
        (Flag::CURRENT, "changed"),
        (Flag::IGNORED, "changed"),
    ] {
        assert_eq!(describe_status(status(flags)), word);
    }
}

#[test]
fn moments_are_shown_to_the_minute() {
    assert_eq!(format_git_time(0, 0), "1970-01-01 00:00");
    assert_eq!(format_git_time(1_700_000_000, 0), "2023-11-14 22:13");
    assert_eq!(format_git_time(1_700_000_000, 7200), "2023-11-15 00:13");
    assert_eq!(format_git_time(1_700_000_000, -3600), "2023-11-14 21:13");
    assert_eq!(format_git_time(-1, 0), "1969-12-31 23:59");
    assert_eq!(time_or_unknown(None), "unknown");
    assert_eq!(time_or_unknown(text("then")), "then");
}

#[test]
fn moments_without_a_date_are_unknown() {
    assert_eq!(format_git_time(8_210_266_876_799, 0), "+262142-12-31 23:59");
    assert_eq!(format_git_time(8_210_266_876_800, 0), "unknown");
    assert_eq!(format_git_time(-8_334_601_228_800, 0), "-262143-01-01 00:00");
    assert_eq!(format_git_time(-8_334_601_228_801, 0), "unknown");
    assert_eq!(format_git_time(i64::MAX, 0), "unknown");
    assert_eq!(format_git_time(i64::MIN, 0), "unknown");
    assert_ne!(format_git_time(8_210_266_876_799, 86_399), "unknown");
    assert_ne!(format_git_time(-8_334_601_228_800, -86_399), "unknown");
    assert_eq!(format_git_time(0, 86_400), "unknown");
}

#[test]
fn ids_are_shortened() {
    assert_eq!(short_id("0123456789abcdef"), "01234567");
    assert_eq!(short_id("0123"), "0123");
    assert_eq!(short_id(""), "");
}

#[test]
fn repositories_are_named_after_their_directory() {
    assert_eq!(name_of_repo(&repo_path("/srv/tool", &["srv", "tool"])), "tool");
    assert_eq!(name_of_repo(&repo_path("/", &[])), "unknown");
    let mut odd = repo_path("/srv", &["srv"]);
    odd.parts.push(normal(b"a\xff"));
    assert_eq!(name_of_repo(&odd), "unknown");
    odd.parts.push(PathPart::Parent);
    assert_eq!(name_of_repo(&odd), "unknown");
}

#[test]
fn branches_that_are_checked_out_have_a_name() {
    let head = |is_branch: bool, shorthand: Option<String>| {
        Some(HeadInfo {
            is_branch,
            target: None,
            shorthand,
        })
    };
    assert_eq!(current_branch_name(&None), None);
    assert_eq!(current_branch_name(&head(false, text("v1"))), None);
    assert_eq!(current_branch_name(&head(true, None)), None);
    assert_eq!(current_branch_name(&head(true, text("main"))), text("main"));
}

#[test]
fn next_steps_are_hinted_in_order() {
    let resolve = "Resolve merge conflicts in Conflict Studio before committing.";
    let stage = "Review changes and stage what belongs in your next commit.";
    let commit = "Write a clear commit message and create your commit.";
    let push = "Branch is ahead of remote. Sync by pushing when ready.";
    let clean = "Working tree is clean. Start a branch or pull latest updates.";
    assert_eq!(next_step_hint(1, 1, 1, 1), resolve);
    assert_eq!(next_step_hint(0, 1, 1, 1), stage);
    assert_eq!(next_step_hint(0, 1, 0, 1), commit);
    assert_eq!(next_step_hint(0, 0, 0, 1), push);
    assert_eq!(next_step_hint(0, 0, 0, 0), clean);
}

fn facts() -> RepoFacts {
    RepoFacts {
        path: repo_path("/srv/tool", &["srv", "tool"]),
        branch: None,
        ahead: 2,
        behind: 3,
        statuses: vec![
            seen("z.rs", Flag::INDEX_MODIFIED | Flag::WT_MODIFIED),
            seen("b/new.rs", Flag::WT_NEW),
            seen("b-new.rs", Flag::CONFLICTED),
            StatusEntry {
                path: None,
                status: status(Flag::INDEX_NEW),
            },
        ],
    }
}

#[test]
fn repositories_are_summed_up() {
    let summary = GitService::load_summary(&facts());
    assert_eq!(summary.name, "tool");
    assert_eq!(summary.path.text, "/srv/tool");
    assert_eq!(summary.current_branch, "detached");
    assert_eq!(summary.staged_count, 2);
    assert_eq!(summary.unstaged_count, 2);
    assert_eq!(summary.untracked_count, 1);
    assert_eq!(summary.conflict_count, 1);
    assert_eq!((summary.ahead, summary.behind), (2, 3));
    assert_eq!(
        summary.next_step,
        "Resolve merge conflicts in Conflict Studio before committing."
    );
}

#[test]
fn summary_and_changes_agree() {
    let facts = facts();
    let summary = GitService::load_summary(&facts);
    let changes = collect_changes(&facts.statuses);
    assert_eq!(changes.iter().filter(|c| c.staged).count(), summary.staged_count);
    assert_eq!(changes.iter().filter(|c| c.unstaged).count(), summary.unstaged_count);
    assert_eq!(
        changes.iter().filter(|c| c.kind == "conflicted").count(),
        summary.conflict_count
    );
}

#[test]
fn changes_are_listed_by_path() {
    let changes = collect_changes(&facts().statuses);
    let paths: Vec<&str> = changes.iter().map(|c| c.path.as_str()).collect();
    assert_eq!(paths, vec!["<unknown>", "b-new.rs", "b/new.rs", "z.rs"]);
    assert_eq!(changes[2].kind, "new");
    assert!(!changes[2].staged && changes[2].unstaged);
    assert_eq!(changes[3].kind, "modified");
    assert!(changes[3].staged && changes[3].unstaged);
}

#[test]
fn sorting_keeps_ties_in_place() {
    let changes = collect_changes(&vec![
        seen("same", Flag::WT_NEW),
        seen("a", Flag::WT_NEW),
        seen("same", Flag::WT_DELETED),
    ]);
    let kinds: Vec<&str> = changes.iter().map(|c| c.kind.as_str()).collect();
    assert_eq!(kinds, vec!["new", "new", "deleted"]);
}

fn raw_ref(name: &str, target: &str) -> RawRef {
    RawRef {
        name: text(name),
        target: text(target),
    }
}

#[test]
fn references_label_commits() {
    assert_eq!(branch_label("refs/heads/main"), text("main"));
    assert_eq!(branch_label("refs/remotes/origin/main"), text("origin/main"));
    assert_eq!(branch_label("refs/tags/v1"), None);
    assert_eq!(branch_label("refs/heads/refs/heads/x"), text("x"));
    assert_eq!(branch_label("refs/heads/refs/remotes/x"), text("x"));
    assert_eq!(
        branch_label("refs/remotes/refs/heads/x"),
        text("refs/heads/x")
    );
    let refs = vec![
        raw_ref("refs/remotes/origin/main", "aa"),
        raw_ref("refs/tags/v1", "aa"),
        raw_ref("refs/heads/main", "aa"),
        raw_ref("refs/heads/other", "bb"),
        RawRef {
            name: text("refs/remotes/origin/HEAD"),
            target: None,
        },
        RawRef {
            name: None,
            target: text("aa"),
        },
    ];
    let labels = build_branch_labels_map(&refs);
    assert_eq!(labels.len(), 3);
    assert_eq!(labels_at(&labels, &"aa".to_owned()), vec!["main", "origin/main"]);
    assert_eq!(labels_at(&labels, &"bb".to_owned()), vec!["other"]);
    assert!(labels_at(&labels, &"cc".to_owned()).is_empty());
}

fn raw_commit(oid: &str, summary: Option<&str>, author: Option<&str>) -> RawCommit {
    RawCommit {
        oid: oid.to_owned(),
        summary: summary.map(str::to_owned),
        author: author.map(str::to_owned),
        seconds: 1_700_000_000,
        offset: 3600,
        parents: vec!["p1".to_owned(), "p2".to_owned()],
    }
}

#[test]
fn commits_are_listed_as_walked() {
    let history = vec![
        raw_commit("ffeeddccbbaa", Some("feat: x"), Some("Ada")),
        raw_commit("00", None, None),
    ];
    let commits = collect_commits(
        &history,
        &vec![raw_ref("refs/heads/main", "ffeeddccbbaa")],
        HISTORY_LIMIT,
    );
    assert_eq!(commits.len(), 2);
    assert_eq!(commits[0].oid, "ffeeddccbbaa");
    assert_eq!(commits[0].id, "ffeeddcc");
    assert_eq!(commits[0].summary, "feat: x");
    assert_eq!(commits[0].author, "Ada");
    assert_eq!(commits[0].timestamp, "2023-11-14 23:13");
    assert_eq!(commits[0].parents, vec!["p1", "p2"]);
    assert_eq!(commits[0].branch_labels, vec!["main"]);
    assert_eq!(commits[1].summary, "(no message)");
    assert_eq!(commits[1].author, "unknown");
    assert!(commits[1].branch_labels.is_empty());
}

#[test]
fn failed_steps_of_a_walk_count_towards_its_limit() {
    let steps = vec![text("a"), None, text("b"), text("c")];
    assert_eq!(walked_commits(&steps, 3), vec!["a", "b"]);
    assert_eq!(walked_commits(&steps, 120), vec!["a", "b", "c"]);
    assert!(walked_commits(&steps, 0).is_empty());
    assert_eq!(HISTORY_LIMIT, 120);
}

#[test]
fn branches_are_listed_by_name() {
    let raw = |name: Option<&str>, is_head: bool, upstream: Option<&str>| RawBranch {
        name: name.map(str::to_owned),
        is_head,
        upstream: upstream.map(str::to_owned),
    };
    let branches = collect_branches(&vec![
        raw(Some("main"), true, Some("refs/remotes/origin/main")),
        raw(Some("dev"), false, Some("origin/refs/remotes/dev")),
        raw(None, false, None),
    ]);
    let names: Vec<&str> = branches.iter().map(|b| b.name.as_str()).collect();
    assert_eq!(names, vec!["<invalid>", "dev", "main"]);
    assert_eq!(branches[0].upstream, None);
    assert_eq!(branches[1].upstream, text("origin/dev"));
    assert_eq!(branches[2].upstream, text("origin/main"));
    assert!(branches[2].is_head && !branches[1].is_head);
}

fn raw_conflict(our: Option<&[u8]>, their: Option<&[u8]>, ancestor: Option<&[u8]>) -> RawConflict {
    RawConflict {
        our: our.map(|b| b.to_vec()),
        their: their.map(|b| b.to_vec()),
        ancestor: ancestor.map(|b| b.to_vec()),
        content: None,
    }
}

#[test]
fn conflicts_are_listed_by_path() {
    let mut full = raw_conflict(Some(b"z.rs"), Some(b"other.rs"), Some(b"old.rs"));
    full.content = text("<<<<<<< ours\n");
    let raw = vec![
        full,
        raw_conflict(None, Some(b"m.rs"), Some(b"old.rs")),
        raw_conflict(None, None, Some(b"a\xff.rs")),
        raw_conflict(None, None, None),
    ];
    let conflicts = collect_conflicts(&raw, &text("main"));
    let paths: Vec<&str> = conflicts.iter().map(|c| c.path.as_str()).collect();
    assert_eq!(paths, vec!["<unknown>", "a\u{fffd}.rs", "m.rs", "z.rs"]);
    assert_eq!(conflicts[3].ours_label, "main");
    assert_eq!(conflicts[3].theirs_label, "incoming");
    assert_eq!(conflicts[3].content, "<<<<<<< ours\n");
    assert_eq!(conflicts[2].ours_label, "ours");
    assert_eq!(conflicts[2].theirs_label, "incoming");
    assert_eq!(conflicts[2].content, "");
    assert_eq!(conflicts[1].theirs_label, "theirs");
    assert_eq!(collect_conflicts(&raw, &None)[3].ours_label, "ours");
}

fn raw_entry(message: Option<&str>) -> RawReflogEntry {
    RawReflogEntry {
        id_new: "aabbccddeeff".to_owned(),
        id_old: "001122334455".to_owned(),
        message: message.map(str::to_owned),
        seconds: 0,
        offset: 0,
    }
}

#[test]
fn log_entries_are_told() {
    let entries = collect_recovery(&vec![raw_entry(Some("commit: x")), raw_entry(None)]);
    assert_eq!(entries[0].to_id, "aabbccddeeff");
    assert_eq!(entries[0].to_id_short, "aabbccdd");
    assert_eq!(entries[0].from_id_short, "00112233");
    assert_eq!(entries[0].message, "commit: x");
    assert_eq!(entries[0].timestamp, "1970-01-01 00:00");
    assert_eq!(entries[1].message, "(no reflog message)");
}

#[test]
fn log_is_read_from_its_end() {
    assert_eq!(recovery_positions(3), vec![2, 1, 0]);
    assert!(recovery_positions(0).is_empty());
    let long = recovery_positions(100);
    assert_eq!(long.len(), RECOVERY_LIMIT);
    assert_eq!(long.first(), Some(&99));
    assert_eq!(long.last(), Some(&40));
}

#[test]
fn snapshots_are_put_together() {
    let snapshot = GitService::load_snapshot(&RepoReading {
        facts: facts(),
        history: vec![raw_commit("ffeeddccbbaa", Some("feat: x"), Some("Ada"))],
        refs: vec![raw_ref("refs/heads/main", "ffeeddccbbaa")],
        branches: Vec::new(),
        conflicts: vec![raw_conflict(Some(b"b-new.rs"), None, None)],
        reflog: vec![raw_entry(None)],
    });
    assert_eq!(snapshot.summary.conflict_count, 1);
    assert_eq!(snapshot.changes.len(), 4);
    assert_eq!(snapshot.commits[0].branch_labels, vec!["main"]);
    assert!(snapshot.branches.is_empty());
    assert_eq!(snapshot.conflicts[0].ours_label, "ours");
    assert_eq!(snapshot.recovery.len(), 1);
}

fn walked(name: &[u8], is_dir: bool, parent: Option<RepoPath>, opens: bool) -> WalkEntry {
    WalkEntry {
        name: name.to_vec(),
        is_dir,
        parent,
        opens,
    }
}

#[test]
fn repositories_are_found_by_their_marker() {
    assert!(is_repo_marker(&b".git".to_vec(), true));
    assert!(!is_repo_marker(&b".git".to_vec(), false));
    assert!(!is_repo_marker(&b".gitx".to_vec(), true));
    let tool = || Some(repo_path("/srv/tool", &["srv", "tool"]));
    let deep = || Some(repo_path("/srv/a/b", &["srv", "a", "b"]));
    let dashed = || Some(repo_path("/srv/a-b", &["srv", "a-b"]));
    let found = GitService::discover_repositories(&vec![
        walked(b".git", true, tool(), true),
        walked(b".git", true, dashed(), true),
        walked(b"src", true, tool(), true),
        walked(b".git", false, Some(repo_path("/srv/w", &["srv", "w"])), true),
        walked(b".git", true, Some(repo_path("/srv/x", &["srv", "x"])), false),
        walked(b".git", true, None, true),
        walked(b".git", true, deep(), true),
        walked(b".git", true, tool(), true),
    ]);
    let shown: Vec<&str> = found.iter().map(|p| p.text.as_str()).collect();
    assert_eq!(shown, vec!["/srv/a/b", "/srv/a-b", "/srv/tool"]);
}

#[test]
fn git_directories_are_not_entered() {
    assert!(descends_into(&b"src".to_vec(), true));
    assert!(descends_into(&b".github".to_vec(), true));
    assert!(!descends_into(&b".git".to_vec(), true));
    assert!(!descends_into(&b"src".to_vec(), false));
    let inner = || Some(repo_path("/srv/q/.git/x", &["srv", "q", ".git", "x"]));
    let found = GitService::discover_repositories(&vec![
        walked(b".git", true, inner(), true),
        walked(b".git", true, Some(repo_path("/srv/q", &["srv", "q"])), true),
        walked(b".git", true, Some(repo_path("/srv/q/sub", &["srv", "q", "sub"])), true),
        walked(
            b".git",
            true,
            Some(repo_path("/srv/qq/.git/x", &["srv", "qq", ".git", "x"])),
            true,
        ),
    ]);
    let shown: Vec<&str> = found.iter().map(|p| p.text.as_str()).collect();
    assert_eq!(shown, vec!["/srv/q", "/srv/q/sub", "/srv/qq/.git/x"]);
}

#[test]
fn repositories_that_cannot_be_summed_up_are_left_out() {
    let summary = GitService::load_summary(&facts());
    let mut other = GitService::load_summary(&facts());
    other.name = "other".to_owned();
    let broken = || {
        Err(GitError::OpenFailed {
            path: "/srv/x".to_owned(),
            cause: "c".to_owned(),
        })
    };
    let kept = summaries_that_load(vec![broken(), Ok(other), broken(), Ok(summary)]);
    let names: Vec<&str> = kept.iter().map(|s| s.name.as_str()).collect();
    assert_eq!(names, vec!["other", "tool"]);
}

#[test]
fn snapshots_are_bounded() {
    let snapshot = GitService::load_snapshot(&RepoReading {
        facts: facts(),
        history: (0..121).map(|_| raw_commit("aa", None, None)).collect(),
        refs: Vec::new(),
        branches: Vec::new(),
        conflicts: Vec::new(),
        reflog: (0..61).map(|_| raw_entry(None)).collect(),
    });
    assert_eq!(snapshot.commits.len(), 120);
    assert_eq!(snapshot.recovery.len(), 60);
    let history = vec![raw_commit("aa", None, None), raw_commit("bb", None, None)];
    assert_eq!(collect_commits(&history, &Vec::new(), 1)[0].oid, "aa");
    assert_eq!(collect_commits(&history, &Vec::new(), 1).len(), 1);
}
