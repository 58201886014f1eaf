use std::path::Path;

use git2::{Index, IndexEntry, IndexTime, Oid};
use git_control::git_error::GitError;
use git_control::git_service::GitService;
use git_control::paths::{PathPart, RepoPath};
use git_control::plans::{
    ahead_behind, ahead_behind_upstream, command_outcome, has_staged_changes, merge_output,
    run_git_command, BranchStep, IndexStep, ResolutionStep, SyncStep, UnstagePlan,
};
use git_control::readings::{CommandOutput, HeadInfo, RepoLocation, StageEntry, StatusEntry};
use git_control::status::{Status, INDEX_DELETED, INDEX_NEW, WT_DELETED, WT_NEW};

const INITIAL: &str = "1111111111111111111111111111111111111111";

/// Carries steps out on an index in memory.
fn carry_out(index: &mut Index, steps: &[IndexStep]) {
    for step in steps {
        match step {
            IndexStep::Add { path } => index.add(&entry(path)).unwrap(),
            IndexStep::Remove { path } => {
                let _ = index.remove_path(Path::new(path));
            }
            IndexStep::Clear => index.clear().unwrap(),
            IndexStep::Write => {}
        }
    }
}

fn entry(path: &str) -> IndexEntry {
    IndexEntry {
        ctime: IndexTime::new(0, 0),
        mtime: IndexTime::new(0, 0),
        dev: 0,
        ino: 0,
        mode: 0o100644,
        uid: 0,
        gid: 0,
        file_size: 0,
        id: Oid::from_str(INITIAL).unwrap(),
        flags: 0,
        flags_extended: 0,
        path: path.as_bytes().to_vec(),
    }
}

fn paths_in(index: &Index) -> Vec<String> {
    index
        .iter()
        .map(|entry| String::from_utf8_lossy(&entry.path).to_string())
        .collect()
}

/// The statuses in a repository without a commit: whatever is in the index is
/// new.
fn statuses_without_head(index: &Index) -> Vec<StatusEntry> {
    paths_in(index)
        .into_iter()
        .map(|path| status_entry(&path, INDEX_NEW))
        .collect()
}

fn status_entry(path: &str, bits: u32) -> StatusEntry {
    StatusEntry {
        path: Some(path.to_owned()),
        status: Status { bits },
    }
}

fn stage_entry(path: &str, bits: u32, exists: bool) -> StageEntry {
    StageEntry {
        path: Some(path.to_owned()),
        status: Status { bits },
        exists,
    }
}

fn repo_path(text: &str) -> RepoPath {
    let parts = text
        .split('/')
        .skip(1)
        .map(|part| PathPart::Normal(part.as_bytes().to_vec()));
    RepoPath {
        text: text.to_owned(),
        parts: std::iter::once(PathPart::Root).chain(parts).collect(),
    }
}

fn steps_of(plan: UnstagePlan) -> Vec<IndexStep> {
    match plan {
        UnstagePlan::Steps { steps } => steps,
        UnstagePlan::ResetToHead { .. } => panic!("expected steps on the index"),
    }
}

#[test]
fn unstage_all_works_without_head() {
    let mut index = Index::new().unwrap();

    carry_out(&mut index, &GitService::stage_path("a.txt", true));
    assert!(has_staged_changes(&statuses_without_head(&index)));

    carry_out(&mut index, &steps_of(GitService::unstage_all(false)));
    assert!(!has_staged_changes(&statuses_without_head(&index)));
}

#[test]
fn unstage_path_works_without_head() {
    let mut index = Index::new().unwrap();

    carry_out(&mut index, &GitService::stage_path("a.txt", true));
    carry_out(&mut index, &GitService::stage_path("b.txt", true));
    carry_out(&mut index, &steps_of(GitService::unstage_path("a.txt", false)));

    assert_eq!(paths_in(&index), vec!["b.txt".to_owned()]);
}

#[test]
fn stage_deleted_file_and_commit() {
    let mut index = Index::new().unwrap();
    index.add(&entry("file.txt")).unwrap();

    carry_out(&mut index, &GitService::stage_path("file.txt", false));
    let statuses = vec![status_entry("file.txt", INDEX_DELETED)];
    let plan = GitService::commit(&statuses, Some(INITIAL.to_owned()), "delete file").unwrap();

    assert_eq!(plan.message, "delete file");
    assert_eq!(plan.parents, vec![INITIAL.to_owned()]);
    assert!(index.get_path(Path::new("file.txt"), 0).is_none());
}

#[test]
fn stage_all_handles_new_and_deleted_files() {
    let mut index = Index::new().unwrap();
    index.add(&entry("old.txt")).unwrap();

    let entries = vec![
        stage_entry("new.txt", WT_NEW, true),
        stage_entry("old.txt", WT_DELETED, false),
    ];
    carry_out(&mut index, &GitService::stage_all(&entries));
    let statuses = vec![
        status_entry("new.txt", INDEX_NEW),
        status_entry("old.txt", INDEX_DELETED),
    ];
    assert!(GitService::commit(&statuses, Some(INITIAL.to_owned()), "replace file").is_ok());

    assert!(index.get_path(Path::new("new.txt"), 0).is_some());
    assert!(index.get_path(Path::new("old.txt"), 0).is_none());
}

#[test]
fn commit_requires_staged_changes() {
    let err = GitService::commit(&Vec::new(), Some(INITIAL.to_owned()), "noop").unwrap_err();
    assert!(err.message().contains("nothing staged"));
    assert!(err.report().contains("nothing staged"));
}

#[test]
fn resolve_existing_repo_finds_parent_repo_from_subdir() {
    let repo_dir = repo_path("/tmp/resolve_parent_repo");
    let found = RepoLocation {
        workdir: Some(repo_path("/tmp/resolve_parent_repo")),
        git_dir: repo_path("/tmp/resolve_parent_repo/.git"),
        git_dir_parent: Some(repo_path("/tmp/resolve_parent_repo")),
    };

    let resolved =
        GitService::resolve_existing_repo("/tmp/resolve_parent_repo/nested/deeper", Ok(found))
            .unwrap();
    assert!(resolved.same(&repo_dir));
}

#[test]
fn resolve_existing_repo_does_not_initialize_when_missing() {
    let err = GitService::resolve_existing_repo(
        "/tmp/resolve_missing_repo/not-a-repo",
        Err("could not find repository".to_owned()),
    )
    .unwrap_err();
    assert!(err.message().contains("no existing git repository found"));
    assert_eq!(
        err.report(),
        "no existing git repository found at or above /tmp/resolve_missing_repo/not-a-repo: \
         could not find repository"
    );
}

#[test]
fn root_of_a_repository_without_working_tree() {
    let inside = RepoLocation {
        workdir: None,
        git_dir: repo_path("/srv/project/.git"),
        git_dir_parent: Some(repo_path("/srv/project")),
    };
    let bare = RepoLocation {
        workdir: None,
        git_dir: repo_path("/srv/project.git"),
        git_dir_parent: Some(repo_path("/srv")),
    };
    let root = GitService::resolve_existing_repo("/srv", Ok(inside)).unwrap();
    assert_eq!(root.text, "/srv/project");
    let root = GitService::resolve_existing_repo("/srv", Ok(bare)).unwrap();
    assert_eq!(root.text, "/srv/project.git");
}

#[test]
fn commit_on_nothing_has_no_parents() {
    let statuses = vec![status_entry("a.txt", INDEX_NEW)];
    let plan = GitService::commit(&statuses, None, "first").unwrap();
    assert!(plan.parents.is_empty());
    assert_eq!(plan.message, "first");
}

#[test]
fn staging_all_skips_what_has_no_path_or_is_not_there() {
    let entries = vec![
        StageEntry {
            path: None,
            status: Status { bits: WT_NEW },
            exists: true,
        },
        stage_entry("gone.txt", INDEX_NEW, false),
        stage_entry("deleted.txt", WT_DELETED | INDEX_NEW, true),
        stage_entry("there.txt", WT_NEW, true),
    ];
    assert_eq!(
        GitService::stage_all(&entries),
        vec![
            IndexStep::Remove {
                path: "deleted.txt".to_owned()
            },
            IndexStep::Add {
                path: "there.txt".to_owned()
            },
            IndexStep::Write,
        ]
    );
}

#[test]
fn unstaging_with_a_head_resets_to_it() {
    assert_eq!(
        GitService::unstage_all(true),
        UnstagePlan::ResetToHead { paths: Vec::new() }
    );
    assert_eq!(
        GitService::unstage_path("a.txt", true),
        UnstagePlan::ResetToHead {
            paths: vec!["a.txt".to_owned()]
        }
    );
}

#[test]
fn branches_are_made_and_checked_out() {
    let reference = "refs/heads/feature/x".to_owned();
    assert_eq!(
        GitService::create_branch("feature/x", false),
        vec![BranchStep::Create {
            name: "feature/x".to_owned()
        }]
    );
    assert_eq!(
        GitService::create_branch("feature/x", true),
        vec![
            BranchStep::Create {
                name: "feature/x".to_owned()
            },
            BranchStep::CheckoutTree {
                reference: reference.clone()
            },
            BranchStep::SetHead { reference },
        ]
    );
}

#[test]
fn resolutions_are_written_then_staged() {
    assert_eq!(
        GitService::apply_resolution("src/a.rs", "fn a() {}\n"),
        vec![
            ResolutionStep::WriteFile {
                path: "src/a.rs".to_owned(),
                text: "fn a() {}\n".to_owned()
            },
            ResolutionStep::Index {
                step: IndexStep::Add {
                    path: "src/a.rs".to_owned()
                }
            },
            ResolutionStep::Index {
                step: IndexStep::Write
            },
        ]
    );
}

#[test]
fn reset_targets_are_object_ids() {
    let full = "00112233445566778899AABBCCDDEEFF00112233";
    assert_eq!(
        GitService::mixed_reset_to(full).unwrap(),
        "00112233445566778899aabbccddeeff00112233"
    );
    assert_eq!(
        GitService::mixed_reset_to("aB").unwrap(),
        "ab00000000000000000000000000000000000000"
    );
    for (bad, message) in [
        ("", "unable to parse OID - too short; class=Invalid (3)"),
        (
            "00112233445566778899aabbccddeeff001122334",
            "unable to parse OID - too long; class=Invalid (3)",
        ),
        (
            "00zz",
            "unable to parse OID - contains invalid characters; class=Invalid (3)",
        ),
        (
            "é",
            "unable to parse OID - contains invalid characters; class=Invalid (3)",
        ),
    ] {
        let err = GitService::mixed_reset_to(bad).unwrap_err();
        assert!(matches!(err, GitError::BadObjectId { .. }));
        assert_eq!(err.message(), message);
        assert_eq!(err.report(), message);
    }
}

#[test]
fn sync_commands_never_ask() {
    let dir = repo_path("/srv/project");
    let env = vec![
        ("GIT_TERMINAL_PROMPT".to_owned(), "0".to_owned()),
        ("GCM_INTERACTIVE".to_owned(), "never".to_owned()),
    ];
    let fetch = GitService::fetch(&dir);
    assert_eq!(fetch.args, vec!["fetch", "--all", "--prune"]);
    assert_eq!(fetch.env, env);
    assert_eq!(fetch.dir.text, "/srv/project");
    let pull = GitService::pull_rebase(&dir);
    assert_eq!(pull.args, vec!["pull", "--rebase"]);
    assert_eq!(pull.env, env);
    let push = GitService::push(&dir);
    assert_eq!(push.args, vec!["push"]);
    assert_eq!(push.env, env);
}

fn args() -> Vec<String> {
    vec!["pull".to_owned(), "--rebase".to_owned()]
}

fn output(success: bool, stdout: &[u8], stderr: &[u8]) -> CommandOutput {
    CommandOutput {
        success,
        stdout: stdout.to_vec(),
        stderr: stderr.to_vec(),
    }
}

#[test]
fn output_of_commands_that_succeed() {
    let told = |out: &[u8], err: &[u8]| run_git_command(&args(), &output(true, out, err)).unwrap();
    assert_eq!(told(b" \n", b""), "git pull --rebase completed successfully");
    assert_eq!(told(b"done\n", b"\t"), "done");
    assert_eq!(told(b"", b"warning\n"), "warning");
    assert_eq!(told(b"done\n", b"warning\n"), "done\nwarning");
    assert_eq!(told(b"a\xffb", b""), "a\u{fffd}b");
    assert_eq!(
        command_outcome(&args(), true, "  one\ntwo  ", "").unwrap(),
        "one\ntwo"
    );
}

#[test]
fn output_of_commands_that_fail() {
    let told = |out: &[u8], err: &[u8]| {
        run_git_command(&args(), &output(false, out, err))
            .unwrap_err()
            .report()
    };
    assert_eq!(
        told(b"", b""),
        "git pull --rebase failed: command failed without output"
    );
    assert_eq!(told(b"out", b""), "git pull --rebase failed: out");
    assert_eq!(told(b"", b"err"), "git pull --rebase failed: err");
    assert_eq!(told(b"out", b"err"), "git pull --rebase failed: out\nerr");
}

#[test]
fn outputs_are_merged() {
    let merge = |a: &str, b: &str| merge_output(a.to_owned(), b.to_owned());
    assert_eq!(merge("", ""), "");
    assert_eq!(merge("a", ""), "a");
    assert_eq!(merge("", "b"), "b");
    assert_eq!(merge("a", "b"), "a\nb");
}

#[test]
fn distance_to_the_upstream_is_searched_step_by_step() {
    let none = SyncStep::Done {
        ahead: 0,
        behind: 0,
    };
    let head = |is_branch: bool, target: Option<&str>, shorthand: Option<&str>| {
        Some(HeadInfo {
            is_branch,
            target: target.map(str::to_owned),
            shorthand: shorthand.map(str::to_owned),
        })
    };
    assert_eq!(ahead_behind(&None), none);
    assert_eq!(ahead_behind(&head(false, Some(INITIAL), Some("main"))), none);
    assert_eq!(ahead_behind(&head(true, None, Some("main"))), none);
    assert_eq!(
        ahead_behind(&head(true, Some(INITIAL), None)),
        SyncStep::FindUpstream {
            branch: String::new(),
            head: INITIAL.to_owned()
        }
    );
    assert_eq!(
        ahead_behind(&head(true, Some(INITIAL), Some("main"))),
        SyncStep::FindUpstream {
            branch: "main".to_owned(),
            head: INITIAL.to_owned()
        }
    );
    assert_eq!(ahead_behind_upstream(INITIAL.to_owned(), None), none);
    assert_eq!(ahead_behind_upstream(INITIAL.to_owned(), Some(None)), none);
    assert_eq!(
        ahead_behind_upstream(INITIAL.to_owned(), Some(Some("22".to_owned()))),
        SyncStep::Count {
            head: INITIAL.to_owned(),
            upstream: "22".to_owned()
        }
    );
}

#[test]
fn failures_are_told() {
    let text = |s: &str| s.to_owned();
    let cases = [
        (
            GitError::NoRepository { path: text("/p"), cause: text("c") },
            "no existing git repository found at or above /p",
            "no existing git repository found at or above /p: c",
        ),
        (
            GitError::OpenFailed { path: text("/p"), cause: text("c") },
            "failed to open repository /p",
            "failed to open repository /p: c",
        ),
        (
            GitError::BareRepository,
            "bare repositories are not supported",
            "bare repositories are not supported",
        ),
        (
            GitError::BareConflicts,
            "bare repository is not supported for conflict resolution",
            "bare repository is not supported for conflict resolution",
        ),
        (
            GitError::NothingStaged,
            "nothing staged to commit",
            "nothing staged to commit",
        ),
        (
            GitError::NoSignature { cause: text("c") },
            "failed to create commit signature",
            "failed to create commit signature: c",
        ),
        (
            GitError::WriteFailed { path: text("/p"), cause: text("c") },
            "failed to write resolution to /p",
            "failed to write resolution to /p: c",
        ),
        (
            GitError::NotStarted { command: text("push"), cause: text("c") },
            "failed to run git push",
            "failed to run git push: c",
        ),
        (
            GitError::CommandFailed { command: text("push"), details: text("d") },
            "git push failed: d",
            "git push failed: d",
        ),
        (GitError::BadObjectId { cause: text("c") }, "c", "c"),
        (GitError::Repository { cause: text("c") }, "c", "c"),
    ];
    for (error, message, report) in cases {
        assert_eq!(error.message(), message);
        assert_eq!(error.report(), report);
    }
}

#[test]
fn unstaging_what_was_staged_gives_the_index_back() {
    let mut index = Index::new().unwrap();
    index.add(&entry("kept.txt")).unwrap();
    let before = paths_in(&index);

    carry_out(&mut index, &GitService::stage_path("a.txt", true));
    assert_eq!(paths_in(&index), vec!["a.txt", "kept.txt"]);
    carry_out(&mut index, &steps_of(GitService::unstage_path("a.txt", false)));

    assert_eq!(paths_in(&index), before);
}

#[test]
fn a_second_commit_is_refused() {
    let statuses = vec![status_entry("a.txt", INDEX_NEW)];
    assert!(GitService::commit(&statuses, None, "first").is_ok());
    let edited = vec![status_entry("a.txt", WT_NEW)];
    for statuses in [Vec::new(), edited] {
        let err = GitService::commit(&statuses, Some(INITIAL.to_owned()), "second").unwrap_err();
        assert!(matches!(err, GitError::NothingStaged));
    }
}
