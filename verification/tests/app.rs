use git_control::actions::{filter_actions, palette_actions, AiProvider, PaletteAction, WorkTab};
use git_control::app::{
    add_outcome, contains_conflict_markers, default_repo_root, shortcuts_pressed, GitControlApp,
};
use git_control::clicks::Click;
use git_control::effects::{AddOutcome, AiPoll, RepoAction, Shortcut, Step};
use git_control::git_error::GitError;
use git_control::model::{
    AiSuggestion, ConflictEntry, RecoveryEntry, RepoSnapshot, RepoSummary, ResolutionStrategy,
};
use git_control::paths::{PathPart, PathPrefix, RepoPath};
use git_control::sort::{stable_sort, Ranked};

fn path(name: &str) -> RepoPath {
    RepoPath {
        text: format!("/srv/{name}"),
        parts: vec![
            PathPart::Root,
            PathPart::Normal(b"srv".to_vec()),
            PathPart::Normal(name.as_bytes().to_vec()),
        ],
    }
}

fn summary(name: &str) -> RepoSummary {
    RepoSummary {
        name: name.to_owned(),
        path: path(name),
        ..RepoSummary::default()
    }
}

fn conflict(name: &str) -> ConflictEntry {
    ConflictEntry {
        path: name.to_owned(),
        ours_label: "main".to_owned(),
        theirs_label: "incoming".to_owned(),
        content: format!("<<<<<<< {name}"),
    }
}

fn recovery(id: &str) -> RecoveryEntry {
    RecoveryEntry {
        to_id: id.to_owned(),
        to_id_short: id.to_owned(),
        from_id_short: "0".to_owned(),
        message: format!("moved to {id}"),
        timestamp: "then".to_owned(),
    }
}

fn suggestion(resolved: &str) -> AiSuggestion {
    AiSuggestion {
        title: "Title".to_owned(),
        explanation: "Why".to_owned(),
        resolved_text: resolved.to_owned(),
    }
}

fn snapshot(name: &str) -> RepoSnapshot {
    let mut snapshot = RepoSnapshot::default();
    snapshot.summary = summary(name);
    snapshot.conflicts = vec![conflict("a.rs"), conflict("b.rs")];
    snapshot.recovery = vec![recovery("aa"), recovery("bb")];
    snapshot
}

fn fresh() -> GitControlApp {
    GitControlApp::new("/srv", "test-key")
}

/// The application with two repositories, of which the first is loaded.
fn loaded() -> GitControlApp {
    let mut app = fresh();
    let step = app.repositories_scanned("/srv", Some(vec![summary("beta"), summary("alpha")]), None);
    report_loaded(&mut app, step, Ok(snapshot("alpha")));
    app
}

fn report_loaded(app: &mut GitControlApp, step: Step, read: Result<RepoSnapshot, String>) {
    match step {
        Step::LoadSnapshot { announce, .. } => app.snapshot_loaded(read, announce),
        other => panic!("expected a snapshot to be loaded, not {other:?}"),
    }
}

fn told(app: &GitControlApp) -> (&str, bool) {
    (app.status_line.as_str(), app.status_is_error)
}

#[test]
fn starts_ready_and_scans() {
    let app = fresh();
    assert_eq!(told(&app), ("Ready", false));
    assert_eq!(app.active_tab, WorkTab::Changes);
    assert_eq!(app.ai_strategy, ResolutionStrategy::SmartBlend);
    assert_eq!(app.ai_provider, AiProvider::LocalHeuristic);
    assert_eq!(app.openai_model_input, "gpt-4.1-mini");
    assert_eq!(app.openai_base_url_input, "https://api.openai.com/v1");
    assert_eq!(app.openai_api_key_input, "test-key");
    assert_eq!(
        app.refresh_repositories(),
        Step::Scan {
            root: "/srv".to_owned(),
            depth: 6,
            announce: None
        }
    );
}

#[test]
fn scanning_lists_by_name_and_selects() {
    let mut app = fresh();
    app.repo_root_input = "  /srv ".to_owned();
    assert!(matches!(app.refresh_repositories(), Step::Scan { root, .. } if root == "/srv"));
    let step = app.repositories_scanned("/srv", Some(vec![summary("beta"), summary("alpha")]), None);
    let names: Vec<&str> = app.repositories.iter().map(|r| r.name.as_str()).collect();
    assert_eq!(names, vec!["alpha", "beta"]);
    assert_eq!(app.selected_repo, Some(0));
    assert!(matches!(&step, Step::LoadSnapshot { repo, .. } if repo.same(&path("alpha"))));
    report_loaded(&mut app, step, Err("broken".to_owned()));
    assert_eq!(told(&app), ("Found 2 repositories in /srv", false));
    assert!(app.snapshot.is_none());
}

#[test]
fn scanning_keeps_the_selection_where_it_can() {
    let mut app = loaded();
    app.selected_repo = Some(1);
    app.repositories_scanned("/srv", Some(vec![summary("x"), summary("y")]), None);
    assert_eq!(app.selected_repo, Some(1));
    let step = app.repositories_scanned("/srv", Some(vec![summary("x")]), None);
    assert_eq!(app.selected_repo, Some(0));
    report_loaded(&mut app, step, Ok(snapshot("x")));
    assert_eq!(told(&app), ("Found 1 repository in /srv", false));
}

#[test]
fn scanning_can_find_nothing() {
    let mut app = loaded();
    assert_eq!(app.repositories_scanned("/none", None, None), Step::Idle);
    assert_eq!(told(&app), ("Path does not exist: /none", true));
    assert_eq!(app.repositories.len(), 2);
    assert_eq!(app.repositories_scanned("/srv", Some(Vec::new()), None), Step::Idle);
    assert_eq!(told(&app), ("No git repositories found in /srv", false));
    assert!(app.repositories.is_empty() && app.selected_repo.is_none() && app.snapshot.is_none());
    let announce = Some("Refreshed repositories".to_owned());
    app.repositories_scanned("/none", None, announce);
    assert_eq!(told(&app), ("Refreshed repositories", false));
}

#[test]
fn reloading_updates_the_list_and_forgets_selections() {
    let mut app = loaded();
    app.selected_change = Some(3);
    app.selected_conflict = Some(1);
    app.pending_reset_to = Some("aa".to_owned());
    app.ai_suggestion = Some(suggestion("x"));
    app.ai_edited_text = "x".to_owned();
    let step = app.click(Click::Reload);
    let mut newer = snapshot("alpha");
    newer.summary.staged_count = 7;
    report_loaded(&mut app, step, Ok(newer));
    assert_eq!(told(&app), ("Reloaded selected repository", false));
    assert_eq!(app.repositories[0].staged_count, 7);
    assert_eq!(app.repositories[1].staged_count, 0);
    assert!(app.selected_change.is_none() && app.selected_conflict.is_none());
    assert!(app.pending_reset_to.is_none() && app.ai_suggestion.is_none());
    assert_eq!(app.ai_edited_text, "");
    app.snapshot_loaded(Err("gone".to_owned()), None);
    assert_eq!(told(&app), ("Failed to load repository: gone", true));
    assert!(app.snapshot.is_none());
}

#[test]
fn reloading_without_selection_drops_the_snapshot() {
    let mut app = fresh();
    assert_eq!(app.refresh_selected_repo_snapshot(None), Step::Idle);
    assert!(app.snapshot_cloned().is_none());
    assert_eq!(app.click(Click::Reload), Step::Idle);
    assert_eq!(told(&app), ("Reloaded selected repository", false));
}

#[test]
fn repositories_are_added() {
    let mut app = loaded();
    app.manual_repo_input = " /srv/aardvark ".to_owned();
    assert_eq!(
        app.click(Click::AddRepo),
        Step::Add {
            typed: "/srv/aardvark".to_owned()
        }
    );
    let step = app.add_repository(AddOutcome::Found {
        summary: summary("aardvark"),
        root: path("aardvark"),
    });
    assert_eq!(app.selected_repo, Some(0));
    assert_eq!(app.repositories.len(), 3);
    report_loaded(&mut app, step, Ok(snapshot("aardvark")));
    assert_eq!(told(&app), ("Added repository: /srv/aardvark", false));
}

#[test]
fn repositories_that_cannot_be_added_are_told() {
    let mut app = loaded();
    app.add_repository(AddOutcome::Missing { path: "/x".to_owned() });
    assert_eq!(told(&app), ("Path does not exist: /x", true));
    app.add_repository(AddOutcome::NotFound { reason: "r".to_owned() });
    assert_eq!(told(&app), ("No existing repository found: r", true));
    app.add_repository(AddOutcome::Invalid { reason: "r".to_owned() });
    assert_eq!(told(&app), ("Not a valid git repository: r", true));
    assert_eq!(app.repositories.len(), 2);
}

#[test]
fn operations_report_back() {
    let mut app = loaded();
    for (click, action, done, failed) in [
        (Click::StageAll, RepoAction::StageAll, "Staged all changes", "Staged all changes failed: no"),
        (
            Click::UnstageAll,
            RepoAction::UnstageAll,
            "Unstaged all changes",
            "Unstaged all changes failed: no",
        ),
        (
            Click::StagePath { path: "a".to_owned() },
            RepoAction::StagePath { path: "a".to_owned() },
            "Staged file",
            "Staged file failed: no",
        ),
        (
            Click::UnstagePath { path: "a".to_owned() },
            RepoAction::UnstagePath { path: "a".to_owned() },
            "Unstaged file",
            "Unstaged file failed: no",
        ),
        (
            Click::CheckoutBranch { name: "dev".to_owned() },
            RepoAction::CheckoutBranch { name: "dev".to_owned() },
            "Switched branch",
            "Switched branch failed: no",
        ),
    ] {
        let step = app.click(click);
        assert!(
            matches!(step, Step::Perform { repo, action: set_out } if repo.same(&path("alpha")) && set_out == action)
        );
        let before = app.snapshot.clone();
        assert_eq!(app.repo_action_finished(&action, Err("no".to_owned())), Step::Idle);
        assert_eq!(told(&app), (failed, true));
        assert!(app.snapshot == before);
        let step = app.repo_action_finished(&action, Ok(String::new()));
        report_loaded(&mut app, step, Err("unreadable".to_owned()));
        assert_eq!(told(&app), (done, false));
        app.snapshot_loaded(Ok(snapshot("alpha")), None);
    }
    assert_eq!(app.sync_output, "");
}

#[test]
fn sync_operations_keep_their_output() {
    let mut app = loaded();
    for (click, action, done) in [
        (Click::Fetch, RepoAction::Fetch, "Fetch completed"),
        (Click::PullRebase, RepoAction::PullRebase, "Pull with rebase completed"),
        (Click::Push, RepoAction::Push, "Push completed"),
    ] {
        assert!(matches!(app.click(click), Step::Perform { .. }));
        let step = app.repo_action_finished(&action, Ok(format!("output of {done}")));
        report_loaded(&mut app, step, Ok(snapshot("alpha")));
        assert_eq!(told(&app), (done, false));
        assert_eq!(app.sync_output, format!("output of {done}"));
        app.repo_action_finished(&action, Err("offline".to_owned()));
        assert_eq!(app.sync_output, format!("output of {done}"));
    }
}

#[test]
fn operations_need_a_repository() {
    let mut app = fresh();
    assert_eq!(app.click(Click::StageAll), Step::Idle);
    assert_eq!(told(&app), ("No repository selected", true));
}

#[test]
fn commits_need_a_message() {
    let mut app = loaded();
    app.commit_message = " \n".to_owned();
    assert_eq!(app.commit(), Step::Idle);
    assert_eq!(told(&app), ("Commit message cannot be empty", true));
    app.commit_message = " feat: x \n".to_owned();
    let step = app.commit();
    let action = RepoAction::Commit { message: "feat: x".to_owned() };
    assert!(matches!(step, Step::Perform { action: set_out, .. } if set_out == action));
    app.repo_action_finished(&action, Err("nothing staged to commit".to_owned()));
    assert_eq!(told(&app), ("Commit failed: nothing staged to commit", true));
    assert_eq!(app.commit_message, " feat: x \n");
    let step = app.repo_action_finished(&action, Ok("abc".to_owned()));
    report_loaded(&mut app, step, Ok(snapshot("alpha")));
    assert_eq!(told(&app), ("Committed abc", false));
    assert_eq!(app.commit_message, "");
}

#[test]
fn branches_need_a_name() {
    let mut app = loaded();
    app.branch_name_input = "  ".to_owned();
    assert_eq!(app.create_branch(), Step::Idle);
    assert_eq!(told(&app), ("Branch name cannot be empty", true));
    app.branch_name_input = " dev ".to_owned();
    let step = app.click(Click::CreateBranch);
    let action = RepoAction::CreateBranch { name: "dev".to_owned() };
    assert!(matches!(step, Step::Perform { action: set_out, .. } if set_out == action));
    assert_eq!(app.branch_name_input, "");
    let step = app.repo_action_finished(&action, Ok(String::new()));
    report_loaded(&mut app, step, Ok(snapshot("alpha")));
    assert_eq!(told(&app), ("Branch created and checked out", false));
    let mut empty = fresh();
    empty.branch_name_input = "dev".to_owned();
    assert_eq!(empty.create_branch(), Step::Idle);
    assert_eq!(told(&empty), ("No repository selected", true));
    assert_eq!(empty.branch_name_input, "");
}

#[test]
fn conflict_markers_are_recognized() {
    assert!(contains_conflict_markers("a\n<<<<<<< ours\n"));
    assert!(contains_conflict_markers("======="));
    assert!(contains_conflict_markers("x>>>>>>>>"));
    assert!(!contains_conflict_markers("<<<<<< ====== >>>>>>"));
    assert!(!contains_conflict_markers(""));
}

#[test]
fn resolutions_are_guarded() {
    let mut app = fresh();
    assert_eq!(app.apply_ai_resolution(), Step::Idle);
    assert_eq!(told(&app), ("No repository loaded", true));
    let mut app = loaded();
    app.apply_ai_resolution();
    assert_eq!(told(&app), ("Select a conflict file first", true));
    app.selected_conflict = Some(2);
    app.apply_ai_resolution();
    assert_eq!(told(&app), ("Conflict selection is out of range", true));
    app.selected_conflict = Some(1);
    app.apply_ai_resolution();
    assert_eq!(told(&app), ("Generate an AI suggestion first", true));
    app.local_suggestion(suggestion("done"));
    assert_eq!(told(&app), ("Generated local AI suggestion", false));
    app.ai_edited_text = "=======\n".to_owned();
    assert_eq!(app.click(Click::ApplySuggestion), Step::Idle);
    assert_eq!(told(&app), ("Resolved text still contains conflict markers", true));
    app.click(Click::RestoreSuggestion);
    assert_eq!(app.ai_edited_text, "done");
    app.ai_edited_text = "done by hand".to_owned();
    let action = RepoAction::ApplyResolution {
        path: "b.rs".to_owned(),
        resolved: "done by hand".to_owned(),
    };
    let step = app.click(Click::ApplySuggestion);
    assert!(matches!(step, Step::Perform { action: set_out, .. } if set_out == action));
    let step = app.repo_action_finished(&action, Ok(String::new()));
    report_loaded(&mut app, step, Ok(snapshot("alpha")));
    assert_eq!(told(&app), ("Applied AI resolution and staged file", false));
}

#[test]
fn local_suggestions_are_asked_for() {
    let mut app = loaded();
    app.selected_conflict = Some(0);
    app.ai_suggestion = Some(suggestion("old"));
    app.click(Click::SetStrategy { strategy: ResolutionStrategy::KeepTheirs });
    assert_eq!(
        app.request_ai_suggestion(),
        Step::SuggestLocally {
            content: "<<<<<<< a.rs".to_owned(),
            strategy: ResolutionStrategy::KeepTheirs
        }
    );
    assert!(app.ai_suggestion.is_none());
    app.local_suggestion(suggestion("new"));
    assert_eq!(app.ai_edited_text, "new");
    assert_eq!(app.ai_suggestion, Some(suggestion("new")));
}

#[test]
fn one_remote_request_at_a_time() {
    let mut app = loaded();
    app.selected_conflict = Some(0);
    app.click(Click::SetProvider { provider: AiProvider::OpenAi });
    app.openai_api_key_input = "  ".to_owned();
    assert_eq!(app.click(Click::Suggest), Step::Idle);
    assert_eq!(told(&app), ("Set OpenAI API key before remote suggestion", true));
    app.openai_api_key_input = " test-key ".to_owned();
    app.openai_model_input = " m ".to_owned();
    match app.click(Click::Suggest) {
        Step::SuggestRemotely { conflict, strategy, config } => {
            assert_eq!(conflict.path, "a.rs");
            assert_eq!(strategy, ResolutionStrategy::SmartBlend);
            assert_eq!(config.api_key, "test-key");
            assert_eq!(config.model, "m");
            assert_eq!(config.base_url, "https://api.openai.com/v1");
        }
        other => panic!("expected a request, not {other:?}"),
    }
    assert_eq!(told(&app), ("Generating remote AI suggestion...", false));
    assert_eq!(app.click(Click::Suggest), Step::Idle);
    assert_eq!(told(&app), ("AI request already in progress", false));
    app.poll_ai_request(AiPoll::Waiting);
    assert!(app.ai_request_in_flight);
    app.poll_ai_request(AiPoll::Answered { suggestion: suggestion("remote") });
    assert!(!app.ai_request_in_flight);
    assert_eq!(told(&app), ("Remote AI suggestion ready", false));
    assert_eq!(app.ai_edited_text, "remote");
    app.poll_ai_request(AiPoll::Failed { reason: "late".to_owned() });
    assert_eq!(told(&app), ("Remote AI suggestion ready", false));
}

#[test]
fn remote_requests_can_fail() {
    let mut app = loaded();
    app.ai_request_in_flight = true;
    app.poll_ai_request(AiPoll::Failed { reason: "401".to_owned() });
    assert_eq!(told(&app), ("Remote AI failed: 401", true));
    assert!(!app.ai_request_in_flight);
    app.ai_request_in_flight = true;
    app.poll_ai_request(AiPoll::Disconnected);
    assert_eq!(told(&app), ("Remote AI request disconnected", true));
    assert!(!app.ai_request_in_flight);
}

#[test]
fn resets_take_two_steps() {
    let mut app = loaded();
    assert_eq!(app.click(Click::ConfirmReset), Step::Idle);
    assert_eq!(app.click(Click::ArmReset), Step::Idle);
    assert!(app.pending_reset_to.is_none());
    app.click(Click::SelectRecovery { index: 1 });
    assert_eq!(app.click(Click::ConfirmReset), Step::Idle);
    assert_eq!(app.click(Click::ArmReset), Step::Idle);
    assert_eq!(told(&app), ("Reset armed. Click confirm to execute", false));
    assert_eq!(app.armed_reset(), Some("bb".to_owned()));
    app.click(Click::SelectRecovery { index: 0 });
    assert_eq!(app.armed_reset(), None);
    assert_eq!(app.click(Click::ConfirmReset), Step::Idle);
    app.click(Click::SelectRecovery { index: 1 });
    app.click(Click::CancelReset);
    assert_eq!(told(&app), ("Canceled recovery reset", false));
    assert_eq!(app.click(Click::ConfirmReset), Step::Idle);
    app.click(Click::ArmReset);
    let action = RepoAction::ResetTo { oid: "bb".to_owned() };
    let step = app.click(Click::ConfirmReset);
    assert!(matches!(step, Step::Perform { action: set_out, .. } if set_out == action));
    assert!(app.pending_reset_to.is_none());
    let step = app.repo_action_finished(&action, Ok(String::new()));
    report_loaded(&mut app, step, Ok(snapshot("alpha")));
    assert_eq!(told(&app), ("Reset repository to selected reflog entry", false));
    app.repo_action_finished(&action, Err("no".to_owned()));
    assert_eq!(told(&app), ("Reset repository to selected reflog entry failed: no", true));
}

#[test]
fn keys_do_what_they_say() {
    let mut app = loaded();
    assert_eq!(app.handle_shortcut(Shortcut::OpenPalette), Step::Idle);
    assert!(app.command_palette_open);
    assert_eq!(
        app.handle_shortcut(Shortcut::Refresh),
        Step::Scan {
            root: "/srv".to_owned(),
            depth: 6,
            announce: Some("Refreshed repositories".to_owned())
        }
    );
    app.commit_message = "x".to_owned();
    assert!(matches!(
        app.handle_shortcut(Shortcut::Commit),
        Step::Perform { action: RepoAction::Commit { .. }, .. }
    ));
}

#[test]
fn palette_actions_are_carried_out() {
    let mut app = loaded();
    app.commit_message = "x".to_owned();
    for action in palette_actions() {
        app.command_palette_open = true;
        let step = app.click(Click::Palette { action });
        assert!(!app.command_palette_open);
        match action {
            PaletteAction::RefreshRepositories => {
                assert!(matches!(step, Step::Scan { announce: None, .. }))
            }
            PaletteAction::ReloadSelectedRepo => {
                assert!(matches!(step, Step::LoadSnapshot { announce: None, .. }))
            }
            PaletteAction::OpenTab(tab) => {
                assert_eq!(step, Step::Idle);
                assert_eq!(app.active_tab, tab);
            }
            _ => assert!(matches!(step, Step::Perform { .. })),
        }
    }
}

#[test]
fn palette_is_filtered() {
    assert_eq!(filter_actions("").len(), 14);
    assert_eq!(filter_actions("  ").len(), 14);
    assert_eq!(
        filter_actions(" STAGE "),
        vec![PaletteAction::StageAll, PaletteAction::UnstageAll]
    );
    assert_eq!(filter_actions("cmd/ctrl+k").len(), 6);
    assert_eq!(filter_actions("--rebase"), vec![PaletteAction::PullRebase]);
    assert_eq!(filter_actions("+ENTER"), vec![PaletteAction::Commit]);
    assert!(filter_actions("nonsense").is_empty());
}

#[test]
fn selecting_a_repository_reads_it() {
    let mut app = loaded();
    assert_eq!(app.click(Click::SelectRepo { index: 0 }), Step::Idle);
    let step = app.click(Click::SelectRepo { index: 1 });
    assert!(matches!(&step, Step::LoadSnapshot { repo, announce: None } if repo.same(&path("beta"))));
    report_loaded(&mut app, step, Ok(snapshot("beta")));
    assert_eq!(app.selected_repo_path().unwrap().text, "/srv/beta");
}

#[test]
fn clicks_select_and_fill_in() {
    let mut app = loaded();
    app.click(Click::SelectChange { index: 4 });
    app.click(Click::SelectCommit { index: 5 });
    app.click(Click::SelectBranch { index: 6 });
    assert_eq!(app.selected_change, Some(4));
    assert_eq!(app.selected_commit, Some(5));
    assert_eq!(app.selected_branch, Some(6));
    app.click(Click::StartMessage { start: "fix: ".to_owned() });
    assert_eq!(app.commit_message, "fix: ");
    app.ai_suggestion = Some(suggestion("x"));
    app.ai_edited_text = "x".to_owned();
    app.click(Click::SelectConflict { index: 1 });
    assert_eq!(app.selected_conflict, Some(1));
    assert!(app.ai_suggestion.is_none());
    assert_eq!(app.ai_edited_text, "");
    app.click(Click::ShowPalette);
    assert!(app.command_palette_open);
    app.click(Click::OpenTab { tab: WorkTab::Sync });
    assert_eq!(app.active_tab, WorkTab::Sync);
}

#[test]
fn clicks_lead_to_conflicts() {
    let mut app = loaded();
    app.click(Click::ResolveChange { path: "b.rs".to_owned() });
    assert_eq!(app.active_tab, WorkTab::Conflicts);
    assert_eq!(app.selected_conflict, Some(1));
    app.click(Click::ResolveChange { path: "c.rs".to_owned() });
    assert_eq!(app.selected_conflict, None);
    app.show_conflicts();
    assert_eq!(app.selected_conflict, Some(0));
    app.ai_suggestion = Some(suggestion("x"));
    app.show_conflicts();
    assert_eq!(app.ai_edited_text, "x");
    app.ai_edited_text = "y".to_owned();
    app.show_conflicts();
    assert_eq!(app.ai_edited_text, "y");
    let mut empty = fresh();
    empty.show_conflicts();
    assert_eq!(empty.selected_conflict, None);
}

#[test]
fn commands_are_copied() {
    let mut app = loaded();
    assert_eq!(
        app.click(Click::CopyPull),
        Step::Copy {
            copied: "git pull --rebase".to_owned()
        }
    );
    assert_eq!(told(&app), ("Copied pull command", false));
    assert_eq!(
        app.click(Click::CopyPush),
        Step::Copy {
            copied: "git push".to_owned()
        }
    );
    assert_eq!(told(&app), ("Copied push command", false));
}

#[test]
fn repositories_are_looked_for_near_home() {
    let text = |s: &str| Some(s.to_owned());
    assert_eq!(default_repo_root(text("/h"), text("/h/Desktop"), text("/c")), "/h/Desktop");
    assert_eq!(default_repo_root(text("/h"), None, text("/c")), "/h");
    assert_eq!(default_repo_root(None, None, text("/c")), "/c");
    assert_eq!(default_repo_root(None, None, None), ".");
}

#[test]
fn paths_are_compared_by_their_parts() {
    let mut other = path("alpha");
    other.text = "/srv//alpha/".to_owned();
    assert!(other == path("alpha"));
    assert!(other != path("beta"));
}

#[test]
fn adding_has_four_outcomes() {
    let broken = || GitError::Repository {
        cause: "c".to_owned(),
    };
    assert_eq!(
        add_outcome("/x", None),
        AddOutcome::Missing {
            path: "/x".to_owned()
        }
    );
    assert_eq!(
        add_outcome("/x", Some(Err(broken()))),
        AddOutcome::NotFound {
            reason: "c".to_owned()
        }
    );
    assert_eq!(
        add_outcome("/x", Some(Ok((path("x"), Err(broken()))))),
        AddOutcome::Invalid {
            reason: "c".to_owned()
        }
    );
    assert_eq!(
        add_outcome("/x", Some(Ok((path("x"), Ok(summary("x")))))),
        AddOutcome::Found {
            summary: summary("x"),
            root: path("x")
        }
    );
}

#[test]
fn keys_need_the_command_key() {
    assert!(shortcuts_pressed(false, true, true, true).is_empty());
    assert!(shortcuts_pressed(true, false, false, false).is_empty());
    assert_eq!(
        shortcuts_pressed(true, true, true, true),
        vec![Shortcut::OpenPalette, Shortcut::Refresh, Shortcut::Commit]
    );
    assert_eq!(shortcuts_pressed(true, false, true, false), vec![Shortcut::Refresh]);
    assert_eq!(shortcuts_pressed(true, false, false, true), vec![Shortcut::Commit]);
}

fn prefixed(prefix: PathPrefix, name: &str) -> RepoPath {
    RepoPath {
        text: name.to_owned(),
        parts: vec![
            PathPart::Prefix(prefix),
            PathPart::Root,
            PathPart::Normal(name.as_bytes().to_vec()),
        ],
    }
}

#[test]
fn prefixes_are_compared_as_parsed() {
    let bytes = |s: &str| s.as_bytes().to_vec();
    assert!(prefixed(PathPrefix::Disk(b'C'), "a") == prefixed(PathPrefix::Disk(b'c'), "a"));
    assert!(prefixed(PathPrefix::Disk(b'C'), "a") != prefixed(PathPrefix::Disk(b'D'), "a"));
    assert!(prefixed(PathPrefix::Disk(b'C'), "a") != prefixed(PathPrefix::VerbatimDisk(b'C'), "a"));
    let unc = |server: &str, share: &str| PathPrefix::Unc(bytes(server), bytes(share));
    assert!(prefixed(unc("a", "b"), "x").may_precede(&prefixed(unc("a", "c"), "a")));
    assert!(!prefixed(unc("b", "a"), "x").may_precede(&prefixed(unc("a", "c"), "x")));
    let sorted = stable_sort(vec![
        path("rooted"),
        prefixed(PathPrefix::Disk(b'd'), "disk d"),
        prefixed(PathPrefix::Disk(b'C'), "disk c"),
        prefixed(unc("a", "b"), "unc"),
        prefixed(PathPrefix::DeviceNs(bytes("COM1")), "device"),
        prefixed(PathPrefix::VerbatimDisk(b'Z'), "verbatim disk"),
        prefixed(PathPrefix::VerbatimUnc(bytes("z"), bytes("z")), "verbatim unc"),
        prefixed(PathPrefix::Verbatim(bytes("z")), "verbatim"),
    ]);
    let names: Vec<&str> = sorted.iter().map(|p| p.text.as_str()).collect();
    assert_eq!(
        names,
        vec![
            "verbatim",
            "verbatim unc",
            "verbatim disk",
            "device",
            "unc",
            "disk c",
            "disk d",
            "/srv/rooted"
        ]
    );
}
