use git_control::actions::{AiProvider, WorkTab};
use git_control::app::GitControlApp;
use git_control::clicks::Click;
use git_control::model::{
    AiSuggestion, BranchEntry, CommitEntry, ConflictEntry, FileChange, RecoveryEntry, RepoSnapshot,
    RepoSummary, ResolutionStrategy,
};
use git_control::panels::{
    info_row, render_branch_info, render_change_info, render_commit_info, risk_panel,
    segmented_tab, show_command_bar, yes_no,
};
use git_control::panes::{passes_filter, rows_for_changes, text_without_repo};
use git_control::paths::{PathPart, RepoPath};
use git_control::widgets::{Button, Chip, Choice, InspectorBody, Rgb};

fn rgb(r: u8, g: u8, b: u8) -> Rgb {
    Rgb { r, g, b }
}

fn summary(name: &str) -> RepoSummary {
    RepoSummary {
        name: name.to_owned(),
        path: RepoPath {
            text: format!("/srv/{name}"),
            parts: vec![PathPart::Root, PathPart::Normal(name.as_bytes().to_vec())],
        },
        current_branch: "main".to_owned(),
        staged_count: 1,
        unstaged_count: 2,
        untracked_count: 3,
        conflict_count: 0,
        ahead: 4,
        behind: 0,
        next_step: "Go on.".to_owned(),
    }
}

fn change(path: &str, kind: &str, staged: bool, unstaged: bool) -> FileChange {
    FileChange {
        path: path.to_owned(),
        kind: kind.to_owned(),
        staged,
        unstaged,
    }
}

fn commit(oid: &str, parents: &[&str], labels: &[&str]) -> CommitEntry {
    CommitEntry {
        oid: oid.to_owned(),
        id: oid.to_owned(),
        summary: format!("feat: {oid}"),
        author: "Ada".to_owned(),
        timestamp: "then".to_owned(),
        parents: parents.iter().map(|p| p.to_string()).collect(),
        branch_labels: labels.iter().map(|l| l.to_string()).collect(),
    }
}

fn app_with(snapshot: RepoSnapshot) -> GitControlApp {
    let mut app = GitControlApp::new("/srv", "");
    app.repositories = vec![summary("alpha"), summary("beta")];
    app.selected_repo = Some(0);
    app.snapshot = Some(snapshot);
    app
}

fn snapshot() -> RepoSnapshot {
    let mut snapshot = RepoSnapshot::default();
    snapshot.summary = summary("alpha");
    snapshot.changes = vec![
        change("src/Main.rs", "modified", true, true),
        change("README.md", "new", false, true),
        change("src/b.rs", "conflicted", false, false),
        change("src/c.rs", "deleted", true, false),
    ];
    snapshot.commits = vec![
        commit("m", &["a", "b"], &["1", "2", "3", "4", "5"]),
        commit("b", &["root"], &[]),
        commit("a", &["root"], &["dev"]),
    ];
    snapshot.branches = vec![
        BranchEntry {
            name: "dev".to_owned(),
            is_head: false,
            upstream: None,
        },
        BranchEntry {
            name: "main".to_owned(),
            is_head: true,
            upstream: Some("origin/main".to_owned()),
        },
    ];
    snapshot.conflicts = vec![ConflictEntry {
        path: "src/b.rs".to_owned(),
        ours_label: "main".to_owned(),
        theirs_label: "incoming".to_owned(),
        content: "<<<<<<<".to_owned(),
    }];
    snapshot.recovery = vec![RecoveryEntry {
        to_id: "aabbccddee".to_owned(),
        to_id_short: "aabbccdd".to_owned(),
        from_id_short: "00112233".to_owned(),
        message: "commit: x".to_owned(),
        timestamp: "then".to_owned(),
    }];
    snapshot
}

fn labels(buttons: &[Button]) -> Vec<&str> {
    buttons.iter().map(|b| b.label.as_str()).collect()
}

fn chip_labels(chips: &[Chip]) -> Vec<&str> {
    chips.iter().map(|c| c.label.as_str()).collect()
}

fn chosen(choices: &[Choice]) -> Vec<&str> {
    choices
        .iter()
        .filter(|c| c.selected)
        .map(|c| c.label.as_str())
        .collect()
}

fn rows_of(body: InspectorBody) -> Vec<(String, String)> {
    match body {
        InspectorBody::Rows { rows } => rows.into_iter().map(|r| (r.label, r.value)).collect(),
        other => panic!("expected rows, not {other:?}"),
    }
}

fn pairs(rows: &[(&str, &str)]) -> Vec<(String, String)> {
    rows.iter()
        .map(|(a, b)| (a.to_string(), b.to_string()))
        .collect()
}

#[test]
fn rail_lists_repositories() {
    let app = app_with(snapshot());
    let rail = app.show_left_rail();
    assert_eq!(rail.found, "2 found");
    assert_eq!((rail.scan.label.as_str(), &rail.scan.click), ("🔍 Scan", &Click::Refresh));
    assert_eq!((rail.add.label.as_str(), &rail.add.click), ("Add", &Click::AddRepo));
    assert_eq!(rail.cards.len(), 2);
    let first = &rail.cards[0];
    assert_eq!(first.name, "alpha");
    assert_eq!(first.branch, "(main)");
    assert_eq!(chip_labels(&first.chips), vec!["S:1", "U:2", "C:0", "↑4↓0"]);
    assert_eq!(first.fill, rgb(225, 240, 255));
    assert_eq!(first.border, rgb(64, 156, 255));
    assert_eq!(first.name_ink, rgb(18, 86, 163));
    assert_eq!(first.branch_ink, rgb(66, 114, 170));
    assert_eq!(first.chips[0].fill, rgb(205, 227, 248));
    assert_eq!(first.chips[0].ink, rgb(47, 87, 135));
    let second = &rail.cards[1];
    assert_eq!(second.fill, rgb(252, 252, 253));
    assert_eq!(second.border, rgb(224, 224, 226));
    assert_eq!(second.name_ink, rgb(29, 29, 31));
    assert_eq!(second.branch_ink, rgb(140, 140, 140));
    assert_eq!(second.chips[0].fill, rgb(220, 220, 220));
    assert_eq!(second.chips[0].ink, rgb(80, 80, 80));
    assert_eq!(second.click, Click::SelectRepo { index: 1 });
}

#[test]
fn risk_is_graded() {
    let mut snapshot = RepoSnapshot::default();
    let calm = risk_panel(&snapshot);
    assert_eq!((calm.icon.as_str(), calm.label.as_str()), ("✓", "Clean working tree"));
    assert_eq!(calm.fill, rgb(235, 252, 240));
    snapshot.summary.behind = 1;
    let pending = risk_panel(&snapshot);
    assert_eq!((pending.icon.as_str(), pending.label.as_str()), ("●", "Pending changes"));
    assert_eq!(pending.ink, rgb(180, 120, 20));
    snapshot.summary.behind = 0;
    snapshot.summary.unstaged_count = 1;
    assert_eq!(risk_panel(&snapshot).label, "Pending changes");
    snapshot.summary.conflict_count = 1;
    let risky = risk_panel(&snapshot);
    assert_eq!((risky.icon.as_str(), risky.label.as_str()), ("⚠", "Unresolved conflicts"));
    assert_eq!(risky.border, rgb(255, 200, 200));
}

#[test]
fn inspector_tells_of_the_selection() {
    let mut app = app_with(snapshot());
    assert_eq!(app.inspector_note(), None);
    let shown = app.show_right_inspector().unwrap();
    assert_eq!((shown.name.as_str(), shown.path.as_str()), ("alpha", "/srv/alpha"));
    assert_eq!(shown.heading, "Selected Change");
    assert_eq!(
        shown.body,
        InspectorBody::Hint {
            hint: "Pick a file in Changes".to_owned()
        }
    );
    app.selected_change = Some(1);
    assert_eq!(
        rows_of(app.show_right_inspector().unwrap().body),
        pairs(&[
            ("Path:", "README.md"),
            ("Type:", "new"),
            ("Staged:", "no"),
            ("Unstaged:", "yes")
        ])
    );
    app.selected_change = Some(9);
    assert_eq!(
        app.show_right_inspector().unwrap().body,
        InspectorBody::Missing {
            missing: "No change selected".to_owned()
        }
    );
    app.active_tab = WorkTab::History;
    app.selected_commit = Some(2);
    assert_eq!(
        rows_of(app.show_right_inspector().unwrap().body),
        pairs(&[
            ("Commit:", "a"),
            ("Action:", "feature"),
            ("Summary:", "feat: a"),
            ("Author:", "Ada"),
            ("Time:", "then"),
            ("Parents:", "1"),
            ("Branches:", "dev")
        ])
    );
    app.active_tab = WorkTab::Branches;
    app.selected_branch = Some(0);
    assert_eq!(
        rows_of(app.show_right_inspector().unwrap().body),
        pairs(&[("Branch:", "dev"), ("Current:", "no"), ("Upstream:", "none")])
    );
    app.active_tab = WorkTab::Sync;
    assert_eq!(
        app.show_right_inspector().unwrap().body,
        InspectorBody::Lines {
            lines: vec![
                "↑ Ahead: 4".to_owned(),
                "↓ Behind: 0".to_owned(),
                "⑂ Branch: main".to_owned()
            ]
        }
    );
    app.active_tab = WorkTab::Conflicts;
    app.ai_request_in_flight = true;
    assert_eq!(
        app.show_right_inspector().unwrap().body,
        InspectorBody::Agent {
            agent: vec![
                "Provider: Local Heuristic".to_owned(),
                "Strategy: SmartBlend".to_owned()
            ],
            waiting: true,
            suggestion: None
        }
    );
    app.active_tab = WorkTab::Recovery;
    assert!(matches!(app.show_right_inspector().unwrap().body, InspectorBody::Hint { .. }));
    app.pending_reset_to = Some("aa".to_owned());
    assert!(matches!(app.show_right_inspector().unwrap().body, InspectorBody::Armed { .. }));
    app.snapshot = None;
    assert!(app.show_right_inspector().is_none());
    assert_eq!(app.inspector_note(), Some("Select a repository to inspect"));
}

#[test]
fn rows_are_named() {
    let row = info_row("Path", "a");
    assert_eq!((row.label.as_str(), row.value.as_str()), ("Path:", "a"));
    assert_eq!((yes_no(true), yes_no(false)), ("yes", "no"));
    assert_eq!(render_change_info(&change("a", "new", true, false)).len(), 4);
    assert_eq!(render_commit_info(&commit("a", &[], &[])).len(), 6);
    assert_eq!(render_commit_info(&commit("a", &[], &["x", "y"]))[6].value, "x, y");
    let head = BranchEntry {
        name: "main".to_owned(),
        is_head: true,
        upstream: Some("origin/main".to_owned()),
    };
    assert_eq!(render_branch_info(&head)[2].value, "origin/main");
}

#[test]
fn bars_have_buttons() {
    let bar = show_command_bar();
    let shown: Vec<(&str, &Click)> = bar.iter().map(|b| (b.label.as_str(), &b.click)).collect();
    assert_eq!(
        shown,
        vec![
            ("Refresh", &Click::Refresh),
            ("Reload", &Click::Reload),
            ("Stage All", &Click::StageAll),
            ("Unstage All", &Click::UnstageAll),
            ("Commit", &Click::Commit),
            ("Conflicts", &Click::OpenTab { tab: WorkTab::Conflicts }),
            ("Actions", &Click::ShowPalette),
        ]
    );
    assert_eq!(bar[4].fill, rgb(0, 122, 255));
    assert_eq!(bar[4].ink, rgb(255, 255, 255));
    assert_eq!(bar[4].border, rgb(0, 108, 230));
    assert_eq!(bar[0].fill, rgb(244, 244, 246));
    assert_eq!(bar[0].ink, rgb(44, 44, 48));
    assert_eq!(bar[0].border, rgb(210, 210, 214));
    assert_eq!(segmented_tab(WorkTab::Sync, false).fill, rgb(241, 241, 243));
    let mut app = app_with(snapshot());
    app.active_tab = WorkTab::Recovery;
    let tabs = app.show_main_workbench();
    let titles: Vec<&str> = tabs.iter().map(|t| t.label.as_str()).collect();
    assert_eq!(
        titles,
        vec![
            "Changes",
            "History Graph",
            "Branch Lab",
            "Sync",
            "Conflict Studio",
            "Recovery Center"
        ]
    );
    assert_eq!(tabs[5].ink, rgb(255, 255, 255));
    assert_eq!(tabs[0].ink, rgb(84, 84, 88));
}

#[test]
fn footer_shows_the_status() {
    let mut app = app_with(snapshot());
    app.set_status("done".to_owned());
    assert_eq!(app.show_footer().message, "done");
    assert_eq!(app.show_footer().ink, rgb(100, 100, 100));
    app.set_error("failed".to_owned());
    assert_eq!(app.show_footer().message, "failed");
    assert_eq!(app.show_footer().ink, rgb(180, 40, 40));
}

#[test]
fn palette_shows_what_matches() {
    let mut app = app_with(snapshot());
    assert!(app.show_command_palette().is_none());
    app.command_palette_open = true;
    app.command_palette_query = " PUSH".to_owned();
    let buttons = app.show_command_palette().unwrap();
    assert_eq!(labels(&buttons), vec!["Push Branch    Action"]);
}

#[test]
fn changes_pane_guides() {
    let mut app = app_with(snapshot());
    let pane = app.render_changes_tab().unwrap();
    assert_eq!(pane.next_step, "Go on.");
    assert_eq!(
        chip_labels(&pane.chips),
        vec!["Staged 1", "Unstaged 2", "Untracked 3", "Conflicts 0"]
    );
    assert_eq!(pane.chips[3].fill, rgb(234, 67, 53));
    assert_eq!(pane.chips[3].ink, rgb(255, 255, 255));
    assert_eq!(labels(&pane.buttons), vec!["Commit Now", "Stage All", "Unstage All"]);
    assert_eq!(
        labels(&pane.templates),
        vec!["Template: feat", "Template: fix", "Template: chore", "Create Commit"]
    );
    assert_eq!(pane.templates[2].click, Click::StartMessage { start: "chore: ".to_owned() });
    assert_eq!(pane.note, None);
    assert_eq!(pane.rows.len(), 4);
    assert_eq!(pane.rows[0].choice.label, "src/Main.rs (modified)");
    assert_eq!(labels(&pane.rows[0].buttons), vec!["Stage", "Unstage"]);
    assert_eq!(chip_labels(&pane.rows[0].chips), vec!["staged", "unstaged"]);
    assert_eq!(labels(&pane.rows[2].buttons), vec!["Resolve"]);
    assert_eq!(
        pane.rows[2].buttons[0].click,
        Click::ResolveChange { path: "src/b.rs".to_owned() }
    );
    assert_eq!(labels(&pane.rows[3].buttons), vec!["Unstage"]);
    if let Some(snapshot) = app.snapshot.as_mut() {
        snapshot.summary.conflict_count = 1;
        snapshot.summary.behind = 1;
        snapshot.summary.staged_count = 0;
        snapshot.changes.clear();
    }
    let pane = app.render_changes_tab().unwrap();
    assert_eq!(
        labels(&pane.buttons),
        vec!["Open Conflict Studio", "Open Sync", "Stage All", "Unstage All"]
    );
    assert_eq!(pane.note.as_deref(), Some("Working tree is clean."));
    assert!(pane.rows.is_empty());
}

#[test]
fn changes_are_filtered_by_path() {
    let mut app = app_with(snapshot());
    app.changes_filter = "  SRC/ ".to_owned();
    app.selected_change = Some(2);
    let rows = app.render_changes_tab().unwrap().rows;
    let clicks: Vec<&Click> = rows.iter().map(|r| &r.choice.click).collect();
    assert_eq!(
        clicks,
        vec![
            &Click::SelectChange { index: 0 },
            &Click::SelectChange { index: 2 },
            &Click::SelectChange { index: 3 }
        ]
    );
    assert!(rows[1].choice.selected && !rows[0].choice.selected);
    app.changes_filter = "main".to_owned();
    assert_eq!(app.render_changes_tab().unwrap().rows.len(), 1);
    assert!(passes_filter("src/main.rs", ""));
    assert!(passes_filter("src/main.rs", "main"));
    assert!(!passes_filter("src/main.rs", "lib"));
    let changes = vec![change("A", "new", false, true)];
    assert_eq!(rows_for_changes(&changes, &vec!["a".to_owned()], "a", None).len(), 1);
    assert!(rows_for_changes(&changes, &vec!["a".to_owned()], "A", None).is_empty());
}

#[test]
fn history_pane_draws_the_graph() {
    let mut app = app_with(snapshot());
    app.selected_commit = Some(1);
    let pane = app.render_history_tab().unwrap();
    assert_eq!(pane.note, None);
    let head = &pane.rows[0];
    assert!(head.is_head);
    let badge = head.badge.as_ref().unwrap();
    assert_eq!((badge.label.as_str(), badge.fill), ("HEAD", rgb(0, 122, 255)));
    assert_eq!(pane.rows[1].badge, None);
    assert_eq!(chip_labels(&head.chips), vec!["1", "2", "3", "4", "merge"]);
    assert_eq!(head.caption, "feature • Ada • then");
    assert_eq!(head.node, rgb(0, 122, 255));
    assert_eq!(head.fill, None);
    assert_eq!(head.border, rgb(230, 230, 232));
    assert_eq!(head.summary_ink, rgb(40, 40, 45));
    assert_eq!((head.lane, head.lanes.len(), head.merge_lane), (0, 1, None));
    let second = &pane.rows[1];
    assert!(!second.is_head);
    assert_eq!(second.fill, Some(rgb(230, 242, 255)));
    assert_eq!(second.border, rgb(150, 196, 252));
    assert_eq!(second.summary_ink, rgb(0, 60, 120));
    assert_eq!(second.lane, 1);
    assert_eq!(second.lanes, vec![rgb(0, 122, 255), rgb(175, 82, 222)]);
    assert_eq!(second.node, rgb(0, 122, 255));
    assert!(second.chips.is_empty());
    app.selected_commit = None;
    assert_eq!(app.render_history_tab().unwrap().rows[1].node, rgb(175, 82, 222));
    assert_eq!(app.render_history_tab().unwrap().rows[2].click, Click::SelectCommit { index: 2 });
    if let Some(snapshot) = app.snapshot.as_mut() {
        snapshot.commits.clear();
    }
    let pane = app.render_history_tab().unwrap();
    assert_eq!(pane.note.as_deref(), Some("No commits found."));
}

#[test]
fn branches_pane_offers_checkout() {
    let mut app = app_with(snapshot());
    app.selected_branch = Some(1);
    let pane = app.render_branches_tab().unwrap();
    assert_eq!(
        (pane.create.label.as_str(), &pane.create.click),
        ("Create + Checkout", &Click::CreateBranch)
    );
    assert_eq!(pane.rows[0].choice.label, "dev");
    assert_eq!(
        pane.rows[0].checkout,
        Some(Button {
            label: "Checkout".to_owned(),
            click: Click::CheckoutBranch { name: "dev".to_owned() }
        })
    );
    assert_eq!(pane.rows[0].upstream, None);
    assert_eq!(pane.rows[1].choice.label, "main  (current)");
    assert!(pane.rows[1].choice.selected);
    assert_eq!(pane.rows[1].checkout, None);
    assert_eq!(pane.rows[1].upstream.as_deref(), Some("Upstream: origin/main"));
    if let Some(snapshot) = app.snapshot.as_mut() {
        snapshot.branches.clear();
    }
    let pane = app.render_branches_tab().unwrap();
    assert_eq!(pane.note.as_deref(), Some("No local branches found."));
}

#[test]
fn sync_pane_recommends() {
    let mut app = app_with(snapshot());
    let pane = app.render_sync_tab().unwrap();
    assert_eq!(chip_labels(&pane.chips), vec!["↑ Ahead 4", "↓ Behind 0", "⑂ main"]);
    assert_eq!(labels(&pane.buttons), vec!["Fetch", "Pull --rebase", "Push"]);
    assert_eq!(pane.advice.len(), 1);
    assert_eq!(
        pane.advice[0].message,
        "Recommended: push branch to publish local commits."
    );
    assert_eq!(pane.output, None);
    assert_eq!(pane.silence.as_deref(), Some("No sync command has been run yet."));
    app.sync_output = "done".to_owned();
    if let Some(snapshot) = app.snapshot.as_mut() {
        snapshot.summary.behind = 1;
    }
    let pane = app.render_sync_tab().unwrap();
    assert_eq!(pane.advice.len(), 2);
    assert_eq!(
        pane.advice[0].message,
        "Recommended: pull with rebase before additional commits."
    );
    assert_eq!(pane.output.as_deref(), Some("done"));
    assert_eq!(pane.silence, None);
    if let Some(snapshot) = app.snapshot.as_mut() {
        snapshot.summary.behind = 0;
        snapshot.summary.ahead = 0;
    }
    let pane = app.render_sync_tab().unwrap();
    assert_eq!(pane.advice[0].message, "Branch is in sync with upstream.");
    assert_eq!(pane.advice[0].button, None);
}

#[test]
fn conflicts_pane_offers_what_is_possible() {
    let mut app = app_with(snapshot());
    let pane = app.render_conflicts_tab().unwrap();
    assert_eq!(chosen(&pane.providers), vec!["Local Heuristic"]);
    assert_eq!(chosen(&pane.strategies), vec!["Smart Blend"]);
    assert!(!pane.shows_settings);
    assert_eq!(pane.detail, None);
    app.ai_provider = AiProvider::OpenAi;
    app.ai_strategy = ResolutionStrategy::KeepTheirs;
    app.show_conflicts();
    let pane = app.render_conflicts_tab().unwrap();
    assert_eq!(chosen(&pane.providers), vec!["OpenAI"]);
    assert_eq!(chosen(&pane.strategies), vec!["Keep Theirs"]);
    assert!(pane.shows_settings);
    assert_eq!(chosen(&pane.files), vec!["src/b.rs"]);
    let detail = pane.detail.unwrap();
    assert_eq!(detail.path, "src/b.rs");
    assert_eq!(detail.sides, "Current: main  •  Incoming: incoming");
    assert_eq!(detail.content, "<<<<<<<");
    assert!(detail.can_ask && detail.buttons.is_empty());
    assert_eq!(
        (detail.ask.label.as_str(), &detail.ask.click, &detail.running),
        ("Generate AI Suggestion", &Click::Suggest, &None)
    );
    assert_eq!(detail.warning, None);
    app.ai_request_in_flight = true;
    app.ai_suggestion = Some(AiSuggestion {
        title: "T".to_owned(),
        explanation: "E".to_owned(),
        resolved_text: "=======".to_owned(),
    });
    app.show_conflicts();
    let detail = app.render_conflicts_tab().unwrap().detail.unwrap();
    assert!(!detail.can_ask);
    assert_eq!(detail.running.as_deref(), Some("Request in progress..."));
    assert_eq!(
        labels(&detail.buttons),
        vec!["Apply Suggestion and Stage", "Reset Edited Text to Suggestion"]
    );
    assert_eq!(
        detail.warning.as_deref(),
        Some("⚠ Text still contains conflict markers")
    );
    if let Some(snapshot) = app.snapshot.as_mut() {
        snapshot.conflicts.clear();
    }
    let pane = app.render_conflicts_tab().unwrap();
    assert_eq!(pane.note.as_deref(), Some("No merge conflicts detected."));
    assert_eq!(pane.detail, None);
}

#[test]
fn recovery_pane_arms_then_confirms() {
    let mut app = app_with(snapshot());
    let pane = app.render_recovery_tab().unwrap();
    assert_eq!(pane.note.as_deref(), Some("Select an entry to arm a recovery reset."));
    assert_eq!(pane.rows[0].choice.label, "aabbccdd  commit: x");
    assert_eq!(pane.rows[0].caption, "then  00112233 -> aabbccdd");
    assert!(pane.buttons.is_empty());
    app.click(Click::SelectRecovery { index: 0 });
    let pane = app.render_recovery_tab().unwrap();
    assert_eq!(pane.note, None);
    assert_eq!(pane.chosen.as_deref(), Some("Selected: commit: x"));
    assert_eq!(labels(&pane.buttons), vec!["Arm Reset"]);
    app.click(Click::ArmReset);
    let pane = app.render_recovery_tab().unwrap();
    assert_eq!(labels(&pane.buttons), vec!["Confirm Reset", "Cancel"]);
    app.click(Click::SelectRecovery { index: 7 });
    let pane = app.render_recovery_tab().unwrap();
    assert_eq!((pane.note, pane.chosen), (None, None));
    assert!(pane.buttons.is_empty());
    if let Some(snapshot) = app.snapshot.as_mut() {
        snapshot.recovery.clear();
    }
    let pane = app.render_recovery_tab().unwrap();
    assert_eq!(pane.note.as_deref(), Some("No reflog entries available yet."));
}

#[test]
fn panes_without_a_repository_say_so() {
    let app = GitControlApp::new("/srv", "");
    assert!(app.render_changes_tab().is_none());
    assert!(app.render_history_tab().is_none());
    assert!(app.render_branches_tab().is_none());
    assert!(app.render_sync_tab().is_none());
    assert!(app.render_conflicts_tab().is_none());
    assert!(app.render_recovery_tab().is_none());
    for (tab, said) in [
        (WorkTab::Changes, "Select a repository to view changes."),
        (WorkTab::History, "Select a repository to view history."),
        (WorkTab::Branches, "Select a repository to manage branches."),
        (WorkTab::Sync, "Select a repository to view sync status."),
        (WorkTab::Conflicts, "Select a repository to resolve conflicts."),
        (WorkTab::Recovery, "Select a repository to access recovery timeline."),
    ] {
        assert_eq!(text_without_repo(tab), said);
    }
}
