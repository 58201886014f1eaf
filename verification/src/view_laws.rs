//! What the panes and bars show of the state, said of what is seen and clicked.
use vstd::prelude::*;
use vstd::string::*;

use crate::actions;
use crate::actions::{AiProvider, PaletteAction, WorkTab};
use crate::app;
use crate::app::AppView;
use crate::clicks::ClickView;
use crate::graph;
use crate::model::{
    BranchEntryView, CommitEntryView, ConflictEntryView, FileChangeView, RepoSnapshotView,
    RepoSummaryView, ResolutionStrategy,
};
use crate::panels;
use crate::panes;
use crate::text;
use crate::text_laws;
use crate::widgets;
use crate::widgets::{AdviceView, ButtonView, ChoiceView, InfoRowView, InspectorBodyView, Rgb};

verus! {

/// A colour has the three parts that it is made of.
pub proof fn law_colours_have_their_parts(r: u8, g: u8, b: u8)
    ensures
        widgets::rgb(r, g, b).r == r,
        widgets::rgb(r, g, b).g == g,
        widgets::rgb(r, g, b).b == b,
{
}

/// A chip has its label, its ground and white text; a named value has a colon
/// behind its name.
pub proof fn law_chips_and_rows_keep_their_text(label: Seq<char>, fill: Rgb, value: Seq<char>)
    ensures
        panes::bright_chip(label, fill).label == label,
        panes::bright_chip(label, fill).fill == fill,
        panes::bright_chip(label, fill).ink == (Rgb { r: 255, g: 255, b: 255 }),
        panels::named(label, value).label == label + ":"@,
        panels::named(label, value).value == value,
{
}

// Changes.

/// Which changes a filter shows: exactly those whose path is something, then the
/// filter, then something, both in lower case. They are shown in their order, and
/// each row selects the change it stands for.
pub proof fn law_filter_shows_every_match(
    changes: Seq<FileChangeView>,
    lower_paths: Seq<Seq<char>>,
    filter: Seq<char>,
    selection: Option<usize>,
) -> (at: Seq<int>)
    ensures
        at.len() == panes::shown_changes(changes, lower_paths, filter, selection).len(),
        forall|r: int|
            0 <= r < at.len() ==> {
                let row = panes::shown_changes(changes, lower_paths, filter, selection)[r];
                let i = #[trigger] at[r];
                &&& 0 <= i < changes.len()
                &&& row.choice.click == (ClickView::SelectChange { index: i as usize })
                &&& row.choice.label == changes[i].path + " ("@ + changes[i].kind + ")"@
                &&& row.choice.selected == (selection == Some(i as usize))
                &&& row == panes::change_row(
                    changes[i],
                    i as usize,
                    selection == Some(i as usize),
                )
                &&& exists|before: Seq<char>, after: Seq<char>|
                    lower_paths[i] == #[trigger] (before + filter + after)
            },
        forall|r: int, q: int| 0 <= r < q < at.len() ==> #[trigger] at[r] < #[trigger] at[q],
        forall|i: int, before: Seq<char>, after: Seq<char>|
            0 <= i < changes.len() && #[trigger] lower_paths[i] == #[trigger] (before + filter
                + after) ==> exists|r: int| 0 <= r < at.len() && #[trigger] at[r] == i,
    decreases changes.len(),
{
    if changes.len() == 0 {
        Seq::empty()
    } else {
        let front = changes.drop_last();
        let last = changes.len() - 1;
        let found = law_filter_shows_every_match(front, lower_paths, filter, selection);
        let before_rows = panes::shown_changes(front, lower_paths, filter, selection);
        let rows = panes::shown_changes(changes, lower_paths, filter, selection);
        panes::law_filter_is_any_part(lower_paths[last], filter);
        let shown = panes::passes(lower_paths[last], filter);
        let at = if shown {
            found.push(last)
        } else {
            found
        };
        assert forall|r: int| 0 <= r < at.len() implies {
            let row = rows[r];
            let i = #[trigger] at[r];
            &&& 0 <= i < changes.len()
            &&& row.choice.click == (ClickView::SelectChange { index: i as usize })
            &&& row.choice.label == changes[i].path + " ("@ + changes[i].kind + ")"@
            &&& row.choice.selected == (selection == Some(i as usize))
            &&& row == panes::change_row(changes[i], i as usize, selection == Some(i as usize))
            &&& exists|before: Seq<char>, after: Seq<char>|
                lower_paths[i] == #[trigger] (before + filter + after)
        } by {
            if r < found.len() {
                assert(at[r] == found[r]);
                assert(front[found[r]] == changes[found[r]]);
                assert(rows[r] == before_rows[r]);
            }
        }
        assert forall|i: int, before: Seq<char>, after: Seq<char>|
            0 <= i < changes.len() && #[trigger] lower_paths[i] == #[trigger] (before + filter
                + after) implies exists|r: int| 0 <= r < at.len() && #[trigger] at[r] == i by {
            if i < last {
                assert(lower_paths[i] == before + filter + after);
                let r = choose|r: int| 0 <= r < found.len() && #[trigger] found[r] == i;
                assert(at[r] == i);
            } else {
                assert(at[found.len() as int] == i);
            }
        }
        at
    }
}

/// In the pane, a change has a row exactly when its lower-case path has the
/// filter, trimmed and in lower case, somewhere in it.
pub proof fn law_pane_shows_every_match(s: AppView, snapshot: RepoSnapshotView, i: int)
    requires
        0 <= i < snapshot.changes.len() <= usize::MAX,
    ensures
        (exists|before: Seq<char>, after: Seq<char>|
            text::lower_case(snapshot.changes[i].path) == #[trigger] (before + text::lower_case(
                text::trimmed(s.changes_filter),
            ) + after)) <==> (exists|r: int|
            0 <= r < panes::changes_pane(s, snapshot).rows.len() && (#[trigger] panes::changes_pane(
                s,
                snapshot,
            ).rows[r]).choice.click == (ClickView::SelectChange { index: i as usize })),
        forall|r: int|
            0 <= r < panes::changes_pane(s, snapshot).rows.len() ==> {
                let row = #[trigger] panes::changes_pane(s, snapshot).rows[r];
                &&& row.choice.click matches ClickView::SelectChange { index }
                &&& index < snapshot.changes.len()
                &&& row == panes::change_row(
                    snapshot.changes[index as int],
                    index,
                    s.selected_change == Some(index),
                )
            },
        forall|r: int, q: int|
            0 <= r < q < panes::changes_pane(s, snapshot).rows.len()
                ==> (#[trigger] panes::changes_pane(
                s,
                snapshot,
            ).rows[r]).choice.click->SelectChange_index < (#[trigger] panes::changes_pane(
                s,
                snapshot,
            ).rows[q]).choice.click->SelectChange_index,
{
    let filter = text::lower_case(text::trimmed(s.changes_filter));
    let lower = panes::lower_paths(snapshot.changes);
    let rows = panes::changes_pane(s, snapshot).rows;
    let at = law_filter_shows_every_match(snapshot.changes, lower, filter, s.selected_change);
    assert(lower[i] == text::lower_case(snapshot.changes[i].path));
    assert forall|r: int| 0 <= r < rows.len() implies {
        let row = #[trigger] rows[r];
        &&& row.choice.click matches ClickView::SelectChange { index }
        &&& index == at[r]
        &&& index < snapshot.changes.len()
        &&& row == panes::change_row(
            snapshot.changes[index as int],
            index,
            s.selected_change == Some(index),
        )
    } by {
        assert(0 <= at[r] < snapshot.changes.len());
    }
    assert forall|r: int, q: int| 0 <= r < q < rows.len() implies (
    #[trigger] rows[r]).choice.click->SelectChange_index < (
    #[trigger] rows[q]).choice.click->SelectChange_index by {
        assert(at[r] < at[q]);
    }
    if exists|before: Seq<char>, after: Seq<char>| lower[i] == #[trigger] (before + filter + after) {
        let (before, after) = choose|before: Seq<char>, after: Seq<char>|
            lower[i] == #[trigger] (before + filter + after);
        let r = choose|r: int| 0 <= r < at.len() && #[trigger] at[r] == i;
        assert(rows[r].choice.click == (ClickView::SelectChange { index: at[r] as usize }));
    }
    if exists|r: int|
        0 <= r < rows.len() && (#[trigger] rows[r]).choice.click == (ClickView::SelectChange {
            index: i as usize,
        }) {
        let r = choose|r: int|
            0 <= r < rows.len() && (#[trigger] rows[r]).choice.click == (ClickView::SelectChange {
                index: i as usize,
            });
        assert(rows[r].choice.click == (ClickView::SelectChange { index: at[r] as usize }));
        assert(at[r] == i);
    }
}

/// A change can be staged exactly while something of it is not, unstaged exactly
/// while something of it is, and resolved exactly while it is in conflict, each
/// for its own path; and its chips say the first two.
pub proof fn law_change_offers_what_fits(change: FileChangeView, index: usize, selected: bool)
    ensures
        ({
            let row = panes::change_row(change, index, selected);
            let path = change.path;
            let unstaged = if change.unstaged {
                1int
            } else {
                0int
            };
            let staged = if change.staged {
                1int
            } else {
                0int
            };
            let conflicted = if change.kind == "conflicted"@ {
                1int
            } else {
                0int
            };
            &&& row.choice.label == path + " ("@ + change.kind + ")"@
            &&& row.choice.selected == selected
            &&& row.choice.click == (ClickView::SelectChange { index })
            &&& row.buttons.len() == unstaged + staged + conflicted
            &&& unstaged == 1 ==> row.buttons[0] == (ButtonView {
                label: "Stage"@,
                click: ClickView::StagePath { path },
            })
            &&& staged == 1 ==> row.buttons[unstaged] == (ButtonView {
                label: "Unstage"@,
                click: ClickView::UnstagePath { path },
            })
            &&& conflicted == 1 ==> row.buttons[unstaged + staged] == (ButtonView {
                label: "Resolve"@,
                click: ClickView::ResolveChange { path },
            })
            &&& row.chips.len() == staged + unstaged
            &&& staged == 1 ==> row.chips[0].label == "staged"@ && row.chips[0].fill == widgets::rgb(
                52,
                168,
                83,
            )
            &&& unstaged == 1 ==> row.chips[staged].label == "unstaged"@ && row.chips[staged].fill
                == widgets::rgb(251, 140, 0)
            &&& forall|k: int|
                0 <= k < row.chips.len() ==> (#[trigger] row.chips[k]).ink == widgets::rgb(
                    255,
                    255,
                    255,
                )
        }),
{
}

/// The pane of changes tells the counts and the advice of the summary, and says
/// that the working tree is clean exactly where there are no changes.
pub proof fn law_changes_pane_tells_the_counts(s: AppView, snapshot: RepoSnapshotView)
    ensures
        ({
            let pane = panes::changes_pane(s, snapshot);
            let summary = snapshot.summary;
            &&& pane.next_step == summary.next_step
            &&& pane.note is Some <==> snapshot.changes.len() == 0
            &&& pane.note is Some ==> pane.note->0 == "Working tree is clean."@
            &&& pane.chips.len() == 4
            &&& pane.chips[0].label == "Staged "@ + text::decimal(summary.staged_count as nat)
            &&& pane.chips[1].label == "Unstaged "@ + text::decimal(summary.unstaged_count as nat)
            &&& pane.chips[2].label == "Untracked "@ + text::decimal(summary.untracked_count as nat)
            &&& pane.chips[3].label == "Conflicts "@ + text::decimal(summary.conflict_count as nat)
            &&& pane.chips[0].fill == widgets::rgb(52, 168, 83)
            &&& pane.chips[1].fill == widgets::rgb(251, 140, 0)
            &&& pane.chips[2].fill == widgets::rgb(117, 117, 117)
            &&& pane.chips[3].fill == widgets::rgb(234, 67, 53)
            &&& forall|k: int|
                0 <= k < 4 ==> (#[trigger] pane.chips[k]).ink == widgets::rgb(255, 255, 255)
        }),
{
}

/// What is offered next: the conflicts while there are some, syncing while the
/// branch is behind, a commit while something is staged, in this order, and
/// always staging and unstaging.
pub proof fn law_quick_buttons_fit_the_summary(s: AppView, snapshot: RepoSnapshotView)
    ensures
        ({
            let buttons = panes::changes_pane(s, snapshot).buttons;
            let conflicts = if snapshot.summary.conflict_count > 0 {
                1int
            } else {
                0int
            };
            let behind = if snapshot.summary.behind > 0 {
                1int
            } else {
                0int
            };
            let staged = if snapshot.summary.staged_count > 0 {
                1int
            } else {
                0int
            };
            let extra = conflicts + behind + staged;
            &&& buttons.len() == extra + 2
            &&& conflicts == 1 ==> buttons[0] == (ButtonView {
                label: "Open Conflict Studio"@,
                click: ClickView::OpenTab { tab: WorkTab::Conflicts },
            })
            &&& behind == 1 ==> buttons[conflicts] == (ButtonView {
                label: "Open Sync"@,
                click: ClickView::OpenTab { tab: WorkTab::Sync },
            })
            &&& staged == 1 ==> buttons[conflicts + behind] == (ButtonView {
                label: "Commit Now"@,
                click: ClickView::Commit,
            })
            &&& buttons[extra] == (ButtonView {
                label: "Stage All"@,
                click: ClickView::StageAll,
            })
            &&& buttons[extra + 1] == (ButtonView {
                label: "Unstage All"@,
                click: ClickView::UnstageAll,
            })
        }),
{
}

/// The buttons under the message start it with the kind of commit they name; the
/// last one commits.
pub proof fn law_templates_start_the_message(s: AppView, snapshot: RepoSnapshotView)
    ensures
        ({
            let buttons = panes::changes_pane(s, snapshot).templates;
            &&& buttons.len() == 4
            &&& buttons[0].label == "Template: "@ + "feat"@
            &&& buttons[0].click == (ClickView::StartMessage { start: "feat: "@ })
            &&& buttons[1].label == "Template: "@ + "fix"@
            &&& buttons[1].click == (ClickView::StartMessage { start: "fix: "@ })
            &&& buttons[2].label == "Template: "@ + "chore"@
            &&& buttons[2].click == (ClickView::StartMessage { start: "chore: "@ })
            &&& buttons[3].label == "Create Commit"@
            &&& buttons[3].click == ClickView::Commit
        }),
{
    reveal_strlit("Template: ");
    reveal_strlit("feat");
    reveal_strlit("fix");
    reveal_strlit("chore");
    reveal_strlit("Template: feat");
    reveal_strlit("Template: fix");
    reveal_strlit("Template: chore");
    assert("Template: feat"@ =~= "Template: "@ + "feat"@);
    assert("Template: fix"@ =~= "Template: "@ + "fix"@);
    assert("Template: chore"@ =~= "Template: "@ + "chore"@);
}

// History.

/// The chips of a commit are its first four labels, in their order, and one more
/// exactly where it is a merge.
pub proof fn law_commit_chips_are_its_labels(commit: CommitEntryView)
    ensures
        ({
            let chips = panes::commit_chips(commit);
            let labels = if commit.branch_labels.len() < 4 {
                commit.branch_labels.len() as int
            } else {
                4int
            };
            &&& chips.len() == labels + (if commit.parents.len() >= 2 {
                1int
            } else {
                0int
            })
            &&& forall|k: int|
                0 <= k < labels ==> (#[trigger] chips[k]).label == commit.branch_labels[k]
                    && chips[k].fill == widgets::rgb(233, 239, 246) && chips[k].ink
                    == widgets::rgb(47, 87, 135)
            &&& commit.parents.len() >= 2 ==> chips[labels].label == "merge"@ && chips[labels].fill
                == widgets::rgb(246, 234, 214) && chips[labels].ink == widgets::rgb(131, 92, 33)
        }),
{
}

/// The history has a row for each commit, in their order: with its id, summary,
/// author and time, and its place in the graph. The first one is marked as the
/// head, and the selected one stands out.
pub proof fn law_history_shows_each_commit(s: AppView, snapshot: RepoSnapshotView, i: int)
    requires
        0 <= i < snapshot.commits.len() <= usize::MAX,
    ensures
        panes::history_pane(s, snapshot).rows.len() == snapshot.commits.len(),
        panes::history_pane(s, snapshot).note is None,
        ({
            let row = panes::history_pane(s, snapshot).rows[i];
            let commit = snapshot.commits[i];
            let place = graph::graph_rows(snapshot.commits)[i];
            let selected = s.selected_commit == Some(i as usize);
            &&& row.id == commit.id
            &&& row.summary == commit.summary
            &&& row.caption == graph::action_label(commit.summary) + " • "@ + commit.author
                + " • "@ + commit.timestamp
            &&& row.chips == panes::commit_chips(commit)
            &&& row.click == (ClickView::SelectCommit { index: i as usize })
            &&& row.is_head == (i == 0)
            &&& row.badge is Some <==> i == 0
            &&& i == 0 ==> row.badge->0.label == "HEAD"@ && row.badge->0.fill == widgets::rgb(
                0,
                122,
                255,
            ) && row.badge->0.ink == widgets::rgb(255, 255, 255)
            &&& row.lane == place.lane
            &&& row.merge_lane == graph::merge_lane(place)
            &&& row.lanes.len() == place.lane_count
            &&& forall|k: int|
                0 <= k < row.lanes.len() ==> #[trigger] row.lanes[k] == graph::lane_colours()[k % 8]
            &&& selected || i == 0 ==> row.node == widgets::rgb(0, 122, 255)
            &&& !selected && i != 0 ==> row.node == graph::lane_colours()[place.lane as int % 8]
            &&& selected ==> row.summary_ink == widgets::rgb(0, 60, 120) && row.fill == Some(
                widgets::rgb(230, 242, 255),
            ) && row.border == widgets::rgb(150, 196, 252)
            &&& !selected ==> row.summary_ink == widgets::rgb(40, 40, 45) && row.fill is None
                && row.border == widgets::rgb(230, 230, 232)
        }),
{
}

/// Without commits, branches, conflicts or log entries the panes say so.
pub proof fn law_empty_panes_say_so(s: AppView, snapshot: RepoSnapshotView)
    ensures
        snapshot.commits.len() == 0 ==> panes::history_pane(s, snapshot).note == Some(
            "No commits found."@,
        ) && panes::history_pane(s, snapshot).rows.len() == 0,
        snapshot.branches.len() == 0 ==> panes::branches_pane(s, snapshot).note == Some(
            "No local branches found."@,
        ),
        snapshot.branches.len() > 0 ==> panes::branches_pane(s, snapshot).note is None,
        snapshot.conflicts.len() == 0 ==> panes::conflicts_pane(s, snapshot).note == Some(
            "No merge conflicts detected."@,
        ),
        snapshot.conflicts.len() > 0 ==> panes::conflicts_pane(s, snapshot).note is None,
        snapshot.recovery.len() == 0 ==> {
            let pane = panes::recovery_pane(s, snapshot);
            &&& pane.note == Some("No reflog entries available yet."@)
            &&& pane.rows.len() == 0
            &&& pane.buttons.len() == 0
            &&& pane.chosen is None
        },
        snapshot.recovery.len() > 0 && s.selected_recovery is None ==> panes::recovery_pane(
            s,
            snapshot,
        ).note == Some("Select an entry to arm a recovery reset."@),
        snapshot.recovery.len() > 0 && s.selected_recovery is Some ==> panes::recovery_pane(
            s,
            snapshot,
        ).note is None,
{
}

/// What each pane says without a repository.
pub proof fn law_panes_ask_for_a_repository()
    ensures
        panes::empty_text(WorkTab::Changes) == "Select a repository to "@ + "view changes."@,
        panes::empty_text(WorkTab::History) == "Select a repository to "@ + "view history."@,
        panes::empty_text(WorkTab::Branches) == "Select a repository to "@ + "manage branches."@,
        panes::empty_text(WorkTab::Sync) == "Select a repository to "@ + "view sync status."@,
        panes::empty_text(WorkTab::Conflicts) == "Select a repository to "@ + "resolve conflicts."@,
        panes::empty_text(WorkTab::Recovery) == "Select a repository to "@
            + "access recovery timeline."@,
        panels::inspector_empty_text() == "Select a repository to "@ + "inspect"@,
{
    reveal_strlit("Select a repository to ");
    reveal_strlit("view changes.");
    reveal_strlit("view history.");
    reveal_strlit("manage branches.");
    reveal_strlit("view sync status.");
    reveal_strlit("resolve conflicts.");
    reveal_strlit("access recovery timeline.");
    reveal_strlit("inspect");
    reveal_strlit("Select a repository to view changes.");
    reveal_strlit("Select a repository to view history.");
    reveal_strlit("Select a repository to manage branches.");
    reveal_strlit("Select a repository to view sync status.");
    reveal_strlit("Select a repository to resolve conflicts.");
    reveal_strlit("Select a repository to access recovery timeline.");
    reveal_strlit("Select a repository to inspect");
    assert(panes::empty_text(WorkTab::Changes) =~= "Select a repository to "@ + "view changes."@);
    assert(panes::empty_text(WorkTab::History) =~= "Select a repository to "@ + "view history."@);
    assert(panes::empty_text(WorkTab::Branches) =~= "Select a repository to "@
        + "manage branches."@);
    assert(panes::empty_text(WorkTab::Sync) =~= "Select a repository to "@ + "view sync status."@);
    assert(panes::empty_text(WorkTab::Conflicts) =~= "Select a repository to "@
        + "resolve conflicts."@);
    assert(panes::empty_text(WorkTab::Recovery) =~= "Select a repository to "@
        + "access recovery timeline."@);
    assert(panels::inspector_empty_text() =~= "Select a repository to "@ + "inspect"@);
}

// Branches, syncing.

/// Each branch has a row, in their order. It can be checked out exactly while it
/// is not the current one, and tells its upstream where it has one.
pub proof fn law_branches_pane_shows_each_branch(s: AppView, snapshot: RepoSnapshotView, i: int)
    requires
        0 <= i < snapshot.branches.len() <= usize::MAX,
    ensures
        panes::branches_pane(s, snapshot).create == (ButtonView {
            label: "Create + Checkout"@,
            click: ClickView::CreateBranch,
        }),
        panes::branches_pane(s, snapshot).rows.len() == snapshot.branches.len(),
        ({
            let row = panes::branches_pane(s, snapshot).rows[i];
            let branch = snapshot.branches[i];
            &&& row.choice.click == (ClickView::SelectBranch { index: i as usize })
            &&& row.choice.selected == (s.selected_branch == Some(i as usize))
            &&& branch.is_head ==> row.choice.label == branch.name + "  (current)"@ && row.checkout
                is None
            &&& !branch.is_head ==> row.choice.label == branch.name && row.checkout == Some(
                ButtonView {
                    label: "Checkout"@,
                    click: ClickView::CheckoutBranch { name: branch.name },
                },
            )
            &&& branch.upstream is Some ==> row.upstream == Some("Upstream: "@ + branch.upstream->0)
            &&& branch.upstream is None ==> row.upstream is None
        }),
{
}

/// Pulling is recommended exactly while the branch is behind, pushing exactly
/// while it is ahead, in this order; a branch that is neither is in sync.
pub proof fn law_sync_advice_goes_by_distance(s: AppView, snapshot: RepoSnapshotView)
    ensures
        ({
            let advice = panes::sync_pane(s, snapshot).advice;
            let behind = snapshot.summary.behind > 0;
            let ahead = snapshot.summary.ahead > 0;
            let pull = AdviceView {
                message: "Recommended: pull with rebase before additional commits."@,
                button: Some(
                    ButtonView {
                        label: "Copy `git pull --rebase` command"@,
                        click: ClickView::CopyPull,
                    },
                ),
            };
            let push = AdviceView {
                message: "Recommended: push branch to publish local commits."@,
                button: Some(
                    ButtonView { label: "Copy `git push` command"@, click: ClickView::CopyPush },
                ),
            };
            &&& behind && ahead ==> advice == seq![pull, push]
            &&& behind && !ahead ==> advice == seq![pull]
            &&& !behind && ahead ==> advice == seq![push]
            &&& !behind && !ahead ==> advice == seq![
                AdviceView { message: "Branch is in sync with upstream."@, button: None },
            ]
        }),
{
}

/// The pane of syncing tells the distances and the branch, offers to fetch, pull
/// and push, and shows what the last command printed, if there was one.
pub proof fn law_sync_pane_tells_the_distances(s: AppView, snapshot: RepoSnapshotView)
    ensures
        ({
            let pane = panes::sync_pane(s, snapshot);
            &&& pane.chips.len() == 3
            &&& pane.chips[0].label == "↑ Ahead "@ + text::decimal(snapshot.summary.ahead as nat)
            &&& pane.chips[1].label == "↓ Behind "@ + text::decimal(snapshot.summary.behind as nat)
            &&& pane.chips[2].label == "⑂ "@ + snapshot.summary.current_branch
            &&& pane.chips[0].fill == widgets::rgb(66, 133, 244)
            &&& pane.chips[1].fill == widgets::rgb(251, 140, 0)
            &&& pane.chips[2].fill == widgets::rgb(100, 100, 100)
            &&& pane.buttons.len() == 3
            &&& pane.buttons[0] == (ButtonView { label: "Fetch"@, click: ClickView::Fetch })
            &&& pane.buttons[1] == (ButtonView {
                label: "Pull --rebase"@,
                click: ClickView::PullRebase,
            })
            &&& pane.buttons[2] == (ButtonView { label: "Push"@, click: ClickView::Push })
            &&& s.sync_output.len() > 0 ==> pane.output == Some(s.sync_output) && pane.silence
                is None
            &&& s.sync_output.len() == 0 ==> pane.output is None && pane.silence == Some(
                "No sync command has been run yet."@,
            )
        }),
{
}

// Conflicts.

/// The pane of conflicts lists each file in conflict, in their order, and shows
/// the selected one if there is such a file. Exactly the chosen provider and
/// strategy are marked, and the settings of the remote agent show while it is the
/// provider.
pub proof fn law_conflicts_pane_shows_each_file(s: AppView, snapshot: RepoSnapshotView, i: int)
    requires
        snapshot.conflicts.len() <= usize::MAX,
    ensures
        ({
            let pane = panes::conflicts_pane(s, snapshot);
            &&& pane.files.len() == snapshot.conflicts.len()
            &&& 0 <= i < snapshot.conflicts.len() ==> pane.files[i] == (ChoiceView {
                label: snapshot.conflicts[i].path,
                selected: s.selected_conflict == Some(i as usize),
                click: ClickView::SelectConflict { index: i as usize },
            })
            &&& s.selected_conflict is Some && s.selected_conflict->0 < snapshot.conflicts.len()
                ==> pane.detail == Some(
                panes::conflict_detail(s, snapshot.conflicts[s.selected_conflict->0 as int]),
            )
            &&& s.selected_conflict is None || s.selected_conflict->0 >= snapshot.conflicts.len()
                ==> pane.detail is None
            &&& pane.shows_settings <==> s.ai_provider is OpenAi
            &&& pane.providers.len() == 2
            &&& pane.providers[0] == (ChoiceView {
                label: "Local Heuristic"@,
                selected: s.ai_provider is LocalHeuristic,
                click: ClickView::SetProvider { provider: AiProvider::LocalHeuristic },
            })
            &&& pane.providers[1] == (ChoiceView {
                label: "OpenAI"@,
                selected: s.ai_provider is OpenAi,
                click: ClickView::SetProvider { provider: AiProvider::OpenAi },
            })
            &&& pane.strategies.len() == 3
            &&& pane.strategies[0] == (ChoiceView {
                label: "Smart Blend"@,
                selected: s.ai_strategy is SmartBlend,
                click: ClickView::SetStrategy { strategy: ResolutionStrategy::SmartBlend },
            })
            &&& pane.strategies[1] == (ChoiceView {
                label: "Keep Ours"@,
                selected: s.ai_strategy is KeepOurs,
                click: ClickView::SetStrategy { strategy: ResolutionStrategy::KeepOurs },
            })
            &&& pane.strategies[2] == (ChoiceView {
                label: "Keep Theirs"@,
                selected: s.ai_strategy is KeepTheirs,
                click: ClickView::SetStrategy { strategy: ResolutionStrategy::KeepTheirs },
            })
        }),
{
}

/// A file in conflict is shown with its content and its two sides. A suggestion
/// can be asked for exactly while no request runs; one at hand can be taken over
/// or restored; and there is a warning exactly while the text has `<`, `=` or `>`
/// seven times in a row.
pub proof fn law_conflict_detail_warns_of_markers(s: AppView, conflict: ConflictEntryView)
    ensures
        ({
            let detail = panes::conflict_detail(s, conflict);
            let edited = s.ai_edited_text;
            &&& detail.path == conflict.path
            &&& detail.content == conflict.content
            &&& detail.sides == "Current: "@ + conflict.ours_label + "  •  Incoming: "@
                + conflict.theirs_label
            &&& detail.suggestion == s.ai_suggestion
            &&& detail.ask == (ButtonView {
                label: "Generate AI Suggestion"@,
                click: ClickView::Suggest,
            })
            &&& detail.can_ask == !s.ai_request_in_flight
            &&& s.ai_request_in_flight ==> detail.running == Some("Request in progress..."@)
            &&& !s.ai_request_in_flight ==> detail.running is None
            &&& s.ai_suggestion is None ==> detail.buttons.len() == 0
            &&& s.ai_suggestion is Some ==> {
                &&& detail.buttons.len() == 2
                &&& detail.buttons[0] == (ButtonView {
                    label: "Apply Suggestion and Stage"@,
                    click: ClickView::ApplySuggestion,
                })
                &&& detail.buttons[1] == (ButtonView {
                    label: "Reset Edited Text to Suggestion"@,
                    click: ClickView::RestoreSuggestion,
                })
            }
            &&& detail.warning is Some <==> exists|i: int|
                0 <= i <= edited.len() - 7 && (#[trigger] edited[i] == '<' || edited[i] == '='
                    || edited[i] == '>') && (forall|k: int|
                    i <= k < i + 7 ==> #[trigger] edited[k] == edited[i])
            &&& detail.warning is Some ==> detail.warning->0
                == "⚠ Text still contains conflict markers"@
        }),
{
    app::law_markers_are_seven_in_a_row(s.ai_edited_text);
}

// Recovery.

/// Each log entry has a row, in their order, with both ids, the message and the
/// time.
pub proof fn law_recovery_pane_shows_each_entry(s: AppView, snapshot: RepoSnapshotView, i: int)
    requires
        0 <= i < snapshot.recovery.len() <= usize::MAX,
    ensures
        panes::recovery_pane(s, snapshot).rows.len() == snapshot.recovery.len(),
        ({
            let row = panes::recovery_pane(s, snapshot).rows[i];
            let entry = snapshot.recovery[i];
            &&& row.choice.label == entry.to_id_short + "  "@ + entry.message
            &&& row.choice.selected == (s.selected_recovery == Some(i as usize))
            &&& row.choice.click == (ClickView::SelectRecovery { index: i as usize })
            &&& row.caption == entry.timestamp + "  "@ + entry.from_id_short + " -> "@
                + entry.to_id_short
        }),
{
}

/// For the selected entry a reset can be armed; while it is armed, it can be
/// confirmed or canceled instead. Without a selected entry there are no buttons.
pub proof fn law_recovery_buttons_follow_the_steps(s: AppView, snapshot: RepoSnapshotView)
    requires
        s.snapshot == Some(snapshot),
    ensures
        ({
            let pane = panes::recovery_pane(s, snapshot);
            let chosen = s.selected_recovery is Some && s.selected_recovery->0
                < snapshot.recovery.len();
            let entry = snapshot.recovery[s.selected_recovery->0 as int];
            &&& !chosen ==> pane.buttons.len() == 0 && pane.chosen is None
            &&& chosen ==> pane.chosen == Some("Selected: "@ + entry.message)
            &&& chosen && s.pending_reset_to == Some(entry.to_id) ==> {
                &&& pane.buttons.len() == 2
                &&& pane.buttons[0] == (ButtonView {
                    label: "Confirm Reset"@,
                    click: ClickView::ConfirmReset,
                })
                &&& pane.buttons[1] == (ButtonView {
                    label: "Cancel"@,
                    click: ClickView::CancelReset,
                })
            }
            &&& chosen && s.pending_reset_to != Some(entry.to_id) ==> {
                &&& pane.buttons.len() == 1
                &&& pane.buttons[0] == (ButtonView {
                    label: "Arm Reset"@,
                    click: ClickView::ArmReset,
                })
            }
        }),
{
}

// Around the panes.

/// The badge warns of conflicts while there are some; else of pending changes
/// exactly while something is unstaged or the branch is behind; else the working
/// tree is clean.
pub proof fn law_badge_goes_by_the_summary(summary: RepoSummaryView)
    ensures
        ({
            let badge = panels::risk_of(summary);
            let pending = summary.unstaged_count > 0 || summary.behind > 0;
            &&& summary.conflict_count > 0 ==> badge.icon == "⚠"@ && badge.label
                == "Unresolved conflicts"@ && badge.fill == widgets::rgb(255, 240, 240) && badge.ink
                == widgets::rgb(200, 50, 50) && badge.border == widgets::rgb(255, 200, 200)
            &&& summary.conflict_count == 0 && pending ==> badge.icon == "●"@ && badge.label
                == "Pending changes"@ && badge.fill == widgets::rgb(255, 250, 235) && badge.ink
                == widgets::rgb(180, 120, 20) && badge.border == widgets::rgb(255, 230, 180)
            &&& summary.conflict_count == 0 && !pending ==> badge.icon == "✓"@ && badge.label
                == "Clean working tree"@ && badge.fill == widgets::rgb(235, 252, 240) && badge.ink
                == widgets::rgb(40, 140, 70) && badge.border == widgets::rgb(200, 240, 210)
        }),
{
}

/// The list has a card for each repository, in their order, with its name, its
/// branch and its counts; exactly the selected one stands out, and a card selects
/// its own repository.
pub proof fn law_rail_shows_each_repository(s: AppView, i: int)
    requires
        0 <= i < s.repositories.len() <= usize::MAX,
    ensures
        panels::left_rail(s).found == text::decimal(s.repositories.len()) + " found"@,
        panels::left_rail(s).scan == (ButtonView { label: "🔍 Scan"@, click: ClickView::Refresh }),
        panels::left_rail(s).add == (ButtonView { label: "Add"@, click: ClickView::AddRepo }),
        panels::left_rail(s).cards.len() == s.repositories.len(),
        ({
            let card = panels::left_rail(s).cards[i];
            let repo = s.repositories[i];
            let selected = s.selected_repo == Some(i as usize);
            &&& card.name == repo.name
            &&& card.branch == "("@ + repo.current_branch + ")"@
            &&& card.click == (ClickView::SelectRepo { index: i as usize })
            &&& card.chips.len() == 4
            &&& card.chips[0].label == "S:"@ + text::decimal(repo.staged_count as nat)
            &&& card.chips[1].label == "U:"@ + text::decimal(repo.unstaged_count as nat)
            &&& card.chips[2].label == "C:"@ + text::decimal(repo.conflict_count as nat)
            &&& card.chips[3].label == "↑"@ + text::decimal(repo.ahead as nat) + "↓"@
                + text::decimal(repo.behind as nat)
            &&& selected ==> card.fill == widgets::rgb(225, 240, 255) && card.border
                == widgets::rgb(64, 156, 255) && card.name_ink == widgets::rgb(18, 86, 163)
                && card.branch_ink == widgets::rgb(66, 114, 170)
            &&& !selected ==> card.fill == widgets::rgb(252, 252, 253) && card.border
                == widgets::rgb(224, 224, 226) && card.name_ink == widgets::rgb(29, 29, 31)
                && card.branch_ink == widgets::rgb(140, 140, 140)
            &&& forall|k: int|
                0 <= k < 4 ==> if selected {
                    (#[trigger] card.chips[k]).fill == widgets::rgb(205, 227, 248)
                        && card.chips[k].ink == widgets::rgb(47, 87, 135)
                } else {
                    card.chips[k].fill == widgets::rgb(220, 220, 220) && card.chips[k].ink
                        == widgets::rgb(80, 80, 80)
                }
        }),
{
}

/// Also without repositories the list says how many there are.
pub proof fn law_empty_rail(s: AppView)
    requires
        s.repositories.len() == 0,
    ensures
        panels::left_rail(s).found == text::decimal(0) + " found"@,
        panels::left_rail(s).cards.len() == 0,
{
}

/// The footer shows the status, and failures in red.
pub proof fn law_footer_shows_the_status(s: AppView)
    ensures
        panels::footer(s).message == s.status_line,
        s.status_is_error ==> panels::footer(s).ink == widgets::rgb(180, 40, 40),
        !s.status_is_error ==> panels::footer(s).ink == widgets::rgb(100, 100, 100),
{
}

/// Buttons of the bars have the label and do the thing they are made for, and
/// those that stand out look different from the others.
pub proof fn law_bar_buttons_stand_out(
    label: Seq<char>,
    marked: bool,
    click: ClickView,
    tab: WorkTab,
)
    ensures
        ({
            let tool = panels::tool_button(label, marked, click);
            let opener = panels::tab_button(tab, marked);
            &&& tool.label == label
            &&& tool.click == click
            &&& opener.label == actions::tab_title(tab)
            &&& opener.click == (ClickView::OpenTab { tab })
            &&& marked ==> {
                &&& tool.fill == widgets::rgb(0, 122, 255)
                &&& tool.ink == widgets::rgb(255, 255, 255)
                &&& tool.border == widgets::rgb(0, 108, 230)
                &&& opener.fill == widgets::rgb(0, 122, 255)
                &&& opener.ink == widgets::rgb(255, 255, 255)
                &&& opener.border == widgets::rgb(0, 108, 230)
            }
            &&& !marked ==> {
                &&& tool.fill == widgets::rgb(244, 244, 246)
                &&& tool.ink == widgets::rgb(44, 44, 48)
                &&& tool.border == widgets::rgb(210, 210, 214)
                &&& opener.fill == widgets::rgb(241, 241, 243)
                &&& opener.ink == widgets::rgb(84, 84, 88)
                &&& opener.border == widgets::rgb(210, 210, 214)
            }
        }),
{
}

/// The bar at the top has seven buttons, of which only the one that commits
/// stands out.
pub proof fn law_command_bar_commits_first()
    ensures
        ({
            let bar = panels::command_bar();
            &&& bar.len() == 7
            &&& bar[0].label == "Refresh"@ && bar[0].click == ClickView::Refresh
            &&& bar[1].label == "Reload"@ && bar[1].click == ClickView::Reload
            &&& bar[2].label == "Stage All"@ && bar[2].click == ClickView::StageAll
            &&& bar[3].label == "Unstage All"@ && bar[3].click == ClickView::UnstageAll
            &&& bar[4].label == "Commit"@ && bar[4].click == ClickView::Commit
            &&& bar[5].label == "Conflicts"@ && bar[5].click == (ClickView::OpenTab {
                tab: WorkTab::Conflicts,
            })
            &&& bar[6].label == "Actions"@ && bar[6].click == ClickView::ShowPalette
            &&& forall|k: int|
                0 <= k < 7 ==> ((#[trigger] bar[k]).fill == widgets::rgb(0, 122, 255) <==> k == 4)
            &&& forall|k: int|
                0 <= k < 7 && k != 4 ==> (#[trigger] bar[k]).fill == widgets::rgb(244, 244, 246)
        }),
{
}

/// The tabs, each once, in the order in which they are shown, and what they are
/// called.
pub proof fn law_tabs_are_all_shown(tab: WorkTab)
    ensures
        actions::all_tabs().len() == 6,
        actions::all_tabs().contains(tab),
        actions::all_tabs()[0] == WorkTab::Changes,
        actions::all_tabs()[1] == WorkTab::History,
        actions::all_tabs()[2] == WorkTab::Branches,
        actions::all_tabs()[3] == WorkTab::Sync,
        actions::all_tabs()[4] == WorkTab::Conflicts,
        actions::all_tabs()[5] == WorkTab::Recovery,
        actions::tab_title(WorkTab::Changes) == "Changes"@,
        actions::tab_title(WorkTab::History) == "History Graph"@,
        actions::tab_title(WorkTab::Branches) == "Branch Lab"@,
        actions::tab_title(WorkTab::Sync) == "Sync"@,
        actions::tab_title(WorkTab::Conflicts) == "Conflict Studio"@,
        actions::tab_title(WorkTab::Recovery) == "Recovery Center"@,
        actions::provider_title(AiProvider::LocalHeuristic) == "Local Heuristic"@,
        actions::provider_title(AiProvider::OpenAi) == "OpenAI"@,
{
    let all = actions::all_tabs();
    match tab {
        WorkTab::Changes => assert(all[0] == tab),
        WorkTab::History => assert(all[1] == tab),
        WorkTab::Branches => assert(all[2] == tab),
        WorkTab::Sync => assert(all[3] == tab),
        WorkTab::Conflicts => assert(all[4] == tab),
        WorkTab::Recovery => assert(all[5] == tab),
    }
}

// The command palette.

/// Every action is in the palette, once, in a fixed order.
pub proof fn law_palette_has_every_action(action: PaletteAction)
    ensures
        actions::all_actions().contains(action),
        actions::all_actions().len() == 14,
        forall|i: int, j: int|
            0 <= i < j < 14 ==> #[trigger] actions::all_actions()[i]
                != #[trigger] actions::all_actions()[j],
        actions::all_actions()[0] == PaletteAction::RefreshRepositories,
        actions::all_actions()[1] == PaletteAction::ReloadSelectedRepo,
        actions::all_actions()[2] == PaletteAction::StageAll,
        actions::all_actions()[3] == PaletteAction::UnstageAll,
        actions::all_actions()[4] == PaletteAction::Commit,
        actions::all_actions()[5] == PaletteAction::Fetch,
        actions::all_actions()[6] == PaletteAction::PullRebase,
        actions::all_actions()[7] == PaletteAction::Push,
        forall|k: int|
            0 <= k < 6 ==> #[trigger] actions::all_actions()[8 + k] == PaletteAction::OpenTab(
                actions::all_tabs()[k],
            ),
{
    let all = actions::all_actions();
    match action {
        PaletteAction::RefreshRepositories => assert(all[0] == action),
        PaletteAction::ReloadSelectedRepo => assert(all[1] == action),
        PaletteAction::StageAll => assert(all[2] == action),
        PaletteAction::UnstageAll => assert(all[3] == action),
        PaletteAction::Commit => assert(all[4] == action),
        PaletteAction::Fetch => assert(all[5] == action),
        PaletteAction::PullRebase => assert(all[6] == action),
        PaletteAction::Push => assert(all[7] == action),
        PaletteAction::OpenTab(tab) => match tab {
            WorkTab::Changes => assert(all[8] == action),
            WorkTab::History => assert(all[9] == action),
            WorkTab::Branches => assert(all[10] == action),
            WorkTab::Sync => assert(all[11] == action),
            WorkTab::Conflicts => assert(all[12] == action),
            WorkTab::Recovery => assert(all[13] == action),
        },
    }
}

/// What the actions are called: opening a tab is called by the tab's title.
pub proof fn law_actions_are_called_by_what_they_do(tab: WorkTab)
    ensures
        actions::action_name(PaletteAction::RefreshRepositories) == "Refresh Repositories"@,
        actions::action_name(PaletteAction::ReloadSelectedRepo) == "Reload Selected Repo"@,
        actions::action_name(PaletteAction::StageAll) == "Stage All"@,
        actions::action_name(PaletteAction::UnstageAll) == "Unstage All"@,
        actions::action_name(PaletteAction::Commit) == "Create Commit"@,
        actions::action_name(PaletteAction::Fetch) == "Fetch All Remotes"@,
        actions::action_name(PaletteAction::PullRebase) == "Pull --rebase"@,
        actions::action_name(PaletteAction::Push) == "Push Branch"@,
        actions::action_name(PaletteAction::OpenTab(tab)) == "Open "@ + actions::tab_title(tab),
        actions::action_keys(PaletteAction::RefreshRepositories) == "Cmd/Ctrl+R"@,
        actions::action_keys(PaletteAction::Commit) == "Cmd/Ctrl+Enter"@,
        actions::action_keys(PaletteAction::OpenTab(tab)) == "Cmd/Ctrl+K"@,
        actions::action_keys(PaletteAction::ReloadSelectedRepo) == "Action"@,
        actions::action_keys(PaletteAction::StageAll) == "Action"@,
        actions::action_keys(PaletteAction::UnstageAll) == "Action"@,
        actions::action_keys(PaletteAction::Fetch) == "Action"@,
        actions::action_keys(PaletteAction::PullRebase) == "Action"@,
        actions::action_keys(PaletteAction::Push) == "Action"@,
{
    reveal_strlit("Open ");
    reveal_strlit("Changes");
    reveal_strlit("History Graph");
    reveal_strlit("Branch Lab");
    reveal_strlit("Sync");
    reveal_strlit("Conflict Studio");
    reveal_strlit("Recovery Center");
    reveal_strlit("Open Changes");
    reveal_strlit("Open History Graph");
    reveal_strlit("Open Branch Lab");
    reveal_strlit("Open Sync");
    reveal_strlit("Open Conflict Studio");
    reveal_strlit("Open Recovery Center");
    assert(actions::action_name(PaletteAction::OpenTab(tab)) =~= "Open "@ + actions::tab_title(
        tab,
    ));
}

proof fn lemma_filter_keeps_order(
    s: Seq<PaletteAction>,
    pick: spec_fn(PaletteAction) -> bool,
) -> (at: Seq<int>)
    ensures
        at.len() == s.filter(pick).len(),
        forall|r: int|
            0 <= r < at.len() ==> 0 <= #[trigger] at[r] < s.len() && s.filter(pick)[r] == s[at[r]]
                && pick(s[at[r]]),
        forall|r: int, q: int| 0 <= r < q < at.len() ==> #[trigger] at[r] < #[trigger] at[q],
        forall|i: int|
            0 <= i < s.len() && pick(#[trigger] s[i]) ==> exists|r: int|
                0 <= r < at.len() && #[trigger] at[r] == i,
    decreases s.len(),
{
    reveal(Seq::filter);
    if s.len() == 0 {
        Seq::empty()
    } else {
        let front = s.drop_last();
        let found = lemma_filter_keeps_order(front, pick);
        let last = s.len() - 1;
        let at = if pick(s[last]) {
            found.push(last)
        } else {
            found
        };
        assert forall|r: int| 0 <= r < at.len() implies 0 <= #[trigger] at[r] < s.len() && s.filter(
            pick,
        )[r] == s[at[r]] && pick(s[at[r]]) by {
            if r < found.len() {
                assert(at[r] == found[r]);
                assert(front[found[r]] == s[found[r]]);
            }
        }
        assert forall|i: int| 0 <= i < s.len() && pick(#[trigger] s[i]) implies exists|r: int|
            0 <= r < at.len() && #[trigger] at[r] == i by {
            if i < last {
                assert(front[i] == s[i]);
                let r = choose|r: int| 0 <= r < found.len() && #[trigger] found[r] == i;
                assert(at[r] == i);
            } else {
                assert(at[found.len() as int] == i);
            }
        }
        at
    }
}

/// An action is offered exactly when its name or its keys, in lower case, are
/// something, then what was typed, then something. Those offered come in the
/// order of the palette.
pub proof fn law_palette_offers_every_match(query: Seq<char>, action: PaletteAction) -> (at: Seq<
    int,
>)
    ensures
        actions::offered_actions(query).contains(action) <==> {
            ||| exists|before: Seq<char>, after: Seq<char>|
                text::ascii_lower(actions::action_name(action)) == #[trigger] (before + query
                    + after)
            ||| exists|before: Seq<char>, after: Seq<char>|
                text::ascii_lower(actions::action_keys(action)) == #[trigger] (before + query
                    + after)
        },
        at.len() == actions::offered_actions(query).len(),
        forall|r: int|
            0 <= r < at.len() ==> 0 <= #[trigger] at[r] < 14 && actions::offered_actions(query)[r]
                == actions::all_actions()[at[r]],
        forall|r: int, q: int| 0 <= r < q < at.len() ==> #[trigger] at[r] < #[trigger] at[q],
{
    let pick = |a: PaletteAction| actions::offered(a, query);
    let all = actions::all_actions();
    let found = actions::offered_actions(query);
    let name = text::ascii_lower(actions::action_name(action));
    let keys = text::ascii_lower(actions::action_keys(action));
    text_laws::law_part_is_in_the_middle(name, query);
    text_laws::law_part_is_in_the_middle(keys, query);
    if query.len() == 0 {
        assert(name =~= name + query + Seq::<char>::empty());
    }
    law_palette_has_every_action(action);
    let at = lemma_filter_keeps_order(all, pick);
    if pick(action) {
        let i = choose|i: int| 0 <= i < all.len() && all[i] == action;
        assert(pick(all[i]));
        let r = choose|r: int| 0 <= r < at.len() && #[trigger] at[r] == i;
        assert(found[r] == action);
    }
    if found.contains(action) {
        let r = choose|r: int| 0 <= r < found.len() && found[r] == action;
        assert(pick(all[at[r]]));
    }
    at
}

/// The palette has a button for each action that is offered, in their order, with
/// its name and its keys, and the button does that action.
pub proof fn law_palette_buttons_do_their_action(offered: Seq<PaletteAction>, i: int)
    requires
        0 <= i < offered.len(),
    ensures
        panels::palette_buttons(offered).len() == offered.len(),
        panels::palette_buttons(offered)[i].click == (ClickView::Palette { action: offered[i] }),
        panels::palette_buttons(offered)[i].label == actions::action_name(offered[i]) + "    "@
            + actions::action_keys(offered[i]),
{
}

// The inspector.

/// What is told of a change, a commit and a branch: each value under its name.
pub proof fn law_inspector_tells_every_value(
    change: FileChangeView,
    commit: CommitEntryView,
    branch: BranchEntryView,
)
    ensures
        ({
            let rows = panels::change_rows(change);
            &&& rows.len() == 4
            &&& rows[0] == (InfoRowView { label: "Path"@ + ":"@, value: change.path })
            &&& rows[1] == (InfoRowView { label: "Type"@ + ":"@, value: change.kind })
            &&& rows[2].label == "Staged"@ + ":"@
            &&& rows[3].label == "Unstaged"@ + ":"@
            &&& rows[2].value == (if change.staged {
                "yes"@
            } else {
                "no"@
            })
            &&& rows[3].value == (if change.unstaged {
                "yes"@
            } else {
                "no"@
            })
        }),
        ({
            let rows = panels::commit_rows(commit);
            &&& rows.len() == (if commit.branch_labels.len() == 0 {
                6int
            } else {
                7int
            })
            &&& rows[0] == (InfoRowView { label: "Commit"@ + ":"@, value: commit.id })
            &&& rows[1] == (InfoRowView {
                label: "Action"@ + ":"@,
                value: graph::action_label(commit.summary),
            })
            &&& rows[2] == (InfoRowView { label: "Summary"@ + ":"@, value: commit.summary })
            &&& rows[3] == (InfoRowView { label: "Author"@ + ":"@, value: commit.author })
            &&& rows[4] == (InfoRowView { label: "Time"@ + ":"@, value: commit.timestamp })
            &&& rows[5] == (InfoRowView {
                label: "Parents"@ + ":"@,
                value: text::decimal(commit.parents.len()),
            })
            &&& commit.branch_labels.len() > 0 ==> rows[6] == (InfoRowView {
                label: "Branches"@ + ":"@,
                value: text::joined(commit.branch_labels, ", "@),
            })
        }),
        ({
            let rows = panels::branch_rows(branch);
            &&& rows.len() == 3
            &&& rows[0] == (InfoRowView { label: "Branch"@ + ":"@, value: branch.name })
            &&& rows[1].label == "Current"@ + ":"@
            &&& rows[1].value == (if branch.is_head {
                "yes"@
            } else {
                "no"@
            })
            &&& rows[2].label == "Upstream"@ + ":"@
            &&& branch.upstream is Some ==> rows[2].value == branch.upstream->0
            &&& branch.upstream is None ==> rows[2].value == "none"@
        }),
{
}

/// The inspector shows the repository and how safe it is, and a heading for the
/// pane that is open; without a snapshot there is nothing to inspect.
pub proof fn law_inspector_shows_the_repository(s: AppView, snapshot: RepoSnapshotView)
    ensures
        s.snapshot is None ==> panels::inspector(s) is None,
        s.snapshot == Some(snapshot) ==> {
            &&& panels::inspector(s) matches Some(shown)
            &&& shown.name == snapshot.summary.name
            &&& shown.path == snapshot.summary.path.text
            &&& shown.risk == panels::risk_of(snapshot.summary)
            &&& shown.heading == panels::inspector_heading(s.active_tab)
            &&& shown.body == panels::inspector_body(s, snapshot)
        },
        panels::inspector_heading(WorkTab::Changes) == "Selected Change"@,
        panels::inspector_heading(WorkTab::History) == "Selected Commit"@,
        panels::inspector_heading(WorkTab::Branches) == "Selected Branch"@,
        panels::inspector_heading(WorkTab::Sync) == "Sync State"@,
        panels::inspector_heading(WorkTab::Conflicts) == "AI Agent"@,
        panels::inspector_heading(WorkTab::Recovery) == "Recovery Actions"@,
{
}

/// In the panes of changes, history and branches the inspector tells of the
/// selected item; it says so where there is none in that place, and what to do
/// where none is selected.
pub proof fn law_inspector_tells_of_the_selection(s: AppView, snapshot: RepoSnapshotView, i: usize)
    ensures
        ({
            let body = panels::inspector_body(s, snapshot);
            &&& s.active_tab is Changes && s.selected_change == Some(i) ==> if i
                < snapshot.changes.len() {
                body == (InspectorBodyView::Rows {
                    rows: panels::change_rows(snapshot.changes[i as int]),
                })
            } else {
                body == (InspectorBodyView::Missing { missing: "No change selected"@ })
            }
            &&& s.active_tab is Changes && s.selected_change is None ==> body
                == (InspectorBodyView::Hint { hint: "Pick a file in Changes"@ })
            &&& s.active_tab is History && s.selected_commit == Some(i) ==> if i
                < snapshot.commits.len() {
                body == (InspectorBodyView::Rows {
                    rows: panels::commit_rows(snapshot.commits[i as int]),
                })
            } else {
                body == (InspectorBodyView::Missing { missing: "No commit selected"@ })
            }
            &&& s.active_tab is History && s.selected_commit is None ==> body
                == (InspectorBodyView::Hint { hint: "Pick a commit in History"@ })
            &&& s.active_tab is Branches && s.selected_branch == Some(i) ==> if i
                < snapshot.branches.len() {
                body == (InspectorBodyView::Rows {
                    rows: panels::branch_rows(snapshot.branches[i as int]),
                })
            } else {
                body == (InspectorBodyView::Missing { missing: "No branch selected"@ })
            }
            &&& s.active_tab is Branches && s.selected_branch is None ==> body
                == (InspectorBodyView::Hint { hint: "Pick a branch in Branch Lab"@ })
        }),
{
}

/// In the other panes it tells the distances, the agent and whether a reset is
/// armed.
pub proof fn law_inspector_tells_of_the_state(s: AppView, snapshot: RepoSnapshotView)
    ensures
        ({
            let body = panels::inspector_body(s, snapshot);
            let summary = snapshot.summary;
            &&& s.active_tab is Sync ==> {
                &&& body matches InspectorBodyView::Lines { lines }
                &&& lines.len() == 3
                &&& lines[0] == "↑ Ahead: "@ + text::decimal(summary.ahead as nat)
                &&& lines[1] == "↓ Behind: "@ + text::decimal(summary.behind as nat)
                &&& lines[2] == "⑂ Branch: "@ + summary.current_branch
            }
            &&& s.active_tab is Conflicts ==> {
                &&& body matches InspectorBodyView::Agent { agent, waiting, suggestion }
                &&& waiting == s.ai_request_in_flight
                &&& suggestion == s.ai_suggestion
                &&& agent.len() == 2
                &&& agent[0] == "Provider: "@ + actions::provider_title(s.ai_provider)
                &&& s.ai_strategy is SmartBlend ==> agent[1] == "Strategy: "@ + "SmartBlend"@
                &&& s.ai_strategy is KeepOurs ==> agent[1] == "Strategy: "@ + "KeepOurs"@
                &&& s.ai_strategy is KeepTheirs ==> agent[1] == "Strategy: "@ + "KeepTheirs"@
            }
            &&& s.active_tab is Recovery && s.pending_reset_to is Some ==> body
                == (InspectorBodyView::Armed {
                warning: "⚠ Reset armed"@,
                advice: "Click confirm in Recovery Center to execute"@,
            })
            &&& s.active_tab is Recovery && s.pending_reset_to is None ==> body
                == (InspectorBodyView::Hint {
                hint: "Select an entry and arm reset to restore previous state"@,
            })
        }),
{
}

// What commits are labelled by.

/// The word that a commit is labelled by is a stretch of its message: the first
/// without white space, without the colons at its end, in lower case.
pub proof fn law_label_word_is_the_first_word(summary: Seq<char>) -> (at: (int, int, int))
    ensures
        0 <= at.0 <= at.1 <= at.2 <= summary.len(),
        forall|k: int| 0 <= k < at.0 ==> text::white_space(#[trigger] summary[k]),
        forall|k: int| at.0 <= k < at.2 ==> !text::white_space(#[trigger] summary[k]),
        at.2 < summary.len() ==> text::white_space(summary[at.2]),
        at.0 == at.2 ==> at.0 == summary.len(),
        forall|k: int| at.1 <= k < at.2 ==> #[trigger] summary[k] == ':',
        at.0 < at.1 ==> summary[at.1 - 1] != ':',
        graph::message_word(summary).len() == at.1 - at.0,
        forall|k: int|
            0 <= k < at.1 - at.0 ==> (#[trigger] graph::message_word(summary)[k]) as int == (if 65
                <= summary[at.0 + k] as int <= 90 {
                summary[at.0 + k] as int + 32
            } else {
                summary[at.0 + k] as int
            }),
{
    let (i, j) = text_laws::law_first_word_is_the_first_stretch(summary);
    let word = text::first_word_of(summary);
    let n = text_laws::law_tail_is_taken_off(word, ':');
    let bare = text::without_tail(word, ':');
    text_laws::law_capitals_become_small(bare);
    assert forall|k: int| i + n <= k < j implies #[trigger] summary[k] == ':' by {
        assert(word[k - i] == summary[k]);
    }
    assert forall|k: int| 0 <= k < n implies bare[k] == summary[i + k] by {}
    (i, i + n, j)
}

/// A commit is labelled by what its word begins with, whatever follows; a word
/// that begins with none of these is just a commit.
pub proof fn law_label_goes_by_the_start_of_the_word(summary: Seq<char>, tail: Seq<char>)
    ensures
        ({
            let word = graph::message_word(summary);
            let label = graph::action_label(summary);
            &&& word == "merge"@ + tail ==> label == "merge"@
            &&& word == "revert"@ + tail ==> label == "revert"@
            &&& word == "fix"@ + tail ==> label == "fix"@
            &&& word == "feat"@ + tail ==> label == "feature"@
            &&& word == "refactor"@ + tail ==> label == "refactor"@
            &&& word == "docs"@ + tail ==> label == "docs"@
            &&& word == "test"@ + tail ==> label == "test"@
            &&& word == "chore"@ + tail ==> label == "chore"@
            &&& word == "ci"@ + tail ==> label == "ci"@
            &&& word == "perf"@ + tail ==> label == "perf"@
        }),
        ({
            let word = graph::message_word(summary);
            &&& (forall|t: Seq<char>| word != #[trigger] ("merge"@ + t))
            &&& (forall|t: Seq<char>| word != #[trigger] ("revert"@ + t))
            &&& (forall|t: Seq<char>| word != #[trigger] ("fix"@ + t))
            &&& (forall|t: Seq<char>| word != #[trigger] ("feat"@ + t))
            &&& (forall|t: Seq<char>| word != #[trigger] ("refactor"@ + t))
            &&& (forall|t: Seq<char>| word != #[trigger] ("docs"@ + t))
            &&& (forall|t: Seq<char>| word != #[trigger] ("test"@ + t))
            &&& (forall|t: Seq<char>| word != #[trigger] ("chore"@ + t))
            &&& (forall|t: Seq<char>| word != #[trigger] ("ci"@ + t))
            &&& (forall|t: Seq<char>| word != #[trigger] ("perf"@ + t))
        }) ==> graph::action_label(summary) == "commit"@,
{
    reveal_strlit("merge");
    reveal_strlit("revert");
    reveal_strlit("fix");
    reveal_strlit("feat");
    reveal_strlit("refactor");
    reveal_strlit("docs");
    reveal_strlit("test");
    reveal_strlit("chore");
    reveal_strlit("ci");
    reveal_strlit("perf");
    let word = graph::message_word(summary);
    lemma_start(word, "merge"@);
    lemma_start(word, "revert"@);
    lemma_start(word, "fix"@);
    lemma_start(word, "feat"@);
    lemma_start(word, "refactor"@);
    lemma_start(word, "docs"@);
    lemma_start(word, "test"@);
    lemma_start(word, "chore"@);
    lemma_start(word, "ci"@);
    lemma_start(word, "perf"@);
    assert("merge"@[0] == 'm' && "merge"@[1] == 'e');
    assert("revert"@[0] == 'r' && "revert"@[2] == 'v');
    assert("fix"@[0] == 'f' && "fix"@[1] == 'i');
    assert("feat"@[0] == 'f' && "feat"@[1] == 'e');
    assert("refactor"@[0] == 'r' && "refactor"@[2] == 'f');
    assert("docs"@[0] == 'd' && "docs"@[1] == 'o');
    assert("test"@[0] == 't' && "test"@[1] == 'e');
    assert("chore"@[0] == 'c' && "chore"@[1] == 'h');
    assert("ci"@[0] == 'c' && "ci"@[1] == 'i');
    assert("perf"@[0] == 'p' && "perf"@[1] == 'e');
    if word == "merge"@ + tail {
        assert(word[0] == 'm' && word[1] == 'e');
    }
    if word == "revert"@ + tail {
        assert(word[0] == 'r' && word[2] == 'v');
    }
    if word == "fix"@ + tail {
        assert(word[0] == 'f' && word[1] == 'i');
    }
    if word == "feat"@ + tail {
        assert(word[0] == 'f' && word[1] == 'e');
    }
    if word == "refactor"@ + tail {
        assert(word[0] == 'r' && word[2] == 'f');
    }
    if word == "docs"@ + tail {
        assert(word[0] == 'd' && word[1] == 'o');
    }
    if word == "test"@ + tail {
        assert(word[0] == 't' && word[1] == 'e');
    }
    if word == "chore"@ + tail {
        assert(word[0] == 'c' && word[1] == 'h');
    }
    if word == "ci"@ + tail {
        assert(word[0] == 'c' && word[1] == 'i');
    }
    if word == "perf"@ + tail {
        assert(word[0] == 'p' && word[1] == 'e');
    }
}

proof fn lemma_start(word: Seq<char>, head: Seq<char>)
    ensures
        text::begins_with(word, head) <==> exists|t: Seq<char>| word == #[trigger] (head + t),
        text::begins_with(word, head) ==> head.len() <= word.len() && (forall|k: int|
            0 <= k < head.len() ==> #[trigger] word[k] == head[k]),
{
    text_laws::law_head_comes_first(word, head);
    if text::begins_with(word, head) {
        assert forall|k: int| 0 <= k < head.len() implies #[trigger] word[k] == head[k] by {
            assert(word.subrange(0, head.len() as int)[k] == head[k]);
        }
    }
}

/// The colours of the lanes.
pub proof fn law_lanes_have_these_colours()
    ensures
        graph::lane_colours() == seq![
            Rgb { r: 0, g: 122, b: 255 },
            Rgb { r: 175, g: 82, b: 222 },
            Rgb { r: 255, g: 149, b: 0 },
            Rgb { r: 52, g: 199, b: 89 },
            Rgb { r: 255, g: 59, b: 48 },
            Rgb { r: 90, g: 200, b: 250 },
            Rgb { r: 88, g: 86, b: 214 },
            Rgb { r: 255, g: 204, b: 0 },
        ],
{
}

/// The rows of the graph: each commit's lane is the leftmost that waits for it,
/// or a new one at the right, beside all lanes there are; and its parents are
/// counted.
pub proof fn law_rows_follow_the_lanes(commits: Seq<CommitEntryView>, i: int)
    requires
        0 <= i < commits.len(),
        graph::lanes_after(commits.take(i)).len() < usize::MAX,
        commits[i].parents.len() <= usize::MAX,
    ensures
        graph::graph_rows(commits).len() == commits.len(),
        ({
            let row = graph::graph_rows(commits)[i];
            let above = graph::lanes_after(commits.take(i));
            let oid = commits[i].oid;
            &&& row.parent_count == commits[i].parents.len()
            &&& row.lane <= above.len()
            &&& row.lane < above.len() ==> above[row.lane as int] == oid && row.lane_count
                == above.len()
            &&& row.lane == above.len() ==> row.lane_count == above.len() + 1
            &&& forall|k: int| 0 <= k < row.lane ==> #[trigger] above[k] != oid
        }),
{
    graph::lemma_lane_waiting(graph::lanes_after(commits.take(i)), commits[i].oid);
}

}
