//! What holds of the application over every click, key, report and sequence of
//! them.
use vstd::prelude::*;
use vstd::string::*;

use crate::app;
use crate::app::AppView;
use crate::clicks;
use crate::clicks::ClickView;
use crate::collect;
use crate::effects;
use crate::effects::{AddOutcomeView, AiPollView, RepoActionView, Shortcut, StepView};
use crate::git_service;
use crate::model::{
    AiSuggestionView, ConflictEntryView, FileChange, FileChangeView, RepoSnapshotView,
    RepoSummary, RepoSummaryView,
};
use crate::panes;
use crate::paths::RepoPathView;
use crate::readings::{RepoReadingView, StatusEntryView};
use crate::sort;
use crate::status;
use crate::status::Status;
use crate::text;

verus! {

/// What can happen to the application.
pub enum Event {
    Clicked { click: ClickView },
    Pressed { shortcut: Shortcut },
    Scanned { root: Seq<char>, found: Option<Seq<RepoSummaryView>>, announce: Option<Seq<char>> },
    Loaded { loaded: Result<RepoSnapshotView, Seq<char>>, announce: Option<Seq<char>> },
    Finished { action: RepoActionView, outcome: Result<Seq<char>, Seq<char>> },
    Added { added: AddOutcomeView },
    Suggested { suggestion: AiSuggestionView },
    Polled { poll: AiPollView },
    ConflictsShown,
    Typed { state: AppView },
}

/// Whether two states differ at most in what is typed.
pub open spec fn differs_in_typing(s: AppView, t: AppView) -> bool {
    t == AppView {
        repo_root_input: t.repo_root_input,
        manual_repo_input: t.manual_repo_input,
        commit_message: t.commit_message,
        branch_name_input: t.branch_name_input,
        changes_filter: t.changes_filter,
        ai_edited_text: t.ai_edited_text,
        openai_api_key_input: t.openai_api_key_input,
        openai_model_input: t.openai_model_input,
        openai_base_url_input: t.openai_base_url_input,
        command_palette_open: t.command_palette_open,
        command_palette_query: t.command_palette_query,
        ..s
    }
}

/// Whether something can happen in a state: only a repository that is listed
/// can be clicked, only the selected one is read, and only texts are typed.
/// Lists are no longer than a machine can hold.
pub open spec fn possible(s: AppView, event: Event) -> bool {
    match event {
        Event::Clicked { click } => click matches ClickView::SelectRepo { index } ==> index
            < s.repositories.len(),
        Event::Loaded { .. } => app::selected_path(s) is Some,
        Event::Added { .. } => s.repositories.len() < usize::MAX,
        Event::Typed { state } => differs_in_typing(s, state),
        _ => true,
    }
}

/// What an event leads to: the next state and what is to be done outside.
pub open spec fn happened(s: AppView, event: Event) -> (AppView, StepView) {
    match event {
        Event::Clicked { click } => clicks::clicked(s, click),
        Event::Pressed { shortcut } => app::pressed(s, shortcut),
        Event::Scanned { root, found, announce } => app::scanned(s, root, found, announce),
        Event::Loaded { loaded, announce } => (app::reloaded(s, loaded, announce), StepView::Idle),
        Event::Finished { action, outcome } => app::acted(s, action, outcome),
        Event::Added { added } => app::added(s, added),
        Event::Suggested { suggestion } => (
            app::with_status(app::suggested(s, suggestion), "Generated local AI suggestion"@),
            StepView::Idle,
        ),
        Event::Polled { poll } => (app::polled(s, poll), StepView::Idle),
        Event::ConflictsShown => (clicks::conflicts_shown(s), StepView::Idle),
        Event::Typed { state } => (state, StepView::Idle),
    }
}

/// The state after all of the events.
pub open spec fn after(start: AppView, events: Seq<Event>) -> AppView
    decreases events.len(),
{
    if events.len() == 0 {
        start
    } else {
        happened(after(start, events.drop_last()), events.last()).0
    }
}

/// Whether all of the events can happen, one after the other.
pub open spec fn all_possible(start: AppView, events: Seq<Event>) -> bool {
    forall|i: int|
        0 <= i < events.len() ==> possible(
            after(start, events.take(i)),
            #[trigger] events[i],
        )
}

proof fn lemma_position_in_range(repositories: Seq<RepoSummaryView>, path: RepoPathView)
    requires
        repositories.len() > 0,
    ensures
        app::position_of(repositories, path) < repositories.len(),
    decreases repositories.len(),
{
    if app::lists_repo(repositories, path) && repositories[0].path.parts != path.parts {
        let i = choose|i: int|
            0 <= i < repositories.len() && (#[trigger] repositories[i]).path.parts == path.parts;
        let rest = repositories.drop_first();
        assert(rest[i - 1].path.parts == path.parts);
        lemma_position_in_range(rest, path);
    }
}

/// Whatever happens, the selected repository stays one that is listed, and
/// there is a snapshot only while a repository is selected.
#[verifier::rlimit(60)]
pub proof fn law_selection_stays_consistent(s: AppView, event: Event)
    requires
        app::consistent(s),
        possible(s, event),
    ensures
        app::consistent(happened(s, event).0),
{
    sort::lemma_rank::<RepoSummary>();
    match event {
        Event::Added { added } => {
            if let AddOutcomeView::Found { summary, root } = added {
                let all = s.repositories.push(summary);
                sort::law_sorting_puts_in_order(all, sort::rank::<RepoSummary>());
                let listed = sort::stably_sorted(all, sort::rank::<RepoSummary>());
                lemma_position_in_range(listed, root);
            }
        },
        Event::Scanned { root, found, announce } => {
            if let Some(summaries) = found {
                sort::law_sorting_puts_in_order(summaries, sort::rank::<RepoSummary>());
            }
        },
        _ => {},
    }
}

/// The same holds after any number of events, from the start on.
pub proof fn law_always_consistent(root: Seq<char>, api_key: Seq<char>, events: Seq<Event>)
    requires
        all_possible(app::initial_state(root, api_key), events),
    ensures
        app::consistent(after(app::initial_state(root, api_key), events)),
    decreases events.len(),
{
    let start = app::initial_state(root, api_key);
    if events.len() > 0 {
        let before = events.drop_last();
        assert forall|i: int| 0 <= i < before.len() implies possible(
            after(start, before.take(i)),
            #[trigger] before[i],
        ) by {
            assert(before.take(i) =~= events.take(i));
            assert(before[i] == events[i]);
        }
        law_always_consistent(root, api_key, before);
        assert(events.take(events.len() - 1) =~= before);
        assert(possible(after(start, before), events[events.len() - 1]));
        law_selection_stays_consistent(after(start, before), events.last());
    }
}

/// Once an operation was carried out, its success is what the status tells,
/// however the reading of the repository that follows turns out.
pub proof fn law_success_is_told(
    s: AppView,
    action: RepoActionView,
    returned: Seq<char>,
    loaded: Result<RepoSnapshotView, Seq<char>>,
)
    ensures
        ({
            let (t, step) = app::acted(s, action, Ok(returned));
            let told = match step {
                StepView::LoadSnapshot { repo, announce } => app::reloaded(t, loaded, announce),
                _ => t,
            };
            told.status_line == effects::success_status(action, returned) && !told.status_is_error
        }),
{
}

/// An operation that failed changes nothing but the status, which tells why.
pub proof fn law_failure_changes_status_only(s: AppView, action: RepoActionView, reason: Seq<char>)
    ensures
        ({
            let (t, step) = app::acted(s, action, Err(reason));
            &&& step is Idle
            &&& t.status_is_error
            &&& t.status_line == effects::action_caption(action) + " failed: "@ + reason
            &&& t == AppView {
                status_line: t.status_line,
                status_is_error: t.status_is_error,
                ..s
            }
        }),
{
}

/// A resolution is applied only by taking over a suggestion, only to the
/// selected file, and only as a text without conflict markers.
#[verifier::rlimit(60)]
pub proof fn law_resolution_is_guarded(s: AppView, event: Event)
    ensures
        happened(s, event).1 matches StepView::Perform {
            action: RepoActionView::ApplyResolution { path, resolved },
            ..
        } ==> {
            &&& event == (Event::Clicked { click: ClickView::ApplySuggestion })
            &&& s.ai_suggestion is Some
            &&& app::chosen_conflict(s) matches Ok(conflict)
            &&& conflict.path == path
            &&& resolved == s.ai_edited_text
            &&& !app::has_conflict_markers(resolved)
        },
{
}

/// Taking over a text with conflict markers is refused: nothing is carried out,
/// and only the status changes.
pub proof fn law_markers_are_refused(s: AppView)
    requires
        app::has_conflict_markers(s.ai_edited_text),
    ensures
        ({
            let (t, step) = clicks::clicked(s, ClickView::ApplySuggestion);
            &&& step is Idle
            &&& t.status_is_error
            &&& t == AppView {
                status_line: t.status_line,
                status_is_error: t.status_is_error,
                ..s
            }
        }),
{
}

/// A reset is carried out only by confirming it, and only to the commit that it
/// was armed for; after that it is no longer armed.
#[verifier::rlimit(60)]
pub proof fn law_reset_needs_confirmation(s: AppView, event: Event)
    ensures
        happened(s, event).1 matches StepView::Perform {
            action: RepoActionView::ResetTo { oid },
            ..
        } ==> {
            &&& event == (Event::Clicked { click: ClickView::ConfirmReset })
            &&& s.pending_reset_to == Some(oid)
            &&& clicks::chosen_recovery(s) matches Some(entry)
            &&& entry.to_id == oid
            &&& happened(s, event).0.pending_reset_to is None
        },
{
}

/// Arming a reset carries nothing out.
pub proof fn law_arming_does_nothing_else(s: AppView)
    ensures
        clicks::clicked(s, ClickView::ArmReset).1 is Idle,
{
}

/// Only arming arms: no other event leaves a reset armed that was not armed
/// before.
#[verifier::rlimit(60)]
pub proof fn law_only_arming_arms(s: AppView, event: Event)
    requires
        possible(s, event),
        event != (Event::Clicked { click: ClickView::ArmReset }),
    ensures
        happened(s, event).0.pending_reset_to is Some ==> s.pending_reset_to is Some,
{
}

/// A reset that is armed at any time was armed by a click before.
pub proof fn law_reset_was_armed(root: Seq<char>, api_key: Seq<char>, events: Seq<Event>)
    requires
        all_possible(app::initial_state(root, api_key), events),
        after(app::initial_state(root, api_key), events).pending_reset_to is Some,
    ensures
        exists|i: int|
            0 <= i < events.len() && #[trigger] events[i] == (Event::Clicked {
                click: ClickView::ArmReset,
            }),
    decreases events.len(),
{
    let start = app::initial_state(root, api_key);
    if events.len() > 0 {
        let before = events.drop_last();
        let last = events[events.len() - 1];
        let s = after(start, before);
        assert(events.take(events.len() - 1) =~= before);
        assert(possible(s, last));
        if last != (Event::Clicked { click: ClickView::ArmReset }) {
            law_only_arming_arms(s, last);
            assert forall|i: int| 0 <= i < before.len() implies possible(
                after(start, before.take(i)),
                #[trigger] before[i],
            ) by {
                assert(before.take(i) =~= events.take(i));
                assert(before[i] == events[i]);
            }
            law_reset_was_armed(root, api_key, before);
            let i = choose|i: int|
                0 <= i < before.len() && #[trigger] before[i] == (Event::Clicked {
                    click: ClickView::ArmReset,
                });
            assert(events[i] == before[i]);
        }
    }
}

/// Reading the repository anew disarms a reset, forgets the suggestion and
/// keeps the list of repositories up to date.
pub proof fn law_reload_starts_afresh(
    s: AppView,
    snapshot: RepoSnapshotView,
    announce: Option<Seq<char>>,
)
    requires
        app::consistent(s),
        s.selected_repo is Some,
    ensures
        ({
            let t = app::reloaded(s, Ok(snapshot), announce);
            let i = s.selected_repo->0 as int;
            &&& t.snapshot == Some(snapshot)
            &&& t.pending_reset_to is None
            &&& t.ai_suggestion is None
            &&& t.ai_edited_text.len() == 0
            &&& t.selected_conflict is None
            &&& t.repositories.len() == s.repositories.len()
            &&& t.repositories[i] == snapshot.summary
            &&& forall|k: int|
                0 <= k < s.repositories.len() && k != i ==> t.repositories[k] == s.repositories[k]
        }),
{
}

/// The remote agent is asked only while it owes no answer, and from then on it
/// owes one.
#[verifier::rlimit(60)]
pub proof fn law_one_request_at_a_time(s: AppView, event: Event)
    ensures
        happened(s, event).1 is SuggestRemotely ==> {
            &&& !s.ai_request_in_flight
            &&& happened(s, event).0.ai_request_in_flight
        },
{
}

/// The remote agent owes its answer until it is polled.
#[verifier::rlimit(60)]
pub proof fn law_request_stays_open(s: AppView, event: Event)
    requires
        possible(s, event),
        s.ai_request_in_flight,
        !happened(s, event).0.ai_request_in_flight,
    ensures
        event is Polled,
        !(event->poll is Waiting),
{
}

/// The remote agent is asked about the selected conflict, with the strategy that
/// is chosen and the key, model and address that were typed, without the white
/// space around them; and there is a key.
#[verifier::rlimit(60)]
pub proof fn law_remote_request_is_complete(s: AppView, event: Event)
    ensures
        happened(s, event).1 matches StepView::SuggestRemotely { conflict, strategy, config } ==> {
            &&& app::chosen_conflict(s) == Ok::<ConflictEntryView, Seq<char>>(conflict)
            &&& strategy == s.ai_strategy
            &&& config.api_key == text::trimmed(s.openai_api_key_input)
            &&& config.api_key.len() > 0
            &&& config.model == text::trimmed(s.openai_model_input)
            &&& config.base_url == text::trimmed(s.openai_base_url_input)
        },
{
}

/// A commit is set out for only with a message, and the message is kept until
/// the commit was made.
#[verifier::rlimit(60)]
pub proof fn law_commit_has_message(s: AppView, event: Event)
    ensures
        happened(s, event).1 matches StepView::Perform {
            action: RepoActionView::Commit { message },
            ..
        } ==> {
            &&& message.len() > 0
            &&& message == text::trimmed(s.commit_message)
            &&& happened(s, event).0.commit_message == s.commit_message
        },
{
}

/// Operations are carried out on the selected repository only.
#[verifier::rlimit(60)]
pub proof fn law_operations_are_on_selected(s: AppView, event: Event)
    ensures
        happened(s, event).1 matches StepView::Perform { repo, .. } ==> app::selected_path(s)
            == Some(repo),
{
}

/// Once repositories were found, they are listed by name, each as often as it
/// was found, and one of them is selected: the one in the place that was
/// selected before, if there is one.
pub proof fn law_scan_lists_by_name(
    s: AppView,
    root: Seq<char>,
    found: Seq<RepoSummaryView>,
    announce: Option<Seq<char>>,
)
    requires
        found.len() > 0,
    ensures
        ({
            let (t, step) = app::scanned(s, root, Some(found), announce);
            &&& sort::in_order(t.repositories, sort::rank::<RepoSummary>())
            &&& t.repositories.to_multiset() == found.to_multiset()
            &&& t.selected_repo matches Some(i)
            &&& i < t.repositories.len()
            &&& (s.selected_repo is Some && s.selected_repo->0 < found.len()) ==> i
                == s.selected_repo->0
            &&& step is LoadSnapshot
        }),
{
    sort::lemma_rank::<RepoSummary>();
    sort::law_sorting_puts_in_order(found, sort::rank::<RepoSummary>());
}

proof fn lemma_position_finds(repositories: Seq<RepoSummaryView>, path: RepoPathView)
    requires
        app::lists_repo(repositories, path),
    ensures
        app::position_of(repositories, path) < repositories.len(),
        repositories[app::position_of(repositories, path) as int].path.parts == path.parts,
    decreases repositories.len(),
{
    let i = choose|i: int|
        0 <= i < repositories.len() && (#[trigger] repositories[i]).path.parts == path.parts;
    if repositories[0].path.parts != path.parts {
        let rest = repositories.drop_first();
        assert(rest[i - 1].path.parts == path.parts);
        lemma_position_finds(rest, path);
        let at = app::position_of(rest, path) as int;
        assert(rest[at] == repositories[at + 1]);
    }
}

/// A repository that was added is the one that is selected then.
pub proof fn law_added_is_selected(
    s: AppView,
    summary: RepoSummaryView,
    root: RepoPathView,
)
    requires
        summary.path.parts == root.parts,
        s.repositories.len() < usize::MAX,
    ensures
        ({
            let (t, step) = app::added(s, AddOutcomeView::Found { summary, root });
            &&& app::selected_path(t) matches Some(path)
            &&& path.parts == root.parts
            &&& step is LoadSnapshot
        }),
{
    broadcast use vstd::seq_lib::group_to_multiset_ensures;

    let all = s.repositories.push(summary);
    let listed = sort::stably_sorted(all, sort::rank::<RepoSummary>());
    sort::lemma_rank::<RepoSummary>();
    sort::law_sorting_puts_in_order(all, sort::rank::<RepoSummary>());
    assert(all.last() == summary);
    assert(all.contains(summary));
    assert(listed.to_multiset().count(summary) > 0);
    assert(listed.contains(summary));
    let i = choose|i: int| 0 <= i < listed.len() && listed[i] == summary;
    assert(listed[i].path.parts == root.parts);
    assert(app::lists_repo(listed, root));
    lemma_position_finds(listed, root);
}

/// Without a filter, every change is shown, each once and in order.
pub proof fn law_no_filter_shows_all(
    changes: Seq<FileChangeView>,
    lower_paths: Seq<Seq<char>>,
    selection: Option<usize>,
)
    ensures
        panes::shown_changes(changes, lower_paths, Seq::empty(), selection) == Seq::new(
            changes.len(),
            |i: int|
                panes::change_row(changes[i], i as usize, selection == Some(i as usize)),
        ),
    decreases changes.len(),
{
    let rows = panes::shown_changes(changes, lower_paths, Seq::empty(), selection);
    if changes.len() > 0 {
        law_no_filter_shows_all(changes.drop_last(), lower_paths, selection);
    }
    assert(rows =~= Seq::new(
        changes.len(),
        |i: int| panes::change_row(changes[i], i as usize, selection == Some(i as usize)),
    ));
}

/// Every row that a filter lets through belongs to a change whose path it
/// matches, and selecting the row selects that change.
pub proof fn law_filter_shows_matches(
    changes: Seq<FileChangeView>,
    lower_paths: Seq<Seq<char>>,
    filter: Seq<char>,
    selection: Option<usize>,
    row: int,
)
    requires
        0 <= row < panes::shown_changes(changes, lower_paths, filter, selection).len(),
    ensures
        exists|i: int|
            0 <= i < changes.len() && panes::passes(#[trigger] lower_paths[i], filter)
                && panes::shown_changes(changes, lower_paths, filter, selection)[row]
                == panes::change_row(changes[i], i as usize, selection == Some(i as usize)),
    decreases changes.len(),
{
    let rows = panes::shown_changes(changes, lower_paths, filter, selection);
    let last = changes.len() - 1;
    let before = panes::shown_changes(changes.drop_last(), lower_paths, filter, selection);
    if row < before.len() {
        law_filter_shows_matches(changes.drop_last(), lower_paths, filter, selection, row);
        let i = choose|i: int|
            0 <= i < last && panes::passes(#[trigger] lower_paths[i], filter) && before[row]
                == panes::change_row(
                changes.drop_last()[i],
                i as usize,
                selection == Some(i as usize),
            );
        assert(panes::passes(lower_paths[i], filter));
        assert(changes.drop_last()[i] == changes[i]);
        assert(rows[row] == before[row]);
    } else {
        assert(panes::passes(lower_paths[last], filter));
        assert(rows[row] == panes::change_row(
            changes[last],
            last as usize,
            selection == Some(last as usize),
        ));
    }
}

/// Confirming a reset is offered exactly while the reset to the selected entry
/// is armed.
pub proof fn law_confirm_is_offered_when_armed(s: AppView, snapshot: RepoSnapshotView)
    requires
        s.snapshot == Some(snapshot),
    ensures
        clicks::reset_armed(s) <==> exists|i: int|
            0 <= i < panes::recovery_pane(s, snapshot).buttons.len()
                && #[trigger] panes::recovery_pane(s, snapshot).buttons[i].click
                == ClickView::ConfirmReset,
{
    let buttons = panes::recovery_pane(s, snapshot).buttons;
    if clicks::reset_armed(s) {
        assert(buttons[0].click == ClickView::ConfirmReset);
    }
}

/// How many changes `pick` accepts.
pub open spec fn changes_with(
    changes: Seq<FileChangeView>,
    pick: spec_fn(FileChangeView) -> bool,
) -> nat
    decreases changes.len(),
{
    if changes.len() == 0 {
        0
    } else {
        changes_with(changes.drop_last(), pick) + if pick(changes.last()) {
            1nat
        } else {
            0nat
        }
    }
}

proof fn lemma_placing_counts(
    changes: Seq<FileChangeView>,
    change: FileChangeView,
    le: sort::Order<FileChangeView>,
    pick: spec_fn(FileChangeView) -> bool,
)
    ensures
        changes_with(sort::placed(changes, change, le), pick) == changes_with(changes, pick) + if pick(
            change,
        ) {
            1nat
        } else {
            0nat
        },
    decreases changes.len(),
{
    let placed = sort::placed(changes, change, le);
    if changes.len() == 0 || le(changes.last(), change) {
        assert(placed.drop_last() =~= changes);
    } else {
        lemma_placing_counts(changes.drop_last(), change, le, pick);
        assert(placed.drop_last() =~= sort::placed(changes.drop_last(), change, le));
    }
}

proof fn lemma_sorting_counts(
    changes: Seq<FileChangeView>,
    le: sort::Order<FileChangeView>,
    pick: spec_fn(FileChangeView) -> bool,
)
    ensures
        changes_with(sort::stably_sorted(changes, le), pick) == changes_with(changes, pick),
    decreases changes.len(),
{
    if changes.len() > 0 {
        lemma_sorting_counts(changes.drop_last(), le, pick);
        lemma_placing_counts(
            sort::stably_sorted(changes.drop_last(), le),
            changes.last(),
            le,
            pick,
        );
    }
}

proof fn lemma_counts_agree(
    entries: Seq<StatusEntryView>,
    pick_status: spec_fn(Status) -> bool,
    pick_change: spec_fn(FileChangeView) -> bool,
)
    requires
        forall|e: StatusEntryView|
            pick_change(#[trigger] collect::change_of(e)) == pick_status(e.status),
    ensures
        changes_with(
            entries.map_values(|e: StatusEntryView| collect::change_of(e)),
            pick_change,
        ) == git_service::count_of(entries, pick_status),
    decreases entries.len(),
{
    if entries.len() > 0 {
        lemma_counts_agree(entries.drop_last(), pick_status, pick_change);
        let made = entries.map_values(|e: StatusEntryView| collect::change_of(e));
        assert(made.drop_last() =~= entries.drop_last().map_values(
            |e: StatusEntryView| collect::change_of(e),
        ));
        assert(pick_change(collect::change_of(entries.last())) == pick_status(
            entries.last().status,
        ));
    }
}

proof fn lemma_conflict_word(status: Status)
    ensures
        status::status_word(status) == "conflicted"@ <==> status::has_flag(
            status,
            status::CONFLICTED,
        ),
{
    reveal_strlit("conflicted");
    reveal_strlit("new");
    reveal_strlit("modified");
    reveal_strlit("deleted");
    reveal_strlit("renamed");
    reveal_strlit("typechange");
    reveal_strlit("changed");
    assert("conflicted"@.len() == 10);
    assert("new"@.len() == 3 && "modified"@.len() == 8 && "deleted"@.len() == 7);
    assert("renamed"@.len() == 7 && "changed"@.len() == 7);
    assert("conflicted"@[0] == 'c');
    assert("typechange"@[0] == 't');
}

/// The counts of a snapshot's summary agree with its list of changes.
pub proof fn law_summary_agrees_with_changes(reading: RepoReadingView)
    requires
        reading.facts.statuses.len() <= usize::MAX,
    ensures
        ({
            let snapshot = collect::snapshot_of(reading);
            &&& snapshot.changes.len() == reading.facts.statuses.len()
            &&& snapshot.summary.staged_count == changes_with(
                snapshot.changes,
                |c: FileChangeView| c.staged,
            )
            &&& snapshot.summary.unstaged_count == changes_with(
                snapshot.changes,
                |c: FileChangeView| c.unstaged,
            )
            &&& snapshot.summary.conflict_count == changes_with(
                snapshot.changes,
                |c: FileChangeView| c.kind == "conflicted"@,
            )
        }),
{
    let entries = reading.facts.statuses;
    let le = sort::rank::<FileChange>();
    let made = entries.map_values(|e: StatusEntryView| collect::change_of(e));
    let staged = |c: FileChangeView| c.staged;
    let unstaged = |c: FileChangeView| c.unstaged;
    let conflicted = |c: FileChangeView| c.kind == "conflicted"@;
    sort::lemma_rank::<FileChange>();
    sort::law_sorting_puts_in_order(made, le);
    lemma_sorting_counts(made, le, staged);
    lemma_sorting_counts(made, le, unstaged);
    lemma_sorting_counts(made, le, conflicted);
    lemma_counts_agree(entries, git_service::staged(), staged);
    lemma_counts_agree(entries, git_service::unstaged(), unstaged);
    assert forall|e: StatusEntryView| conflicted(#[trigger] collect::change_of(e)) == (
    git_service::conflicted())(e.status) by {
        lemma_conflict_word(e.status);
    }
    lemma_counts_agree(entries, git_service::conflicted(), conflicted);
    git_service::lemma_count_bounded(entries, git_service::staged());
    git_service::lemma_count_bounded(entries, git_service::unstaged());
    git_service::lemma_count_bounded(entries, git_service::conflicted());
}

}
