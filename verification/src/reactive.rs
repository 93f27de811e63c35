//! The window selection from beginning to end: take a snapshot of the active
//! workspace and its windows, let the user pick among them, and begin again
//! whenever the workspace changes first. Only a pick, a dismissal or a
//! failure ends it.

use vstd::prelude::*;
use crate::compositor::{
    first_with_address,
    lemma_current_geometry_at_first,
    selectable_windows,
    window_geometry,
    windows_on,
};
use crate::error::{ErrorView, SelectionError};
use crate::model::{window_views, WindowInfo, WindowView};
use crate::protocol::{Action, ActionView, Event, EventView, SelectorExitView};
use crate::text::selection_text;
use crate::selector::{
    advance,
    advanced,
    begin,
    opening_action,
    Attempt,
    AttemptView,
    Outcome,
    OutcomeView,
    Progress,
    ProgressView,
};

verus! {

/// Where the selection stands.
#[derive(Debug, PartialEq, Eq)]
pub enum Phase {
    /// A new round: the active workspace is being asked for.
    Snapshot,
    /// The active workspace is `baseline`; its windows are being listed.
    Listing { baseline: i32 },
    /// The workspace `baseline` has no window to pick. A watcher waits for
    /// another workspace to become active.
    Empty { baseline: i32 },
    /// An attempt is under way.
    Selecting(Attempt),
    /// The selection is over.
    Done,
}

/// The mathematical value of a [`Phase`].
pub enum PhaseView {
    Snapshot,
    Listing { baseline: int },
    Empty { baseline: int },
    Selecting(AttemptView),
    Done,
}

impl View for Phase {
    type V = PhaseView;

    open spec fn view(&self) -> PhaseView {
        match self {
            Phase::Snapshot => PhaseView::Snapshot,
            Phase::Listing { baseline } => PhaseView::Listing { baseline: *baseline as int },
            Phase::Empty { baseline } => PhaseView::Empty { baseline: *baseline as int },
            Phase::Selecting(attempt) => PhaseView::Selecting(attempt@),
            Phase::Done => PhaseView::Done,
        }
    }
}

/// One decision: where the selection stands afterwards and what the driver
/// is to do.
#[derive(Debug, PartialEq, Eq)]
pub struct Step {
    pub next: Phase,
    /// The watcher lost a race: stop it before carrying out `action`.
    pub stop_watcher: bool,
    pub action: Action,
}

/// The mathematical value of a [`Step`].
pub struct StepView {
    pub next: PhaseView,
    pub stop_watcher: bool,
    pub action: ActionView,
}

impl View for Step {
    type V = StepView;

    open spec fn view(&self) -> StepView {
        StepView { next: self.next@, stop_watcher: self.stop_watcher, action: self.action@ }
    }
}

/// The first decision of every selection, and of every round: ask for the
/// active workspace.
pub open spec fn first_step() -> StepView {
    StepView {
        next: PhaseView::Snapshot,
        stop_watcher: false,
        action: ActionView::QueryWorkspace,
    }
}

/// The selection ends in failure.
pub open spec fn failed(error: ErrorView) -> StepView {
    StepView { next: PhaseView::Done, stop_watcher: false, action: ActionView::Fail(error) }
}

/// What the windows of a snapshot lead to. With none to pick there is
/// nothing to select: a watcher alone waits for the workspace to change. With
/// some, an attempt opens on them.
pub open spec fn after_snapshot(baseline: int, clients: Seq<WindowView>) -> StepView {
    let windows = selectable_windows(clients, baseline);
    if windows.len() == 0 {
        StepView {
            next: PhaseView::Empty { baseline },
            stop_watcher: false,
            action: ActionView::Watch { baseline },
        }
    } else {
        StepView {
            next: PhaseView::Selecting(AttemptView::Starting { baseline }),
            stop_watcher: false,
            action: opening_action(windows),
        }
    }
}

/// How the selection goes on after an event of an attempt. A pick and a
/// dismissal end it, a failure too; a restart opens a new round.
pub open spec fn after_attempt(progress: ProgressView) -> StepView {
    match progress {
        ProgressView::Pending { attempt, stop_watcher, action } => StepView {
            next: PhaseView::Selecting(attempt),
            stop_watcher,
            action,
        },
        ProgressView::Settled { stop_watcher, result } => match result {
            Ok(OutcomeView::Selected(geometry)) => StepView {
                next: PhaseView::Done,
                stop_watcher,
                action: ActionView::Finish(Some(geometry)),
            },
            Ok(OutcomeView::Cancelled) => StepView {
                next: PhaseView::Done,
                stop_watcher,
                action: ActionView::Finish(None),
            },
            Ok(OutcomeView::Restart) => StepView {
                next: PhaseView::Snapshot,
                stop_watcher,
                action: ActionView::QueryWorkspace,
            },
            Err(error) => StepView {
                next: PhaseView::Done,
                stop_watcher,
                action: ActionView::Fail(error),
            },
        },
    }
}

/// The rule of the selection: what each event does in each phase. An event
/// that the phase does not wait for changes nothing.
pub open spec fn next_step(phase: PhaseView, event: EventView) -> StepView {
    match (phase, event) {
        (PhaseView::Snapshot, EventView::Workspace(Ok(workspace))) => StepView {
            next: PhaseView::Listing { baseline: workspace.id },
            stop_watcher: false,
            action: ActionView::ListClients,
        },
        (PhaseView::Snapshot, EventView::Workspace(Err(detail))) => failed(
            ErrorView::Query(detail),
        ),
        (PhaseView::Listing { baseline }, EventView::Clients(Ok(clients))) => after_snapshot(
            baseline,
            clients,
        ),
        (PhaseView::Listing { .. }, EventView::Clients(Err(detail))) => failed(
            ErrorView::Query(detail),
        ),
        (PhaseView::Empty { .. }, EventView::Watcher(Ok(_))) => first_step(),
        (PhaseView::Empty { .. }, EventView::Watcher(Err(detail))) => failed(
            ErrorView::Query(detail),
        ),
        (PhaseView::Selecting(attempt), _) => after_attempt(advanced(attempt, event)),
        _ => StepView { next: phase, stop_watcher: false, action: ActionView::Ignore },
    }
}

/// Begins a selection.
pub fn start() -> (step: Step)
    ensures
        step@ == first_step(),
{
    Step { next: Phase::Snapshot, stop_watcher: false, action: Action::QueryWorkspace }
}

fn fail(error: SelectionError) -> (step: Step)
    ensures
        step@ == failed(error@),
{
    Step { next: Phase::Done, stop_watcher: false, action: Action::Fail(error) }
}

fn snapshot_taken(baseline: i32, clients: Vec<WindowInfo>) -> (step: Step)
    ensures
        step@ == after_snapshot(baseline as int, window_views(clients@)),
{
    let windows = windows_on(clients, baseline);
    if windows.len() == 0 {
        Step { next: Phase::Empty { baseline }, stop_watcher: false, action: Action::Watch { baseline } }
    } else {
        let (attempt, action) = begin(&windows, baseline);
        Step { next: Phase::Selecting(attempt), stop_watcher: false, action }
    }
}

fn attempt_moved(progress: Progress) -> (step: Step)
    ensures
        step@ == after_attempt(progress@),
{
    match progress {
        Progress::Pending { attempt, stop_watcher, action } => Step {
            next: Phase::Selecting(attempt),
            stop_watcher,
            action,
        },
        Progress::Settled { stop_watcher, result } => match result {
            Ok(Outcome::Selected(geometry)) => Step {
                next: Phase::Done,
                stop_watcher,
                action: Action::Finish(Some(geometry)),
            },
            Ok(Outcome::Cancelled) => Step {
                next: Phase::Done,
                stop_watcher,
                action: Action::Finish(None),
            },
            Ok(Outcome::Restart) => Step {
                next: Phase::Snapshot,
                stop_watcher,
                action: Action::QueryWorkspace,
            },
            Err(error) => Step { next: Phase::Done, stop_watcher, action: Action::Fail(error) },
        },
    }
}

/// Takes the selection one event further.
pub fn step(phase: Phase, event: Event) -> (step: Step)
    ensures
        step@ == next_step(phase@, event@),
{
    match (phase, event) {
        (Phase::Snapshot, Event::Workspace(Ok(workspace))) => Step {
            next: Phase::Listing { baseline: workspace.id },
            stop_watcher: false,
            action: Action::ListClients,
        },
        (Phase::Snapshot, Event::Workspace(Err(detail))) => fail(SelectionError::Query(detail)),
        (Phase::Listing { baseline }, Event::Clients(Ok(clients))) => snapshot_taken(
            baseline,
            clients,
        ),
        (Phase::Listing { .. }, Event::Clients(Err(detail))) => fail(SelectionError::Query(detail)),
        (Phase::Empty { .. }, Event::Watcher(Ok(_))) => start(),
        (Phase::Empty { .. }, Event::Watcher(Err(detail))) => fail(SelectionError::Query(detail)),
        (Phase::Selecting(attempt), event) => attempt_moved(advance(attempt, event)),
        (phase, _) => Step { next: phase, stop_watcher: false, action: Action::Ignore },
    }
}

/// The baseline that a phase holds: the workspace that was active when the
/// round began. Between rounds, and once the race of an attempt is decided,
/// there is none.
pub open spec fn baseline_of(phase: PhaseView) -> Option<int> {
    match phase {
        PhaseView::Listing { baseline } => Some(baseline),
        PhaseView::Empty { baseline } => Some(baseline),
        PhaseView::Selecting(AttemptView::Starting { baseline }) => Some(baseline),
        PhaseView::Selecting(AttemptView::Racing { baseline }) => Some(baseline),
        _ => None,
    }
}

/// On a workspace without a window to pick the selector is never started.
/// A watcher alone is set on the workspace, and when it reports a change
/// the selection takes a new snapshot.
pub proof fn lemma_empty_workspace_waits(baseline: int, clients: Seq<WindowView>)
    requires
        selectable_windows(clients, baseline).len() == 0,
    ensures
        next_step(PhaseView::Listing { baseline }, EventView::Clients(Ok(clients))) == (StepView {
            next: PhaseView::Empty { baseline },
            stop_watcher: false,
            action: ActionView::Watch { baseline },
        }),
        next_step(PhaseView::Empty { baseline }, EventView::Watcher(Ok(()))) == first_step(),
{
}

/// The selector is started in one situation only: the windows of the
/// baseline workspace have just been listed and some of them can be picked.
/// Its targets are then exactly those windows.
pub proof fn lemma_selector_needs_windows(phase: PhaseView, event: EventView)
    ensures
        next_step(phase, event).action is StartSelector ==> (phase matches PhaseView::Listing {
            baseline,
        } && (event matches EventView::Clients(Ok(clients)) && selectable_windows(
            clients,
            baseline,
        ).len() > 0 && next_step(phase, event).action == opening_action(
            selectable_windows(clients, baseline),
        ) && next_step(phase, event).next == PhaseView::Selecting(
            AttemptView::Starting { baseline },
        ))),
{
}

/// The baseline of a round is fixed when the round begins and is not
/// changed while the round lasts: where a phase and the phase after it both
/// hold a baseline it is the same one, and every watcher is set on the
/// baseline of the phase that starts it. A new baseline is taken only from
/// the reply that opens a round.
pub proof fn lemma_baseline_is_kept(phase: PhaseView, event: EventView)
    ensures
        baseline_of(phase) is Some && baseline_of(next_step(phase, event).next) is Some
            ==> baseline_of(next_step(phase, event).next) == baseline_of(phase),
        next_step(phase, event).action matches ActionView::Watch { baseline } ==> baseline_of(phase)
            == Some(baseline) && baseline_of(next_step(phase, event).next) == Some(baseline),
        next_step(phase, event).action matches ActionView::Race { baseline } ==> baseline_of(phase)
            == Some(baseline) && baseline_of(next_step(phase, event).next) == Some(baseline),
        baseline_of(phase) is None && baseline_of(next_step(phase, event).next) is Some ==> (
        phase is Snapshot && (event matches EventView::Workspace(Ok(workspace)) && baseline_of(
            next_step(phase, event).next,
        ) == Some(workspace.id))),
{
}

/// The selection ends only with a result: the phase becomes `Done` exactly
/// in the step that hands out a geometry, reports a dismissal or reports a
/// failure. A restart ends nothing. And what is done stays done.
pub proof fn lemma_only_a_result_ends_the_selection(phase: PhaseView, event: EventView)
    ensures
        !(phase is Done) ==> (next_step(phase, event).next is Done <==> (next_step(
            phase,
            event,
        ).action is Finish || next_step(phase, event).action is Fail)),
        phase is Done ==> next_step(phase, event) == (StepView {
            next: PhaseView::Done,
            stop_watcher: false,
            action: ActionView::Ignore,
        }),
{
}

/// Whether a watcher runs while the selection is in this phase: alone on a
/// workspace without windows, or beside the selector in a race.
pub open spec fn watcher_runs(phase: PhaseView) -> bool {
    match phase {
        PhaseView::Empty { .. } => true,
        PhaseView::Selecting(AttemptView::Racing { .. }) => true,
        _ => false,
    }
}

/// Whether the selector process runs while the selection is in this phase:
/// from the moment it is reported started until it has finished or has been
/// told to end and the report of that has come.
pub open spec fn selector_runs(phase: PhaseView) -> bool {
    match phase {
        PhaseView::Selecting(AttemptView::Racing { .. }) => true,
        PhaseView::Selecting(AttemptView::Terminating) => true,
        _ => false,
    }
}

/// Whether an action starts a watcher.
pub open spec fn starts_watcher(action: ActionView) -> bool {
    action is Watch || action is Race
}

/// There is never more than one watcher, and none is left behind. A watcher
/// is started exactly in the steps that lead from a phase without one into
/// a phase with one. A phase with a watcher is left only when the watcher
/// itself has finished or in a step that stops it, and a watcher is stopped
/// only in such a step.
pub proof fn lemma_one_watcher_at_a_time(phase: PhaseView, event: EventView)
    ensures
        starts_watcher(next_step(phase, event).action) <==> !watcher_runs(phase) && watcher_runs(
            next_step(phase, event).next,
        ),
        watcher_runs(phase) && !watcher_runs(next_step(phase, event).next) ==> event is Watcher
            || next_step(phase, event).stop_watcher,
        next_step(phase, event).stop_watcher ==> watcher_runs(phase) && !watcher_runs(
            next_step(phase, event).next,
        ) && event is Selector,
{
}

/// The selector is never left running. It is started only by the action
/// that starts it, and a phase in which it runs is left only when the
/// selector itself has finished, or after it has been told to end: the
/// selection asks for that in the very step in which the watcher wins the
/// race, and goes on only when the report has come.
pub proof fn lemma_selector_is_never_left_running(phase: PhaseView, event: EventView)
    ensures
        !selector_runs(phase) && selector_runs(next_step(phase, event).next) ==> (
        phase matches PhaseView::Selecting(AttemptView::Starting { .. })) && (
        event matches EventView::Spawned(Ok(_))),
        selector_runs(phase) && !selector_runs(next_step(phase, event).next) ==> event is Selector
            || (phase == PhaseView::Selecting(AttemptView::Terminating) && event is Terminated),
        next_step(phase, event).action is TerminateSelector <==> phase != PhaseView::Selecting(
            AttemptView::Terminating,
        ) && next_step(phase, event).next == PhaseView::Selecting(AttemptView::Terminating),
        next_step(phase, event).action is TerminateSelector ==> (
        phase matches PhaseView::Selecting(AttemptView::Racing { .. })) && event is Watcher,
{
}

/// A workspace change during a race leads through the end of the selector
/// to a new round, whether or not the termination signal could be
/// delivered, and never to a failure.
pub proof fn lemma_workspace_change_restarts(
    baseline: int,
    finished: Result<(), Seq<char>>,
    delivered: bool,
)
    ensures
        next_step(
            PhaseView::Selecting(AttemptView::Racing { baseline }),
            EventView::Watcher(finished),
        ) == (StepView {
            next: PhaseView::Selecting(AttemptView::Terminating),
            stop_watcher: false,
            action: ActionView::TerminateSelector,
        }),
        next_step(PhaseView::Selecting(AttemptView::Terminating), EventView::Terminated(delivered))
            == first_step(),
{
}

/// A window is captured where it is when it has been picked, not where it
/// was when it was offered. Whatever the snapshot held, once the selector
/// has named an address the geometry that is handed out is the one that the
/// first window with that address has in the list taken after the pick.
pub proof fn lemma_moved_window_is_captured_where_it_is(
    baseline: int,
    snapshot: Seq<WindowView>,
    exit: SelectorExitView,
    address: Seq<char>,
    live: Seq<WindowView>,
    place: int,
)
    requires
        selectable_windows(snapshot, baseline).len() > 0,
        exit.success,
        selection_text(exit.output) == Some(address),
        first_with_address(live, address, place),
    ensures
        ({
            let offered = next_step(
                PhaseView::Listing { baseline },
                EventView::Clients(Ok(snapshot)),
            );
            let racing = next_step(offered.next, EventView::Spawned(Ok(())));
            let picked = next_step(racing.next, EventView::Selector(Ok(exit)));
            let done = next_step(picked.next, EventView::Clients(Ok(live)));
            &&& picked.action == ActionView::ListClients
            &&& done.next == PhaseView::Done
            &&& done.action == ActionView::Finish(Some(window_geometry(live[place])))
        }),
{
    lemma_current_geometry_at_first(live, address, place);
}

} // verus!
