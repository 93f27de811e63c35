//! One attempt at letting the user pick a window: the selector is started
//! with the windows of the moment as its targets, then a watcher is started
//! beside it, and the first of the two to finish decides. The other one is
//! stopped.

use vstd::prelude::*;
use crate::compositor::{current_geometry, resolve_current_geometry, window_geometry};
use crate::error::{ErrorView, SelectionError};
use crate::geometry::push_geometry;
use crate::model::{window_views, WindowInfo, WindowView};
use crate::protocol::{Action, ActionView, Event, EventView, SelectorExit, SelectorExitView};
use crate::text::{read_selection, selection_text};

verus! {

/// The line that offers one window to the selector: its geometry, a space,
/// and its address, which the selector prints back when the window is picked.
pub open spec fn target_line(window: WindowView) -> Seq<char> {
    window_geometry(window) + seq![' '] + window.address
}

/// What the selector reads: one line for each window, in the windows' order,
/// with a line feed between two lines and none after the last.
pub open spec fn selector_input(windows: Seq<WindowView>) -> Seq<char>
    decreases windows.len(),
{
    if windows.len() == 0 {
        Seq::empty()
    } else {
        let earlier = windows.drop_last();
        let gap = if earlier.len() == 0 {
            Seq::<char>::empty()
        } else {
            seq!['\n']
        };
        selector_input(earlier) + gap + target_line(windows.last())
    }
}

/// Writes the targets for the selector.
pub fn write_targets(windows: &Vec<WindowInfo>) -> (targets: String)
    ensures
        targets@ == selector_input(window_views(windows@)),
{
    let ghost all = window_views(windows@);
    let mut targets = String::new();
    let mut index: usize = 0;
    assert(targets@ =~= selector_input(all.take(0)));
    while index < windows.len()
        invariant
            index <= windows.len(),
            all == window_views(windows@),
            targets@ == selector_input(all.take(index as int)),
        decreases windows.len() - index,
    {
        let ghost before = targets@;
        let window = &windows[index];
        if index > 0 {
            targets.append("\n");
        }
        push_geometry(&mut targets, window.x, window.y, window.width, window.height);
        targets.append(" ");
        targets.append(window.address.as_str());
        proof {
            reveal_strlit("\n");
            reveal_strlit(" ");
            let upto = all.take(index + 1);
            let gap = if index == 0 {
                Seq::<char>::empty()
            } else {
                seq!['\n']
            };
            assert(upto.drop_last() =~= all.take(index as int));
            assert(upto.last() == window@);
            assert(targets@ =~= before + gap + target_line(window@));
            assert(selector_input(upto) == selector_input(upto.drop_last()) + gap + target_line(
                upto.last(),
            ));
        }
        index += 1;
    }
    assert(all.take(all.len() as int) =~= all);
    targets
}

/// What a selector that ran alone, to let the user draw a region, has to
/// say: the geometry it printed, or nothing where the user dismissed it.
pub open spec fn region_result(exit: SelectorExitView) -> Result<Option<Seq<char>>, ErrorView> {
    if !exit.success {
        Ok(None)
    } else {
        match selection_text(exit.output) {
            Some(geometry) => Ok(Some(geometry)),
            None => Err(ErrorView::Decode),
        }
    }
}

/// The mathematical value of what [`region_selection`] returns.
pub open spec fn region_view(selection: Result<Option<String>, SelectionError>) -> Result<
    Option<Seq<char>>,
    ErrorView,
> {
    match selection {
        Ok(Some(geometry)) => Ok(Some(geometry@)),
        Ok(None) => Ok(None),
        Err(error) => Err(error@),
    }
}

/// Reads the end of a selector that ran alone.
pub fn region_selection(exit: SelectorExit) -> (selection: Result<Option<String>, SelectionError>)
    ensures
        region_view(selection) == region_result(exit@),
{
    if !exit.success {
        Ok(None)
    } else {
        match read_selection(exit.output) {
            Ok(geometry) => Ok(Some(geometry)),
            Err(error) => Err(error),
        }
    }
}

/// How an attempt ended.
#[derive(Debug, PartialEq, Eq)]
pub enum Outcome {
    /// The user picked a window; this is its geometry as it stood after the
    /// pick.
    Selected(String),
    /// The user dismissed the selector.
    Cancelled,
    /// The active workspace changed while the selector was open. The targets
    /// are out of date and the selection has to start over.
    Restart,
}

/// The mathematical value of an [`Outcome`].
pub enum OutcomeView {
    Selected(Seq<char>),
    Cancelled,
    Restart,
}

impl View for Outcome {
    type V = OutcomeView;

    open spec fn view(&self) -> OutcomeView {
        match self {
            Outcome::Selected(geometry) => OutcomeView::Selected(geometry@),
            Outcome::Cancelled => OutcomeView::Cancelled,
            Outcome::Restart => OutcomeView::Restart,
        }
    }
}

/// Where an attempt stands.
#[derive(Debug, PartialEq, Eq)]
pub enum Attempt {
    /// The selector is being started and fed its targets. No watcher runs
    /// yet.
    Starting { baseline: i32 },
    /// The selector and a watcher on `baseline` are running.
    Racing { baseline: i32 },
    /// The watcher won. The selector has been told to end and the report of
    /// that is awaited.
    Terminating,
    /// The selector won and named the window with this address. The clients
    /// are being listed anew to see where that window is now.
    Resolving { address: String },
}

/// The mathematical value of an [`Attempt`].
pub enum AttemptView {
    Starting { baseline: int },
    Racing { baseline: int },
    Terminating,
    Resolving { address: Seq<char> },
}

impl View for Attempt {
    type V = AttemptView;

    open spec fn view(&self) -> AttemptView {
        match self {
            Attempt::Starting { baseline } => AttemptView::Starting { baseline: *baseline as int },
            Attempt::Racing { baseline } => AttemptView::Racing { baseline: *baseline as int },
            Attempt::Terminating => AttemptView::Terminating,
            Attempt::Resolving { address } => AttemptView::Resolving { address: address@ },
        }
    }
}

/// What one event does to an attempt.
#[derive(Debug, PartialEq, Eq)]
pub enum Progress {
    /// The attempt goes on.
    Pending {
        attempt: Attempt,
        /// The watcher lost the race: stop it before anything else.
        stop_watcher: bool,
        action: Action,
    },
    /// The attempt is over.
    Settled {
        /// The watcher lost the race: stop it before anything else.
        stop_watcher: bool,
        result: Result<Outcome, SelectionError>,
    },
}

/// The mathematical value of a [`Progress`].
pub enum ProgressView {
    Pending { attempt: AttemptView, stop_watcher: bool, action: ActionView },
    Settled { stop_watcher: bool, result: Result<OutcomeView, ErrorView> },
}

impl View for Progress {
    type V = ProgressView;

    open spec fn view(&self) -> ProgressView {
        match self {
            Progress::Pending { attempt, stop_watcher, action } => ProgressView::Pending {
                attempt: attempt@,
                stop_watcher: *stop_watcher,
                action: action@,
            },
            Progress::Settled { stop_watcher, result: Ok(outcome) } => ProgressView::Settled {
                stop_watcher: *stop_watcher,
                result: Ok(outcome@),
            },
            Progress::Settled { stop_watcher, result: Err(error) } => ProgressView::Settled {
                stop_watcher: *stop_watcher,
                result: Err(error@),
            },
        }
    }
}

/// The action that opens an attempt on the windows `windows`.
pub open spec fn opening_action(windows: Seq<WindowView>) -> ActionView {
    ActionView::StartSelector { targets: selector_input(windows) }
}

/// Opens an attempt on the windows of the workspace `baseline`, of which
/// there is at least one: the selector is to be started with them as its
/// targets.
pub fn begin(windows: &Vec<WindowInfo>, baseline: i32) -> (opening: (Attempt, Action))
    requires
        windows@.len() > 0,
    ensures
        opening.0@ == (AttemptView::Starting { baseline: baseline as int }),
        opening.1@ == opening_action(window_views(windows@)),
{
    (Attempt::Starting { baseline }, Action::StartSelector { targets: write_targets(windows) })
}

/// The event changes nothing.
pub open spec fn unmoved(attempt: AttemptView) -> ProgressView {
    ProgressView::Pending { attempt, stop_watcher: false, action: ActionView::Ignore }
}

/// What the selector's end means while the race is on. The watcher has lost
/// and is stopped whatever the selector says. An unsuccessful exit is the
/// user's way of cancelling. A successful one names a window by its address,
/// and the clients are listed anew to find it.
pub open spec fn selector_won(finished: Result<SelectorExitView, Seq<char>>) -> ProgressView {
    match finished {
        Err(detail) => ProgressView::Settled {
            stop_watcher: true,
            result: Err(ErrorView::Spawn(detail)),
        },
        Ok(exit) => if !exit.success {
            ProgressView::Settled { stop_watcher: true, result: Ok(OutcomeView::Cancelled) }
        } else {
            match selection_text(exit.output) {
                Some(address) => ProgressView::Pending {
                    attempt: AttemptView::Resolving { address },
                    stop_watcher: true,
                    action: ActionView::ListClients,
                },
                None => ProgressView::Settled {
                    stop_watcher: true,
                    result: Err(ErrorView::Decode),
                },
            }
        },
    }
}

/// What a fresh list of clients means for the window that was picked: its
/// geometry as the list has it, or a failure where the list does not have
/// the window.
pub open spec fn resolved(address: Seq<char>, listed: Result<Seq<WindowView>, Seq<char>>) -> ProgressView {
    ProgressView::Settled {
        stop_watcher: false,
        result: match listed {
            Err(detail) => Err(ErrorView::Query(detail)),
            Ok(clients) => match current_geometry(clients, address) {
                Some(geometry) => Ok(OutcomeView::Selected(geometry)),
                None => Err(ErrorView::Resolution(address)),
            },
        },
    }
}

/// The rule of an attempt: what each event does in each state. An event
/// that the state does not wait for changes nothing.
pub open spec fn advanced(attempt: AttemptView, event: EventView) -> ProgressView {
    match (attempt, event) {
        (AttemptView::Starting { baseline }, EventView::Spawned(Ok(_))) => ProgressView::Pending {
            attempt: AttemptView::Racing { baseline },
            stop_watcher: false,
            action: ActionView::Race { baseline },
        },
        (AttemptView::Starting { .. }, EventView::Spawned(Err(detail))) => ProgressView::Settled {
            stop_watcher: false,
            result: Err(ErrorView::Spawn(detail)),
        },
        (AttemptView::Racing { .. }, EventView::Selector(finished)) => selector_won(finished),
        (AttemptView::Racing { .. }, EventView::Watcher(_)) => ProgressView::Pending {
            attempt: AttemptView::Terminating,
            stop_watcher: false,
            action: ActionView::TerminateSelector,
        },
        (AttemptView::Terminating, EventView::Terminated(_)) => ProgressView::Settled {
            stop_watcher: false,
            result: Ok(OutcomeView::Restart),
        },
        (AttemptView::Resolving { address }, EventView::Clients(listed)) => resolved(
            address,
            listed,
        ),
        _ => unmoved(attempt),
    }
}

/// Takes an attempt one event further.
pub fn advance(attempt: Attempt, event: Event) -> (progress: Progress)
    ensures
        progress@ == advanced(attempt@, event@),
{
    match (attempt, event) {
        (Attempt::Starting { baseline }, Event::Spawned(Ok(_))) => Progress::Pending {
            attempt: Attempt::Racing { baseline },
            stop_watcher: false,
            action: Action::Race { baseline },
        },
        (Attempt::Starting { .. }, Event::Spawned(Err(detail))) => Progress::Settled {
            stop_watcher: false,
            result: Err(SelectionError::Spawn(detail)),
        },
        (Attempt::Racing { .. }, Event::Selector(Err(detail))) => Progress::Settled {
            stop_watcher: true,
            result: Err(SelectionError::Spawn(detail)),
        },
        (Attempt::Racing { .. }, Event::Selector(Ok(exit))) => {
            if !exit.success {
                Progress::Settled { stop_watcher: true, result: Ok(Outcome::Cancelled) }
            } else {
                match read_selection(exit.output) {
                    Ok(address) => Progress::Pending {
                        attempt: Attempt::Resolving { address },
                        stop_watcher: true,
                        action: Action::ListClients,
                    },
                    Err(error) => Progress::Settled { stop_watcher: true, result: Err(error) },
                }
            }
        },
        (Attempt::Racing { .. }, Event::Watcher(_)) => Progress::Pending {
            attempt: Attempt::Terminating,
            stop_watcher: false,
            action: Action::TerminateSelector,
        },
        (Attempt::Terminating, Event::Terminated(_)) => Progress::Settled {
            stop_watcher: false,
            result: Ok(Outcome::Restart),
        },
        (Attempt::Resolving { address }, Event::Clients(Err(detail))) => Progress::Settled {
            stop_watcher: false,
            result: Err(SelectionError::Query(detail)),
        },
        (Attempt::Resolving { address }, Event::Clients(Ok(clients))) => {
            match resolve_current_geometry(&clients, address.as_str()) {
                Ok(geometry) => Progress::Settled {
                    stop_watcher: false,
                    result: Ok(Outcome::Selected(geometry)),
                },
                Err(error) => Progress::Settled { stop_watcher: false, result: Err(error) },
            }
        },
        (attempt, _) => Progress::Pending { attempt, stop_watcher: false, action: Action::Ignore },
    }
}

/// Whether a progress tells the driver to stop the watcher.
pub open spec fn stops_watcher(progress: ProgressView) -> bool {
    match progress {
        ProgressView::Pending { stop_watcher, .. } => stop_watcher,
        ProgressView::Settled { stop_watcher, .. } => stop_watcher,
    }
}

/// Whether a progress tells the driver to end the selector process.
pub open spec fn terminates_selector(progress: ProgressView) -> bool {
    progress matches ProgressView::Pending { action: ActionView::TerminateSelector, .. }
}

/// A race has one winner, and the loser is stopped. When the selector
/// finishes first the watcher is stopped, whatever the selector says. When
/// the watcher finishes first, for whatever reason, the selector is told to
/// end, and the attempt waits for the report of that before it settles.
/// Either way the race is over: the attempt is racing no longer.
pub proof fn lemma_race_stops_the_loser(baseline: int, event: EventView)
    requires
        event is Selector || event is Watcher,
    ensures
        event is Selector ==> stops_watcher(advanced(AttemptView::Racing { baseline }, event))
            && !terminates_selector(advanced(AttemptView::Racing { baseline }, event)),
        event is Watcher ==> advanced(AttemptView::Racing { baseline }, event)
            == (ProgressView::Pending {
            attempt: AttemptView::Terminating,
            stop_watcher: false,
            action: ActionView::TerminateSelector,
        }),
        !(advanced(AttemptView::Racing { baseline }, event) matches ProgressView::Pending {
            attempt: AttemptView::Racing { .. },
            ..
        }),
{
}

/// Each way in which an attempt can end has one origin. A restart comes
/// only from the report that follows the request to end the selector. A
/// dismissal comes only from a selector that lost no race and exited without
/// success, and the watcher is stopped with it. A pick comes only from a
/// fresh list of clients that holds the picked address, and carries the
/// geometry which that list has for it.
pub proof fn lemma_outcome_origins(attempt: AttemptView, event: EventView)
    ensures
        advanced(attempt, event) matches ProgressView::Settled { result: Ok(OutcomeView::Restart), .. }
            ==> attempt is Terminating && event is Terminated,
        advanced(attempt, event) matches ProgressView::Settled {
            stop_watcher,
            result: Ok(OutcomeView::Cancelled),
        } ==> stop_watcher && attempt is Racing && (event matches EventView::Selector(Ok(exit))
            && !exit.success),
        advanced(attempt, event) matches ProgressView::Settled {
            result: Ok(OutcomeView::Selected(geometry)),
            ..
        } ==> (attempt matches AttemptView::Resolving { address } && (
        event matches EventView::Clients(Ok(clients)) && current_geometry(clients, address) == Some(
            geometry,
        ))),
{
}

/// The race begins only once the selector is reported to run and to have
/// its targets: the watcher is started after the selector, never before,
/// and on the baseline that the attempt was opened with.
pub proof fn lemma_watcher_starts_after_selector(attempt: AttemptView, event: EventView)
    ensures
        advanced(attempt, event) matches ProgressView::Pending {
            action: ActionView::Race { baseline },
            attempt: racing,
            ..
        } ==> attempt == (AttemptView::Starting { baseline }) && racing == (AttemptView::Racing {
            baseline,
        }) && (event matches EventView::Spawned(Ok(_))),
        advanced(attempt, event) matches ProgressView::Pending {
            attempt: AttemptView::Racing { baseline },
            action,
            ..
        } ==> (attempt == (AttemptView::Racing { baseline }) && action == ActionView::Ignore) || (
        attempt == (AttemptView::Starting { baseline }) && action == (ActionView::Race {
            baseline,
        })),
{
}

/// The two states that follow a race are entered from the race alone. The
/// attempt waits for the selector's end only after it asked for it, and it
/// looks for a picked window only after a selector that exited with success
/// printed the window's address, with the watcher stopped in the same step.
pub proof fn lemma_race_decides_what_follows(attempt: AttemptView, event: EventView)
    ensures
        advanced(attempt, event) matches ProgressView::Pending {
            attempt: AttemptView::Terminating,
            ..
        } ==> attempt is Terminating || (attempt is Racing && event is Watcher
            && terminates_selector(advanced(attempt, event))),
        advanced(attempt, event) matches ProgressView::Pending {
            attempt: AttemptView::Resolving { address },
            stop_watcher,
            action,
        } ==> attempt is Resolving || (stop_watcher && action == ActionView::ListClients
            && attempt is Racing && (event matches EventView::Selector(Ok(exit)) && exit.success
            && selection_text(exit.output) == Some(address))),
{
}

/// Once the race is decided it is not looked at again: a late word from the
/// selector or the watcher changes nothing.
pub proof fn lemma_loser_is_not_heard(attempt: AttemptView, event: EventView)
    requires
        attempt is Terminating || attempt is Resolving,
        event is Selector || event is Watcher || event is Spawned,
    ensures
        advanced(attempt, event) == unmoved(attempt),
{
}

/// Whether the termination signal reached the selector or not makes no
/// difference: the attempt settles with a restart, never with a failure. So
/// ending a selector that is already gone is harmless.
pub proof fn lemma_termination_never_fails(delivered: bool)
    ensures
        advanced(AttemptView::Terminating, EventView::Terminated(delivered))
            == (ProgressView::Settled { stop_watcher: false, result: Ok(OutcomeView::Restart) }),
{
}

/// The geometry of a pick is read from the clients as they are listed after
/// the pick. Nothing that was known of the window before, such as the place
/// it had when the targets were written, takes part: the attempt keeps only
/// the address.
pub proof fn lemma_pick_uses_live_geometry(
    baseline: int,
    exit: SelectorExitView,
    address: Seq<char>,
    live: Seq<WindowView>,
)
    requires
        exit.success,
        selection_text(exit.output) == Some(address),
    ensures
        advanced(AttemptView::Racing { baseline }, EventView::Selector(Ok(exit)))
            == (ProgressView::Pending {
            attempt: AttemptView::Resolving { address },
            stop_watcher: true,
            action: ActionView::ListClients,
        }),
        advanced(AttemptView::Resolving { address }, EventView::Clients(Ok(live)))
            == (ProgressView::Settled {
            stop_watcher: false,
            result: match current_geometry(live, address) {
                Some(geometry) => Ok(OutcomeView::Selected(geometry)),
                None => Err(ErrorView::Resolution(address)),
            },
        }),
{
}

} // verus!
