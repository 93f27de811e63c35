//! Watching for a change of the active workspace. The compositor can only be
//! asked, so the watcher asks again and again, with a pause before each
//! question, until the answer differs from the workspace it started on.

use vstd::prelude::*;
use crate::model::{WorkspaceRef, WorkspaceView};

verus! {

/// The pause before each question, in milliseconds.
pub const POLL_INTERVAL_MS: u64 = 200;

/// What happened to the watcher's driver.
#[derive(Debug, PartialEq, Eq)]
pub enum WatchEvent {
    /// The watch has just begun.
    Started,
    /// The pause is over.
    Woke,
    /// The compositor was asked for the active workspace and this came back.
    Polled(Result<WorkspaceRef, String>),
}

/// The mathematical value of a [`WatchEvent`].
pub enum WatchEventView {
    Started,
    Woke,
    Polled(Result<WorkspaceView, Seq<char>>),
}

impl View for WatchEvent {
    type V = WatchEventView;

    open spec fn view(&self) -> WatchEventView {
        match self {
            WatchEvent::Started => WatchEventView::Started,
            WatchEvent::Woke => WatchEventView::Woke,
            WatchEvent::Polled(Ok(workspace)) => WatchEventView::Polled(Ok(workspace@)),
            WatchEvent::Polled(Err(detail)) => WatchEventView::Polled(Err(detail@)),
        }
    }
}

/// What the watcher's driver does next.
#[derive(Debug, Clone, Copy, PartialEq, Eq, Structural)]
pub enum WatchAction {
    /// Pause for so many milliseconds, then report [`WatchEvent::Woke`].
    Sleep(u64),
    /// Ask for the active workspace and report [`WatchEvent::Polled`].
    QueryWorkspace,
    /// The active workspace is no longer the baseline: the watch is over.
    Finish,
}

/// A reply shows a change when it names a workspace other than the baseline.
/// A failed question shows nothing.
pub open spec fn shows_change(baseline: int, reply: Result<WorkspaceView, Seq<char>>) -> bool {
    match reply {
        Ok(workspace) => workspace.id != baseline,
        Err(_) => false,
    }
}

/// The watcher's rule: pause, ask, and stop only when the reply shows a
/// change; after any other reply pause again.
pub open spec fn watch_next(baseline: int, event: WatchEventView) -> WatchAction {
    match event {
        WatchEventView::Started => WatchAction::Sleep(POLL_INTERVAL_MS),
        WatchEventView::Woke => WatchAction::QueryWorkspace,
        WatchEventView::Polled(reply) => if shows_change(baseline, reply) {
            WatchAction::Finish
        } else {
            WatchAction::Sleep(POLL_INTERVAL_MS)
        },
    }
}

/// A watch on one workspace. The workspace is fixed when the watch is made
/// and nothing can change it afterwards: a new round of a selection makes a
/// new watcher.
#[derive(Debug)]
pub struct Watcher {
    baseline: i32,
}

impl View for Watcher {
    type V = int;

    /// The id of the workspace that is watched.
    closed spec fn view(&self) -> int {
        self.baseline as int
    }
}

impl Watcher {
    /// A watch on the workspace with the id `baseline`.
    pub fn new(baseline: i32) -> (watcher: Watcher)
        ensures
            watcher@ == baseline,
    {
        Watcher { baseline }
    }

    /// The id of the workspace that is watched.
    pub fn baseline(&self) -> (baseline: i32)
        ensures
            baseline == self@,
    {
        self.baseline
    }

    /// What to do after `event`.
    pub fn step(&self, event: &WatchEvent) -> (action: WatchAction)
        ensures
            action == watch_next(self@, event@),
    {
        match event {
            WatchEvent::Started => WatchAction::Sleep(POLL_INTERVAL_MS),
            WatchEvent::Woke => WatchAction::QueryWorkspace,
            WatchEvent::Polled(Ok(workspace)) => {
                if workspace.id != self.baseline {
                    WatchAction::Finish
                } else {
                    WatchAction::Sleep(POLL_INTERVAL_MS)
                }
            },
            WatchEvent::Polled(Err(_)) => WatchAction::Sleep(POLL_INTERVAL_MS),
        }
    }
}

/// The watch ends on one kind of event only: a reply that names another
/// workspace than the baseline. In particular a failed question never ends
/// it, and never surfaces.
pub proof fn lemma_watch_ends_only_on_change(baseline: int, event: WatchEventView)
    ensures
        watch_next(baseline, event) == WatchAction::Finish <==> (event matches WatchEventView::Polled(
            Ok(workspace),
        ) && workspace.id != baseline),
{
}

} // verus!
