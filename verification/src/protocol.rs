//! The words in which the library and its driver talk. The library decides;
//! the driver, which owns the processes and the clock, carries out one
//! [`Action`] at a time and reports what came of it as an [`Event`].

use vstd::prelude::*;
use crate::error::{ErrorView, SelectionError};
use crate::model::{window_views, WindowInfo, WindowView, WorkspaceRef, WorkspaceView};

verus! {

/// How the selector process ended.
#[derive(Debug, PartialEq, Eq)]
pub struct SelectorExit {
    /// Whether it exited with success. Any other exit means that the user
    /// dismissed the selection.
    pub success: bool,
    /// Everything it wrote to its standard output.
    pub output: Vec<u8>,
}

/// The mathematical value of a [`SelectorExit`].
pub struct SelectorExitView {
    pub success: bool,
    pub output: Seq<u8>,
}

impl View for SelectorExit {
    type V = SelectorExitView;

    open spec fn view(&self) -> SelectorExitView {
        SelectorExitView { success: self.success, output: self.output@ }
    }
}

/// What the driver reports. A failure comes with the driver's account of it.
#[derive(Debug, PartialEq, Eq)]
pub enum Event {
    /// The reply to [`Action::QueryWorkspace`].
    Workspace(Result<WorkspaceRef, String>),
    /// The reply to [`Action::ListClients`]: every client on every workspace,
    /// in the compositor's order.
    Clients(Result<Vec<WindowInfo>, String>),
    /// The watcher finished: it saw the active workspace change, or it broke.
    Watcher(Result<(), String>),
    /// The reply to [`Action::StartSelector`]: the selector runs and has its
    /// targets, or it could not be started or fed.
    Spawned(Result<(), String>),
    /// The selector finished, or waiting for it failed.
    Selector(Result<SelectorExit, String>),
    /// The reply to [`Action::TerminateSelector`]: whether the signal could
    /// be delivered.
    Terminated(bool),
}

/// The mathematical value of an [`Event`].
pub enum EventView {
    Workspace(Result<WorkspaceView, Seq<char>>),
    Clients(Result<Seq<WindowView>, Seq<char>>),
    Watcher(Result<(), Seq<char>>),
    Spawned(Result<(), Seq<char>>),
    Selector(Result<SelectorExitView, Seq<char>>),
    Terminated(bool),
}

impl View for Event {
    type V = EventView;

    open spec fn view(&self) -> EventView {
        match self {
            Event::Workspace(Ok(workspace)) => EventView::Workspace(Ok(workspace@)),
            Event::Workspace(Err(detail)) => EventView::Workspace(Err(detail@)),
            Event::Clients(Ok(clients)) => EventView::Clients(Ok(window_views(clients@))),
            Event::Clients(Err(detail)) => EventView::Clients(Err(detail@)),
            Event::Watcher(Ok(_)) => EventView::Watcher(Ok(())),
            Event::Watcher(Err(detail)) => EventView::Watcher(Err(detail@)),
            Event::Spawned(Ok(_)) => EventView::Spawned(Ok(())),
            Event::Spawned(Err(detail)) => EventView::Spawned(Err(detail@)),
            Event::Selector(Ok(exit)) => EventView::Selector(Ok(exit@)),
            Event::Selector(Err(detail)) => EventView::Selector(Err(detail@)),
            Event::Terminated(delivered) => EventView::Terminated(*delivered),
        }
    }
}

/// What the driver is asked to do next.
#[derive(Debug, PartialEq, Eq)]
pub enum Action {
    /// Ask the compositor for the active workspace; report
    /// [`Event::Workspace`].
    QueryWorkspace,
    /// Ask the compositor for all clients; report [`Event::Clients`].
    ListClients,
    /// Run a watcher on `baseline` and wait for it; report
    /// [`Event::Watcher`].
    Watch { baseline: i32 },
    /// Start the selector and write `targets` to its standard input; report
    /// [`Event::Spawned`].
    StartSelector { targets: String },
    /// Start a watcher on `baseline` beside the selector and wait for the
    /// first of the two to finish; report it, as [`Event::Selector`] or
    /// [`Event::Watcher`].
    Race { baseline: i32 },
    /// Send the selector process a termination signal; report
    /// [`Event::Terminated`].
    TerminateSelector,
    /// The selection is over: hand out the geometry, or `None` where the
    /// user dismissed the selection.
    Finish(Option<String>),
    /// The selection failed.
    Fail(SelectionError),
    /// The event was not waited for and changes nothing: go on waiting for
    /// the report that is outstanding.
    Ignore,
}

/// The mathematical value of an [`Action`].
pub enum ActionView {
    QueryWorkspace,
    ListClients,
    Watch { baseline: int },
    StartSelector { targets: Seq<char> },
    Race { baseline: int },
    TerminateSelector,
    Finish(Option<Seq<char>>),
    Fail(ErrorView),
    Ignore,
}

impl View for Action {
    type V = ActionView;

    open spec fn view(&self) -> ActionView {
        match self {
            Action::QueryWorkspace => ActionView::QueryWorkspace,
            Action::ListClients => ActionView::ListClients,
            Action::Watch { baseline } => ActionView::Watch { baseline: *baseline as int },
            Action::StartSelector { targets } => ActionView::StartSelector { targets: targets@ },
            Action::Race { baseline } => ActionView::Race { baseline: *baseline as int },
            Action::TerminateSelector => ActionView::TerminateSelector,
            Action::Finish(Some(geometry)) => ActionView::Finish(Some(geometry@)),
            Action::Finish(None) => ActionView::Finish(None),
            Action::Fail(error) => ActionView::Fail(error@),
            Action::Ignore => ActionView::Ignore,
        }
    }
}

} // verus!
