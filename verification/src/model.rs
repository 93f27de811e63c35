//! What the compositor reports: workspaces, client windows, monitors and the
//! pointer. All of it is a snapshot taken by one query and never stored.

use vstd::prelude::*;
use vstd::std_specs::cmp::PartialEqSpecImpl;

verus! {

/// A workspace, as the compositor names it.
#[derive(Debug)]
pub struct WorkspaceRef {
    pub id: i32,
    pub name: String,
}

/// The mathematical value of a [`WorkspaceRef`].
pub struct WorkspaceView {
    pub id: int,
    pub name: Seq<char>,
}

impl View for WorkspaceRef {
    type V = WorkspaceView;

    open spec fn view(&self) -> WorkspaceView {
        WorkspaceView { id: self.id as int, name: self.name@ }
    }
}

impl Clone for WorkspaceRef {
    fn clone(&self) -> (copy: Self)
        ensures
            copy@ == self@,
    {
        WorkspaceRef { id: self.id, name: self.name.clone() }
    }
}

/// Two workspace references are equal when they carry the same id; the name
/// is a label and does not take part.
impl PartialEq for WorkspaceRef {
    fn eq(&self, other: &Self) -> (same: bool) {
        self.id == other.id
    }
}

impl Eq for WorkspaceRef {}

impl PartialEqSpecImpl for WorkspaceRef {
    open spec fn obeys_eq_spec() -> bool {
        true
    }

    open spec fn eq_spec(&self, other: &Self) -> bool {
        self.id == other.id
    }
}

/// One client window.
#[derive(Debug, PartialEq, Eq)]
pub struct WindowInfo {
    /// The handle by which the compositor knows the window.
    pub address: String,
    /// The top left corner.
    pub x: i32,
    pub y: i32,
    pub width: i32,
    pub height: i32,
    pub workspace: WorkspaceRef,
    pub hidden: bool,
}

impl Clone for WindowInfo {
    fn clone(&self) -> (copy: Self)
        ensures
            copy@ == self@,
    {
        WindowInfo {
            address: self.address.clone(),
            x: self.x,
            y: self.y,
            width: self.width,
            height: self.height,
            workspace: self.workspace.clone(),
            hidden: self.hidden,
        }
    }
}

/// The mathematical value of a [`WindowInfo`].
pub struct WindowView {
    pub address: Seq<char>,
    pub x: int,
    pub y: int,
    pub width: int,
    pub height: int,
    pub workspace: WorkspaceView,
    pub hidden: bool,
}

impl View for WindowInfo {
    type V = WindowView;

    open spec fn view(&self) -> WindowView {
        WindowView {
            address: self.address@,
            x: self.x as int,
            y: self.y as int,
            width: self.width as int,
            height: self.height as int,
            workspace: self.workspace@,
            hidden: self.hidden,
        }
    }
}

/// The values of a list of windows, in the list's order.
pub open spec fn window_views(windows: Seq<WindowInfo>) -> Seq<WindowView> {
    windows.map_values(|w: WindowInfo| w@)
}

/// A display: its top left corner in compositor coordinates and its size.
#[derive(Debug, Clone, Copy, PartialEq, Eq)]
pub struct MonitorInfo {
    pub x: i32,
    pub y: i32,
    pub width: i32,
    pub height: i32,
}

/// Where the pointer is.
#[derive(Debug, Clone, Copy, PartialEq, Eq)]
pub struct CursorPos {
    pub x: i32,
    pub y: i32,
}

} // verus!
