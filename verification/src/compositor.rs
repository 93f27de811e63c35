//! What is worked out from the compositor's replies: the windows that can be
//! picked on a workspace, the geometry of a window as it stands now, and the
//! monitor under the pointer.

use vstd::prelude::*;
use crate::error::{ErrorView, SelectionError};
use crate::geometry::{format_geometry, geometry_text};
use crate::model::{window_views, CursorPos, MonitorInfo, WindowInfo, WindowView};

verus! {

/// A window can be picked on a workspace when it is shown and lives there.
pub open spec fn selectable(window: WindowView, workspace: int) -> bool {
    !window.hidden && window.workspace.id == workspace
}

/// The test [`selectable`] for one workspace, as a predicate on windows.
pub open spec fn selectable_on(workspace: int) -> spec_fn(WindowView) -> bool {
    |window: WindowView| selectable(window, workspace)
}

/// The windows of `clients` that can be picked on `workspace`, in the order
/// in which the compositor listed them.
pub open spec fn selectable_windows(clients: Seq<WindowView>, workspace: int) -> Seq<WindowView> {
    clients.filter(selectable_on(workspace))
}

/// Keeps the windows that can be picked on the workspace `workspace_id` and
/// drops the rest, without changing the order.
pub fn windows_on(clients: Vec<WindowInfo>, workspace_id: i32) -> (windows: Vec<WindowInfo>)
    ensures
        window_views(windows@) == selectable_windows(window_views(clients@), workspace_id as int),
{
    let ghost all = window_views(clients@);
    let ghost keep = selectable_on(workspace_id as int);
    let mut windows: Vec<WindowInfo> = Vec::new();
    proof {
        reveal(Seq::filter);
        assert(all.take(0).filter(keep) =~= window_views(windows@));
    }
    for client in it: clients
        invariant
            all == window_views(it.seq()),
            keep == selectable_on(workspace_id as int),
            window_views(windows@) == all.take(it.index() as int).filter(keep),
    {
        proof {
            reveal(Seq::filter);
            let n = it.index() as int;
            assert(all.take(n + 1).drop_last() =~= all.take(n));
            assert(all.take(n + 1).last() == client@);
        }
        if !client.hidden && client.workspace.id == workspace_id {
            let ghost before = windows@;
            windows.push(client);
            assert(window_views(windows@) =~= window_views(before).push(client@));
        }
    }
    proof {
        assert(all.take(all.len() as int) =~= all);
    }
    windows
}

/// `kept` holds exactly the windows of `clients` that can be picked on
/// `workspace`, each as often as `clients` lists it and in the same order:
/// `places` names, in rising order, the places in `clients` of the windows
/// that can be picked, and `kept` holds the windows at those places.
pub open spec fn keeps_in_order(
    clients: Seq<WindowView>,
    workspace: int,
    kept: Seq<WindowView>,
    places: Seq<int>,
) -> bool {
    &&& places.len() == kept.len()
    &&& forall|k: int|
        0 <= k < places.len() ==> 0 <= #[trigger] places[k] < clients.len() && kept[k]
            == clients[places[k]]
    &&& forall|j: int, k: int| 0 <= j < k < places.len() ==> places[j] < places[k]
    &&& forall|i: int|
        0 <= i < clients.len() ==> (selectable(#[trigger] clients[i], workspace)
            <==> places.contains(i))
}

/// The windows that can be picked on a workspace are exactly the shown
/// windows of that workspace, in the order of the list they were taken from;
/// every other window is left out.
pub proof fn lemma_selectable_windows_exact(clients: Seq<WindowView>, workspace: int)
    ensures
        exists|places: Seq<int>|
            keeps_in_order(clients, workspace, selectable_windows(clients, workspace), places),
    decreases clients.len(),
{
    reveal(Seq::filter);
    let kept = selectable_windows(clients, workspace);
    if clients.len() == 0 {
        assert(keeps_in_order(clients, workspace, kept, Seq::<int>::empty()));
    } else {
        let earlier = clients.drop_last();
        let last = clients.len() - 1;
        lemma_selectable_windows_exact(earlier, workspace);
        let before = choose|places: Seq<int>|
            keeps_in_order(earlier, workspace, selectable_windows(earlier, workspace), places);
        if selectable(clients.last(), workspace) {
            let places = before.push(last);
            assert forall|i: int| 0 <= i < clients.len() implies (selectable(
                #[trigger] clients[i],
                workspace,
            ) <==> places.contains(i)) by {
                if i < last {
                    assert(clients[i] == earlier[i]);
                    if before.contains(i) {
                        let k = choose|k: int| 0 <= k < before.len() && before[k] == i;
                        assert(places[k] == i);
                    }
                    if places.contains(i) {
                        let k = choose|k: int| 0 <= k < places.len() && places[k] == i;
                        assert(before[k] == i);
                    }
                } else {
                    assert(places[before.len() as int] == i);
                }
            }
            assert(keeps_in_order(clients, workspace, kept, places));
        } else {
            assert forall|i: int| 0 <= i < clients.len() implies (selectable(
                #[trigger] clients[i],
                workspace,
            ) <==> before.contains(i)) by {
                if i < last {
                    assert(clients[i] == earlier[i]);
                } else if before.contains(i) {
                    let k = choose|k: int| 0 <= k < before.len() && before[k] == i;
                    assert(before[k] < earlier.len());
                }
            }
            assert(keeps_in_order(clients, workspace, kept, before));
        }
    }
}

/// The geometry of a window, written as the screen grabber reads it.
pub open spec fn window_geometry(window: WindowView) -> Seq<char> {
    geometry_text(window.x, window.y, window.width, window.height)
}

/// `index` is the place of the first window of `clients` with `address`.
pub open spec fn first_with_address(clients: Seq<WindowView>, address: Seq<char>, index: int) -> bool {
    &&& 0 <= index < clients.len()
    &&& clients[index].address == address
    &&& forall|earlier: int| 0 <= earlier < index ==> clients[earlier].address != address
}

/// The geometry of the first window of `clients` with `address`; `None`
/// where no window has it.
pub open spec fn current_geometry(clients: Seq<WindowView>, address: Seq<char>) -> Option<
    Seq<char>,
> {
    if exists|index: int| first_with_address(clients, address, index) {
        let index = choose|index: int| first_with_address(clients, address, index);
        Some(window_geometry(clients[index]))
    } else {
        None
    }
}

/// At most one place is the first with an address.
pub proof fn lemma_first_with_address_unique(
    clients: Seq<WindowView>,
    address: Seq<char>,
    i: int,
    j: int,
)
    requires
        first_with_address(clients, address, i),
        first_with_address(clients, address, j),
    ensures
        i == j,
{
    if i < j {
        assert(clients[i].address != address);
    } else if j < i {
        assert(clients[j].address != address);
    }
}

/// Where `index` is the first place with the address, the geometry for the
/// address is that of the window at `index`.
pub proof fn lemma_current_geometry_at_first(
    clients: Seq<WindowView>,
    address: Seq<char>,
    index: int,
)
    requires
        first_with_address(clients, address, index),
    ensures
        current_geometry(clients, address) == Some(window_geometry(clients[index])),
{
    let chosen = choose|i: int| first_with_address(clients, address, i);
    lemma_first_with_address_unique(clients, address, index, chosen);
}

/// Looks up the window that has `address` in a list of clients taken now,
/// and writes the geometry it has there. Where several clients carry the
/// address the first one counts; where none does, the window is gone and the
/// lookup fails with [`SelectionError::Resolution`], which names the address.
pub fn resolve_current_geometry(clients: &Vec<WindowInfo>, address: &str) -> (resolved: Result<
    String,
    SelectionError,
>)
    ensures
        match resolved {
            Ok(text) => current_geometry(window_views(clients@), address@) == Some(text@),
            Err(error) => current_geometry(window_views(clients@), address@) is None && error@
                == ErrorView::Resolution(address@),
        },
{
    let ghost all = window_views(clients@);
    let wanted = address.to_owned();
    let mut index: usize = 0;
    while index < clients.len()
        invariant
            index <= clients.len(),
            all == window_views(clients@),
            wanted@ == address@,
            forall|earlier: int| 0 <= earlier < index ==> all[earlier].address != address@,
        decreases clients.len() - index,
    {
        let client = &clients[index];
        if client.address == wanted {
            proof {
                lemma_current_geometry_at_first(all, address@, index as int);
            }
            return Ok(format_geometry(client.x, client.y, client.width, client.height));
        }
        index += 1;
    }
    Err(SelectionError::Resolution(wanted))
}

/// The pointer lies on the monitor: at or after its left and top edge, and
/// before its right and bottom edge.
pub open spec fn monitor_holds(monitor: MonitorInfo, cursor: CursorPos) -> bool {
    &&& monitor.x <= cursor.x < monitor.x + monitor.width
    &&& monitor.y <= cursor.y < monitor.y + monitor.height
}

/// `index` is the place of the first monitor of `monitors` that the pointer
/// lies on.
pub open spec fn first_monitor_under(monitors: Seq<MonitorInfo>, cursor: CursorPos, index: int) -> bool {
    &&& 0 <= index < monitors.len()
    &&& monitor_holds(monitors[index], cursor)
    &&& forall|earlier: int| 0 <= earlier < index ==> !monitor_holds(monitors[earlier], cursor)
}

/// Tells whether the pointer lies on the monitor.
pub fn holds_cursor(monitor: &MonitorInfo, cursor: &CursorPos) -> (inside: bool)
    ensures
        inside == monitor_holds(*monitor, *cursor),
{
    let x: i64 = cursor.x as i64;
    let y: i64 = cursor.y as i64;
    let left: i64 = monitor.x as i64;
    let top: i64 = monitor.y as i64;
    left <= x && x < left + monitor.width as i64 && top <= y && y < top + monitor.height as i64
}

/// The place of the first monitor that the pointer lies on; `None` where it
/// lies on none of them.
pub fn monitor_under_cursor(cursor: &CursorPos, monitors: &Vec<MonitorInfo>) -> (found: Option<
    usize,
>)
    ensures
        match found {
            Some(index) => first_monitor_under(monitors@, *cursor, index as int),
            None => forall|index: int|
                0 <= index < monitors.len() ==> !monitor_holds(#[trigger] monitors[index], *cursor),
        },
{
    let mut index: usize = 0;
    while index < monitors.len()
        invariant
            index <= monitors.len(),
            forall|earlier: int|
                0 <= earlier < index ==> !monitor_holds(#[trigger] monitors[earlier], *cursor),
        decreases monitors.len() - index,
    {
        if holds_cursor(&monitors[index], cursor) {
            return Some(index);
        }
        index += 1;
    }
    None
}

/// The geometry of a monitor, written as the screen grabber reads it.
pub open spec fn monitor_text(monitor: MonitorInfo) -> Seq<char> {
    geometry_text(monitor.x as int, monitor.y as int, monitor.width as int, monitor.height as int)
}

/// The geometry of the first monitor that the pointer lies on. Where it lies
/// on none the capture fails with [`SelectionError::NoMonitor`].
pub fn monitor_geometry(cursor: &CursorPos, monitors: &Vec<MonitorInfo>) -> (geometry: Result<
    String,
    SelectionError,
>)
    ensures
        match geometry {
            Ok(text) => exists|index: int|
                first_monitor_under(monitors@, *cursor, index) && text@ == monitor_text(
                    monitors[index],
                ),
            Err(error) => error@ == ErrorView::NoMonitor && forall|index: int|
                0 <= index < monitors.len() ==> !monitor_holds(#[trigger] monitors[index], *cursor),
        },
{
    match monitor_under_cursor(cursor, monitors) {
        Some(index) => {
            let monitor = &monitors[index];
            Ok(format_geometry(monitor.x, monitor.y, monitor.width, monitor.height))
        },
        None => Err(SelectionError::NoMonitor),
    }
}

} // verus!
