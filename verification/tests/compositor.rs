use luminashot::compositor::{
    holds_cursor, monitor_geometry, monitor_under_cursor, resolve_current_geometry, windows_on,
};
use luminashot::error::SelectionError;
use luminashot::model::{CursorPos, MonitorInfo, WindowInfo, WorkspaceRef};

fn window(address: &str, x: i32, y: i32, width: i32, height: i32, workspace: i32, hidden: bool) -> WindowInfo {
    WindowInfo {
        address: address.to_string(),
        x,
        y,
        width,
        height,
        workspace: WorkspaceRef { id: workspace, name: workspace.to_string() },
        hidden,
    }
}

fn addresses(windows: &[WindowInfo]) -> Vec<String> {
    windows.iter().map(|w| w.address.clone()).collect()
}

#[test]
fn windows_on_keeps_shown_windows_of_the_workspace() {
    let clients = vec![
        window("0xa", 0, 0, 10, 10, 3, false),
        window("0xb", 0, 0, 10, 10, 4, false),
        window("0xc", 0, 0, 10, 10, 3, true),
        window("0xd", 0, 0, 10, 10, 3, false),
        window("0xe", 0, 0, 10, 10, 4, true),
    ];
    let windows = windows_on(clients, 3);
    assert_eq!(addresses(&windows), vec!["0xa", "0xd"]);
    assert!(windows.iter().all(|w| !w.hidden && w.workspace.id == 3));
}

#[test]
fn windows_on_keeps_the_order_of_the_list() {
    let clients = vec![
        window("0x3", 5, 5, 1, 1, 1, false),
        window("0x1", 6, 6, 2, 2, 1, false),
        window("0x2", 7, 7, 3, 3, 1, false),
        window("0x1", 8, 8, 4, 4, 1, false),
    ];
    let windows = windows_on(clients, 1);
    assert_eq!(addresses(&windows), vec!["0x3", "0x1", "0x2", "0x1"]);
    assert_eq!(windows[1].x, 6);
    assert_eq!(windows[3].x, 8);
}

#[test]
fn windows_on_leaves_the_windows_as_they_are() {
    let clients = vec![window("0xbeef", -4, 17, 640, 480, 9, false)];
    let windows = windows_on(clients, 9);
    assert_eq!(windows, vec![window("0xbeef", -4, 17, 640, 480, 9, false)]);
    assert_eq!(windows[0].workspace.name, "9");
}

#[test]
fn windows_on_an_empty_list_or_a_foreign_workspace() {
    assert!(windows_on(Vec::new(), 3).is_empty());
    let clients = vec![window("0xa", 0, 0, 10, 10, 3, false), window("0xb", 0, 0, 10, 10, 3, true)];
    assert!(windows_on(clients, 4).is_empty());
    let hidden_only = vec![window("0xb", 0, 0, 10, 10, 3, true)];
    assert!(windows_on(hidden_only, 3).is_empty());
}

#[test]
fn windows_on_agrees_with_a_plain_filter() {
    let mut clients = Vec::new();
    for i in 0..60 {
        clients.push(window(&format!("0x{:x}", i), i, 2 * i, 3 * i, 4 * i, i % 4 - 1, i % 3 == 0));
    }
    for workspace in -2..5 {
        let expected: Vec<WindowInfo> = clients
            .iter()
            .filter(|c| !c.hidden && c.workspace.id == workspace)
            .cloned()
            .collect();
        assert_eq!(windows_on(clients.clone(), workspace), expected);
    }
}

#[test]
fn geometry_is_resolved_by_address() {
    let clients = vec![
        window("0x1", 0, 0, 800, 600, 3, false),
        window("0x2", 800, 0, 1120, 1080, 3, false),
    ];
    assert_eq!(resolve_current_geometry(&clients, "0x2"), Ok("800,0 1120x1080".to_string()));
    assert_eq!(resolve_current_geometry(&clients, "0x1"), Ok("0,0 800x600".to_string()));
}

#[test]
fn geometry_is_resolved_wherever_the_window_is() {
    let clients = vec![
        window("0x1", 0, 0, 800, 600, 7, true),
        window("0x2", 800, 0, 1120, 1080, 8, false),
    ];
    assert_eq!(resolve_current_geometry(&clients, "0x1"), Ok("0,0 800x600".to_string()));
}

#[test]
fn the_first_window_with_the_address_counts() {
    let clients = vec![
        window("0x9", 1, 1, 1, 1, 3, false),
        window("0x2", 10, 20, 30, 40, 3, false),
        window("0x2", 50, 60, 70, 80, 3, false),
    ];
    assert_eq!(resolve_current_geometry(&clients, "0x2"), Ok("10,20 30x40".to_string()));
}

#[test]
fn a_window_that_is_gone_is_a_resolution_error() {
    let clients = vec![window("0x1", 0, 0, 800, 600, 3, false)];
    assert_eq!(
        resolve_current_geometry(&clients, "0x2"),
        Err(SelectionError::Resolution("0x2".to_string()))
    );
    assert_eq!(
        resolve_current_geometry(&Vec::new(), "0x1"),
        Err(SelectionError::Resolution("0x1".to_string()))
    );
    assert_eq!(
        resolve_current_geometry(&clients, "0x10"),
        Err(SelectionError::Resolution("0x10".to_string()))
    );
    assert_eq!(
        resolve_current_geometry(&clients, ""),
        Err(SelectionError::Resolution(String::new()))
    );
}

#[test]
fn the_cursor_is_on_a_monitor_from_its_first_to_its_last_pixel() {
    let monitor = MonitorInfo { x: 100, y: 50, width: 1920, height: 1080 };
    assert!(holds_cursor(&monitor, &CursorPos { x: 100, y: 50 }));
    assert!(holds_cursor(&monitor, &CursorPos { x: 2019, y: 1129 }));
    assert!(!holds_cursor(&monitor, &CursorPos { x: 2020, y: 1129 }));
    assert!(!holds_cursor(&monitor, &CursorPos { x: 2019, y: 1130 }));
    assert!(!holds_cursor(&monitor, &CursorPos { x: 99, y: 50 }));
    assert!(!holds_cursor(&monitor, &CursorPos { x: 100, y: 49 }));
}

#[test]
fn a_monitor_at_the_edge_of_the_number_range() {
    let monitor = MonitorInfo { x: i32::MAX - 10, y: 0, width: 100, height: 100 };
    assert!(holds_cursor(&monitor, &CursorPos { x: i32::MAX, y: 99 }));
    assert!(!holds_cursor(&monitor, &CursorPos { x: i32::MIN, y: 0 }));
    let empty = MonitorInfo { x: 0, y: 0, width: 0, height: 10 };
    assert!(!holds_cursor(&empty, &CursorPos { x: 0, y: 0 }));
    let inverted = MonitorInfo { x: 0, y: 0, width: -5, height: 10 };
    assert!(!holds_cursor(&inverted, &CursorPos { x: -1, y: 0 }));
}

#[test]
fn the_monitor_under_the_cursor_is_found() {
    let monitors = vec![
        MonitorInfo { x: 0, y: 0, width: 1920, height: 1080 },
        MonitorInfo { x: 1920, y: 0, width: 2560, height: 1440 },
    ];
    assert_eq!(monitor_under_cursor(&CursorPos { x: 5, y: 5 }, &monitors), Some(0));
    assert_eq!(monitor_under_cursor(&CursorPos { x: 1920, y: 1200 }, &monitors), Some(1));
    assert_eq!(monitor_under_cursor(&CursorPos { x: 1919, y: 1200 }, &monitors), None);
    assert_eq!(
        monitor_geometry(&CursorPos { x: 3000, y: 700 }, &monitors),
        Ok("1920,0 2560x1440".to_string())
    );
    assert_eq!(
        monitor_geometry(&CursorPos { x: 0, y: 0 }, &monitors),
        Ok("0,0 1920x1080".to_string())
    );
}

#[test]
fn of_overlapping_monitors_the_first_is_taken() {
    let monitors = vec![
        MonitorInfo { x: 0, y: 0, width: 100, height: 100 },
        MonitorInfo { x: 50, y: 50, width: 100, height: 100 },
    ];
    assert_eq!(monitor_under_cursor(&CursorPos { x: 60, y: 60 }, &monitors), Some(0));
    assert_eq!(monitor_under_cursor(&CursorPos { x: 120, y: 120 }, &monitors), Some(1));
}

#[test]
fn no_monitor_under_the_cursor_is_an_error() {
    let monitors = vec![MonitorInfo { x: 0, y: 0, width: 1920, height: 1080 }];
    assert_eq!(
        monitor_geometry(&CursorPos { x: -1, y: 10 }, &monitors),
        Err(SelectionError::NoMonitor)
    );
    assert_eq!(monitor_geometry(&CursorPos { x: 0, y: 0 }, &Vec::new()), Err(SelectionError::NoMonitor));
    assert_eq!(monitor_under_cursor(&CursorPos { x: 0, y: 0 }, &Vec::new()), None);
}
