use luminashot::model::WorkspaceRef;
use luminashot::watcher::{WatchAction, WatchEvent, Watcher, POLL_INTERVAL_MS};

fn workspace(id: i32) -> WorkspaceRef {
    WorkspaceRef { id, name: format!("ws{}", id) }
}

#[test]
fn the_watcher_pauses_for_200_milliseconds() {
    assert_eq!(POLL_INTERVAL_MS, 200);
    assert_eq!(Watcher::new(3).step(&WatchEvent::Started), WatchAction::Sleep(200));
}

#[test]
fn the_watcher_asks_after_each_pause() {
    assert_eq!(Watcher::new(3).step(&WatchEvent::Woke), WatchAction::QueryWorkspace);
}

#[test]
fn the_watcher_goes_on_while_the_workspace_is_the_baseline() {
    assert_eq!(Watcher::new(3).step(&WatchEvent::Polled(Ok(workspace(3)))), WatchAction::Sleep(200));
    assert_eq!(Watcher::new(-7).step(&WatchEvent::Polled(Ok(workspace(-7)))), WatchAction::Sleep(200));
}

#[test]
fn the_watcher_finishes_when_the_workspace_differs() {
    assert_eq!(Watcher::new(3).step(&WatchEvent::Polled(Ok(workspace(4)))), WatchAction::Finish);
    assert_eq!(Watcher::new(3).step(&WatchEvent::Polled(Ok(workspace(-3)))), WatchAction::Finish);
    assert_eq!(Watcher::new(i32::MIN).step(&WatchEvent::Polled(Ok(workspace(i32::MAX)))), WatchAction::Finish);
}

#[test]
fn the_watcher_goes_by_the_id_and_not_by_the_name() {
    let renamed = WorkspaceRef { id: 3, name: "other".to_string() };
    assert_eq!(Watcher::new(3).step(&WatchEvent::Polled(Ok(renamed))), WatchAction::Sleep(200));
}

#[test]
fn the_watcher_swallows_a_failed_question() {
    let failed = WatchEvent::Polled(Err("hyprctl: connection refused".to_string()));
    assert_eq!(Watcher::new(3).step(&failed), WatchAction::Sleep(200));
}

#[test]
fn a_watch_ends_at_the_first_change() {
    let replies = [Ok(workspace(3)), Err("busy".to_string()), Ok(workspace(3)), Ok(workspace(4)), Ok(workspace(3))];
    let mut action = Watcher::new(3).step(&WatchEvent::Started);
    let mut asked = 0;
    let mut slept = 0u64;
    for reply in replies {
        match action {
            WatchAction::Sleep(millis) => slept += millis,
            other => panic!("expected a pause, got {:?}", other),
        }
        assert_eq!(Watcher::new(3).step(&WatchEvent::Woke), WatchAction::QueryWorkspace);
        asked += 1;
        action = Watcher::new(3).step(&WatchEvent::Polled(reply));
        if action == WatchAction::Finish {
            break;
        }
    }
    assert_eq!(action, WatchAction::Finish);
    assert_eq!(asked, 4);
    assert_eq!(slept, 800);
}

#[test]
fn a_watcher_keeps_its_baseline() {
    let watcher = Watcher::new(3);
    assert_eq!(watcher.baseline(), 3);
    watcher.step(&WatchEvent::Polled(Ok(workspace(4))));
    watcher.step(&WatchEvent::Polled(Ok(workspace(5))));
    assert_eq!(watcher.baseline(), 3);
    assert_eq!(watcher.step(&WatchEvent::Polled(Ok(workspace(3)))), WatchAction::Sleep(200));
    assert_eq!(Watcher::new(i32::MIN).baseline(), i32::MIN);
}

#[test]
fn workspaces_are_equal_by_id() {
    assert_eq!(workspace(3), WorkspaceRef { id: 3, name: "renamed".to_string() });
    assert_ne!(workspace(3), workspace(4));
    assert_eq!(workspace(5).clone().name, "ws5");
}
