use luminashot::output::{
    fresh_screenshot_path, notification, pictures_directory, resolve_outputs, screenshot_directory,
    screenshot_path, Mode, Notification, Outputs,
};

#[test]
fn a_screenshot_that_goes_nowhere_is_saved() {
    assert_eq!(resolve_outputs(false, false), Outputs { copy: false, save: true });
    assert_eq!(resolve_outputs(true, false), Outputs { copy: true, save: false });
    assert_eq!(resolve_outputs(false, true), Outputs { copy: false, save: true });
    assert_eq!(resolve_outputs(true, true), Outputs { copy: true, save: true });
}

#[test]
fn modes_have_names() {
    assert_eq!(Mode::Region.name(), "Region");
    assert_eq!(Mode::Window.name(), "Window");
    assert_eq!(Mode::Monitor.name(), "Monitor");
    assert_eq!(Mode::Window.name(), format!("{:?}", Mode::Window));
}

#[test]
fn the_pictures_directory_is_the_configured_one_or_under_home() {
    assert_eq!(
        pictures_directory(Some("/data/pics".to_string()), Some("/home/u".to_string())),
        Some("/data/pics".to_string())
    );
    assert_eq!(pictures_directory(Some("/data/pics".to_string()), None), Some("/data/pics".to_string()));
    assert_eq!(pictures_directory(None, Some("/home/u".to_string())), Some("/home/u/Pictures".to_string()));
    assert_eq!(pictures_directory(None, None), None);
}

#[test]
fn screenshots_have_a_directory_and_a_stamped_name() {
    assert_eq!(screenshot_directory("/home/u/Pictures"), "/home/u/Pictures/Screenshots");
    assert_eq!(
        screenshot_path("/home/u/Pictures/Screenshots", "2024-05-06_07-08-09"),
        "/home/u/Pictures/Screenshots/2024-05-06_07-08-09-luminashot.png"
    );
    assert_eq!(screenshot_path("", ""), "/-luminashot.png");
}

#[test]
fn a_fresh_path_carries_the_time_of_day() {
    let path = fresh_screenshot_path("/tmp/shots");
    let stamp = path
        .strip_prefix("/tmp/shots/")
        .and_then(|rest| rest.strip_suffix("-luminashot.png"))
        .expect("directory, stamp and name");
    assert!(!stamp.contains('%'));
    let shape: String = stamp.chars().map(|c| if c.is_ascii_digit() { 'd' } else { c }).collect();
    assert_eq!(shape, "dddd-dd-dd_dd-dd-dd");
    let month: u32 = stamp[5..7].parse().unwrap();
    let day: u32 = stamp[8..10].parse().unwrap();
    let hour: u32 = stamp[11..13].parse().unwrap();
    let minute: u32 = stamp[14..16].parse().unwrap();
    let second: u32 = stamp[17..19].parse().unwrap();
    assert!((1..=12).contains(&month));
    assert!((1..=31).contains(&day));
    assert!(hour < 24 && minute < 60 && second <= 60);
}

#[test]
fn the_notification_says_what_was_done() {
    assert_eq!(
        notification(true, Some("/p/a.png"), Mode::Window),
        Some(Notification {
            summary: "LuminaShot - Window Mode".to_string(),
            body: "Copied and saved to /p/a.png".to_string(),
            icon: "/p/a.png".to_string(),
        })
    );
    assert_eq!(
        notification(false, Some("/p/a.png"), Mode::Monitor),
        Some(Notification {
            summary: "LuminaShot - Monitor Mode".to_string(),
            body: "Saved to /p/a.png".to_string(),
            icon: "/p/a.png".to_string(),
        })
    );
    assert_eq!(
        notification(true, None, Mode::Region),
        Some(Notification {
            summary: "LuminaShot - Region Mode".to_string(),
            body: "Copied to clipboard.".to_string(),
            icon: "edit-copy".to_string(),
        })
    );
    assert_eq!(notification(false, None, Mode::Region), None);
}

#[test]
fn the_notifier_gets_summary_body_and_icon() {
    let told = notification(true, Some("/p/a.png"), Mode::Window).unwrap();
    assert_eq!(
        told.arguments(),
        vec!["LuminaShot - Window Mode", "Copied and saved to /p/a.png", "-i", "/p/a.png"]
    );
    let copied = notification(true, None, Mode::Monitor).unwrap();
    assert_eq!(
        copied.arguments(),
        vec!["LuminaShot - Monitor Mode", "Copied to clipboard.", "-i", "edit-copy"]
    );
}
