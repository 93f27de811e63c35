//! What happens to a screenshot once it is taken: whether it is saved or
//! copied, where a saved one goes, and what the user is told.

use vstd::prelude::*;

verus! {

/// What the user asked to capture.
#[derive(Debug, Clone, Copy, PartialEq, Eq, Structural)]
pub enum Mode {
    /// A region drawn by hand.
    Region,
    /// A window picked among those of the active workspace.
    Window,
    /// The monitor under the pointer.
    Monitor,
}

/// The name of a mode as the user reads it.
pub open spec fn mode_name(mode: Mode) -> Seq<char> {
    match mode {
        Mode::Region => "Region"@,
        Mode::Window => "Window"@,
        Mode::Monitor => "Monitor"@,
    }
}

impl Mode {
    /// The name of the mode.
    pub fn name(&self) -> (name: &'static str)
        ensures
            name@ == mode_name(*self),
    {
        match self {
            Mode::Region => "Region",
            Mode::Window => "Window",
            Mode::Monitor => "Monitor",
        }
    }
}

/// Where a screenshot goes.
#[derive(Debug, Clone, Copy, PartialEq, Eq, Structural)]
pub struct Outputs {
    /// To the clipboard.
    pub copy: bool,
    /// To a file.
    pub save: bool,
}

/// Settles where a screenshot goes from what the user asked for. A
/// screenshot that was asked to go nowhere is saved.
pub fn resolve_outputs(copy: bool, save: bool) -> (outputs: Outputs)
    ensures
        outputs.copy == copy,
        outputs.save == (save || !copy),
{
    Outputs { copy, save: save || !copy }
}

/// The directory that holds the user's pictures: the configured one where
/// there is one, else `Pictures` under the home directory. Without either
/// there is none.
pub open spec fn pictures_directory_text(
    configured: Option<Seq<char>>,
    home: Option<Seq<char>>,
) -> Option<Seq<char>> {
    match configured {
        Some(directory) => Some(directory),
        None => match home {
            Some(home) => Some(home + "/Pictures"@),
            None => None,
        },
    }
}

/// Finds the directory that holds the user's pictures.
pub fn pictures_directory(configured: Option<String>, home: Option<String>) -> (found: Option<
    String,
>)
    ensures
        found.deep_view() == pictures_directory_text(configured.deep_view(), home.deep_view()),
{
    match configured {
        Some(directory) => Some(directory),
        None => match home {
            Some(home) => {
                let mut directory = home;
                directory.append("/Pictures");
                Some(directory)
            },
            None => None,
        },
    }
}

/// The directory for screenshots, under the directory for pictures.
pub open spec fn screenshot_directory_text(pictures: Seq<char>) -> Seq<char> {
    pictures + "/Screenshots"@
}

/// Names the directory for screenshots.
pub fn screenshot_directory(pictures: &str) -> (directory: String)
    ensures
        directory@ == screenshot_directory_text(pictures@),
{
    let mut directory = pictures.to_owned();
    directory.append("/Screenshots");
    directory
}

/// The file for a screenshot taken at the time that `stamp` names.
pub open spec fn screenshot_path_text(directory: Seq<char>, stamp: Seq<char>) -> Seq<char> {
    directory + "/"@ + stamp + "-luminashot.png"@
}

/// Names the file for a screenshot taken at the time that `stamp` names.
pub fn screenshot_path(directory: &str, stamp: &str) -> (path: String)
    ensures
        path@ == screenshot_path_text(directory@, stamp@),
{
    let mut path = directory.to_owned();
    path.append("/");
    path.append(stamp);
    path.append("-luminashot.png");
    path
}

/// The local time of the moment of the call, written by chrono's
/// `DateTime::format` after `pattern`, which is read from the clock by
/// chrono's `Local::now`. Nothing is claimed of the text: it differs from
/// call to call. The one pattern that is let in is known to chrono, so that
/// writing the text cannot fail.
#[verifier::external_body]
fn local_time_text(pattern: &str) -> (text: String)
    requires
        pattern@ == "%Y-%m-%d_%H-%M-%S"@,
{
    chrono::Local::now().format(pattern).to_string()
}

/// Names the file for a screenshot taken now: the stamp in its name is the
/// local date and time, as year, month, day, hour, minute and second.
pub fn fresh_screenshot_path(directory: &str) -> (path: String)
    ensures
        exists|stamp: Seq<char>| path@ == screenshot_path_text(directory@, stamp),
{
    let stamp = local_time_text("%Y-%m-%d_%H-%M-%S");
    screenshot_path(directory, stamp.as_str())
}

/// What the user is told once a screenshot is taken.
#[derive(Debug, PartialEq, Eq)]
pub struct Notification {
    pub summary: String,
    pub body: String,
    /// The name of an icon, or the path of an image to show as one.
    pub icon: String,
}

/// The mathematical value of a [`Notification`].
pub struct NotificationView {
    pub summary: Seq<char>,
    pub body: Seq<char>,
    pub icon: Seq<char>,
}

impl View for Notification {
    type V = NotificationView;

    open spec fn view(&self) -> NotificationView {
        NotificationView { summary: self.summary@, body: self.body@, icon: self.icon@ }
    }
}

impl DeepView for Notification {
    type V = NotificationView;

    open spec fn deep_view(&self) -> NotificationView {
        self@
    }
}

/// The headline of every notification names the mode.
pub open spec fn summary_text(mode: Mode) -> Seq<char> {
    "LuminaShot - "@ + mode_name(mode) + " Mode"@
}

/// The notification for a screenshot that was copied, or saved to the file
/// `saved`, or both. The saved image is its own icon. Where nothing was done
/// with the screenshot there is nothing to tell.
pub open spec fn notification_for(copied: bool, saved: Option<Seq<char>>, mode: Mode) -> Option<
    NotificationView,
> {
    match saved {
        Some(path) => Some(
            NotificationView {
                summary: summary_text(mode),
                body: if copied {
                    "Copied and saved to "@ + path
                } else {
                    "Saved to "@ + path
                },
                icon: path,
            },
        ),
        None => if copied {
            Some(
                NotificationView {
                    summary: summary_text(mode),
                    body: "Copied to clipboard."@,
                    icon: "edit-copy"@,
                },
            )
        } else {
            None
        },
    }
}

/// Words the notification for a screenshot.
pub fn notification(copied: bool, saved: Option<&str>, mode: Mode) -> (told: Option<Notification>)
    ensures
        told.deep_view() == notification_for(copied, saved.deep_view(), mode),
{
    let mut summary = String::from_str("LuminaShot - ");
    summary.append(mode.name());
    summary.append(" Mode");
    match saved {
        Some(path) => {
            let mut body = if copied {
                String::from_str("Copied and saved to ")
            } else {
                String::from_str("Saved to ")
            };
            body.append(path);
            Some(Notification { summary, body, icon: path.to_owned() })
        },
        None => {
            if copied {
                Some(
                    Notification {
                        summary,
                        body: String::from_str("Copied to clipboard."),
                        icon: String::from_str("edit-copy"),
                    },
                )
            } else {
                None
            }
        },
    }
}

/// The arguments with which the notifier shows a notification: the summary,
/// the body, and the icon behind `-i`.
pub open spec fn notifier_arguments(notification: NotificationView) -> Seq<Seq<char>> {
    seq![notification.summary, notification.body, "-i"@, notification.icon]
}

impl Notification {
    /// The arguments for the notifier.
    pub fn arguments(&self) -> (arguments: Vec<String>)
        ensures
            arguments.deep_view() == notifier_arguments(self@),
    {
        let mut arguments: Vec<String> = Vec::new();
        arguments.push(self.summary.clone());
        arguments.push(self.body.clone());
        arguments.push(String::from_str("-i"));
        arguments.push(self.icon.clone());
        assert(arguments.deep_view() =~= notifier_arguments(self@));
        arguments
    }
}

} // verus!
