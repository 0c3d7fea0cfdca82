//! The foreground window, as it is written above a description.

use vstd::prelude::*;
use vstd::string::*;

verus! {

/// A snapshot of the foreground window.
#[derive(Debug, Clone, PartialEq, Eq)]
pub struct WindowInfo {
    pub app_name: String,
    pub title: String,
    pub exec_name: String,
    pub path: String,
}

/// The four lines that report a window.
pub open spec fn window_report(
    app_name: Seq<char>,
    title: Seq<char>,
    exec_name: Seq<char>,
    path: Seq<char>,
) -> Seq<char> {
    "Active app: "@ + app_name + "\nTitle: "@ + title + "\nExec: "@ + exec_name + "\nPath: "@
        + path
}

/// What is written for the foreground window: its report, or `Unknown` when
/// the window could not be found out.
pub open spec fn window_text(active: Option<WindowInfo>) -> Seq<char> {
    match active {
        Some(w) => window_report(w.app_name@, w.title@, w.exec_name@, w.path@),
        None => "Unknown"@,
    }
}

/// The text that is persisted for an image: the window text, an empty line,
/// the heading `Description:` and the description.
pub open spec fn annotated(window: Seq<char>, description: Seq<char>) -> Seq<char> {
    window + "\n\nDescription:\n"@ + description
}

/// Writes out the foreground window. `active` is what the lookup gave, `None`
/// when it failed; a failure is no error here, since the window only enriches
/// the description.
pub fn get_active_window_info(active: Option<WindowInfo>) -> (text: String)
    ensures
        text@ == window_text(active),
{
    match active {
        Some(w) => {
            let mut text = String::from_str("Active app: ");
            text.append(w.app_name.as_str());
            text.append("\nTitle: ");
            text.append(w.title.as_str());
            text.append("\nExec: ");
            text.append(w.exec_name.as_str());
            text.append("\nPath: ");
            text.append(w.path.as_str());
            text
        },
        None => String::from_str("Unknown"),
    }
}

/// Puts the window text above a description.
pub fn annotate_description(window: &str, description: &str) -> (text: String)
    ensures
        text@ == annotated(window@, description@),
{
    let mut text = String::from_str(window);
    text.append("\n\nDescription:\n");
    text.append(description);
    text
}

} // verus!
