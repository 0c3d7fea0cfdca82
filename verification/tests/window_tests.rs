use deskwatch::window::{annotate_description, get_active_window_info, WindowInfo};

#[test]
fn window_is_reported_in_four_lines() {
    let w = WindowInfo {
        app_name: "Editor".to_string(),
        title: "notes.md".to_string(),
        exec_name: "editor".to_string(),
        path: "/usr/bin/editor".to_string(),
    };
    assert_eq!(
        get_active_window_info(Some(w)),
        "Active app: Editor\nTitle: notes.md\nExec: editor\nPath: /usr/bin/editor"
    );
}

#[test]
fn empty_fields_leave_their_labels() {
    let w = WindowInfo {
        app_name: String::new(),
        title: String::new(),
        exec_name: String::new(),
        path: String::new(),
    };
    assert_eq!(get_active_window_info(Some(w)), "Active app: \nTitle: \nExec: \nPath: ");
}

#[test]
fn unknown_window_is_no_error() {
    assert_eq!(get_active_window_info(None), "Unknown");
}

#[test]
fn description_goes_below_the_window() {
    assert_eq!(
        annotate_description("Unknown", "A terminal."),
        "Unknown\n\nDescription:\nA terminal."
    );
    assert_eq!(annotate_description("", ""), "\n\nDescription:\n");
}
