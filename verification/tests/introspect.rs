use niri_windows::introspect::{
    get_windows, workspace_cast_title, workspace_window_app_id_stem, workspace_window_label,
    NiriToIntrospect, OrderedWindowProperties, WindowProperties, WorkspaceWindow,
};
use niri_windows::text::{is_white_space, trim};

fn properties(title: &str) -> WindowProperties {
    WindowProperties {
        title: title.to_string(),
        app_id: String::from("app"),
    }
}

fn titled(id: u64, title: &str) -> WorkspaceWindow {
    WorkspaceWindow {
        id,
        title: Some(title.to_string()),
        app_id: None,
    }
}

#[test]
fn workspace_cast_title_includes_name_and_active_window_first() {
    let title = workspace_cast_title(
        2,
        Some("web"),
        Some("DP-1"),
        Some(9),
        &[
            WorkspaceWindow {
                id: 1,
                title: Some(String::from("Terminal")),
                app_id: Some(String::from("org.wezfurlong.wezterm")),
            },
            WorkspaceWindow {
                id: 9,
                title: Some(String::from("Firefox")),
                app_id: Some(String::from("firefox")),
            },
            WorkspaceWindow {
                id: 4,
                title: Some(String::from("Slack")),
                app_id: Some(String::from("com.slack.Slack")),
            },
        ],
    );

    assert_eq!(
        title,
        "Workspace 2 (web) on DP-1 - Firefox, Terminal, Slack"
    );
}

#[test]
fn workspace_cast_title_handles_empty_workspaces() {
    let title = workspace_cast_title(3, None, Some("DP-2"), None, &[]);
    assert_eq!(title, "Workspace 3 on DP-2 - empty");
}

#[test]
fn workspace_cast_title_limits_the_summary() {
    let title = workspace_cast_title(
        5,
        None,
        None,
        None,
        &[
            WorkspaceWindow {
                id: 1,
                title: Some(String::from("Firefox")),
                app_id: None,
            },
            WorkspaceWindow {
                id: 2,
                title: Some(String::from("Slack")),
                app_id: None,
            },
            WorkspaceWindow {
                id: 3,
                title: Some(String::from("Terminal")),
                app_id: None,
            },
            WorkspaceWindow {
                id: 4,
                title: Some(String::from("Docs")),
                app_id: None,
            },
        ],
    );

    assert_eq!(title, "Workspace 5 - Firefox, Slack, Terminal, ...");
}

#[test]
fn workspace_cast_title_falls_back_to_app_id_stem() {
    let title = workspace_cast_title(
        1,
        None,
        None,
        None,
        &[WorkspaceWindow {
            id: 7,
            title: Some(String::from("  ")),
            app_id: Some(String::from("org.keepassxc.KeePassXC.desktop")),
        }],
    );

    assert_eq!(title, "Workspace 1 - KeePassXC");
}

#[test]
fn workspace_cast_title_can_disambiguate_outputs_without_names() {
    let title = workspace_cast_title(1, None, Some("HDMI-A-1"), None, &[]);
    assert_eq!(title, "Workspace 1 on HDMI-A-1 - empty");
}

#[test]
fn entries_keep_the_order_of_insertion() {
    let mut windows = OrderedWindowProperties::default();
    windows.insert(1, properties("niri Dynamic Cast Target"));
    windows.insert(12, properties("ws1"));
    windows.insert(7, properties("ws2"));
    let ws1 = [titled(12, "ws1")];
    let ws2 = [titled(7, "ws2")];
    let titles = [
        workspace_cast_title(1, None, Some("headless-1"), Some(12), &ws1),
        workspace_cast_title(2, None, Some("headless-1"), Some(7), &ws2),
        workspace_cast_title(3, None, Some("headless-1"), None, &[]),
    ];
    for (i, title) in titles.iter().enumerate() {
        windows.insert(100 + i as u64, properties(title));
    }

    let titles = windows
        .0
        .into_iter()
        .map(|(_, props)| props.title)
        .collect::<Vec<_>>();
    assert_eq!(
        &titles[..5],
        [
            String::from("niri Dynamic Cast Target"),
            String::from("ws1"),
            String::from("ws2"),
            String::from("Workspace 1 on headless-1 - ws1"),
            String::from("Workspace 2 on headless-1 - ws2"),
        ]
    );
    assert_eq!(titles.last().unwrap(), "Workspace 3 on headless-1 - empty");
}

#[test]
fn titles_name_the_output_and_the_active_window_first() {
    let windows = [titled(2, "tiling"), titled(1, "sticky")];
    assert_eq!(
        workspace_cast_title(1, None, Some("headless-1"), Some(1), &windows),
        "Workspace 1 on headless-1 - sticky, tiling"
    );
    assert_eq!(
        workspace_cast_title(1, None, Some("headless-2"), None, &[]),
        "Workspace 1 on headless-2 - empty"
    );
}

#[test]
fn an_active_window_from_elsewhere_changes_nothing() {
    let windows = [titled(1, "a"), titled(2, "b"), titled(2, "c")];
    assert_eq!(
        workspace_cast_title(255, Some(""), Some(""), Some(9), &windows),
        "Workspace 255 - a, b, c"
    );
    // Of several windows with the active id, the first one moves.
    assert_eq!(
        workspace_cast_title(0, None, None, Some(2), &windows),
        "Workspace 0 - b, a, c"
    );
}

#[test]
fn exactly_three_windows_are_all_named() {
    let windows = [titled(1, "a"), titled(2, "b"), titled(3, "c"), titled(4, "d")];
    assert_eq!(
        workspace_cast_title(1, None, None, None, &windows[..3]),
        "Workspace 1 - a, b, c"
    );
    assert_eq!(
        workspace_cast_title(1, None, None, Some(4), &windows),
        "Workspace 1 - d, a, b, ..."
    );
}

#[test]
fn labels_fall_back_to_the_window_number() {
    let nameless = WorkspaceWindow {
        id: 18446744073709551615,
        title: None,
        app_id: Some(String::from("\t\n")),
    };
    assert_eq!(
        workspace_window_label(&nameless),
        "window 18446744073709551615"
    );
    assert_eq!(workspace_window_label(&titled(3, "  a b ")), "a b");
}

#[test]
fn a_window_whose_label_is_empty_counts_as_nothing() {
    let windows = [WorkspaceWindow {
        id: 1,
        title: None,
        app_id: Some(String::from(".desktop")),
    }];
    assert_eq!(workspace_window_label(&windows[0]), "");
    assert_eq!(
        workspace_cast_title(1, None, None, None, &windows),
        "Workspace 1 - empty"
    );
}

#[test]
fn app_id_stems() {
    assert_eq!(workspace_window_app_id_stem("org.gnome.Nautilus"), "Nautilus");
    assert_eq!(workspace_window_app_id_stem("firefox"), "firefox");
    assert_eq!(workspace_window_app_id_stem("firefox.desktop"), "firefox");
    assert_eq!(workspace_window_app_id_stem("a.b."), "a.b.");
    assert_eq!(workspace_window_app_id_stem("a.b..desktop"), "a.b.");
    assert_eq!(workspace_window_app_id_stem("desktop"), "desktop");
    assert_eq!(workspace_window_app_id_stem("x.Desktop"), "Desktop");
    assert_eq!(workspace_window_app_id_stem(""), "");
    assert_eq!(workspace_window_app_id_stem("."), ".");
    assert_eq!(workspace_window_app_id_stem("é.ü.desktop"), "ü");
}

#[test]
fn inserting_replaces_in_place() {
    let mut windows = OrderedWindowProperties::new();
    windows.insert(5, properties("five"));
    windows.insert(3, properties("three"));
    windows.insert(5, properties("five again"));

    assert_eq!(windows.0.len(), 2);
    assert_eq!(windows.0[0].0, 5);
    assert_eq!(windows.0[1].0, 3);
    assert_eq!(windows.get(5).unwrap().title, "five again");
    assert_eq!(windows.get(3).unwrap().title, "three");
    assert!(windows.get(4).is_none());
}

#[test]
fn a_failed_request_is_an_internal_error() {
    let mut windows = OrderedWindowProperties::new();
    windows.insert(5, properties("five"));
    let answer = get_windows(Some(NiriToIntrospect::Windows(windows))).unwrap();
    assert_eq!(answer.get(5).unwrap().title, "five");

    assert_eq!(get_windows(None).unwrap_err(), "internal error");
}

#[test]
fn white_space_is_that_of_unicode() {
    for c in '\0'..=char::MAX {
        assert_eq!(is_white_space(c), c.is_whitespace(), "{c:?}");
    }
}

#[test]
fn trimming_takes_white_space_from_both_ends() {
    for text in ["", " ", "a", " a ", "\u{2003}a b\u{3000}\n", "\u{85}\u{a0}", "\u{200b}x"] {
        assert_eq!(trim(text), text.trim());
    }
}
