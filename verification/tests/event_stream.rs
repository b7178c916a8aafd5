use niri_windows::bits::DoubleBits;
use niri_windows::ipc::{
    BlockOutFrom, BlockOutState, BlockedLayerSurface, BlockedWindow, Cast, CastKind, CastTarget,
    Event, KeyboardLayouts, Layer, Timestamp, Window, WindowLayout, Workspace,
};
use niri_windows::state::block_out::{upsert_blocked_window, BlockOutStateState};
use niri_windows::state::casts::CastsState;
use niri_windows::state::keyboard_layouts::KeyboardLayoutsState;
use niri_windows::state::overview::{ConfigState, OverviewState};
use niri_windows::state::windows::WindowsState;
use niri_windows::state::workspaces::WorkspacesState;
use niri_windows::state::{EventStreamState, EventStreamStatePart};

fn double(value: f64) -> DoubleBits {
    DoubleBits { bits: value.to_bits() }
}

fn layout(width: i32) -> WindowLayout {
    WindowLayout {
        pos_in_scrolling_layout: Some((1, 1)),
        tile_size: (double(f64::from(width) + 4.), double(54.)),
        window_size: (width, 50),
        tile_pos_in_workspace_view: None,
        window_offset_in_tile: (double(2.), double(2.)),
    }
}

fn window(id: u64, is_focused: bool) -> Window {
    Window {
        id,
        title: Some(format!("window {id}")),
        app_id: None,
        pid: Some(100),
        workspace_id: Some(1),
        is_focused,
        is_floating: false,
        is_urgent: false,
        is_block_out: false,
        layout: layout(100),
        focus_timestamp: None,
    }
}

fn workspace(id: u64, output: &str, is_active: bool, is_focused: bool) -> Workspace {
    Workspace {
        id,
        idx: id as u8,
        name: None,
        output: Some(output.to_string()),
        is_urgent: false,
        is_active,
        is_focused,
        active_window_id: None,
    }
}

fn cast(stream_id: u64, is_active: bool) -> Cast {
    Cast {
        stream_id,
        session_id: 5,
        kind: CastKind::PipeWire,
        target: CastTarget::Output { name: String::from("DP-1") },
        is_dynamic_target: false,
        is_active,
        pid: None,
        pw_node_id: Some(44),
    }
}

fn blocked(id: u64, title: &str, block_out_from: BlockOutFrom) -> BlockedWindow {
    BlockedWindow {
        id,
        title: Some(title.to_string()),
        app_id: None,
        workspace_id: None,
        block_out_from,
    }
}

fn ids(windows: &[BlockedWindow]) -> Vec<u64> {
    windows.iter().map(|window| window.id).collect()
}

#[test]
fn block_out_state_replicates_and_applies_full_snapshot() {
    let block_out_state = BlockOutState {
        is_enabled: true,
        windows: vec![BlockedWindow {
            id: 1,
            title: Some(String::from("blocked")),
            app_id: Some(String::from("app")),
            workspace_id: Some(2),
            block_out_from: BlockOutFrom::Screencast,
        }],
        layers: vec![BlockedLayerSurface {
            namespace: String::from("layer"),
            output: String::from("headless-1"),
            layer: Layer::Top,
            block_out_from: BlockOutFrom::ScreenCapture,
        }],
    };

    let mut state = BlockOutStateState::default();
    assert!(state
        .apply(Event::BlockOutStateChanged {
            block_out_state: block_out_state.clone(),
        })
        .is_none());
    assert_eq!(state.block_out_state, Some(block_out_state.clone()));

    let events = state.replicate();
    assert_eq!(events.len(), 1);
    match &events[0] {
        Event::BlockOutStateChanged {
            block_out_state: got,
        } => assert_eq!(got, &block_out_state),
        event => panic!("unexpected event: {event:?}"),
    }
}

#[test]
fn block_out_state_patches_windows_and_enabled_flag() {
    let mut state = BlockOutStateState {
        block_out_state: Some(BlockOutState {
            is_enabled: true,
            windows: vec![BlockedWindow {
                id: 2,
                title: Some(String::from("second")),
                app_id: None,
                workspace_id: Some(9),
                block_out_from: BlockOutFrom::ScreenCapture,
            }],
            layers: vec![],
        }),
    };

    state.apply(Event::BlockOutWindowAddedOrChanged {
        window: BlockedWindow {
            id: 1,
            title: Some(String::from("first")),
            app_id: Some(String::from("app")),
            workspace_id: Some(3),
            block_out_from: BlockOutFrom::Screencast,
        },
    });
    state.apply(Event::BlockOutWindowAddedOrChanged {
        window: BlockedWindow {
            id: 2,
            title: Some(String::from("updated")),
            app_id: None,
            workspace_id: Some(10),
            block_out_from: BlockOutFrom::Screencast,
        },
    });
    state.apply(Event::BlockOutEnabledChanged { is_enabled: false });
    state.apply(Event::BlockOutWindowRemoved { id: 1 });

    let block_out_state = state.block_out_state.unwrap();
    assert!(!block_out_state.is_enabled);
    assert_eq!(block_out_state.windows.len(), 1);
    assert_eq!(block_out_state.windows[0].id, 2);
    assert_eq!(block_out_state.windows[0].title.as_deref(), Some("updated"));
    assert_eq!(block_out_state.windows[0].workspace_id, Some(10));
    assert_eq!(
        block_out_state.windows[0].block_out_from,
        BlockOutFrom::Screencast
    );
}

#[test]
fn event_stream_block_out_replicates_initial_snapshot() {
    let mut state = EventStreamState::default();
    state.apply(Event::BlockOutStateChanged {
        block_out_state: BlockOutState {
            is_enabled: true,
            windows: vec![blocked(3, "blocked", BlockOutFrom::ScreenCapture)],
            layers: vec![],
        },
    });

    let events = state.block_out.replicate();
    assert_eq!(events.len(), 1);
    let state = match events.into_iter().next().unwrap() {
        Event::BlockOutStateChanged { block_out_state } => block_out_state,
        event => panic!("unexpected event: {event:?}"),
    };
    assert!(state.is_enabled);
    assert_eq!(state.windows.len(), 1);
    assert_eq!(state.windows[0].title.as_deref(), Some("blocked"));
    assert_eq!(
        state.windows[0].block_out_from,
        BlockOutFrom::ScreenCapture
    );
}

#[test]
fn event_stream_block_out_tracks_runtime_window_toggle() {
    let mut state = EventStreamState::default();
    state.apply(Event::BlockOutStateChanged {
        block_out_state: BlockOutState {
            is_enabled: true,
            windows: vec![],
            layers: vec![],
        },
    });
    assert!(state.block_out.block_out_state.as_ref().unwrap().windows.is_empty());

    state.apply(Event::BlockOutWindowAddedOrChanged {
        window: blocked(3, "blocked", BlockOutFrom::Screencast),
    });
    let current = state.block_out.block_out_state.as_ref().unwrap();
    assert_eq!(current.windows.len(), 1);
    assert_eq!(current.windows[0].block_out_from, BlockOutFrom::Screencast);

    state.apply(Event::BlockOutWindowRemoved { id: 3 });
    assert!(state.block_out.block_out_state.as_ref().unwrap().windows.is_empty());
}

#[test]
fn event_stream_block_out_tracks_global_enable_toggle() {
    let mut state = EventStreamState::default();
    state.apply(Event::BlockOutStateChanged {
        block_out_state: BlockOutState {
            is_enabled: true,
            windows: vec![blocked(3, "blocked", BlockOutFrom::Screencast)],
            layers: vec![],
        },
    });
    assert!(state.block_out.block_out_state.as_ref().unwrap().is_enabled);

    state.apply(Event::BlockOutEnabledChanged { is_enabled: false });
    assert!(!state.block_out.block_out_state.as_ref().unwrap().is_enabled);

    state.apply(Event::BlockOutEnabledChanged { is_enabled: true });
    assert!(state.block_out.block_out_state.as_ref().unwrap().is_enabled);
}

#[test]
fn event_stream_block_out_tracks_layer_only_snapshot_updates() {
    let layers = || {
        vec![BlockedLayerSurface {
            namespace: String::from("blocked"),
            output: String::from("headless-1"),
            layer: Layer::Top,
            block_out_from: BlockOutFrom::Screencast,
        }]
    };
    let mut state = EventStreamState::default();
    state.apply(Event::BlockOutStateChanged {
        block_out_state: BlockOutState {
            is_enabled: true,
            windows: vec![],
            layers: layers(),
        },
    });

    let current = state.block_out.block_out_state.as_ref().unwrap();
    assert!(current.is_enabled);
    assert!(current.windows.is_empty());
    assert_eq!(current.layers.len(), 1);
    assert_eq!(current.layers[0].namespace, "blocked");

    state.apply(Event::BlockOutStateChanged {
        block_out_state: BlockOutState {
            is_enabled: false,
            windows: vec![],
            layers: layers(),
        },
    });

    let current = state.block_out.block_out_state.as_ref().unwrap();
    assert!(!current.is_enabled);
    assert_eq!(current.layers.len(), 1);
    assert_eq!(current.layers[0].block_out_from, BlockOutFrom::Screencast);
}

#[test]
fn block_out_events_start_from_an_empty_state() {
    let mut state = BlockOutStateState::default();
    assert!(state.replicate().is_empty());

    state.apply(Event::BlockOutWindowRemoved { id: 4 });
    assert_eq!(state.block_out_state, None);

    state.apply(Event::BlockOutWindowAddedOrChanged {
        window: blocked(4, "a", BlockOutFrom::Screencast),
    });
    let current = state.block_out_state.unwrap();
    assert!(!current.is_enabled);
    assert_eq!(ids(&current.windows), [4]);
    assert!(current.layers.is_empty());

    let mut state = BlockOutStateState::default();
    state.apply(Event::BlockOutEnabledChanged { is_enabled: true });
    let current = state.block_out_state.unwrap();
    assert!(current.is_enabled);
    assert!(current.windows.is_empty());
}

#[test]
fn blocked_windows_stay_in_the_order_of_their_ids() {
    let mut windows = vec![];
    for id in [5, 1, 3, 5, 2] {
        upsert_blocked_window(&mut windows, blocked(id, "w", BlockOutFrom::Screencast));
    }
    assert_eq!(ids(&windows), [1, 2, 3, 5]);

    upsert_blocked_window(&mut windows, blocked(3, "again", BlockOutFrom::ScreenCapture));
    assert_eq!(ids(&windows), [1, 2, 3, 5]);
    assert_eq!(windows[2].title.as_deref(), Some("again"));
    assert_eq!(windows[2].block_out_from, BlockOutFrom::ScreenCapture);
}

#[test]
fn opening_a_focused_window_takes_the_focus_from_the_others() {
    let mut state = WindowsState::default();
    state.apply(Event::WindowsChanged {
        windows: vec![window(1, true), window(2, false)],
    });
    state.apply(Event::WindowOpenedOrChanged {
        window: window(3, true),
    });
    assert!(!state.windows[&1].is_focused);
    assert!(!state.windows[&2].is_focused);
    assert!(state.windows[&3].is_focused);

    state.apply(Event::WindowOpenedOrChanged {
        window: window(4, false),
    });
    assert!(state.windows[&3].is_focused);
    assert_eq!(state.windows.len(), 4);
}

#[test]
fn window_events_change_only_what_they_name() {
    let mut state = WindowsState::default();
    state.apply(Event::WindowsChanged {
        windows: vec![window(1, true), window(2, false)],
    });

    state.apply(Event::WindowFocusChanged { id: Some(2) });
    assert!(!state.windows[&1].is_focused);
    assert!(state.windows[&2].is_focused);

    state.apply(Event::WindowFocusChanged { id: None });
    assert!(!state.windows[&2].is_focused);

    state.apply(Event::WindowUrgencyChanged { id: 2, urgent: true });
    assert!(!state.windows[&1].is_urgent);
    assert!(state.windows[&2].is_urgent);

    let timestamp = Some(Timestamp { secs: 3, nanos: 7 });
    state.apply(Event::WindowFocusTimestampChanged {
        id: 1,
        focus_timestamp: timestamp,
    });
    assert_eq!(state.windows[&1].focus_timestamp, timestamp);
    assert_eq!(state.windows[&2].focus_timestamp, None);

    state.apply(Event::WindowLayoutsChanged {
        changes: vec![(1, layout(300)), (1, layout(400))],
    });
    assert_eq!(state.windows[&1].layout, layout(400));
    assert_eq!(state.windows[&2].layout, layout(100));

    // Windows that are not there are passed over.
    state.apply(Event::WindowUrgencyChanged { id: 9, urgent: true });
    assert_eq!(state.windows.len(), 2);

    state.apply(Event::WindowClosed { id: 1 });
    assert_eq!(state.windows.len(), 1);
    assert_eq!(state.windows[&2].title.as_deref(), Some("window 2"));
}

#[test]
fn activating_a_workspace_affects_its_output_only() {
    let mut state = WorkspacesState::default();
    state.apply(Event::WorkspacesChanged {
        workspaces: vec![
            workspace(1, "DP-1", true, true),
            workspace(2, "DP-1", false, false),
            workspace(3, "DP-2", true, false),
        ],
    });

    state.apply(Event::WorkspaceActivated { id: 2, focused: true });
    assert!(!state.workspaces[&1].is_active);
    assert!(!state.workspaces[&1].is_focused);
    assert!(state.workspaces[&2].is_active);
    assert!(state.workspaces[&2].is_focused);
    assert!(state.workspaces[&3].is_active);

    state.apply(Event::WorkspaceActivated { id: 1, focused: false });
    assert!(state.workspaces[&1].is_active);
    assert!(!state.workspaces[&1].is_focused);
    assert!(!state.workspaces[&2].is_active);
    // The focus moves only when an event says so.
    assert!(state.workspaces[&2].is_focused);

    state.apply(Event::WorkspaceUrgencyChanged { id: 3, urgent: true });
    assert!(state.workspaces[&3].is_urgent);
    assert!(!state.workspaces[&1].is_urgent);

    state.apply(Event::WorkspaceActiveWindowChanged {
        workspace_id: 3,
        active_window_id: Some(8),
    });
    assert_eq!(state.workspaces[&3].active_window_id, Some(8));
    assert_eq!(state.workspaces[&1].active_window_id, None);
}

#[test]
fn keyboard_layouts_are_replicated_once_known() {
    let mut state = KeyboardLayoutsState::default();
    assert!(state.replicate().is_empty());

    state.apply(Event::KeyboardLayoutsChanged {
        keyboard_layouts: KeyboardLayouts {
            names: vec![String::from("us"), String::from("de")],
            current_idx: 0,
        },
    });
    state.apply(Event::KeyboardLayoutSwitched { idx: 1 });

    let events = state.replicate();
    assert_eq!(
        events,
        vec![Event::KeyboardLayoutsChanged {
            keyboard_layouts: KeyboardLayouts {
                names: vec![String::from("us"), String::from("de")],
                current_idx: 1,
            },
        }]
    );
}

#[test]
fn overview_and_config_keep_the_last_flag() {
    let mut overview = OverviewState::default();
    assert!(!overview.is_open);
    overview.apply(Event::OverviewOpenedOrClosed { is_open: true });
    assert_eq!(
        overview.replicate(),
        vec![Event::OverviewOpenedOrClosed { is_open: true }]
    );

    let mut config = ConfigState::default();
    assert!(!config.failed);
    config.apply(Event::ConfigLoaded { failed: true });
    assert_eq!(config.replicate(), vec![Event::ConfigLoaded { failed: true }]);
}

#[test]
fn casts_come_change_and_go() {
    let mut state = CastsState::default();
    state.apply(Event::CastsChanged {
        casts: vec![cast(1, false), cast(2, true)],
    });
    state.apply(Event::CastStartedOrChanged { cast: cast(1, true) });
    assert_eq!(state.casts.len(), 2);
    assert!(state.casts[&1].is_active);

    state.apply(Event::CastStopped { stream_id: 2 });
    assert_eq!(
        state.replicate(),
        vec![Event::CastsChanged {
            casts: vec![cast(1, true)],
        }]
    );
}

#[test]
fn parts_hand_back_the_events_of_others() {
    let mut windows = WindowsState::default();
    let event = Event::OverviewOpenedOrClosed { is_open: true };
    assert_eq!(
        windows.apply(event),
        Some(Event::OverviewOpenedOrClosed { is_open: true })
    );

    let mut state = EventStreamState::default();
    let event = Event::ScreenshotCaptured { path: Some(String::from("/tmp/a.png")) };
    assert_eq!(
        state.apply(event),
        Some(Event::ScreenshotCaptured {
            path: Some(String::from("/tmp/a.png"))
        })
    );
}

#[test]
fn a_snapshot_restores_the_full_state() {
    let mut state = EventStreamState::default();
    let events = vec![
        Event::WorkspacesChanged {
            workspaces: vec![
                workspace(1, "DP-1", true, true),
                workspace(2, "DP-1", false, false),
            ],
        },
        Event::WorkspaceActiveWindowChanged {
            workspace_id: 1,
            active_window_id: Some(7),
        },
        Event::WindowOpenedOrChanged {
            window: window(7, true),
        },
        Event::WindowOpenedOrChanged {
            window: window(8, true),
        },
        Event::KeyboardLayoutsChanged {
            keyboard_layouts: KeyboardLayouts {
                names: vec![String::from("us")],
                current_idx: 0,
            },
        },
        Event::OverviewOpenedOrClosed { is_open: true },
        Event::ConfigLoaded { failed: true },
        Event::BlockOutWindowAddedOrChanged {
            window: blocked(7, "w", BlockOutFrom::ScreenCapture),
        },
        Event::CastStartedOrChanged { cast: cast(3, true) },
    ];
    for event in events {
        assert_eq!(state.apply(event), None);
    }

    let mut restored = EventStreamState::default();
    let snapshot = state.replicate();
    assert_eq!(snapshot.len(), 7);
    for event in snapshot {
        assert_eq!(restored.apply(event), None);
    }

    assert_eq!(restored.workspaces.workspaces, state.workspaces.workspaces);
    assert_eq!(restored.windows.windows, state.windows.windows);
    assert!(!restored.windows.windows[&7].is_focused);
    assert!(restored.windows.windows[&8].is_focused);
    assert_eq!(
        restored.keyboard_layouts.keyboard_layouts,
        state.keyboard_layouts.keyboard_layouts
    );
    assert!(restored.overview.is_open);
    assert!(restored.config.failed);
    assert_eq!(
        restored.block_out.block_out_state,
        state.block_out.block_out_state
    );
    assert_eq!(restored.casts.casts, state.casts.casts);
}

#[test]
fn layouts_compare_as_numbers() {
    let at = |x: f64| {
        let mut window = window(1, true);
        window.layout.tile_pos_in_workspace_view = Some((double(x), double(3.)));
        window
    };
    assert_eq!(at(0.).layout, at(-0.).layout);
    assert_eq!(at(0.), at(-0.));
    assert_ne!(at(0.), at(1.));
    assert_ne!(at(f64::NAN), at(f64::NAN));
    let event = |x: f64| Event::WindowOpenedOrChanged { window: at(x) };
    assert_eq!(event(0.), event(-0.));
    assert_ne!(event(f64::NAN), event(f64::NAN));
}
