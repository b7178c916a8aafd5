use niri_windows::appearance::{BackgroundEffect, Blur, CornerRadius};
use niri_windows::bits::{DoubleBits, SingleBits};
use niri_windows::geometry::{Point, Rect, Size};
use niri_windows::ipc::{BlockOutFrom, Timestamp};
use niri_windows::serial::Serial;
use niri_windows::transform::Transform;
use niri_windows::window::activation::SurfaceActivatedEntries;
use niri_windows::window::id::{IdCounter, MappedId};
use niri_windows::window::mapped::configure::ConfigureIntent;
use niri_windows::window::mapped::render::{
    uses_border, BlockOutTarget, ElementKind, NormalPlan, Popup, PopupKind, ViewportSize,
};
use niri_windows::window::mapped::{
    frame_callback_output, Credentials, Mapped, MirrorCenter, MirrorViewState,
};
use niri_windows::window::offscreen::{ElementState, Presentation, RenderedElements};
use niri_windows::window::resize::{InteractiveResizeData, ResizeEdge};
use niri_windows::window::rules::ResolvedWindowRules;
use niri_windows::window::toplevel::{
    Capabilities, DecorationMode, SizingMode, Toplevel, ToplevelConfigure, ToplevelFlag,
    ToplevelState, ToplevelStateSet,
};
use niri_windows::window_rule::ResolvedPopupsRules;

type TestMapped = Mapped<&'static str, u32>;

fn single(value: f32) -> SingleBits {
    SingleBits { bits: value.to_bits() }
}

fn double(value: f64) -> DoubleBits {
    DoubleBits { bits: value.to_bits() }
}

fn blur() -> Blur {
    Blur {
        off: false,
        passes: 3,
        offset: double(3.),
        noise: double(0.02),
        saturation: double(1.5),
    }
}

fn rules() -> ResolvedWindowRules {
    ResolvedWindowRules {
        draw_border_with_background: None,
        opacity: None,
        geometry_corner_radius: None,
        clip_to_geometry: None,
        block_out_from: None,
        cursor_capture: None,
        tiled_state: None,
        background_effect: BackgroundEffect::default(),
        popups: ResolvedPopupsRules::default(),
        layout_rules: vec![1, 2],
    }
}

fn state(size: Option<Size>, flags: &[ToplevelFlag]) -> ToplevelState {
    ToplevelState {
        size,
        bounds: None,
        states: ToplevelStateSet {
            states: flags.to_vec(),
        },
        fullscreen_output: None,
        decoration_mode: None,
        capabilities: Capabilities {
            window_menu: false,
            maximize: true,
            fullscreen: true,
            minimize: false,
        },
    }
}

fn size(w: i32, h: i32) -> Size {
    Size { w, h }
}

fn toplevel(w: i32, h: i32) -> Toplevel {
    Toplevel {
        geometry: Rect {
            loc: Point { x: 5, y: 7 },
            size: size(w, h),
        },
        committed: Some(state(None, &[])),
        server_pending: None,
        current_server: state(None, &[]),
        last_uncommitted: None,
        committed_serial: Some(Serial(1)),
    }
}

/// Sends a configure if the window wants to, as the host does.
fn configure(mapped: &mut TestMapped, toplevel: &mut Toplevel, serial: u32) -> bool {
    if !mapped.send_pending_configure(toplevel) {
        return false;
    }
    let told = toplevel.pending().copied();
    toplevel.current_server = told.copied();
    toplevel.server_pending = None;
    toplevel.last_uncommitted = Some(ToplevelConfigure {
        state: told,
        serial: Serial(serial),
    });
    mapped.configure_sent(Serial(serial));
    true
}

/// Lets the client commit to the last configure, with a size.
fn commit(mapped: &mut TestMapped, toplevel: &mut Toplevel, serial: u32, w: i32, h: i32) {
    toplevel.committed = Some(toplevel.current_server.copied());
    toplevel.committed_serial = Some(Serial(serial));
    toplevel.last_uncommitted = None;
    toplevel.geometry.size = size(w, h);
    mapped.on_commit(Serial(serial));
}

fn open_with(ids: &mut IdCounter, rules: ResolvedWindowRules) -> (TestMapped, Toplevel) {
    let toplevel = toplevel(40, 30);
    let mapped = Mapped::new(ids, &toplevel, rules, None, blur());
    (mapped, toplevel)
}

fn open() -> (TestMapped, Toplevel) {
    open_with(&mut IdCounter::new(), rules())
}

fn shows_contents(plan: NormalPlan) -> bool {
    match plan {
        NormalPlan::BlockedOut { .. } => false,
        NormalPlan::Surfaces { .. } => true,
        NormalPlan::Mirror { contents, .. } => contents,
    }
}

/// Whether a window cast shows the window, with blocking out enabled or not.
fn is_cast(mapped: &TestMapped, toplevel: &Toplevel, block_out_enabled: bool) -> bool {
    let plan = mapped.render_for_screen_cast(toplevel, toplevel.geometry, block_out_enabled);
    assert_eq!(plan.window, mapped.render_normal(toplevel, plan.target));
    shows_contents(plan.window)
}

fn popup(kind: PopupKind) -> Popup {
    Popup {
        kind,
        offset: Point { x: 10, y: 20 },
        geometry: Rect {
            loc: Point { x: 3, y: 4 },
            size: size(30, 15),
        },
    }
}

#[test]
fn toggle_window_cursor_capture_enables_and_disables_ruleless_window() {
    let (mut mapped, _) = open();

    assert!(!mapped.effective_cursor_capture());

    mapped.toggle_cursor_capture_window_rule();
    assert!(mapped.effective_cursor_capture());

    mapped.toggle_cursor_capture_window_rule();
    assert!(!mapped.effective_cursor_capture());
}

#[test]
fn toggle_window_cursor_capture_disables_and_restores_configured_rule() {
    let mut configured = rules();
    configured.cursor_capture = Some(true);
    let (mut mapped, _) = open_with(&mut IdCounter::new(), configured);

    assert!(mapped.effective_cursor_capture());

    mapped.toggle_cursor_capture_window_rule();
    assert!(!mapped.effective_cursor_capture());

    mapped.toggle_cursor_capture_window_rule();
    assert!(mapped.effective_cursor_capture());
}

#[test]
fn toggling_cursor_capture_leaves_other_windows_alone() {
    let mut ids = IdCounter::new();
    let (mut sticky, _) = open_with(&mut ids, rules());
    let (tiling, _) = open_with(&mut ids, rules());
    sticky.set_sticky(true);

    assert!(!sticky.effective_cursor_capture());
    assert!(!tiling.effective_cursor_capture());

    sticky.toggle_cursor_capture_window_rule();

    assert!(sticky.effective_cursor_capture());
    assert!(!tiling.effective_cursor_capture());
}

#[test]
fn toggle_block_out_window_enables_and_disables_ruleless_window() {
    let (mut mapped, toplevel) = open();

    assert!(!mapped.is_block_out());

    mapped.toggle_block_out_window_rule();
    assert!(mapped.is_block_out());
    assert!(!is_cast(&mapped, &toplevel, true));

    mapped.toggle_block_out_window_rule();
    assert!(!mapped.is_block_out());
    assert!(is_cast(&mapped, &toplevel, true));
}

#[test]
fn toggling_block_out_leaves_other_windows_alone() {
    let mut ids = IdCounter::new();
    let (mut sticky, _) = open_with(&mut ids, rules());
    let (tiling, _) = open_with(&mut ids, rules());
    sticky.set_sticky(true);

    assert!(!sticky.is_block_out());
    assert!(!tiling.is_block_out());

    sticky.toggle_block_out_window_rule();

    assert!(sticky.is_block_out());
    assert!(!tiling.is_block_out());
}

#[test]
fn toggle_block_out_window_disables_and_restores_configured_rule() {
    let mut configured = rules();
    configured.block_out_from = Some(BlockOutFrom::ScreenCapture);
    let (mut mapped, toplevel) = open_with(&mut IdCounter::new(), configured);

    assert!(mapped.is_block_out());

    mapped.toggle_block_out_window_rule();
    assert!(!mapped.is_block_out());
    assert!(is_cast(&mapped, &toplevel, true));

    mapped.toggle_block_out_window_rule();
    assert!(mapped.is_block_out());
    assert_eq!(
        mapped.effective_block_out_from(),
        Some(BlockOutFrom::ScreenCapture)
    );
    assert!(!is_cast(&mapped, &toplevel, true));
}

#[test]
fn toggle_block_out_globally_disables_window_rendering_but_not_window_state() {
    let mut configured = rules();
    configured.block_out_from = Some(BlockOutFrom::Screencast);
    let (mapped, toplevel) = open_with(&mut IdCounter::new(), configured);

    assert!(mapped.is_block_out());
    assert!(!is_cast(&mapped, &toplevel, true));

    assert!(is_cast(&mapped, &toplevel, false));
    assert!(mapped.is_block_out());

    assert!(!is_cast(&mapped, &toplevel, true));
}

#[test]
fn block_out_state_reports_runtime_window_toggle_scope() {
    let (mut mapped, _) = open();
    assert_eq!(mapped.effective_block_out_from(), None);

    mapped.toggle_block_out_window_rule();
    assert_eq!(
        mapped.effective_block_out_from(),
        Some(BlockOutFrom::Screencast)
    );

    mapped.toggle_block_out_window_rule();
    assert_eq!(mapped.effective_block_out_from(), None);
}

#[test]
fn blocked_window_cast_is_fully_transparent() {
    let mut configured = rules();
    configured.block_out_from = Some(BlockOutFrom::Screencast);
    let (mapped, toplevel) = open_with(&mut IdCounter::new(), configured);

    let plan = mapped.render_for_screen_cast(&toplevel, toplevel.geometry, true);
    assert_eq!(plan.window, NormalPlan::BlockedOut { size: size(40, 30) });
    let popups = vec![popup(PopupKind::Xdg), popup(PopupKind::InputMethod)];
    assert!(mapped.render_popups(&popups, plan.target).is_empty());
    assert!(mapped.render_background_effect(&toplevel, plan.target).is_none());

    let plan = mapped.render_for_screen_cast(&toplevel, toplevel.geometry, false);
    assert_eq!(mapped.render_popups(&popups, plan.target).len(), 2);
    assert!(mapped.render_background_effect(&toplevel, plan.target).is_some());
}

#[test]
fn mirror_windows_resize_independently_from_each_other() {
    let mut ids = IdCounter::new();
    let mut toplevel = toplevel(40, 20);
    let source: TestMapped = Mapped::new(&mut ids, &toplevel, rules(), None, blur());
    let mut mirror1 = Mapped::new_mirror(&mut ids, &source, &toplevel);
    let mut mirror2 = Mapped::new_mirror(&mut ids, &source, &toplevel);

    mirror1.set_floating(true);
    mirror1.request_size(&mut toplevel, size(80, 80), SizingMode::Normal, false, None);
    mirror2.set_floating(true);
    mirror2.request_size(&mut toplevel, size(20, 60), SizingMode::Normal, false, None);

    let bbox = toplevel.geometry;
    assert_eq!(mirror1.window_cast_bbox(bbox).size, size(80, 80));
    assert!(is_cast(&mirror1, &toplevel, true));
    assert_eq!(mirror2.window_cast_bbox(bbox).size, size(20, 60));
    assert!(is_cast(&mirror2, &toplevel, true));
    assert_eq!(source.size(&toplevel), size(40, 20));
}

#[test]
fn blocked_mirror_window_cast_is_fully_transparent() {
    let mut ids = IdCounter::new();
    let mut configured = rules();
    configured.block_out_from = Some(BlockOutFrom::Screencast);
    let (source, mut toplevel) = open_with(&mut ids, configured);
    let mut mirror = Mapped::new_mirror(&mut ids, &source, &toplevel);
    mirror.request_size(&mut toplevel, size(80, 80), SizingMode::Normal, false, None);

    let plan = mirror.render_for_screen_cast(&toplevel, toplevel.geometry, true);
    assert_eq!(plan.bbox.size, size(80, 80));
    assert_eq!(
        plan.window,
        NormalPlan::Mirror {
            namespace: 2,
            size: size(80, 80),
            view: MirrorViewState::whole(),
            contents: false
        }
    );
    let popups = vec![popup(PopupKind::Xdg)];
    assert!(mirror.render_popups(&popups, plan.target).is_empty());
    assert!(mirror.render_background_effect(&toplevel, plan.target).is_none());

    let plan = mirror.render_for_screen_cast(&toplevel, toplevel.geometry, false);
    assert!(shows_contents(plan.window));
    assert_eq!(mirror.render_popups(&popups, plan.target).len(), 1);
}

#[test]
fn mirror_from_floating_source_starts_floating_and_is_independent() {
    let mut ids = IdCounter::new();
    let (mut source, toplevel) = open_with(&mut ids, rules());
    source.set_floating(true);

    let mirror = Mapped::new_mirror(&mut ids, &source, &toplevel);
    assert!(source.is_floating());
    assert!(mirror.is_floating());

    source.set_floating(false);
    assert!(!source.is_floating());
    assert!(mirror.is_floating());
}

#[test]
fn mirror_window_cast_bbox_matches_mirror_viewport() {
    let mut ids = IdCounter::new();
    let (source, mut toplevel) = open_with(&mut ids, rules());
    let mut mirror = Mapped::new_mirror(&mut ids, &source, &toplevel);
    mirror.request_size(&mut toplevel, size(20, 10), SizingMode::Normal, false, None);

    let bbox = Rect {
        loc: Point { x: -3, y: -4 },
        size: size(60, 50),
    };
    assert_eq!(mirror.window_cast_bbox(bbox).size, size(20, 10));
    assert_eq!(mirror.window_cast_bbox(bbox).loc, Point { x: 0, y: 0 });
    assert_eq!(source.window_cast_bbox(bbox), bbox);
}

#[test]
fn ids_count_up_and_read_back() {
    let mut ids = IdCounter::new();
    let first = MappedId::next(&mut ids);
    let second = MappedId::next(&mut ids);
    assert_eq!(first.get(), 1);
    assert_eq!(second.get(), 2);
    assert_ne!(first, second);
    assert_eq!(second.to_protocol_identifier(), "2");

    let mut last = first;
    for _ in 0..1234 {
        last = MappedId::next(&mut ids);
    }
    assert_eq!(last.get(), 1236);
    assert_eq!(last.to_protocol_identifier().parse::<u64>().unwrap(), 1236);
}

#[test]
fn opened_windows_start_as_their_toplevel_is() {
    let mut ids = IdCounter::new();
    let mut maximized = toplevel(40, 30);
    maximized.committed = Some(state(None, &[ToplevelFlag::Maximized]));
    maximized.server_pending = Some(state(None, &[ToplevelFlag::Fullscreen]));
    let credentials = Credentials {
        pid: 12,
        uid: 1000,
        gid: 100,
    };
    let mapped: TestMapped = Mapped::new(&mut ids, &maximized, rules(), Some(credentials), blur());

    assert_eq!(mapped.id().get(), 1);
    assert_eq!(mapped.source_id(), mapped.id());
    assert!(!mapped.is_mirror());
    assert_eq!(mapped.element_namespace(), None);
    assert_eq!(mapped.credentials(), Some(credentials));
    assert_eq!(mapped.sizing_mode(&maximized), SizingMode::Maximized);
    assert_eq!(mapped.pending_sizing_mode(&maximized), SizingMode::Fullscreen);
    assert!(mapped.is_active_in_column());
    assert!(!mapped.is_focused());
    assert!(!mapped.is_urgent());
    assert!(!mapped.is_sticky());
    assert!(!mapped.is_window_cast_target());
    assert!(mapped.offscreen_data().is_none());
    assert_eq!(mapped.get_focus_timestamp(), None);
    assert_eq!(mapped.last_interactive_resize_start(), None);
}

#[test]
fn mirrors_point_at_the_real_window() {
    let mut ids = IdCounter::new();
    let mut configured = rules();
    configured.clip_to_geometry = Some(false);
    let (mut source, mut toplevel) = open_with(&mut ids, configured);
    source.toggle_block_out_window_rule();
    source.set_sticky(true);

    let mut mirror = Mapped::new_mirror(&mut ids, &source, &toplevel);
    assert!(mirror.is_mirror());
    assert_eq!(mirror.id().get(), 2);
    assert_eq!(mirror.source_id(), source.id());
    assert_eq!(mirror.element_namespace(), Some(2));
    assert_eq!(mirror.size(&toplevel), size(40, 30));
    assert!(mirror.is_block_out());
    assert!(!mirror.is_sticky());
    assert_eq!(mirror.rules().clip_to_geometry, Some(true));
    assert_eq!(mirror.rules().draw_border_with_background, Some(false));
    assert_eq!(source.rules().clip_to_geometry, Some(false));
    assert_eq!(mirror.sizing_mode(&toplevel), SizingMode::Normal);

    mirror.request_size(&mut toplevel, size(0, -5), SizingMode::Maximized, true, Some("t"));
    assert_eq!(mirror.size(&toplevel), size(1, 1));

    let again = Mapped::new_mirror(&mut ids, &mirror, &toplevel);
    assert_eq!(again.source_id(), source.id());
    assert_eq!(again.size(&toplevel), size(1, 1));
    assert_eq!(again.sizing_mode(&toplevel), SizingMode::Normal);
}

#[test]
fn mirrors_leave_the_toplevel_alone() {
    let mut ids = IdCounter::new();
    let (source, mut toplevel) = open_with(&mut ids, rules());
    let mut mirror = Mapped::new_mirror(&mut ids, &source, &toplevel);

    mirror.set_needs_configure();
    mirror.request_size(&mut toplevel, size(9, 9), SizingMode::Fullscreen, true, Some("t"));
    assert!(mirror.element_is_windowed_fullscreen());
    assert!(!mirror.is_windowed_fullscreen());
    mirror.request_size_once(&mut toplevel, size(8, 8), true);
    mirror.request_windowed_fullscreen(&mut toplevel, true);
    assert!(mirror.is_pending_windowed_fullscreen());
    mirror.set_bounds(&mut toplevel, size(3, 3));
    let data = InteractiveResizeData {
        edges: ResizeEdge { bits: 4 },
    };
    mirror.set_interactive_resize(&mut toplevel, Some(data));
    assert_eq!(mirror.interactive_resize_data(), Some(data));
    mirror.on_commit(Serial(5));
    mirror.set_interactive_resize(&mut toplevel, None);
    assert_eq!(mirror.interactive_resize_data(), None);

    assert!(toplevel.server_pending.is_none());
    assert_eq!(mirror.configure_intent(&toplevel), ConfigureIntent::NotNeeded);
    assert!(!mirror.send_pending_configure(&mut toplevel));
    assert_eq!(mirror.expected_size(&toplevel), Some(size(8, 8)));
    assert_eq!(mirror.requested_size(&toplevel), Some(size(8, 8)));
    assert_eq!(mirror.min_size(size(50, 50)), size(1, 1));
    assert_eq!(mirror.max_size(size(50, 50)), size(0, 0));
    assert_eq!(source.min_size(size(50, 50)), size(50, 50));
    assert_eq!(source.max_size(size(50, 50)), size(50, 50));
    assert!(!mirror.is_wl_surface(3, 3));
    assert!(source.is_wl_surface(3, 3));
    assert!(!source.is_wl_surface(3, 4));
    assert!(source.owns_surfaces());
    assert!(!mirror.owns_surfaces());
    assert_eq!(mirror.update_tiled_state(), None);
    assert_eq!(source.update_tiled_state(), Some(None));
}

#[test]
fn size_requests_wait_for_the_client() {
    let (mut mapped, mut toplevel) = open();
    assert_eq!(mapped.configure_intent(&toplevel), ConfigureIntent::NotNeeded);
    assert_eq!(mapped.expected_size(&toplevel), Some(size(40, 30)));

    mapped.request_size(&mut toplevel, size(100, 80), SizingMode::Normal, true, Some("first"));
    assert_eq!(mapped.requested_size(&toplevel), Some(size(100, 80)));
    assert_eq!(mapped.expected_size(&toplevel), Some(size(100, 80)));
    assert_eq!(mapped.configure_intent(&toplevel), ConfigureIntent::CanSend);
    assert!(configure(&mut mapped, &mut toplevel, 10));
    assert_eq!(mapped.configure_intent(&toplevel), ConfigureIntent::NotNeeded);
    assert!(!configure(&mut mapped, &mut toplevel, 11));
    assert_eq!(mapped.expected_size(&toplevel), Some(size(100, 80)));

    // The client has not answered yet.
    mapped.request_size(&mut toplevel, size(120, 80), SizingMode::Normal, false, Some("second"));
    assert_eq!(mapped.configure_intent(&toplevel), ConfigureIntent::Throttled);
    mapped.set_bounds(&mut toplevel, size(500, 500));
    assert_eq!(mapped.configure_intent(&toplevel), ConfigureIntent::ShouldSend);
    assert!(configure(&mut mapped, &mut toplevel, 12));
    assert!(mapped.take_needs_frame_callback());
    assert!(!mapped.take_needs_frame_callback());

    assert_eq!(mapped.take_pending_transaction(Serial(9)), None);
    assert!(!mapped.should_animate_commit(Serial(9)));
    assert_eq!(mapped.take_pending_transaction(Serial(12)), Some("second"));
    assert_eq!(mapped.take_pending_transaction(Serial(12)), None);
    assert!(mapped.should_animate_commit(Serial(12)));
    assert!(!mapped.should_animate_commit(Serial(12)));
    commit(&mut mapped, &mut toplevel, 12, 120, 80);
    assert_eq!(mapped.expected_size(&toplevel), Some(size(120, 80)));
}

#[test]
fn an_unmapped_window_is_told_everything() {
    let (mut mapped, mut toplevel) = open();
    toplevel.committed = None;
    assert_eq!(mapped.sizing_mode(&toplevel), SizingMode::Normal);
    mapped.request_size(&mut toplevel, size(100, 80), SizingMode::Normal, false, None);
    assert_eq!(mapped.configure_intent(&toplevel), ConfigureIntent::ShouldSend);
}

#[test]
fn the_order_of_states_counts_as_a_change() {
    let (mapped, mut toplevel) = open();
    let flags = [ToplevelFlag::Activated, ToplevelFlag::TiledLeft];
    toplevel.current_server = state(None, &flags);
    toplevel.server_pending = Some(state(None, &flags));
    assert_eq!(mapped.configure_intent(&toplevel), ConfigureIntent::NotNeeded);
    let turned = [ToplevelFlag::TiledLeft, ToplevelFlag::Activated];
    toplevel.server_pending = Some(state(None, &turned));
    assert_eq!(mapped.configure_intent(&toplevel), ConfigureIntent::ShouldSend);
}

#[test]
fn transactions_of_skipped_configures_are_completed_too() {
    let (mut mapped, mut toplevel) = open();
    for (i, name) in ["a", "b", "c"].into_iter().enumerate() {
        let wanted = size(50 + i as i32, 50);
        mapped.request_size(&mut toplevel, wanted, SizingMode::Normal, true, Some(name));
        assert!(configure(&mut mapped, &mut toplevel, 20 + i as u32));
    }
    assert_eq!(mapped.take_pending_transaction(Serial(21)), Some("b"));
    assert!(mapped.should_animate_commit(Serial(21)));
    assert_eq!(mapped.take_pending_transaction(Serial(21)), None);
    assert_eq!(mapped.take_pending_transaction(Serial(22)), Some("c"));
    assert!(mapped.should_animate_commit(Serial(22)));
}

#[test]
fn maximizing_takes_effect_with_the_commit() {
    let (mut mapped, mut toplevel) = open();
    mapped.request_size(&mut toplevel, size(800, 600), SizingMode::Maximized, false, None);
    assert_eq!(mapped.pending_sizing_mode(&toplevel), SizingMode::Maximized);
    assert_eq!(mapped.sizing_mode(&toplevel), SizingMode::Normal);
    assert_eq!(mapped.configure_intent(&toplevel), ConfigureIntent::ShouldSend);
    assert_eq!(mapped.expected_size(&toplevel), None);
    assert!(configure(&mut mapped, &mut toplevel, 5));
    commit(&mut mapped, &mut toplevel, 5, 800, 600);
    assert_eq!(mapped.sizing_mode(&toplevel), SizingMode::Maximized);
    assert_eq!(mapped.expected_size(&toplevel), None);

    // Back to a size of its own choice: the current size is none of its own.
    mapped.request_size(&mut toplevel, size(0, 50), SizingMode::Normal, false, None);
    assert_eq!(mapped.expected_size(&toplevel), None);
    assert!(configure(&mut mapped, &mut toplevel, 6));
    commit(&mut mapped, &mut toplevel, 6, 44, 50);
    assert_eq!(mapped.expected_size(&toplevel), Some(size(44, 50)));

    mapped.request_size(&mut toplevel, size(0, 70), SizingMode::Normal, false, None);
    assert_eq!(mapped.expected_size(&toplevel), Some(size(44, 70)));
}

#[test]
fn windowed_fullscreen_takes_effect_with_the_commit() {
    let (mut mapped, mut toplevel) = open();
    mapped.request_windowed_fullscreen(&mut toplevel, true);
    assert!(mapped.is_pending_windowed_fullscreen());
    assert!(!mapped.is_windowed_fullscreen());
    assert_eq!(mapped.pending_sizing_mode(&toplevel), SizingMode::Normal);
    assert!(toplevel.pending().states.contains(ToplevelFlag::Fullscreen));
    assert!(configure(&mut mapped, &mut toplevel, 5));
    commit(&mut mapped, &mut toplevel, 5, 40, 30);
    assert!(mapped.is_windowed_fullscreen());
    assert!(mapped.element_is_windowed_fullscreen());
    assert_eq!(mapped.sizing_mode(&toplevel), SizingMode::Normal);
    assert_eq!(mapped.expected_size(&toplevel), Some(size(40, 30)));

    // Maximized windowed fullscreen stays fullscreen for the client.
    mapped.request_size(&mut toplevel, size(800, 600), SizingMode::Maximized, false, None);
    assert!(toplevel.pending().states.contains(ToplevelFlag::Fullscreen));
    assert!(!toplevel.pending().states.contains(ToplevelFlag::Maximized));
    assert_eq!(mapped.pending_sizing_mode(&toplevel), SizingMode::Maximized);
    assert!(configure(&mut mapped, &mut toplevel, 6));
    commit(&mut mapped, &mut toplevel, 6, 800, 600);
    assert_eq!(mapped.sizing_mode(&toplevel), SizingMode::Maximized);

    mapped.request_windowed_fullscreen(&mut toplevel, false);
    assert!(!toplevel.pending().states.contains(ToplevelFlag::Fullscreen));
    assert!(toplevel.pending().states.contains(ToplevelFlag::Maximized));
    assert!(configure(&mut mapped, &mut toplevel, 7));
    commit(&mut mapped, &mut toplevel, 7, 800, 600);
    assert!(!mapped.is_windowed_fullscreen());
    assert_eq!(mapped.sizing_mode(&toplevel), SizingMode::Maximized);
}

#[test]
fn real_fullscreen_ends_windowed_fullscreen() {
    let (mut mapped, mut toplevel) = open();
    mapped.request_windowed_fullscreen(&mut toplevel, true);
    assert!(configure(&mut mapped, &mut toplevel, 5));
    commit(&mut mapped, &mut toplevel, 5, 40, 30);

    toplevel.current_server.size = Some(size(640, 480));
    mapped.request_size(&mut toplevel, size(640, 480), SizingMode::Fullscreen, false, None);
    // Nothing changes for the client, and yet a commit has to come.
    assert!(toplevel.pending().same(&toplevel.current_server));
    assert_eq!(mapped.configure_intent(&toplevel), ConfigureIntent::ShouldSend);
    assert!(mapped.is_windowed_fullscreen());
    assert!(configure(&mut mapped, &mut toplevel, 6));
    commit(&mut mapped, &mut toplevel, 6, 640, 480);
    assert!(!mapped.is_windowed_fullscreen());
    assert_eq!(mapped.sizing_mode(&toplevel), SizingMode::Fullscreen);
}

#[test]
fn commits_are_counted_across_the_wrap_around() {
    let (mut mapped, mut toplevel) = open();
    mapped.request_windowed_fullscreen(&mut toplevel, true);
    assert!(configure(&mut mapped, &mut toplevel, u32::MAX - 1));
    mapped.request_windowed_fullscreen(&mut toplevel, false);
    assert!(configure(&mut mapped, &mut toplevel, 3));

    mapped.on_commit(Serial(u32::MAX));
    assert!(mapped.is_windowed_fullscreen());
    mapped.on_commit(Serial(4));
    assert!(!mapped.is_windowed_fullscreen());
}

#[test]
fn serials_compare_by_distance() {
    assert!(Serial(5).is_no_older_than(Serial(5)));
    assert!(Serial(6).is_no_older_than(Serial(5)));
    assert!(!Serial(5).is_no_older_than(Serial(6)));
    assert!(Serial(0).is_no_older_than(Serial(u32::MAX)));
    assert!(!Serial(u32::MAX).is_no_older_than(Serial(0)));
    assert!(Serial(0x7fff_fffe).is_no_older_than(Serial(0)));
    assert!(!Serial(0x7fff_ffff).is_no_older_than(Serial(0)));
}

#[test]
fn a_size_requested_once_is_left_to_the_window() {
    let (mut mapped, mut toplevel) = open();
    mapped.request_size_once(&mut toplevel, size(90, 70), true);
    assert_eq!(mapped.expected_size(&toplevel), Some(size(90, 70)));
    assert!(configure(&mut mapped, &mut toplevel, 5));
    assert!(mapped.should_animate_commit(Serial(5)));

    // Asking again for the size that was already sent.
    mapped.request_size_once(&mut toplevel, size(90, 70), true);
    assert!(toplevel.server_pending.is_none());
    assert!(!configure(&mut mapped, &mut toplevel, 6));

    // The window chooses another size, and keeps it.
    commit(&mut mapped, &mut toplevel, 5, 95, 75);
    assert_eq!(mapped.expected_size(&toplevel), Some(size(95, 75)));
    toplevel.pending_mut().size = Some(size(10, 10));
    assert_eq!(mapped.configure_intent(&toplevel), ConfigureIntent::CanSend);
    assert!(!configure(&mut mapped, &mut toplevel, 6));

    // A configure for another reason tells the window its own size.
    mapped.set_needs_configure();
    assert!(configure(&mut mapped, &mut toplevel, 7));
    assert_eq!(toplevel.current_server.size, Some(size(95, 75)));
}

#[test]
fn a_size_already_answered_is_used_right_away() {
    let (mut mapped, mut toplevel) = open();
    toplevel.last_uncommitted = Some(ToplevelConfigure {
        state: state(Some(size(90, 70)), &[]),
        serial: Serial(5),
    });
    toplevel.committed_serial = Some(Serial(5));
    mapped.request_size_once(&mut toplevel, size(90, 70), false);
    assert_eq!(mapped.expected_size(&toplevel), Some(size(40, 30)));

    let (mut mapped, mut toplevel) = open();
    toplevel.last_uncommitted = Some(ToplevelConfigure {
        state: state(None, &[]),
        serial: Serial(5),
    });
    toplevel.committed_serial = None;
    mapped.request_size_once(&mut toplevel, size(0, 0), false);
    assert_eq!(mapped.expected_size(&toplevel), Some(size(40, 30)));

    // A configure that unfullscreens does not count.
    let (mut mapped, mut toplevel) = open();
    toplevel.last_uncommitted = Some(ToplevelConfigure {
        state: state(Some(size(90, 70)), &[ToplevelFlag::Fullscreen]),
        serial: Serial(5),
    });
    mapped.request_size_once(&mut toplevel, size(90, 70), false);
    assert_eq!(toplevel.pending().size, Some(size(90, 70)));
}

#[test]
fn an_interactive_resize_ends_with_its_last_commit() {
    let (mut mapped, mut toplevel) = open();
    let data = InteractiveResizeData {
        edges: ResizeEdge { bits: 10 },
    };
    mapped.set_interactive_resize(&mut toplevel, Some(data));
    assert!(toplevel.pending().states.contains(ToplevelFlag::Resizing));
    assert!(configure(&mut mapped, &mut toplevel, 5));
    mapped.set_interactive_resize(&mut toplevel, None);
    assert_eq!(mapped.interactive_resize_data(), Some(data));
    assert!(configure(&mut mapped, &mut toplevel, 6));
    mapped.on_commit(Serial(5));
    assert_eq!(mapped.interactive_resize_data(), Some(data));
    mapped.on_commit(Serial(6));
    assert_eq!(mapped.interactive_resize_data(), None);
}

#[test]
fn a_resize_without_a_configure_is_over_at_once() {
    let (mut mapped, mut toplevel) = open();
    let data = InteractiveResizeData {
        edges: ResizeEdge { bits: 1 },
    };
    mapped.set_interactive_resize(&mut toplevel, Some(data));
    mapped.set_interactive_resize(&mut toplevel, None);
    assert!(!configure(&mut mapped, &mut toplevel, 5));
    assert_eq!(mapped.interactive_resize_data(), None);

    mapped.set_interactive_resize(&mut toplevel, Some(data));
    mapped.cancel_interactive_resize(&mut toplevel);
    assert_eq!(mapped.interactive_resize_data(), None);
    assert!(!toplevel.pending().states.contains(ToplevelFlag::Resizing));
}

#[test]
fn the_surface_is_activated_while_any_entry_asks_for_it() {
    let mut ids = IdCounter::new();
    let (mut source, mut toplevel) = open_with(&mut ids, rules());
    let mut mirror = Mapped::new_mirror(&mut ids, &source, &toplevel);
    let mut entries = SurfaceActivatedEntries::default();

    source.set_activated(&mut entries, &mut toplevel, true);
    mirror.set_activated(&mut entries, &mut toplevel, true);
    source.set_activated(&mut entries, &mut toplevel, false);
    assert!(toplevel.pending().states.contains(ToplevelFlag::Activated));

    // The mirror goes away.
    assert!(!mirror.release(&mut entries, &mut toplevel, true));
    assert!(!toplevel.pending().states.contains(ToplevelFlag::Activated));
    assert!(entries.ids.is_empty());

    source.set_activated(&mut entries, &mut toplevel, true);
    assert!(source.release(&mut entries, &mut toplevel, false));
    assert_eq!(entries.ids.len(), 1);
    assert!(toplevel.pending().states.contains(ToplevelFlag::Activated));
}

#[test]
fn status_changes_ask_for_the_rules() {
    let (mut mapped, _) = open();
    assert!(!mapped.recompute_window_rules_if_needed(rules()));

    let mut changed = rules();
    changed.layout_rules = vec![1, 3];
    assert!(!mapped.recompute_window_rules_if_needed(changed.copied()));
    mapped.set_sticky(true);
    assert!(mapped.is_sticky());
    assert!(mapped.recompute_window_rules_if_needed(changed.copied()));
    assert!(!mapped.recompute_window_rules_if_needed(changed.copied()));
    assert_eq!(mapped.rules().layout_rules, [1, 3]);

    for change in [
        TestMapped::set_active_in_column,
        TestMapped::set_floating,
        TestMapped::set_is_window_cast_target,
        TestMapped::set_is_focused,
        TestMapped::set_urgent,
    ] {
        let (mut mapped, _) = open();
        change(&mut mapped, true);
        change(&mut mapped, false);
        assert!(mapped.recompute_window_rules_if_needed(changed.copied()));
    }
}

#[test]
fn focusing_ends_urgency() {
    let (mut mapped, _) = open();
    mapped.set_urgent(true);
    assert!(mapped.is_urgent());
    mapped.set_is_focused(true);
    assert!(!mapped.is_urgent());
    mapped.set_urgent(true);
    assert!(!mapped.is_urgent());
    mapped.set_is_focused(false);
    mapped.set_urgent(true);
    assert!(mapped.is_urgent());
}

#[test]
fn an_opaque_window_no_longer_ignores_opacity() {
    let mut translucent = rules();
    translucent.opacity = Some(single(0.5));
    let (mut mapped, _) = open_with(&mut IdCounter::new(), translucent.copied());
    mapped.toggle_ignore_opacity_window_rule();
    assert!(mapped.is_ignoring_opacity_window_rule());

    let mut still = translucent.copied();
    still.opacity = Some(single(0.25));
    assert!(mapped.recompute_window_rules(still));
    assert!(mapped.is_ignoring_opacity_window_rule());

    let mut opaque = translucent.copied();
    opaque.opacity = Some(single(1.));
    assert!(mapped.recompute_window_rules(opaque));
    assert!(!mapped.is_ignoring_opacity_window_rule());

    // Not a number is never the same rule.
    let mut strange = translucent.copied();
    strange.opacity = Some(single(f32::NAN));
    assert!(mapped.recompute_window_rules(strange.copied()));
    assert!(mapped.recompute_window_rules(strange));
}

#[test]
fn mirrors_keep_the_rules_of_mirrors() {
    let mut ids = IdCounter::new();
    let (source, toplevel) = open_with(&mut ids, rules());
    let mut mirror = Mapped::new_mirror(&mut ids, &source, &toplevel);
    assert!(!mirror.recompute_window_rules(rules()));

    let mut changed = rules();
    changed.clip_to_geometry = Some(false);
    changed.tiled_state = Some(true);
    assert!(mirror.recompute_window_rules(changed));
    assert_eq!(mirror.rules().clip_to_geometry, Some(true));
    assert_eq!(mirror.rules().draw_border_with_background, Some(false));
    assert_eq!(mirror.rules().tiled_state, Some(true));
}

#[test]
fn decorations_follow_the_protocol_in_use() {
    let (mapped, mut toplevel) = open();
    assert!(!mapped.has_ssd(&toplevel, None));
    assert!(mapped.has_ssd(&toplevel, Some(true)));
    assert!(!mapped.has_ssd(&toplevel, Some(false)));

    let mut committed = state(None, &[]);
    committed.decoration_mode = Some(DecorationMode::ServerSide);
    toplevel.committed = Some(committed);
    assert!(mapped.has_ssd(&toplevel, Some(false)));

    let mut committed = state(None, &[]);
    committed.decoration_mode = Some(DecorationMode::ClientSide);
    toplevel.committed = Some(committed);
    assert!(!mapped.has_ssd(&toplevel, Some(true)));

    let mut committed = state(None, &[]);
    committed.decoration_mode = Some(DecorationMode::Other(9));
    toplevel.committed = Some(committed);
    assert!(!mapped.has_ssd(&toplevel, Some(true)));
}

#[test]
fn children_are_real_windows() {
    let mut ids = IdCounter::new();
    let (parent, toplevel) = open_with(&mut ids, rules());
    let (child, _) = open_with(&mut ids, rules());
    let mirror = Mapped::new_mirror(&mut ids, &parent, &toplevel);
    assert!(child.is_child_of(Some(4), &parent, 4));
    assert!(!child.is_child_of(Some(5), &parent, 4));
    assert!(!child.is_child_of(None, &parent, 4));
    assert!(!child.is_child_of(Some(4), &mirror, 4));
    assert!(!mirror.is_child_of(Some(4), &parent, 4));
}

#[test]
fn offscreen_layers_add_up() {
    let (mut mapped, _) = open();
    let drawn = ElementState {
        visible_area: 100,
        presentation: Presentation::Rendering,
    };
    let skipped = ElementState {
        visible_area: 0,
        presentation: Presentation::Skipped,
    };
    mapped.set_offscreen_data(Some(RenderedElements {
        id: 1,
        states: vec![(10, drawn), (11, drawn)],
    }));
    mapped.set_offscreen_data(Some(RenderedElements {
        id: 2,
        states: vec![(11, skipped), (12, drawn)],
    }));
    let data = mapped.offscreen_data().as_ref().unwrap();
    assert_eq!(data.id, 2);
    assert_eq!(data.states.len(), 3);
    assert_eq!(data.states[&10], drawn);
    assert_eq!(data.states[&11], skipped);

    mapped.set_offscreen_data(None);
    assert!(mapped.offscreen_data().is_none());
}

#[test]
fn snapshots_and_times_are_kept() {
    let (mut mapped, _) = open();
    assert_eq!(mapped.take_animation_snapshot(), None);
    mapped.store_animation_snapshot(7);
    assert_eq!(mapped.take_animation_snapshot(), Some(7));
    assert_eq!(mapped.take_animation_snapshot(), None);

    let now = Timestamp { secs: 9, nanos: 5 };
    mapped.set_focus_timestamp(now);
    assert_eq!(mapped.get_focus_timestamp(), Some(now));
    let start = Some((now, ResizeEdge { bits: 2 }));
    mapped.set_last_interactive_resize_start(start);
    assert_eq!(mapped.last_interactive_resize_start(), start);

    let mut off = blur();
    off.off = true;
    mapped.update_config(off);
    let cast = BlockOutTarget::for_window_cast(false);
    let effect = mapped.render_background_effect(&toplevel(1, 1), cast).unwrap();
    assert!(effect.blur.off);
}

#[test]
fn frame_callbacks_go_to_the_primary_output_first() {
    assert_eq!(frame_callback_output(Some(1), false, 2), Some(1));
    assert_eq!(frame_callback_output(Some(1), true, 2), Some(1));
    assert_eq!(frame_callback_output(None, true, 2), Some(2));
    assert_eq!(frame_callback_output(None, false, 2), None);
}

#[test]
fn windows_are_drawn_unless_they_are_blocked_out() {
    let mut ids = IdCounter::new();
    let (mut source, toplevel) = open_with(&mut ids, rules());
    let mirror = Mapped::new_mirror(&mut ids, &source, &toplevel);
    let cast = BlockOutTarget::for_window_cast(true);
    let source_plan = source.render_normal(&toplevel, cast);
    assert_eq!(
        source_plan,
        NormalPlan::Surfaces {
            geometry_loc: Point { x: 5, y: 7 }
        }
    );
    assert_eq!(source_plan.kind(), ElementKind::ScanoutCandidate);
    let mirror_plan = mirror.render_normal(&toplevel, cast);
    assert_eq!(
        mirror_plan,
        NormalPlan::Mirror {
            namespace: 2,
            size: size(40, 30),
            view: MirrorViewState::whole(),
            contents: true
        }
    );
    assert_eq!(mirror_plan.kind(), ElementKind::Unspecified);

    let viewport = ViewportSize {
        w: double(12.5),
        h: double(8.25),
    };
    let sized = mirror.render_normal_with_size(&toplevel, viewport, cast);
    assert_eq!(sized.plan, mirror_plan);
    assert_eq!(sized.viewport, Some(viewport));
    let sized = source.render_normal_with_size(&toplevel, viewport, cast);
    assert_eq!(sized.plan, source_plan);
    assert_eq!(sized.viewport, None);
    assert_eq!(source.buf_loc(&toplevel), Some(Point { x: -5, y: -7 }));
    assert_eq!(mirror.buf_loc(&toplevel), None);
    assert_eq!(
        source.render_snapshot(&toplevel).origin,
        Point { x: -5, y: -7 }
    );
    assert_eq!(mirror.render_snapshot(&toplevel).origin, Point { x: 0, y: 0 });
    assert_eq!(source.render_snapshot(&toplevel).into_viewport, None);
    assert_eq!(
        mirror.render_snapshot(&toplevel).into_viewport,
        Some(MirrorViewState::whole())
    );
    let background = source.render_background_effect(&toplevel, cast).unwrap();
    assert_eq!(background.surface_off, Some(Point { x: -5, y: -7 }));
    let background = mirror.render_background_effect(&toplevel, cast).unwrap();
    assert_eq!(background.surface_off, None);
    assert_eq!(
        source.render_for_screen_cast(&toplevel, toplevel.geometry, true).geometry_loc,
        Some(Point { x: 5, y: 7 })
    );
    assert_eq!(
        mirror.render_for_screen_cast(&toplevel, toplevel.geometry, true).geometry_loc,
        None
    );

    source.toggle_block_out_window_rule();
    assert_eq!(
        source.render_normal(&toplevel, cast),
        NormalPlan::BlockedOut { size: size(40, 30) }
    );
    assert!(source.render_background_effect(&toplevel, cast).is_none());
    assert_eq!(
        source.render_snapshot(&toplevel).block_out_from,
        Some(BlockOutFrom::Screencast)
    );
    let only_captures = BlockOutTarget {
        blocks_screencast: false,
        blocks_screen_capture: true,
    };
    assert!(shows_contents(source.render_normal(&toplevel, only_captures)));
}

#[test]
fn popups_follow_their_rules() {
    let mut ids = IdCounter::new();
    let mut configured = rules();
    configured.popups.opacity = Some(single(0.5));
    configured.popups.background_effect.blur = Some(true);
    let radius = CornerRadius {
        top_left: single(4.),
        top_right: single(4.),
        bottom_right: single(4.),
        bottom_left: single(4.),
    };
    configured.popups.geometry_corner_radius = Some(radius);
    let (source, toplevel) = open_with(&mut ids, configured);
    let mirror = Mapped::new_mirror(&mut ids, &source, &toplevel);

    let cast = BlockOutTarget::for_window_cast(true);
    let popups = vec![popup(PopupKind::Xdg), popup(PopupKind::InputMethod)];

    let plans = source.render_popups(&popups, cast);
    assert_eq!(plans.len(), 2);
    assert_eq!(plans[0].surface_offset, Point { x: 7, y: 16 });
    assert_eq!(plans[0].surface_off, Point { x: -3, y: -4 });
    assert_eq!(plans[0].offset, Point { x: 10, y: 20 });
    assert_eq!(plans[0].size, size(30, 15));
    assert_eq!(plans[0].opacity, Some(single(0.5)));
    assert_eq!(plans[0].corner_radius, radius);
    assert_eq!(plans[0].effect.xray, Some(false));
    assert_eq!(plans[0].effect.blur, Some(true));
    assert_eq!(plans[0].namespace, None);
    assert_eq!(plans[0].element_kind, ElementKind::ScanoutCandidate);
    assert_eq!(plans[1].opacity, None);
    assert_eq!(plans[1].effect.xray, Some(false));
    assert_eq!(plans[1].effect.blur, None);
    assert!(plans[1].corner_radius.is_square());

    let plans = mirror.render_popups(&popups, cast);
    assert_eq!(plans[0].namespace, Some(2));
    assert_eq!(plans[0].element_kind, ElementKind::Unspecified);
    assert_eq!(plans[0].opacity, Some(single(0.5)));
}

#[test]
fn a_window_cast_blocks_out_both_scopes_while_enabled() {
    for from in [BlockOutFrom::Screencast, BlockOutFrom::ScreenCapture] {
        assert!(BlockOutTarget::for_window_cast(true).should_block_out(Some(from)));
        assert!(!BlockOutTarget::for_window_cast(false).should_block_out(Some(from)));
    }
    assert!(!BlockOutTarget::for_window_cast(true).should_block_out(None));
}

#[test]
fn only_rounded_solid_fills_need_the_border() {
    let mut radius = CornerRadius::default();
    assert!(!uses_border(true, radius, true));
    radius.top_left = single(-0.);
    assert!(!uses_border(true, radius, true));
    radius.bottom_left = single(2.);
    assert!(uses_border(true, radius, true));
    assert!(!uses_border(false, radius, true));
    assert!(!uses_border(true, radius, false));
}

fn three_quarters() -> MirrorCenter {
    MirrorCenter {
        x: double(0.75),
        y: double(0.5),
    }
}

#[test]
fn mirror_created_from_mirror_inherits_view_state() {
    let mut ids = IdCounter::new();
    let mut toplevel = toplevel(40, 20);
    let mut source: TestMapped = Mapped::new(&mut ids, &toplevel, rules(), None, blur());
    let mut mirror1 = Mapped::new_mirror(&mut ids, &source, &toplevel);
    assert_eq!(mirror1.mirror_view(), MirrorViewState::whole());
    assert_eq!(mirror1.mirror_zoom(), double(1.));
    assert_eq!(mirror1.mirror_view_transform(), Transform::Normal);

    mirror1.set_floating(true);
    mirror1.request_size(&mut toplevel, size(20, 20), SizingMode::Normal, false, None);
    mirror1.set_mirror_view(double(2.), three_quarters());
    mirror1.set_mirror_transform(Transform::_90);

    let mirror2 = Mapped::new_mirror(&mut ids, &mirror1, &toplevel);
    assert_eq!(mirror2.mirror_view(), mirror1.mirror_view());
    assert_eq!(mirror2.mirror_zoom(), double(2.));
    assert_eq!(mirror2.mirror_view().center, Some(three_quarters()));
    assert_eq!(mirror2.mirror_view_transform(), Transform::_90);
    assert_eq!(mirror2.size(&toplevel), size(20, 20));
    assert!(mirror1.is_floating());
    assert!(mirror2.is_floating());

    // The real window has no view to hand on.
    source.set_mirror_view(double(2.), three_quarters());
    source.set_mirror_transform(Transform::_90);
    assert_eq!(source.mirror_view(), MirrorViewState::whole());
    let mirror3 = Mapped::new_mirror(&mut ids, &source, &toplevel);
    assert_eq!(mirror3.mirror_view(), MirrorViewState::whole());
}

#[test]
fn mirror_linked_group_does_not_sync_transform() {
    let mut ids = IdCounter::new();
    let toplevel = toplevel(40, 20);
    let mut source: TestMapped = Mapped::new(&mut ids, &toplevel, rules(), None, blur());
    let mut mirror1 = Mapped::new_mirror(&mut ids, &source, &toplevel);
    let mut mirror2 = Mapped::new_mirror(&mut ids, &source, &toplevel);
    assert!(!mirror1.is_mirror_linked());
    assert!(!mirror2.is_mirror_linked());
    assert!(mirror1.toggle_mirror_link());
    assert!(mirror2.toggle_mirror_link());
    assert!(mirror1.is_mirror_linked());
    assert!(mirror2.is_mirror_linked());

    mirror1.set_mirror_transform(Transform::_90);
    assert_eq!(mirror1.mirror_view_transform(), Transform::_90);
    assert_eq!(mirror2.mirror_view_transform(), Transform::Normal);
    assert!(mirror1.is_mirror_linked());

    // A mirror of a linked mirror takes over the view, and starts unlinked.
    let mirror3 = Mapped::new_mirror(&mut ids, &mirror1, &toplevel);
    assert_eq!(mirror3.mirror_view_transform(), Transform::_90);
    assert!(!mirror3.is_mirror_linked());

    assert!(mirror1.toggle_mirror_link());
    assert!(!mirror1.is_mirror_linked());
    assert!(!source.toggle_mirror_link());
    assert!(!source.is_mirror_linked());
}

#[test]
fn mirrors_keep_their_view_and_link() {
    let mut ids = IdCounter::new();
    let (source, mut toplevel) = open_with(&mut ids, rules());
    let mut mirror = Mapped::new_mirror(&mut ids, &source, &toplevel);
    mirror.set_mirror_view(double(2.), three_quarters());
    mirror.set_mirror_transform(Transform::Flipped);
    mirror.toggle_mirror_link();
    let view = mirror.mirror_view();

    mirror.request_size(&mut toplevel, size(80, 60), SizingMode::Maximized, false, None);
    mirror.request_size_once(&mut toplevel, size(8, 8), true);
    mirror.request_windowed_fullscreen(&mut toplevel, true);
    mirror.set_is_focused(true);
    mirror.recompute_window_rules(rules());
    mirror.on_commit(Serial(7));
    assert_eq!(mirror.mirror_view(), view);
    assert!(mirror.is_mirror_linked());

    let cast = mirror.render_for_screen_cast(&toplevel, toplevel.geometry, false);
    assert_eq!(
        cast.window,
        NormalPlan::Mirror {
            namespace: 2,
            size: size(8, 8),
            view,
            contents: true
        }
    );
    assert_eq!(mirror.render_snapshot(&toplevel).into_viewport, Some(view));
}

#[test]
fn commits_complete_exactly_the_transactions_they_answer() {
    let (mut mapped, mut toplevel) = open();
    // The serials wrap around on the way.
    let serials = [u32::MAX - 1, u32::MAX, 0, 1];
    for (i, serial) in serials.into_iter().enumerate() {
        let transaction = ["a", "b", "c", "d"][i];
        let width = 50 + i as i32;
        let wanted = size(width, 30);
        mapped.request_size(&mut toplevel, wanted, SizingMode::Normal, false, Some(transaction));
        assert!(configure(&mut mapped, &mut toplevel, serial));
    }
    assert_eq!(mapped.take_pending_transaction(Serial(u32::MAX - 2)), None);
    assert_eq!(mapped.take_pending_transaction(Serial(u32::MAX)), Some("b"));
    assert_eq!(mapped.take_pending_transaction(Serial(u32::MAX)), None);
    assert_eq!(mapped.take_pending_transaction(Serial(0)), Some("c"));
    assert_eq!(mapped.take_pending_transaction(Serial(5)), Some("d"));
    assert_eq!(mapped.take_pending_transaction(Serial(5)), None);
}
