use std::str::FromStr;

use niri_windows::appearance::{BackgroundEffectRule, CornerRadius};
use niri_windows::bits::{DoubleBits, SingleBits};
use niri_windows::geometry::{Point, Rect, Size};
use niri_windows::grab::{MirrorClickGrab, MirrorViewGrab, MirrorViewGrabMode};
use niri_windows::ipc::Timestamp;
use niri_windows::transform::{
    compose_transforms, transform_vector, Transform, TransformedWaylandSurfaceRenderElement,
};
use niri_windows::window::id::{IdCounter, MappedId};
use niri_windows::window_rule::{
    DrawCursor, FloatingPosition, ForceCursorShape, Match, PopupsRule, RegexEq, RelativeTo,
    ResolvedPopupsRules,
};

const TRANSFORMS: [Transform; 8] = [
    Transform::Normal,
    Transform::_90,
    Transform::_180,
    Transform::_270,
    Transform::Flipped,
    Transform::Flipped90,
    Transform::Flipped180,
    Transform::Flipped270,
];

fn single(value: f32) -> SingleBits {
    SingleBits { bits: value.to_bits() }
}

fn point(x: i32, y: i32) -> Point {
    Point { x, y }
}

fn rect(x: i32, y: i32, w: i32, h: i32) -> Rect {
    Rect {
        loc: point(x, y),
        size: Size { w, h },
    }
}

#[test]
fn numbers_compare_as_numbers() {
    let values = [0., -0., 1., -1., 0.5, f32::INFINITY, f32::NEG_INFINITY, f32::NAN, 0.99999994];
    for a in values {
        assert_eq!(single(a).is_below_one(), a < 1.);
        for b in values {
            assert_eq!(single(a).is_same_number(single(b)), a == b);
            let wide = |value: f32| DoubleBits {
                bits: f64::from(value).to_bits(),
            };
            assert_eq!(wide(a).is_same_number(wide(b)), a == b);
        }
    }
}

#[test]
fn later_popup_rules_win() {
    let empty = BackgroundEffectRule {
        xray: None,
        blur: None,
        noise: None,
        saturation: None,
    };
    let mut rules = ResolvedPopupsRules::default();
    rules.merge_with(&PopupsRule {
        opacity: Some(single(0.5)),
        geometry_corner_radius: Some(CornerRadius::default()),
        background_effect: BackgroundEffectRule {
            xray: Some(true),
            blur: Some(true),
            ..empty
        },
    });
    rules.merge_with(&PopupsRule {
        opacity: Some(single(0.75)),
        geometry_corner_radius: None,
        background_effect: BackgroundEffectRule {
            blur: Some(false),
            noise: Some(DoubleBits { bits: 9 }),
            ..empty
        },
    });
    assert_eq!(rules.opacity, Some(single(0.75)));
    assert_eq!(rules.geometry_corner_radius, Some(CornerRadius::default()));
    assert_eq!(rules.background_effect.xray, Some(true));
    assert_eq!(rules.background_effect.blur, Some(false));
    assert_eq!(rules.background_effect.noise, Some(DoubleBits { bits: 9 }));
    assert_eq!(rules.background_effect.saturation, None);
}

#[test]
fn settings_default_to_nothing() {
    assert_eq!(DrawCursor::default(), DrawCursor::Default);
    assert_eq!(RelativeTo::default(), RelativeTo::TopLeft);
    let rule = Match::default();
    assert_eq!(rule.title, None);
    assert_eq!(rule.is_focused, None);
}

#[test]
fn cursor_shapes_go_by_their_names() {
    assert_eq!(
        ForceCursorShape::from_str("none").unwrap(),
        ForceCursorShape::NoShape
    );
    assert!(ForceCursorShape::from_str("none").unwrap().icon().is_none());
    for name in ["default", "pointer", "zoom-in", "ew-resize", "dnd-ask", "all-resize"] {
        let icon = ForceCursorShape::from_str(name).unwrap().icon().unwrap();
        assert_eq!(icon.name, name);
    }
    for name in ["", "None", "arrow", "left_ptr", "dnd_ask", " pointer"] {
        let error = ForceCursorShape::from_str(name).unwrap_err();
        assert_eq!(error.message(), format!("unknown cursor shape: {name}"));
    }
}

#[test]
fn cursor_names_are_those_of_the_icon_set() {
    let names = [
        "default", "context-menu", "help", "pointer", "progress", "wait", "cell", "crosshair",
        "text", "vertical-text", "alias", "copy", "move", "no-drop", "not-allowed", "grab",
        "grabbing", "e-resize", "n-resize", "ne-resize", "nw-resize", "s-resize", "se-resize",
        "sw-resize", "w-resize", "ew-resize", "ns-resize", "nesw-resize", "nwse-resize",
        "col-resize", "row-resize", "all-scroll", "zoom-in", "zoom-out",
    ];
    for name in names {
        let icon = cursor_icon::CursorIcon::from_str(name).unwrap();
        let shape = ForceCursorShape::from_str(name).unwrap();
        assert_eq!(shape.icon().unwrap().name, icon.name());
    }
    // The parser leaves these two to us.
    assert!(cursor_icon::CursorIcon::from_str("dnd-ask").is_err());
    assert!(cursor_icon::CursorIcon::from_str("all-resize").is_err());
}

#[test]
fn transforms_turn_rectangles() {
    let area = Size { w: 70, h: 90 };
    let inner = rect(10, 20, 30, 40);
    let turned = [
        rect(10, 20, 30, 40),
        rect(30, 10, 40, 30),
        rect(30, 30, 30, 40),
        rect(20, 30, 40, 30),
        rect(30, 20, 30, 40),
        rect(30, 30, 40, 30),
        rect(10, 30, 30, 40),
        rect(20, 10, 40, 30),
    ];
    for (transform, expected) in TRANSFORMS.into_iter().zip(turned) {
        assert_eq!(transform.transform_rect_in(inner, area), expected);
    }
}

#[test]
fn transforms_compose_like_their_vectors() {
    for first in TRANSFORMS {
        assert_eq!(compose_transforms(first, Transform::Normal), first);
        assert_eq!(compose_transforms(Transform::Normal, first), first);
        for second in TRANSFORMS {
            let composed = compose_transforms(first, second);
            let vector = point(3, 5);
            assert_eq!(
                transform_vector(composed, vector),
                transform_vector(second, transform_vector(first, vector))
            );
        }
    }
    assert_eq!(
        compose_transforms(Transform::_90, Transform::Flipped),
        Transform::Flipped90
    );
    assert_eq!(
        compose_transforms(Transform::_270, Transform::_90),
        Transform::Normal
    );
    assert_eq!(
        compose_transforms(Transform::Flipped90.invert(), Transform::Flipped90),
        Transform::_180
    );
}

#[test]
fn elements_turn_around_their_origin() {
    let element = TransformedWaylandSurfaceRenderElement::new(
        point(100, 200),
        Size { w: 70, h: 90 },
        Transform::_90,
    );
    assert_eq!(element.geometry(rect(110, 220, 30, 40)), rect(130, 210, 40, 30));
    assert_eq!(
        element.regions(&vec![rect(0, 0, 5, 6), rect(1, 2, 3, 4)], Size { w: 30, h: 40 }),
        vec![rect(34, 0, 6, 5), rect(34, 1, 4, 3)]
    );
    assert_eq!(element.sample_transform(Transform::Normal), Transform::_270);
    assert_eq!(element.sample_transform(Transform::_90), Transform::Normal);
    assert_eq!(Transform::_90.transform_size(Size { w: 1, h: 2 }), Size { w: 2, h: 1 });
    assert_eq!(Transform::_180.transform_size(Size { w: 1, h: 2 }), Size { w: 1, h: 2 });
}

#[test]
fn on_frame_redraws_only_the_mirror_output() {
    let mut ids = IdCounter::new();
    let source = MappedId::next(&mut ids);
    let mirror = MappedId::next(&mut ids);
    let output1 = 1;
    let output2 = 2;
    let windows = vec![(source, Some(output1)), (mirror, Some(output2))];

    let mut grab = MirrorViewGrab::new(mirror, MirrorViewGrabMode::Pan, 0);
    grab.motion(1);

    let plan = grab.on_frame(&windows);
    assert!(plan.keep_grab);
    assert_eq!(plan.redraw_output, Some(output2));
}

#[test]
fn motion_is_applied_once_per_frame() {
    let mut ids = IdCounter::new();
    let other = MappedId::next(&mut ids);
    let mirror = MappedId::next(&mut ids);
    let windows = vec![(other, Some(1)), (mirror, Some(2))];

    let mut grab = MirrorViewGrab::new(mirror, MirrorViewGrabMode::Pan, 272);
    assert!(!grab.zooms());
    let idle = grab.on_frame(&windows);
    assert!(idle.keep_grab);
    assert!(idle.targets.is_empty());

    grab.motion(5);
    let plan = grab.on_frame(&windows);
    assert!(plan.keep_grab);
    assert_eq!(plan.targets, [1]);
    // Only the output of the mirror is redrawn.
    assert_eq!(plan.redraw_output, Some(2));
    assert!(grab.on_frame(&windows).targets.is_empty());

    grab.relative_motion(5_000_001);
    let gone = grab.on_frame(&vec![(other, Some(1))]);
    assert!(!gone.keep_grab);
    assert_eq!(gone.redraw_output, None);

    assert!(!grab.button(&vec![273, 272]));
    assert!(grab.button(&vec![273]));
    assert!(MirrorViewGrab::new(mirror, MirrorViewGrabMode::Zoom, 1).zooms());
}

#[test]
fn click_grabs_end_with_the_last_button() {
    assert!(MirrorClickGrab.button(&vec![]));
    assert!(!MirrorClickGrab.button(&vec![272]));
}

#[test]
fn event_times_become_timestamps() {
    assert_eq!(
        Timestamp::from_millis(1234),
        Timestamp {
            secs: 1,
            nanos: 234_000_000
        }
    );
    assert_eq!(
        Timestamp::from_micros(5_000_001),
        Timestamp {
            secs: 5,
            nanos: 1_000
        }
    );
}

#[test]
fn placements_out_of_range_are_told() {
    let element = TransformedWaylandSurfaceRenderElement::new(
        point(100, 200),
        Size { w: 70, h: 90 },
        Transform::_90,
    );
    let inner = rect(110, 220, 30, 40);
    assert_eq!(element.checked_geometry(inner), Some(element.geometry(inner)));
    assert_eq!(element.checked_geometry(rect(i32::MIN, 0, 1, 1)), None);
    assert_eq!(element.checked_geometry(rect(0, i32::MIN + 200, 1, 1)), None);

    let far = rect(i32::MIN, 0, 1, 1);
    assert!(Transform::Normal.fits(far, Size { w: 1, h: 1 }));
    assert!(Transform::_90.fits(far, Size { w: 1, h: 1 }));
    assert!(!Transform::Flipped.fits(far, Size { w: 1, h: 1 }));
}

fn double(value: f64) -> DoubleBits {
    DoubleBits { bits: value.to_bits() }
}

#[test]
fn settings_compare_as_numbers() {
    let position = |x: f64| FloatingPosition {
        x: double(x),
        y: double(2.5),
        relative_to: RelativeTo::Top,
    };
    assert_eq!(position(0.), position(-0.));
    assert_ne!(position(0.), position(1.));
    assert_ne!(position(f64::NAN), position(f64::NAN));

    let rule = |opacity: f32, noise: f64| PopupsRule {
        opacity: Some(single(opacity)),
        geometry_corner_radius: Some(CornerRadius {
            top_left: single(opacity),
            top_right: single(1.),
            bottom_right: single(1.),
            bottom_left: single(1.),
        }),
        background_effect: BackgroundEffectRule {
            noise: Some(double(noise)),
            ..BackgroundEffectRule::default()
        },
    };
    assert_eq!(rule(0., 0.), rule(-0., -0.));
    assert_ne!(rule(f32::NAN, 0.), rule(f32::NAN, 0.));
    assert_ne!(rule(0., f64::NAN), rule(0., f64::NAN));

    let resolved = |rule: PopupsRule| {
        let mut resolved = ResolvedPopupsRules::default();
        resolved.merge_with(&rule);
        resolved
    };
    assert_eq!(resolved(rule(0., 0.)), resolved(rule(-0., -0.)));
    assert_ne!(resolved(rule(f32::NAN, 0.)), resolved(rule(f32::NAN, 0.)));
}

#[test]
fn settings_are_copied_whole() {
    let shape = ForceCursorShape::from_str("grab").unwrap();
    assert_eq!(shape.clone(), shape);
    assert_eq!(shape.clone().icon().map(|icon| icon.clone().name), Some("grab".to_owned()));
    assert_eq!(ForceCursorShape::NoShape.clone(), ForceCursorShape::NoShape);

    let rule = Match {
        app_id: Some(RegexEq { pattern: "^foot$".to_owned() }),
        is_sticky: Some(true),
        ..Match::default()
    };
    assert_eq!(rule.clone(), rule);
    assert_ne!(rule.clone(), Match::default());

    let unset = PopupsRule::default();
    assert_eq!(unset.opacity, None);
    assert_eq!(unset.geometry_corner_radius, None);
    assert_eq!(unset.background_effect, BackgroundEffectRule::default());
    assert_eq!(unset.background_effect.blur, None);
    let mut resolved = ResolvedPopupsRules::default();
    resolved.merge_with(&unset);
    assert_eq!(resolved, ResolvedPopupsRules::default());
}
