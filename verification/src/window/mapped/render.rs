//! What of an entry is drawn, and how.

use crate::appearance::{BackgroundEffect, Blur, CornerRadius};
use crate::bits::{DoubleBits, SingleBits};
use crate::geometry::{Point, Rect, Size};
use crate::ipc::BlockOutFrom;
use crate::window::mapped::{Mapped, MappedView, MirrorViewState};
use crate::window::toplevel::{Toplevel, ToplevelView};
use crate::window_rule::ResolvedPopupsRules;
use vstd::prelude::*;

verus! {

/// Which blocked-out windows a frame leaves out.
#[derive(Debug, Clone, Copy, PartialEq, Eq, Structural)]
pub struct BlockOutTarget {
    /// Whether it leaves out those that are blocked out from screencasts.
    pub blocks_screencast: bool,
    /// Whether it leaves out those that are blocked out from all screen captures.
    pub blocks_screen_capture: bool,
}

impl BlockOutTarget {
    /// Whether the frame leaves out a window that is blocked out like this.
    pub open spec fn blocks(self, from: Option<BlockOutFrom>) -> bool {
        match from {
            None => false,
            Some(BlockOutFrom::Screencast) => self.blocks_screencast,
            Some(BlockOutFrom::ScreenCapture) => self.blocks_screen_capture,
        }
    }

    /// The target of a window cast. Casting counts as a screencast and as a capture, so a cast leaves
    /// out all blocked-out windows as long as blocking out is enabled, and none otherwise.
    pub fn for_window_cast(block_out_enabled: bool) -> (target: BlockOutTarget)
        ensures
            target == Self::window_cast(block_out_enabled),
    {
        BlockOutTarget {
            blocks_screencast: block_out_enabled,
            blocks_screen_capture: block_out_enabled,
        }
    }

    /// What a window cast leaves out.
    pub open spec fn window_cast(block_out_enabled: bool) -> BlockOutTarget {
        BlockOutTarget {
            blocks_screencast: block_out_enabled,
            blocks_screen_capture: block_out_enabled,
        }
    }

    /// Tells whether the frame leaves out a window that is blocked out like this.
    pub fn should_block_out(self, from: Option<BlockOutFrom>) -> (blocked: bool)
        ensures
            blocked == self.blocks(from),
    {
        match from {
            None => false,
            Some(BlockOutFrom::Screencast) => self.blocks_screencast,
            Some(BlockOutFrom::ScreenCapture) => self.blocks_screen_capture,
        }
    }
}

/// What the backend may do with an element.
#[derive(Debug, Clone, Copy, PartialEq, Eq, Structural)]
pub enum ElementKind {
    /// Nothing is known of the element.
    Unspecified,
    /// The element may be scanned out directly.
    ScanoutCandidate,
}

/// A size of a viewport in fractions of logical pixels.
#[derive(Debug, Clone, Copy, PartialEq)]
pub struct ViewportSize {
    pub w: DoubleBits,
    pub h: DoubleBits,
}

/// How the window itself is drawn.
#[derive(Debug, Clone, Copy, PartialEq)]
pub enum NormalPlan {
    /// A transparent fill of this size in place of the window.
    BlockedOut { size: Size },
    /// The surfaces, shifted so that this point of them comes to the location of the window.
    Surfaces { geometry_loc: Point },
    /// A transparent fill of the viewport, which has this size, and on top of it, unless the mirror
    /// is blocked out, the surfaces, scaled and turned into it by the view, and in a namespace of
    /// their own.
    ///
    /// The fill covers what letterboxing leaves open, too.
    Mirror { namespace: usize, size: Size, view: MirrorViewState, contents: bool },
}

impl NormalPlan {
    /// What the backend may do with the elements: only the surfaces of a real window are drawn as
    /// they are.
    pub open spec fn element_kind(self) -> ElementKind {
        if self is Surfaces {
            ElementKind::ScanoutCandidate
        } else {
            ElementKind::Unspecified
        }
    }

    /// Tells what the backend may do with the elements.
    pub fn kind(self) -> (kind: ElementKind)
        ensures
            kind == self.element_kind(),
    {
        match self {
            NormalPlan::Surfaces { .. } => ElementKind::ScanoutCandidate,
            NormalPlan::BlockedOut { .. } | NormalPlan::Mirror { .. } => ElementKind::Unspecified,
        }
    }
}

/// How the window itself is drawn when the layout animates its size.
#[derive(Debug, Clone, Copy, PartialEq)]
pub struct SizedNormalPlan {
    /// How it is drawn otherwise.
    pub plan: NormalPlan,
    /// The viewport of a mirror, in place of its own size; a real window is drawn as it is.
    pub viewport: Option<ViewportSize>,
}

/// What a popup belongs to.
#[derive(Debug, Clone, Copy, PartialEq, Eq, Structural)]
pub enum PopupKind {
    /// A menu or tooltip of the window.
    Xdg,
    /// A popup of an input method.
    InputMethod,
}

/// A popup of a window.
#[derive(Debug, Clone, Copy, PartialEq, Eq, Structural)]
pub struct Popup {
    pub kind: PopupKind,
    /// Where the geometry of the popup starts, relative to the geometry of the window.
    pub offset: Point,
    /// Geometry of the popup inside its surface.
    pub geometry: Rect,
}

/// How a popup is drawn.
#[derive(Debug, Clone, Copy, PartialEq)]
pub struct PopupPlan {
    /// Where the surface of the popup starts, relative to the geometry of the window.
    pub surface_offset: Point,
    /// Where the geometry of the popup starts, relative to the geometry of the window.
    pub offset: Point,
    /// Size of the popup.
    pub size: Size,
    /// Where the surface starts, relative to the geometry of the popup.
    pub surface_off: Point,
    /// Extra opacity, if the rules set one.
    pub opacity: Option<SingleBits>,
    /// Corner radius of the background.
    pub corner_radius: CornerRadius,
    /// Effect behind the popup.
    pub effect: BackgroundEffect,
    /// Blur settings for the effect.
    pub blur: Blur,
    /// Namespace of the scaled elements of a mirror; without one, the elements are drawn as they
    /// are.
    pub namespace: Option<usize>,
    /// What the backend may do with the elements.
    pub element_kind: ElementKind,
}

/// How the effect behind a window is drawn.
#[derive(Debug, Clone, Copy, PartialEq)]
pub struct BackgroundPlan {
    /// Where the surface starts, relative to the geometry of the window; a mirror follows its
    /// viewport instead.
    pub surface_off: Option<Point>,
    /// The effect.
    pub effect: BackgroundEffect,
    /// Blur settings for the effect.
    pub blur: Blur,
}

/// How a snapshot of a window is taken.
#[derive(Debug, Clone, Copy, PartialEq)]
pub struct SnapshotPlan {
    /// Size of the snapshot, and of the transparent fill for when the window is blocked out.
    pub size: Size,
    /// Where the window is blocked out from.
    pub block_out_from: Option<BlockOutFrom>,
    /// Where the surfaces start in the snapshot; those of a mirror start at the origin, and are
    /// then cropped and scaled into the viewport.
    pub origin: Point,
    /// The view by which the surfaces are cropped, scaled and turned into the viewport of a mirror.
    pub into_viewport: Option<MirrorViewState>,
}

/// How a window is drawn for a window cast.
#[derive(Debug, Clone, Copy, PartialEq)]
pub struct CastPlan {
    /// Size of the window, for fitting the corner radius.
    pub size: Size,
    /// The part of the window that is cast.
    pub bbox: Rect,
    /// The point of the surfaces, relative to the cast part, that the window starts at; a mirror
    /// starts at the origin.
    pub geometry_loc: Option<Point>,
    /// What the cast leaves out, for the popups and the background effect.
    pub target: BlockOutTarget,
    /// How the window itself is drawn.
    pub window: NormalPlan,
}

/// The background effect of a popup. Popups are always on top of something, so unless a rule says
/// otherwise they show what is below them.
pub open spec fn popup_effect(effect: BackgroundEffect) -> BackgroundEffect {
    BackgroundEffect {
        xray: if effect.xray is Some {
            effect.xray
        } else {
            Some(false)
        },
        ..effect
    }
}

/// The corner radius that a rule sets, or square corners.
pub open spec fn radius_or_square(radius: Option<CornerRadius>) -> CornerRadius {
    let zero = SingleBits { bits: 0 };
    match radius {
        Some(radius) => radius,
        None => CornerRadius {
            top_left: zero,
            top_right: zero,
            bottom_right: zero,
            bottom_left: zero,
        },
    }
}

impl<T, S> MappedView<T, S> {
    /// Whether a frame leaves the window out.
    pub open spec fn is_left_out(self, target: BlockOutTarget) -> bool {
        target.blocks(self.effective_block_out_from())
    }

    /// The namespace of the elements of a mirror.
    pub open spec fn namespace(self) -> Option<usize> {
        if !self.is_mirror {
            None
        } else if self.id.number() <= usize::MAX {
            Some(self.id.number() as usize)
        } else {
            Some(usize::MAX)
        }
    }

    /// How the window itself is drawn.
    pub open spec fn normal_plan(
        self,
        toplevel: ToplevelView,
        target: BlockOutTarget,
    ) -> NormalPlan {
        if self.is_mirror {
            NormalPlan::Mirror {
                namespace: self.namespace()->0,
                size: self.mirror.size,
                view: self.mirror.view,
                contents: !self.is_left_out(target),
            }
        } else if self.is_left_out(target) {
            NormalPlan::BlockedOut { size: toplevel.geometry.size }
        } else {
            NormalPlan::Surfaces { geometry_loc: toplevel.geometry.loc }
        }
    }

    /// The rules for a popup; those of input methods are not affected by the rules for regular
    /// popups.
    pub open spec fn popup_rules(self, kind: PopupKind) -> ResolvedPopupsRules {
        match kind {
            PopupKind::Xdg => self.rules.popups,
            PopupKind::InputMethod => ResolvedPopupsRules::unset(),
        }
    }

    /// How a popup is drawn.
    pub open spec fn popup_plan(self, popup: Popup) -> PopupPlan {
        let rules = self.popup_rules(popup.kind);
        PopupPlan {
            surface_offset: Point {
                x: (popup.offset.x - popup.geometry.loc.x) as i32,
                y: (popup.offset.y - popup.geometry.loc.y) as i32,
            },
            offset: popup.offset,
            size: popup.geometry.size,
            surface_off: Point {
                x: (-popup.geometry.loc.x) as i32,
                y: (-popup.geometry.loc.y) as i32,
            },
            opacity: rules.opacity,
            corner_radius: radius_or_square(rules.geometry_corner_radius),
            effect: popup_effect(rules.background_effect),
            blur: self.blur_config,
            namespace: self.namespace(),
            element_kind: if self.is_mirror {
                ElementKind::Unspecified
            } else {
                ElementKind::ScanoutCandidate
            },
        }
    }

    /// How the popups are drawn.
    pub open spec fn popup_plans(self, popups: Seq<Popup>, target: BlockOutTarget) -> Seq<
        PopupPlan,
    > {
        if self.is_left_out(target) {
            Seq::empty()
        } else {
            popups.map_values(|popup: Popup| self.popup_plan(popup))
        }
    }

    /// Where the surfaces start, relative to the geometry of the window.
    pub open spec fn surface_start(self, toplevel: ToplevelView) -> Option<Point> {
        if self.is_mirror {
            None
        } else {
            Some(
                Point {
                    x: (-toplevel.geometry.loc.x) as i32,
                    y: (-toplevel.geometry.loc.y) as i32,
                },
            )
        }
    }

    /// How the effect behind the window is drawn.
    pub open spec fn background_plan(
        self,
        toplevel: ToplevelView,
        target: BlockOutTarget,
    ) -> Option<BackgroundPlan> {
        if self.is_left_out(target) {
            None
        } else {
            Some(
                BackgroundPlan {
                    surface_off: self.surface_start(toplevel),
                    effect: self.rules.background_effect,
                    blur: self.blur_config,
                },
            )
        }
    }

    /// How a snapshot of the window is taken.
    pub open spec fn snapshot_plan(self, toplevel: ToplevelView) -> SnapshotPlan {
        SnapshotPlan {
            size: self.size(toplevel),
            block_out_from: self.effective_block_out_from(),
            origin: if self.is_mirror {
                Point { x: 0, y: 0 }
            } else {
                self.surface_start(toplevel)->0
            },
            into_viewport: if self.is_mirror {
                Some(self.mirror.view)
            } else {
                None
            },
        }
    }

    /// How the window is drawn when the layout animates its size.
    pub open spec fn sized_plan(
        self,
        toplevel: ToplevelView,
        size: ViewportSize,
        target: BlockOutTarget,
    ) -> SizedNormalPlan {
        SizedNormalPlan {
            plan: self.normal_plan(toplevel, target),
            viewport: if self.is_mirror {
                Some(size)
            } else {
                None
            },
        }
    }

    /// The part of the window that a window cast shows.
    pub open spec fn cast_bbox(self, bbox_with_popups: Rect) -> Rect {
        if self.is_mirror {
            Rect { loc: Point { x: 0, y: 0 }, size: self.mirror.size }
        } else {
            bbox_with_popups
        }
    }

    /// How the window is drawn for a window cast.
    pub open spec fn cast_plan(
        self,
        toplevel: ToplevelView,
        bbox_with_popups: Rect,
        block_out_enabled: bool,
    ) -> CastPlan {
        let target = BlockOutTarget::window_cast(block_out_enabled);
        CastPlan {
            size: self.size(toplevel),
            bbox: self.cast_bbox(bbox_with_popups),
            geometry_loc: if self.is_mirror {
                None
            } else {
                Some(toplevel.geometry.loc)
            },
            target,
            window: self.normal_plan(toplevel, target),
        }
    }
}

impl<T, S> Mapped<T, S> {
    /// Plans how the window itself is drawn.
    pub fn render_normal(&self, toplevel: &Toplevel, target: BlockOutTarget) -> (plan: NormalPlan)
        ensures
            plan == self@.normal_plan(toplevel@, target),
    {
        let blocked_out = target.should_block_out(self.effective_block_out_from());
        match self.element_namespace() {
            Some(namespace) => NormalPlan::Mirror {
                namespace,
                size: self.mirror.size,
                view: self.mirror.view,
                contents: !blocked_out,
            },
            None => if blocked_out {
                NormalPlan::BlockedOut { size: toplevel.geometry.size }
            } else {
                NormalPlan::Surfaces { geometry_loc: toplevel.geometry.loc }
            },
        }
    }

    /// Plans how the window itself is drawn when the layout animates its size: a mirror fills the
    /// given viewport.
    pub fn render_normal_with_size(
        &self,
        toplevel: &Toplevel,
        size: ViewportSize,
        target: BlockOutTarget,
    ) -> (plan: SizedNormalPlan)
        ensures
            plan.plan == self@.normal_plan(toplevel@, target),
            plan.viewport == if self@.is_mirror {
                Some(size)
            } else {
                None
            },
            plan == self@.sized_plan(toplevel@, size, target),
    {
        SizedNormalPlan {
            plan: self.render_normal(toplevel, target),
            viewport: if self.is_mirror {
                Some(size)
            } else {
                None
            },
        }
    }

    /// Plans how the popups are drawn, in their order; those of a window that is left out are left
    /// out too.
    pub fn render_popups(&self, popups: &Vec<Popup>, target: BlockOutTarget) -> (plans: Vec<
        PopupPlan,
    >)
        requires
            !self@.is_left_out(target) ==> forall|i: int|
                0 <= i < popups.len() ==> (#[trigger] popups[i]).offset.can_subtract(
                    popups[i].geometry.loc,
                ) && popups[i].geometry.loc.can_negate(),
        ensures
            plans@ == if self@.is_left_out(target) {
                Seq::empty()
            } else {
                popups@.map_values(|popup: Popup| self@.popup_plan(popup))
            },
            plans@ == self@.popup_plans(popups@, target),
    {
        let mut plans: Vec<PopupPlan> = Vec::new();
        if target.should_block_out(self.effective_block_out_from()) {
            return plans;
        }
        let namespace = self.element_namespace();
        let element_kind = if self.is_mirror {
            ElementKind::Unspecified
        } else {
            ElementKind::ScanoutCandidate
        };
        for i in 0..popups.len()
            invariant
                namespace == self@.namespace(),
                element_kind == if self@.is_mirror {
                    ElementKind::Unspecified
                } else {
                    ElementKind::ScanoutCandidate
                },
                forall|j: int|
                    0 <= j < popups.len() ==> (#[trigger] popups[j]).offset.can_subtract(
                        popups[j].geometry.loc,
                    ) && popups[j].geometry.loc.can_negate(),
                plans.len() == i,
                forall|j: int| 0 <= j < i ==> #[trigger] plans[j] == self@.popup_plan(popups[j]),
        {
            let popup = popups[i];
            assert(popups[i as int].offset.can_subtract(popups[i as int].geometry.loc));
            let rules = match popup.kind {
                PopupKind::Xdg => self.rules.popups,
                PopupKind::InputMethod => ResolvedPopupsRules::default(),
            };
            let mut effect = rules.background_effect;
            if effect.xray.is_none() {
                effect.xray = Some(false);
            }
            let corner_radius = match rules.geometry_corner_radius {
                Some(radius) => radius,
                None => CornerRadius::default(),
            };
            plans.push(
                PopupPlan {
                    surface_offset: popup.offset.minus(popup.geometry.loc),
                    offset: popup.offset,
                    size: popup.geometry.size,
                    surface_off: popup.geometry.loc.negated(),
                    opacity: rules.opacity,
                    corner_radius,
                    effect,
                    blur: self.blur_config,
                    namespace,
                    element_kind,
                },
            );
        }
        assert(plans@ =~= popups@.map_values(|popup: Popup| self@.popup_plan(popup)));
        assert(plans@ =~= self@.popup_plans(popups@, target));
        plans
    }

    /// Plans how the effect behind the window is drawn; a window that is left out has none.
    pub fn render_background_effect(&self, toplevel: &Toplevel, target: BlockOutTarget) -> (plan:
        Option<BackgroundPlan>)
        requires
            !self@.is_mirror && !self@.is_left_out(target) ==> toplevel@.geometry.loc.can_negate(),
        ensures
            plan == if self@.is_left_out(target) {
                None
            } else {
                Some(
                    BackgroundPlan {
                        surface_off: if self@.is_mirror {
                            None
                        } else {
                            Some(
                                Point {
                                    x: (-toplevel@.geometry.loc.x) as i32,
                                    y: (-toplevel@.geometry.loc.y) as i32,
                                },
                            )
                        },
                        effect: self@.rules.background_effect,
                        blur: self@.blur_config,
                    },
                )
            },
            plan == self@.background_plan(toplevel@, target),
    {
        if target.should_block_out(self.effective_block_out_from()) {
            return None;
        }
        Some(
            BackgroundPlan {
                surface_off: self.buf_loc(toplevel),
                effect: self.rules.background_effect,
                blur: self.blur_config,
            },
        )
    }

    /// Where the surfaces start, relative to the geometry of the window; for a mirror this follows
    /// from its viewport.
    pub fn buf_loc(&self, toplevel: &Toplevel) -> (loc: Option<Point>)
        requires
            !self@.is_mirror ==> toplevel@.geometry.loc.can_negate(),
        ensures
            loc == if self@.is_mirror {
                None
            } else {
                Some(
                    Point {
                        x: (-toplevel@.geometry.loc.x) as i32,
                        y: (-toplevel@.geometry.loc.y) as i32,
                    },
                )
            },
            loc == self@.surface_start(toplevel@),
    {
        if self.is_mirror {
            return None;
        }
        Some(toplevel.geometry.loc.negated())
    }

    /// Plans a snapshot of the window without popups.
    pub fn render_snapshot(&self, toplevel: &Toplevel) -> (plan: SnapshotPlan)
        requires
            toplevel@.geometry.loc.can_negate(),
        ensures
            plan.size == self@.size(toplevel@),
            plan.block_out_from == self@.effective_block_out_from(),
            plan.into_viewport == if self@.is_mirror {
                Some(self@.mirror.view)
            } else {
                None
            },
            plan.origin == if self@.is_mirror {
                Point { x: 0, y: 0 }
            } else {
                Point {
                    x: (-toplevel@.geometry.loc.x) as i32,
                    y: (-toplevel@.geometry.loc.y) as i32,
                }
            },
            plan == self@.snapshot_plan(toplevel@),
    {
        SnapshotPlan {
            size: self.size(toplevel),
            block_out_from: self.effective_block_out_from(),
            origin: if self.is_mirror {
                Point { x: 0, y: 0 }
            } else {
                toplevel.geometry.loc.negated()
            },
            into_viewport: if self.is_mirror {
                Some(self.mirror.view)
            } else {
                None
            },
        }
    }

    /// The part of the window that a window cast shows, given the box around the window and its
    /// popups: that box, or for a mirror the viewport.
    pub fn window_cast_bbox(&self, bbox_with_popups: Rect) -> (bbox: Rect)
        ensures
            bbox == self@.cast_bbox(bbox_with_popups),
    {
        if self.is_mirror {
            Rect { loc: Point { x: 0, y: 0 }, size: self.mirror.size }
        } else {
            bbox_with_popups
        }
    }

    /// Plans how the window is drawn for a window cast, given whether blocking out is enabled.
    pub fn render_for_screen_cast(
        &self,
        toplevel: &Toplevel,
        bbox_with_popups: Rect,
        block_out_enabled: bool,
    ) -> (plan: CastPlan)
        ensures
            plan == self@.cast_plan(toplevel@, bbox_with_popups, block_out_enabled),
    {
        let target = BlockOutTarget::for_window_cast(block_out_enabled);
        CastPlan {
            size: self.size(toplevel),
            bbox: self.window_cast_bbox(bbox_with_popups),
            geometry_loc: if self.is_mirror {
                None
            } else {
                Some(toplevel.geometry.loc)
            },
            target,
            window: self.render_normal(toplevel, target),
        }
    }
}

/// Whether an element of a window cast is drawn with rounded corners.
pub open spec fn rounds(is_solid_color: bool, radius: CornerRadius, has_border_shader: bool) -> bool {
    is_solid_color && !radius.square() && has_border_shader
}

/// Tells whether an element of a window cast is drawn with rounded corners.
///
/// The solid fill of a blocked-out window is, even if the window is not clipped to its geometry:
/// the client is assumed to round its own corners to that radius, so the fill should match.
pub fn uses_border(is_solid_color: bool, radius: CornerRadius, has_border_shader: bool) -> (uses:
    bool)
    ensures
        uses == (is_solid_color && !radius.square() && has_border_shader),
        uses == rounds(is_solid_color, radius, has_border_shader),
{
    is_solid_color && !radius.is_square() && has_border_shader
}

} // verus!
