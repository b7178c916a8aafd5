//! What holds of the plans for drawing entries.

use crate::appearance::CornerRadius;
use crate::geometry::Rect;
use crate::ipc::BlockOutFrom;
use crate::window::mapped::render::{
    radius_or_square, rounds, BlockOutTarget, ElementKind, NormalPlan, Popup, ViewportSize,
};
use crate::window::mapped::{callback_output, MappedView};
use crate::window::toplevel::ToplevelView;
use vstd::prelude::*;

verus! {

/// Whether a plan shows what is in the window.
pub open spec fn shows_contents(plan: NormalPlan) -> bool {
    match plan {
        NormalPlan::BlockedOut { .. } => false,
        NormalPlan::Surfaces { .. } => true,
        NormalPlan::Mirror { contents, .. } => contents,
    }
}

/// A frame leaves out what is blocked out from screen captures exactly if it leaves out such
/// windows, and what is blocked out from screencasts exactly if it leaves out those; whether it
/// leaves out the other kind does not matter, and a window that is not blocked out is in every
/// frame.
pub proof fn each_kind_of_block_out_counts_for_itself(target: BlockOutTarget, other: bool)
    ensures
        (BlockOutTarget { blocks_screencast: other, ..target }).blocks(
            Some(BlockOutFrom::ScreenCapture),
        ) == target.blocks_screen_capture,
        (BlockOutTarget { blocks_screen_capture: other, ..target }).blocks(
            Some(BlockOutFrom::Screencast),
        ) == target.blocks_screencast,
        !target.blocks(None),
{
}

/// The contents of an entry, its popups and the effect behind it are drawn, or left out, together:
/// an entry that is blocked out from screen captures is left out of exactly the frames that leave
/// out such windows, one that is blocked out from screencasts of those that leave out these, and one
/// that is not blocked out of none.
pub proof fn frames_leave_out_what_is_blocked_out<T, S>(
    entry: MappedView<T, S>,
    toplevel: ToplevelView,
    target: BlockOutTarget,
    popups: Seq<Popup>,
)
    ensures
        ({
            let from = entry.effective_block_out_from();
            let shown = shows_contents(entry.normal_plan(toplevel, target));
            &&& from == Some(BlockOutFrom::ScreenCapture) ==> shown == !target.blocks_screen_capture
            &&& from == Some(BlockOutFrom::Screencast) ==> shown == !target.blocks_screencast
            &&& from is None ==> shown
            &&& entry.background_plan(toplevel, target) is Some <==> shown
            &&& shown ==> entry.popup_plans(popups, target).len() == popups.len()
            &&& !shown ==> entry.popup_plans(popups, target).len() == 0
        }),
{
}

/// A window that is left out is filled in its own size, and a shown one starts with its geometry; a
/// mirror fills its viewport either way, with its own view, and is told from its source by a
/// namespace, which is its id where that fits.
pub proof fn windows_and_mirrors_are_drawn_in_place<T, S>(
    entry: MappedView<T, S>,
    toplevel: ToplevelView,
    target: BlockOutTarget,
    size: ViewportSize,
)
    ensures
        ({
            let plan = entry.normal_plan(toplevel, target);
            let sized = entry.sized_plan(toplevel, size, target);
            &&& entry.is_mirror <==> plan is Mirror
            &&& plan matches NormalPlan::BlockedOut { size } ==> size == toplevel.geometry.size
            &&& plan matches NormalPlan::Surfaces { geometry_loc } ==> geometry_loc
                == toplevel.geometry.loc
            &&& plan matches NormalPlan::Mirror { namespace, size, view, .. } ==> size
                == entry.mirror.size && view == entry.mirror.view && (entry.id.number()
                <= usize::MAX ==> namespace == entry.id.number()) && (entry.id.number() > usize::MAX
                ==> namespace == usize::MAX)
            &&& plan.element_kind() == ElementKind::ScanoutCandidate <==> !entry.is_mirror
                && shows_contents(plan)
            &&& sized.plan == plan
            &&& entry.is_mirror ==> sized.viewport == Some(size)
            &&& !entry.is_mirror ==> sized.viewport is None
        }),
{
}

/// A popup is drawn where it is: its surface starts before its geometry by the offset that the
/// geometry has in it. A regular popup follows the popup rules of the window, one of an input method
/// none; without a rule the corners are square, and what is below a popup shows through unless a
/// rule says otherwise. Popups of mirrors are told from those of the source.
pub proof fn popups_are_drawn_in_place<T, S>(
    entry: MappedView<T, S>,
    toplevel: ToplevelView,
    popups: Seq<Popup>,
    target: BlockOutTarget,
    at: int,
)
    requires
        !entry.is_left_out(target),
        0 <= at < popups.len(),
        popups[at].offset.can_subtract(popups[at].geometry.loc),
        popups[at].geometry.loc.can_negate(),
    ensures
        ({
            let popup = popups[at];
            let plan = entry.popup_plans(popups, target)[at];
            let rules = entry.rules.popups;
            &&& plan.offset == popup.offset
            &&& plan.size == popup.geometry.size
            &&& plan.surface_offset.x + popup.geometry.loc.x == popup.offset.x
            &&& plan.surface_offset.y + popup.geometry.loc.y == popup.offset.y
            &&& plan.surface_off.x + popup.geometry.loc.x == 0
            &&& plan.surface_off.y + popup.geometry.loc.y == 0
            &&& plan.blur == entry.blur_config
            &&& plan.namespace is Some <==> entry.is_mirror
            &&& entry.is_mirror ==> (entry.normal_plan(toplevel, target) matches
                NormalPlan::Mirror { namespace, .. } && plan.namespace == Some(namespace))
            &&& plan.element_kind == ElementKind::ScanoutCandidate <==> !entry.is_mirror
            &&& popup.kind is Xdg ==> {
                &&& plan.opacity == rules.opacity
                &&& rules.geometry_corner_radius is Some ==> plan.corner_radius
                    == rules.geometry_corner_radius->0
                &&& rules.geometry_corner_radius is None ==> plan.corner_radius.square()
                &&& plan.effect.blur == rules.background_effect.blur
                &&& plan.effect.noise == rules.background_effect.noise
                &&& plan.effect.saturation == rules.background_effect.saturation
                &&& rules.background_effect.xray is Some ==> plan.effect.xray
                    == rules.background_effect.xray
                &&& rules.background_effect.xray is None ==> plan.effect.xray == Some(false)
            }
            &&& popup.kind is InputMethod ==> {
                &&& plan.opacity is None
                &&& plan.corner_radius.square()
                &&& plan.effect.xray == Some(false)
                &&& plan.effect.blur is None
                &&& plan.effect.noise is None
                &&& plan.effect.saturation is None
            }
        }),
{
}

/// The surfaces of a real window start before its geometry by the offset that the geometry has in
/// them; the effect behind a window is that of its rules, with its own blur.
pub proof fn backgrounds_lie_behind_the_surfaces<T, S>(
    entry: MappedView<T, S>,
    toplevel: ToplevelView,
    target: BlockOutTarget,
)
    requires
        toplevel.geometry.loc.can_negate(),
    ensures
        entry.is_mirror ==> entry.surface_start(toplevel) is None,
        !entry.is_mirror ==> {
            let start = entry.surface_start(toplevel);
            &&& start is Some
            &&& start->0.x + toplevel.geometry.loc.x == 0
            &&& start->0.y + toplevel.geometry.loc.y == 0
        },
        entry.background_plan(toplevel, target) matches Some(plan) ==> plan.surface_off
            == entry.surface_start(toplevel) && plan.effect == entry.rules.background_effect
            && plan.blur == entry.blur_config,
{
}

/// A snapshot has the size of the entry and knows where the entry is blocked out from. That of a
/// real window starts where its surfaces do, and that of a mirror shows them through its view.
pub proof fn snapshots_show_the_entry<T, S>(entry: MappedView<T, S>, toplevel: ToplevelView)
    requires
        toplevel.geometry.loc.can_negate(),
    ensures
        ({
            let plan = entry.snapshot_plan(toplevel);
            &&& plan.size == entry.size(toplevel)
            &&& plan.block_out_from == entry.effective_block_out_from()
            &&& !entry.is_mirror ==> {
                &&& plan.into_viewport is None
                &&& plan.origin.x + toplevel.geometry.loc.x == 0
                &&& plan.origin.y + toplevel.geometry.loc.y == 0
            }
            &&& entry.is_mirror ==> {
                &&& plan.into_viewport == Some(entry.mirror.view)
                &&& plan.origin.x == 0
                &&& plan.origin.y == 0
            }
        }),
{
}

/// A window cast shows the window with its popups, or the viewport of a mirror from its corner on; it
/// leaves out all that is blocked out from anything if blocking out is enabled, and else nothing.
pub proof fn casts_show_the_entry<T, S>(
    entry: MappedView<T, S>,
    toplevel: ToplevelView,
    bbox: Rect,
    enabled: bool,
)
    ensures
        ({
            let plan = entry.cast_plan(toplevel, bbox, enabled);
            &&& plan.size == entry.size(toplevel)
            &&& !entry.is_mirror ==> plan.bbox == bbox && plan.geometry_loc == Some(
                toplevel.geometry.loc,
            )
            &&& entry.is_mirror ==> plan.bbox.loc.x == 0 && plan.bbox.loc.y == 0 && plan.bbox.size
                == entry.mirror.size && plan.geometry_loc is None
            &&& plan.target.blocks_screencast == enabled
            &&& plan.target.blocks_screen_capture == enabled
            &&& plan.window == entry.normal_plan(toplevel, plan.target)
            &&& shows_contents(plan.window) <==> !enabled || entry.effective_block_out_from() is None
        }),
{
}

/// Only solid fills are rounded, only with a shader for it, and only if a corner is.
pub proof fn fills_are_rounded_like_windows(solid: bool, radius: CornerRadius, shader: bool)
    ensures
        rounds(solid, radius, shader) ==> solid && shader,
        radius.square() ==> !rounds(solid, radius, shader),
        solid && shader && !radius.square() ==> rounds(solid, radius, shader),
        radius_or_square(Some(radius)) == radius,
        radius_or_square(None).square(),
{
}

/// Frame callbacks go by the primary output of a surface; where it has none, by the given one if a
/// callback is owed, and else there is none.
pub proof fn owed_callbacks_are_sent<O>(primary: Option<O>, owed: bool, output: O)
    ensures
        primary is Some ==> callback_output(primary, owed, output) == primary,
        primary is None && owed ==> callback_output(primary, owed, output) == Some(output),
        primary is None && !owed ==> callback_output(primary, owed, output) is None,
{
}

} // verus!
