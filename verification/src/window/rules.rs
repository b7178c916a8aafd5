//! Window rules as they apply to one window.

use crate::appearance::{
    is_same_corners, is_same_single, same_corners, same_single, BackgroundEffect, CornerRadius,
};
use crate::bits::SingleBits;
use crate::ipc::BlockOutFrom;
use crate::window_rule::ResolvedPopupsRules;
use vstd::prelude::*;

verus! {

/// Rules fully resolved for a window.
#[derive(Debug)]
pub struct ResolvedWindowRules {
    /// Whether to draw the border with a background.
    pub draw_border_with_background: Option<bool>,
    /// Extra opacity to draw the window with.
    pub opacity: Option<SingleBits>,
    /// Corner radius to assume the window has.
    pub geometry_corner_radius: Option<CornerRadius>,
    /// Whether to clip the window to its geometry.
    pub clip_to_geometry: Option<bool>,
    /// Where to block the window out from.
    pub block_out_from: Option<BlockOutFrom>,
    /// Whether screen captures of the window include the cursor.
    pub cursor_capture: Option<bool>,
    /// Whether to tell the window that it is tiled.
    pub tiled_state: Option<bool>,
    /// Background effect configuration.
    pub background_effect: BackgroundEffect,
    /// Rules for the popups of the window.
    pub popups: ResolvedPopupsRules,
    /// The rules that only the layout reads, written out as words; equal words are equal rules.
    pub layout_rules: Vec<u64>,
}

/// The contents of [`ResolvedWindowRules`].
pub struct ResolvedWindowRulesView {
    pub draw_border_with_background: Option<bool>,
    pub opacity: Option<SingleBits>,
    pub geometry_corner_radius: Option<CornerRadius>,
    pub clip_to_geometry: Option<bool>,
    pub block_out_from: Option<BlockOutFrom>,
    pub cursor_capture: Option<bool>,
    pub tiled_state: Option<bool>,
    pub background_effect: BackgroundEffect,
    pub popups: ResolvedPopupsRules,
    pub layout_rules: Seq<u64>,
}

impl View for ResolvedWindowRules {
    type V = ResolvedWindowRulesView;

    open spec fn view(&self) -> ResolvedWindowRulesView {
        ResolvedWindowRulesView {
            draw_border_with_background: self.draw_border_with_background,
            opacity: self.opacity,
            geometry_corner_radius: self.geometry_corner_radius,
            clip_to_geometry: self.clip_to_geometry,
            block_out_from: self.block_out_from,
            cursor_capture: self.cursor_capture,
            tiled_state: self.tiled_state,
            background_effect: self.background_effect,
            popups: self.popups,
            layout_rules: self.layout_rules@,
        }
    }
}

impl ResolvedWindowRulesView {
    /// Whether both rules say the same.
    #[verifier::opaque]
    pub open spec fn same_rules(self, other: ResolvedWindowRulesView) -> bool {
        &&& self.draw_border_with_background == other.draw_border_with_background
        &&& same_single(self.opacity, other.opacity)
        &&& same_corners(self.geometry_corner_radius, other.geometry_corner_radius)
        &&& self.clip_to_geometry == other.clip_to_geometry
        &&& self.block_out_from == other.block_out_from
        &&& self.cursor_capture == other.cursor_capture
        &&& self.tiled_state == other.tiled_state
        &&& self.background_effect.same_effect(other.background_effect)
        &&& self.popups.same_rules(other.popups)
        &&& self.layout_rules == other.layout_rules
    }

    /// The rules for a mirror of the window.
    ///
    /// Mirrors are viewports around another window, so their letterboxing stays transparent
    /// instead of taking the border background fill of the source, and they are always clipped.
    pub open spec fn for_mirror(self) -> ResolvedWindowRulesView {
        ResolvedWindowRulesView {
            clip_to_geometry: Some(true),
            draw_border_with_background: Some(false),
            ..self
        }
    }

    /// Whether the opacity rule makes the window semitransparent.
    #[verifier::opaque]
    pub open spec fn is_semitransparent(self) -> bool {
        self.opacity is Some && self.opacity->0.below_one()
    }
}

impl ResolvedWindowRules {
    /// Compares two rules.
    pub fn is_same_rules(&self, other: &ResolvedWindowRules) -> (same: bool)
        ensures
            same == self@.same_rules(other@),
    {
        reveal(ResolvedWindowRulesView::same_rules);
        self.draw_border_with_background == other.draw_border_with_background && is_same_single(
            self.opacity,
            other.opacity,
        ) && is_same_corners(self.geometry_corner_radius, other.geometry_corner_radius)
            && self.clip_to_geometry == other.clip_to_geometry && self.block_out_from
            == other.block_out_from && self.cursor_capture == other.cursor_capture
            && self.tiled_state == other.tiled_state && self.background_effect.is_same_effect(
            other.background_effect,
        ) && self.popups.is_same_rules(other.popups) && same_words(
            &self.layout_rules,
            &other.layout_rules,
        )
    }

    /// Copies the rules.
    pub fn copied(&self) -> (copy: ResolvedWindowRules)
        ensures
            copy@ == self@,
    {
        let mut layout_rules: Vec<u64> = Vec::new();
        for i in 0..self.layout_rules.len()
            invariant
                layout_rules@ == self.layout_rules@.take(i as int),
        {
            layout_rules.push(self.layout_rules[i]);
        }
        assert(layout_rules@ =~= self.layout_rules@);
        ResolvedWindowRules {
            draw_border_with_background: self.draw_border_with_background,
            opacity: self.opacity,
            geometry_corner_radius: self.geometry_corner_radius,
            clip_to_geometry: self.clip_to_geometry,
            block_out_from: self.block_out_from,
            cursor_capture: self.cursor_capture,
            tiled_state: self.tiled_state,
            background_effect: self.background_effect,
            popups: self.popups,
            layout_rules,
        }
    }

    /// Turns the rules into those for a mirror.
    pub fn into_mirror(self) -> (rules: ResolvedWindowRules)
        ensures
            rules@ == self@.for_mirror(),
    {
        ResolvedWindowRules {
            clip_to_geometry: Some(true),
            draw_border_with_background: Some(false),
            ..self
        }
    }

    /// Tells whether the opacity rule makes the window semitransparent.
    pub fn makes_semitransparent(&self) -> (is: bool)
        ensures
            is == self@.is_semitransparent(),
    {
        reveal(ResolvedWindowRulesView::is_semitransparent);
        match self.opacity {
            Some(opacity) => opacity.is_below_one(),
            None => false,
        }
    }
}

/// Rules that say the same agree in every setting, numbers as numbers, and rules that agree in every
/// setting say the same.
pub proof fn same_rules_agree_in_every_setting(
    a: ResolvedWindowRulesView,
    b: ResolvedWindowRulesView,
)
    ensures
        a.same_rules(b) ==> {
            &&& a.draw_border_with_background == b.draw_border_with_background
            &&& a.clip_to_geometry == b.clip_to_geometry
            &&& a.block_out_from == b.block_out_from
            &&& a.cursor_capture == b.cursor_capture
            &&& a.tiled_state == b.tiled_state
            &&& a.layout_rules == b.layout_rules
            &&& a.opacity is Some <==> b.opacity is Some
            &&& a.opacity is Some ==> a.opacity->0.same_number(b.opacity->0)
            &&& a.geometry_corner_radius is Some <==> b.geometry_corner_radius is Some
            &&& a.geometry_corner_radius is Some ==> a.geometry_corner_radius->0.same_radii(
                b.geometry_corner_radius->0,
            )
            &&& a.background_effect.same_effect(b.background_effect)
            &&& a.popups.same_rules(b.popups)
        },
        a.draw_border_with_background == b.draw_border_with_background && a.clip_to_geometry
            == b.clip_to_geometry && a.block_out_from == b.block_out_from && a.cursor_capture
            == b.cursor_capture && a.tiled_state == b.tiled_state && a.layout_rules
            == b.layout_rules && (a.opacity is None && b.opacity is None || (a.opacity is Some
            && b.opacity is Some && a.opacity->0.same_number(b.opacity->0))) && (
        a.geometry_corner_radius is None && b.geometry_corner_radius is None || (
        a.geometry_corner_radius is Some && b.geometry_corner_radius is Some
            && a.geometry_corner_radius->0.same_radii(b.geometry_corner_radius->0)))
            && a.background_effect.same_effect(b.background_effect) && a.popups.same_rules(b.popups)
            ==> a.same_rules(b),
        a.same_rules(b) <==> b.same_rules(a),
{
    reveal(ResolvedWindowRulesView::same_rules);
}

/// The rules for a mirror clip it and keep its letterboxing transparent, whatever the rules say, and
/// are those of the window in every other setting.
pub proof fn mirror_rules_are_those_of_the_window(rules: ResolvedWindowRulesView)
    ensures
        ({
            let mirror = rules.for_mirror();
            &&& mirror.clip_to_geometry == Some(true)
            &&& mirror.draw_border_with_background == Some(false)
            &&& mirror.opacity == rules.opacity
            &&& mirror.geometry_corner_radius == rules.geometry_corner_radius
            &&& mirror.block_out_from == rules.block_out_from
            &&& mirror.cursor_capture == rules.cursor_capture
            &&& mirror.tiled_state == rules.tiled_state
            &&& mirror.background_effect == rules.background_effect
            &&& mirror.popups == rules.popups
            &&& mirror.layout_rules == rules.layout_rules
            &&& mirror.for_mirror() == mirror
        }),
{
}

/// A window is semitransparent by its rules exactly if they set an opacity that lies below one.
pub proof fn opacity_below_one_is_semitransparent(rules: ResolvedWindowRulesView)
    ensures
        rules.opacity is None ==> !rules.is_semitransparent(),
        rules.opacity is Some ==> (rules.is_semitransparent() <==> rules.opacity->0.below_one()),
{
    reveal(ResolvedWindowRulesView::is_semitransparent);
}

fn same_words(a: &Vec<u64>, b: &Vec<u64>) -> (same: bool)
    ensures
        same == (a@ == b@),
{
    if a.len() != b.len() {
        return false;
    }
    for i in 0..a.len()
        invariant
            a.len() == b.len(),
            forall|j: int| 0 <= j < i ==> a[j] == b[j],
    {
        if a[i] != b[i] {
            return false;
        }
    }
    assert(a@ =~= b@);
    true
}

} // verus!
