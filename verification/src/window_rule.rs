//! Settings that window rules make.

use crate::appearance::{
    is_same_corners, is_same_single, overridden, same_corners, same_single, BackgroundEffect,
    BackgroundEffectRule, CornerRadius,
};
use crate::bits::{DoubleBits, SingleBits};
use crate::text::same_str;
use std::str::FromStr;
use vstd::prelude::*;
use vstd::string::*;

verus! {

/// Rules for popup surfaces.
#[derive(Debug, Clone, Copy, PartialEq)]
pub struct PopupsRule {
    pub opacity: Option<SingleBits>,
    pub geometry_corner_radius: Option<CornerRadius>,
    pub background_effect: BackgroundEffectRule,
}

/// Resolved popup-specific rules.
#[derive(Debug, Clone, Copy, PartialEq)]
pub struct ResolvedPopupsRules {
    /// Extra opacity to draw popups with.
    pub opacity: Option<SingleBits>,

    /// Corner radius to assume the popups have.
    pub geometry_corner_radius: Option<CornerRadius>,

    /// Background effect configuration for popups.
    pub background_effect: BackgroundEffect,
}

impl Default for PopupsRule {
    fn default() -> (rule: Self)
        ensures
            rule == (PopupsRule {
                opacity: None,
                geometry_corner_radius: None,
                background_effect: BackgroundEffectRule::unset(),
            }),
    {
        PopupsRule {
            opacity: None,
            geometry_corner_radius: None,
            background_effect: BackgroundEffectRule::default(),
        }
    }
}

impl ResolvedPopupsRules {
    /// No rule for popups at all.
    pub open spec fn unset() -> ResolvedPopupsRules {
        ResolvedPopupsRules {
            opacity: None,
            geometry_corner_radius: None,
            background_effect: BackgroundEffect {
                xray: None,
                blur: None,
                noise: None,
                saturation: None,
            },
        }
    }

    /// The rules after another rule has been applied.
    pub open spec fn merged(self, part: PopupsRule) -> ResolvedPopupsRules {
        ResolvedPopupsRules {
            opacity: overridden(self.opacity, part.opacity),
            geometry_corner_radius: overridden(
                self.geometry_corner_radius,
                part.geometry_corner_radius,
            ),
            background_effect: self.background_effect.merged(part.background_effect),
        }
    }

    /// Whether both rules say the same.
    pub open spec fn same_rules(self, other: ResolvedPopupsRules) -> bool {
        &&& same_single(self.opacity, other.opacity)
        &&& same_corners(self.geometry_corner_radius, other.geometry_corner_radius)
        &&& self.background_effect.same_effect(other.background_effect)
    }

    /// Applies what a rule sets.
    pub fn merge_with(&mut self, part: &PopupsRule)
        ensures
            *final(self) == old(self).merged(*part),
    {
        if part.opacity.is_some() {
            self.opacity = part.opacity;
        }
        if part.geometry_corner_radius.is_some() {
            self.geometry_corner_radius = part.geometry_corner_radius;
        }
        self.background_effect.merge_with(&part.background_effect);
    }

    /// Compares two rules.
    pub fn is_same_rules(self, other: ResolvedPopupsRules) -> (same: bool)
        ensures
            same == self.same_rules(other),
    {
        is_same_single(self.opacity, other.opacity) && is_same_corners(
            self.geometry_corner_radius,
            other.geometry_corner_radius,
        ) && self.background_effect.is_same_effect(other.background_effect)
    }
}

impl Default for ResolvedPopupsRules {
    fn default() -> (rules: Self)
        ensures
            rules == ResolvedPopupsRules::unset(),
    {
        ResolvedPopupsRules {
            opacity: None,
            geometry_corner_radius: None,
            background_effect: BackgroundEffect::default(),
        }
    }
}

/// Applying a rule twice is applying it once, and the rule that is applied last decides every
/// setting that it makes; the settings that it leaves open are those from before.
pub proof fn later_popup_rule_decides(
    base: ResolvedPopupsRules,
    first: PopupsRule,
    last: PopupsRule,
)
    ensures
        base.merged(last).merged(last) == base.merged(last),
        last.opacity is Some ==> base.merged(first).merged(last).opacity == last.opacity,
        last.opacity is None ==> base.merged(first).merged(last).opacity == base.merged(
            first,
        ).opacity,
        last.geometry_corner_radius is Some ==> base.merged(first).merged(
            last,
        ).geometry_corner_radius == last.geometry_corner_radius,
        last.geometry_corner_radius is None ==> base.merged(first).merged(
            last,
        ).geometry_corner_radius == base.merged(first).geometry_corner_radius,
        last.background_effect.xray is Some ==> base.merged(first).merged(
            last,
        ).background_effect.xray == last.background_effect.xray,
        last.background_effect.xray is None ==> base.merged(first).merged(
            last,
        ).background_effect.xray == base.merged(first).background_effect.xray,
        last.background_effect.blur is Some ==> base.merged(first).merged(
            last,
        ).background_effect.blur == last.background_effect.blur,
        last.background_effect.blur is None ==> base.merged(first).merged(
            last,
        ).background_effect.blur == base.merged(first).background_effect.blur,
        last.background_effect.noise is Some ==> base.merged(first).merged(
            last,
        ).background_effect.noise == last.background_effect.noise,
        last.background_effect.noise is None ==> base.merged(first).merged(
            last,
        ).background_effect.noise == base.merged(first).background_effect.noise,
        last.background_effect.saturation is Some ==> base.merged(first).merged(
            last,
        ).background_effect.saturation == last.background_effect.saturation,
        last.background_effect.saturation is None ==> base.merged(first).merged(
            last,
        ).background_effect.saturation == base.merged(first).background_effect.saturation,
{
}

/// A rule decides every setting that it makes and leaves every other one as it was; one that makes
/// none changes nothing.
pub proof fn popup_rule_decides_what_it_sets(base: ResolvedPopupsRules, rule: PopupsRule)
    ensures
        ({
            let merged = base.merged(rule);
            &&& rule.opacity is Some ==> merged.opacity == rule.opacity
            &&& rule.opacity is None ==> merged.opacity == base.opacity
            &&& rule.geometry_corner_radius is Some ==> merged.geometry_corner_radius
                == rule.geometry_corner_radius
            &&& rule.geometry_corner_radius is None ==> merged.geometry_corner_radius
                == base.geometry_corner_radius
            &&& merged.background_effect == base.background_effect.merged(rule.background_effect)
            &&& rule.opacity is None && rule.geometry_corner_radius is None
                && rule.background_effect == BackgroundEffectRule::unset() ==> merged == base
        }),
{
}

/// Popup rules say the same exactly if they agree in every setting, numbers as numbers.
pub proof fn same_popup_rules_agree_in_every_setting(
    a: ResolvedPopupsRules,
    b: ResolvedPopupsRules,
)
    ensures
        a.same_rules(b) ==> {
            &&& a.opacity is Some <==> b.opacity is Some
            &&& a.opacity is Some ==> a.opacity->0.same_number(b.opacity->0)
            &&& a.geometry_corner_radius is Some <==> b.geometry_corner_radius is Some
            &&& a.geometry_corner_radius is Some ==> a.geometry_corner_radius->0.same_radii(
                b.geometry_corner_radius->0,
            )
            &&& a.background_effect.same_effect(b.background_effect)
        },
        (a.opacity is None && b.opacity is None || (a.opacity is Some && b.opacity is Some
            && a.opacity->0.same_number(b.opacity->0))) && (a.geometry_corner_radius is None
            && b.geometry_corner_radius is None || (a.geometry_corner_radius is Some
            && b.geometry_corner_radius is Some && a.geometry_corner_radius->0.same_radii(
            b.geometry_corner_radius->0,
        ))) && a.background_effect.same_effect(b.background_effect) ==> a.same_rules(b),
{
}

/// Without rules nothing is set.
pub proof fn unset_popup_rules_set_nothing()
    ensures
        ResolvedPopupsRules::unset().opacity is None,
        ResolvedPopupsRules::unset().geometry_corner_radius is None,
        ResolvedPopupsRules::unset().background_effect.xray is None,
        ResolvedPopupsRules::unset().background_effect.blur is None,
        ResolvedPopupsRules::unset().background_effect.noise is None,
        ResolvedPopupsRules::unset().background_effect.saturation is None,
        BackgroundEffectRule::unset().xray is None,
        BackgroundEffectRule::unset().blur is None,
        BackgroundEffectRule::unset().noise is None,
        BackgroundEffectRule::unset().saturation is None,
{
}

/// When to draw the cursor over a window.
#[derive(Debug, Clone, Copy, PartialEq, Eq, Structural)]
pub enum DrawCursor {
    Default,
    AlwaysHidden,
    AlwaysShown,
    HiddenOnCapture,
}

impl Default for DrawCursor {
    fn default() -> (draw: Self)
        ensures
            draw == DrawCursor::Default,
    {
        DrawCursor::Default
    }
}

/// A cursor shape, by its CSS-style name.
#[derive(Debug, PartialEq, Eq)]
pub struct CursorIcon {
    pub name: String,
}

/// Which cursor shape to force over a window.
#[derive(Debug, PartialEq, Eq)]
pub enum ForceCursorShape {
    /// Leave the shape to the application.
    NoShape,
    /// Show this shape.
    Shape(CursorIcon),
}

impl Clone for CursorIcon {
    fn clone(&self) -> (copy: Self)
        ensures
            copy == *self,
    {
        CursorIcon { name: self.name.clone() }
    }
}

impl Clone for ForceCursorShape {
    fn clone(&self) -> (copy: Self)
        ensures
            copy == *self,
    {
        match self {
            ForceCursorShape::NoShape => ForceCursorShape::NoShape,
            ForceCursorShape::Shape(icon) => ForceCursorShape::Shape(icon.clone()),
        }
    }
}

/// A text that names no cursor shape.
#[derive(Debug, PartialEq, Eq)]
pub struct UnknownCursorShape {
    pub shape: String,
}

impl UnknownCursorShape {
    /// The message for the user.
    pub fn message(&self) -> (message: String)
        ensures
            message@ == "unknown cursor shape: "@ + self.shape@,
    {
        "unknown cursor shape: ".to_owned().concat(self.shape.as_str())
    }
}

/// Why the cursor-icon crate does not take a name.
#[verifier::external_type_specification]
#[verifier::external_body]
pub struct ExCursorParseError(cursor_icon::ParseError);

/// The names of the CSS cursors.
pub open spec fn css_cursor_names() -> Seq<Seq<char>> {
    seq![
        "default"@,
        "context-menu"@,
        "help"@,
        "pointer"@,
        "progress"@,
        "wait"@,
        "cell"@,
        "crosshair"@,
        "text"@,
        "vertical-text"@,
        "alias"@,
        "copy"@,
        "move"@,
        "no-drop"@,
        "not-allowed"@,
        "grab"@,
        "grabbing"@,
        "e-resize"@,
        "n-resize"@,
        "ne-resize"@,
        "nw-resize"@,
        "s-resize"@,
        "se-resize"@,
        "sw-resize"@,
        "w-resize"@,
        "ew-resize"@,
        "ns-resize"@,
        "nesw-resize"@,
        "nwse-resize"@,
        "col-resize"@,
        "row-resize"@,
        "all-scroll"@,
        "zoom-in"@,
        "zoom-out"@,
    ]
}

/// Calls `cursor_icon::CursorIcon::from_str` and gives the `name()` of the icon.
///
/// The parser accepts exactly the names of the CSS cursors, and the icon that it gives for one of
/// them has that text as its name.
#[verifier::external_body]
fn parse_css_cursor(name: &str) -> (icon: Result<String, cursor_icon::ParseError>)
    ensures
        icon is Ok == css_cursor_names().contains(name@),
        icon is Ok ==> icon->Ok_0@ == name@,
{
    cursor_icon::CursorIcon::from_str(name).map(|icon| icon.name().to_owned())
}

/// What a text says about the forced cursor shape: nothing for a text that names no shape, else the
/// name of the shape, if one is forced.
pub open spec fn forced_shape(text: Seq<char>) -> Option<Option<Seq<char>>> {
    if text == "none"@ {
        Some(None)
    } else if text == "dnd-ask"@ || text == "all-resize"@ || css_cursor_names().contains(text) {
        Some(Some(text))
    } else {
        None
    }
}

/// A shape that is forced goes by the very text that names it; the text for leaving the shape alone
/// forces none, and every name of a cursor, and the two that the others lack, forces its shape.
pub proof fn shapes_go_by_their_texts(text: Seq<char>)
    ensures
        forced_shape(text) matches Some(Some(name)) ==> name == text,
        forced_shape(text) == Some(None::<Seq<char>>) <==> text == "none"@,
        css_cursor_names().contains(text) && text != "none"@ ==> forced_shape(text) == Some(
            Some(text),
        ),
        forced_shape("dnd-ask"@) == Some(Some("dnd-ask"@)),
        forced_shape("all-resize"@) == Some(Some("all-resize"@)),
        !css_cursor_names().contains(text) && text != "none"@ && text != "dnd-ask"@ && text
            != "all-resize"@ ==> forced_shape(text) is None,
{
    reveal_strlit("none");
    reveal_strlit("dnd-ask");
    reveal_strlit("all-resize");
    assert("dnd-ask"@.len() != "none"@.len());
    assert("all-resize"@.len() != "none"@.len());
}

impl ForceCursorShape {
    /// The name of the forced shape, if there is one.
    pub open spec fn shape_name(self) -> Option<Seq<char>> {
        match self {
            ForceCursorShape::NoShape => None,
            ForceCursorShape::Shape(icon) => Some(icon.name@),
        }
    }

    /// The shape to show, if one is forced.
    pub fn icon(self) -> (icon: Option<CursorIcon>)
        ensures
            icon == match self {
                ForceCursorShape::NoShape => None,
                ForceCursorShape::Shape(icon) => Some(icon),
            },
    {
        match self {
            ForceCursorShape::NoShape => None,
            ForceCursorShape::Shape(icon) => Some(icon),
        }
    }

    /// Reads the setting off its text: `none`, or the name of a cursor.
    pub fn from_str(text: &str) -> (result: Result<ForceCursorShape, UnknownCursorShape>)
        ensures
            match result {
                Ok(shape) => forced_shape(text@) == Some(shape.shape_name()),
                Err(error) => forced_shape(text@) is None && error.shape@ == text@,
            },
    {
        if same_str(text, "none") {
            return Ok(ForceCursorShape::NoShape);
        }
        if same_str(text, "dnd-ask") || same_str(text, "all-resize") {
            return Ok(ForceCursorShape::Shape(CursorIcon { name: text.to_owned() }));
        }
        match parse_css_cursor(text) {
            Ok(name) => Ok(ForceCursorShape::Shape(CursorIcon { name })),
            Err(_) => Err(UnknownCursorShape { shape: text.to_owned() }),
        }
    }
}

/// A regular expression, by its pattern.
#[derive(Debug, PartialEq, Eq)]
pub struct RegexEq {
    pub pattern: String,
}

/// What a window has to be like for a rule to apply; what is not set matches every window.
#[derive(Debug, PartialEq, Eq)]
pub struct Match {
    pub app_id: Option<RegexEq>,
    pub title: Option<RegexEq>,
    pub is_active: Option<bool>,
    pub is_focused: Option<bool>,
    pub is_active_in_column: Option<bool>,
    pub is_floating: Option<bool>,
    pub is_sticky: Option<bool>,
    pub is_window_cast_target: Option<bool>,
    pub is_urgent: Option<bool>,
    pub at_startup: Option<bool>,
}

impl Clone for RegexEq {
    fn clone(&self) -> (copy: Self)
        ensures
            copy == *self,
    {
        RegexEq { pattern: self.pattern.clone() }
    }
}

fn cloned_regex(regex: &Option<RegexEq>) -> (copy: Option<RegexEq>)
    ensures
        copy == *regex,
{
    match regex {
        Some(regex) => Some(regex.clone()),
        None => None,
    }
}

impl Clone for Match {
    fn clone(&self) -> (copy: Self)
        ensures
            copy == *self,
    {
        Match {
            app_id: cloned_regex(&self.app_id),
            title: cloned_regex(&self.title),
            is_active: self.is_active,
            is_focused: self.is_focused,
            is_active_in_column: self.is_active_in_column,
            is_floating: self.is_floating,
            is_sticky: self.is_sticky,
            is_window_cast_target: self.is_window_cast_target,
            is_urgent: self.is_urgent,
            at_startup: self.at_startup,
        }
    }
}

impl Default for Match {
    fn default() -> (rule: Self)
        ensures
            rule == (Match {
                app_id: None,
                title: None,
                is_active: None,
                is_focused: None,
                is_active_in_column: None,
                is_floating: None,
                is_sticky: None,
                is_window_cast_target: None,
                is_urgent: None,
                at_startup: None,
            }),
    {
        Match {
            app_id: None,
            title: None,
            is_active: None,
            is_focused: None,
            is_active_in_column: None,
            is_floating: None,
            is_sticky: None,
            is_window_cast_target: None,
            is_urgent: None,
            at_startup: None,
        }
    }
}

/// Where a floating window opens.
#[derive(Debug, Clone, Copy, PartialEq)]
pub struct FloatingPosition {
    pub x: DoubleBits,
    pub y: DoubleBits,
    pub relative_to: RelativeTo,
}

/// The corner or edge that a position is counted from.
#[derive(Debug, Clone, Copy, PartialEq, Eq, Structural)]
pub enum RelativeTo {
    TopLeft,
    TopRight,
    BottomLeft,
    BottomRight,
    Top,
    Bottom,
    Left,
    Right,
}

impl Default for RelativeTo {
    fn default() -> (relative_to: Self)
        ensures
            relative_to == RelativeTo::TopLeft,
    {
        RelativeTo::TopLeft
    }
}

} // verus!
