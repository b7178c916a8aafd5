//! Visual settings of windows and pop-ups.

use crate::bits::{DoubleBits, SingleBits};
use vstd::prelude::*;

verus! {

/// Radii of the four corners.
#[derive(Debug, Clone, Copy, PartialEq)]
pub struct CornerRadius {
    pub top_left: SingleBits,
    pub top_right: SingleBits,
    pub bottom_right: SingleBits,
    pub bottom_left: SingleBits,
}

impl CornerRadius {
    /// Whether no corner is rounded.
    pub open spec fn square(self) -> bool {
        let zero = SingleBits { bits: 0 };
        &&& self.top_left.same_number(zero)
        &&& self.top_right.same_number(zero)
        &&& self.bottom_right.same_number(zero)
        &&& self.bottom_left.same_number(zero)
    }

    /// Whether all four radii are the same numbers.
    pub open spec fn same_radii(self, other: CornerRadius) -> bool {
        &&& self.top_left.same_number(other.top_left)
        &&& self.top_right.same_number(other.top_right)
        &&& self.bottom_right.same_number(other.bottom_right)
        &&& self.bottom_left.same_number(other.bottom_left)
    }

    /// Tells whether no corner is rounded.
    pub fn is_square(self) -> (square: bool)
        ensures
            square == self.square(),
    {
        let zero = SingleBits { bits: 0 };
        self.top_left.is_same_number(zero) && self.top_right.is_same_number(zero)
            && self.bottom_right.is_same_number(zero) && self.bottom_left.is_same_number(zero)
    }

    /// Compares the four radii as numbers.
    pub fn has_same_radii(self, other: CornerRadius) -> (same: bool)
        ensures
            same == self.same_radii(other),
    {
        self.top_left.is_same_number(other.top_left) && self.top_right.is_same_number(
            other.top_right,
        ) && self.bottom_right.is_same_number(other.bottom_right)
            && self.bottom_left.is_same_number(other.bottom_left)
    }
}

impl Default for CornerRadius {
    fn default() -> (radius: Self)
        ensures
            radius.square(),
            radius == (CornerRadius {
                top_left: SingleBits { bits: 0 },
                top_right: SingleBits { bits: 0 },
                bottom_right: SingleBits { bits: 0 },
                bottom_left: SingleBits { bits: 0 },
            }),
    {
        let zero = SingleBits { bits: 0 };
        CornerRadius { top_left: zero, top_right: zero, bottom_right: zero, bottom_left: zero }
    }
}

/// Settings of the blur behind translucent surfaces.
#[derive(Debug, Clone, Copy, PartialEq)]
pub struct Blur {
    pub off: bool,
    pub passes: u8,
    pub offset: DoubleBits,
    pub noise: DoubleBits,
    pub saturation: DoubleBits,
}

/// What is drawn behind a translucent surface; what is not set is left to the defaults.
#[derive(Debug, Clone, Copy, PartialEq)]
pub struct BackgroundEffect {
    /// Whether the surface shows the wallpaper in place of what lies below it.
    pub xray: Option<bool>,
    /// Whether the background is blurred.
    pub blur: Option<bool>,
    /// Strength of the noise.
    pub noise: Option<DoubleBits>,
    /// Saturation of the background.
    pub saturation: Option<DoubleBits>,
}

/// The background effect settings of one rule.
#[derive(Debug, Clone, Copy, PartialEq)]
pub struct BackgroundEffectRule {
    pub xray: Option<bool>,
    pub blur: Option<bool>,
    pub noise: Option<DoubleBits>,
    pub saturation: Option<DoubleBits>,
}

impl BackgroundEffectRule {
    /// A rule that leaves everything open.
    pub open spec fn unset() -> BackgroundEffectRule {
        BackgroundEffectRule { xray: None, blur: None, noise: None, saturation: None }
    }
}

impl Default for BackgroundEffectRule {
    fn default() -> (rule: Self)
        ensures
            rule == BackgroundEffectRule::unset(),
    {
        BackgroundEffectRule { xray: None, blur: None, noise: None, saturation: None }
    }
}

/// The setting of a rule, or where the rule leaves it open, the setting so far.
pub open spec fn overridden<A>(base: Option<A>, part: Option<A>) -> Option<A> {
    if part is Some {
        part
    } else {
        base
    }
}

/// Whether two optional numbers are the same.
pub open spec fn same_single(a: Option<SingleBits>, b: Option<SingleBits>) -> bool {
    match (a, b) {
        (Some(a), Some(b)) => a.same_number(b),
        (None, None) => true,
        _ => false,
    }
}

/// Compares two optional numbers.
pub fn is_same_single(a: Option<SingleBits>, b: Option<SingleBits>) -> (same: bool)
    ensures
        same == same_single(a, b),
{
    match (a, b) {
        (Some(a), Some(b)) => a.is_same_number(b),
        (None, None) => true,
        _ => false,
    }
}

/// Whether two optional numbers are the same.
pub open spec fn same_double(a: Option<DoubleBits>, b: Option<DoubleBits>) -> bool {
    match (a, b) {
        (Some(a), Some(b)) => a.same_number(b),
        (None, None) => true,
        _ => false,
    }
}

/// Compares two optional numbers.
pub fn is_same_double(a: Option<DoubleBits>, b: Option<DoubleBits>) -> (same: bool)
    ensures
        same == same_double(a, b),
{
    match (a, b) {
        (Some(a), Some(b)) => a.is_same_number(b),
        (None, None) => true,
        _ => false,
    }
}

/// Whether two optional radii are the same.
pub open spec fn same_corners(a: Option<CornerRadius>, b: Option<CornerRadius>) -> bool {
    match (a, b) {
        (Some(a), Some(b)) => a.same_radii(b),
        (None, None) => true,
        _ => false,
    }
}

/// Compares two optional radii.
pub fn is_same_corners(a: Option<CornerRadius>, b: Option<CornerRadius>) -> (same: bool)
    ensures
        same == same_corners(a, b),
{
    match (a, b) {
        (Some(a), Some(b)) => a.has_same_radii(b),
        (None, None) => true,
        _ => false,
    }
}

impl BackgroundEffect {
    /// The settings after a rule has been applied.
    pub open spec fn merged(self, part: BackgroundEffectRule) -> BackgroundEffect {
        BackgroundEffect {
            xray: overridden(self.xray, part.xray),
            blur: overridden(self.blur, part.blur),
            noise: overridden(self.noise, part.noise),
            saturation: overridden(self.saturation, part.saturation),
        }
    }

    /// Whether both settings say the same.
    pub open spec fn same_effect(self, other: BackgroundEffect) -> bool {
        &&& self.xray == other.xray
        &&& self.blur == other.blur
        &&& same_double(self.noise, other.noise)
        &&& same_double(self.saturation, other.saturation)
    }

    /// Applies what a rule sets.
    pub fn merge_with(&mut self, part: &BackgroundEffectRule)
        ensures
            *final(self) == old(self).merged(*part),
    {
        if part.xray.is_some() {
            self.xray = part.xray;
        }
        if part.blur.is_some() {
            self.blur = part.blur;
        }
        if part.noise.is_some() {
            self.noise = part.noise;
        }
        if part.saturation.is_some() {
            self.saturation = part.saturation;
        }
    }

    /// Compares two settings.
    pub fn is_same_effect(self, other: BackgroundEffect) -> (same: bool)
        ensures
            same == self.same_effect(other),
    {
        self.xray == other.xray && self.blur == other.blur && is_same_double(
            self.noise,
            other.noise,
        ) && is_same_double(self.saturation, other.saturation)
    }
}

impl Default for BackgroundEffect {
    fn default() -> (effect: Self)
        ensures
            effect == (BackgroundEffect { xray: None, blur: None, noise: None, saturation: None }),
    {
        BackgroundEffect { xray: None, blur: None, noise: None, saturation: None }
    }
}

/// Effects say the same exactly if they agree in every setting, numbers as numbers.
pub proof fn same_effects_agree_in_every_setting(a: BackgroundEffect, b: BackgroundEffect)
    ensures
        a.same_effect(b) ==> {
            &&& a.xray == b.xray
            &&& a.blur == b.blur
            &&& a.noise is Some <==> b.noise is Some
            &&& a.noise is Some ==> a.noise->0.same_number(b.noise->0)
            &&& a.saturation is Some <==> b.saturation is Some
            &&& a.saturation is Some ==> a.saturation->0.same_number(b.saturation->0)
        },
        a.xray == b.xray && a.blur == b.blur && (a.noise is None && b.noise is None || (a.noise
            is Some && b.noise is Some && a.noise->0.same_number(b.noise->0))) && (a.saturation
            is None && b.saturation is None || (a.saturation is Some && b.saturation is Some
            && a.saturation->0.same_number(b.saturation->0))) ==> a.same_effect(b),
{
}

/// A rule decides every setting that it makes and leaves every other one as it was.
pub proof fn effect_rule_decides_what_it_sets(base: BackgroundEffect, rule: BackgroundEffectRule)
    ensures
        ({
            let merged = base.merged(rule);
            &&& rule.xray is Some ==> merged.xray == rule.xray
            &&& rule.xray is None ==> merged.xray == base.xray
            &&& rule.blur is Some ==> merged.blur == rule.blur
            &&& rule.blur is None ==> merged.blur == base.blur
            &&& rule.noise is Some ==> merged.noise == rule.noise
            &&& rule.noise is None ==> merged.noise == base.noise
            &&& rule.saturation is Some ==> merged.saturation == rule.saturation
            &&& rule.saturation is None ==> merged.saturation == base.saturation
        }),
{
}

/// Radii are the same exactly if each corner is, and corners are square exactly if none of the four
/// is rounded.
pub proof fn every_corner_counts(a: CornerRadius, b: CornerRadius)
    ensures
        a.same_radii(b) <==> a.top_left.same_number(b.top_left) && a.top_right.same_number(
            b.top_right,
        ) && a.bottom_right.same_number(b.bottom_right) && a.bottom_left.same_number(b.bottom_left),
        a.square() && b.square() ==> a.same_radii(b),
        a.square() && a.same_radii(b) ==> b.square(),
        a.square() ==> a.top_left.magnitude() == 0 && a.top_right.magnitude() == 0
            && a.bottom_right.magnitude() == 0 && a.bottom_left.magnitude() == 0,
        a.top_left.magnitude() == 0 && a.top_right.magnitude() == 0 && a.bottom_right.magnitude()
            == 0 && a.bottom_left.magnitude() == 0 ==> a.square(),
{
}

} // verus!
