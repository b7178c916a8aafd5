//! Rotations and reflections of what is drawn.

use crate::geometry::{Point, Rect, Size};
use vstd::prelude::*;

verus! {

/// A rotation by quarter turns, with or without a reflection.
#[derive(Debug, Clone, Copy, PartialEq, Eq, Structural)]
pub enum Transform {
    Normal,
    _90,
    _180,
    _270,
    Flipped,
    Flipped90,
    Flipped180,
    Flipped270,
}

/// A vector with components of any size.
pub struct Vector {
    pub x: int,
    pub y: int,
}

impl Transform {
    /// Where a vector is turned to.
    pub open spec fn turned(self, v: Vector) -> Vector {
        match self {
            Transform::Normal => v,
            Transform::_90 => Vector { x: -v.y, y: v.x },
            Transform::_180 => Vector { x: -v.x, y: -v.y },
            Transform::_270 => Vector { x: v.y, y: -v.x },
            Transform::Flipped => Vector { x: -v.x, y: v.y },
            Transform::Flipped90 => Vector { x: v.y, y: v.x },
            Transform::Flipped180 => Vector { x: v.x, y: -v.y },
            Transform::Flipped270 => Vector { x: -v.y, y: -v.x },
        }
    }

    /// Whether width and height change places.
    pub open spec fn is_sideways(self) -> bool {
        self is _90 || self is _270 || self is Flipped90 || self is Flipped270
    }

    /// The transform with quarter turns in the other direction; a reflection stays.
    pub open spec fn inverse(self) -> Transform {
        match self {
            Transform::_90 => Transform::_270,
            Transform::_270 => Transform::_90,
            Transform::Flipped90 => Transform::Flipped270,
            Transform::Flipped270 => Transform::Flipped90,
            other => other,
        }
    }

    /// The size after the transform.
    pub open spec fn turned_size(self, size: Size) -> Size {
        if self.is_sideways() {
            Size { w: size.h, h: size.w }
        } else {
            size
        }
    }

    /// Where the left edge of a rectangle comes to lie, within an area.
    pub open spec fn turned_left(self, rect: Rect, area: Size) -> int {
        match self {
            Transform::Normal | Transform::Flipped180 => rect.loc.x as int,
            Transform::_90 | Transform::Flipped90 => area.h - rect.loc.y - rect.size.h,
            Transform::_180 | Transform::Flipped => area.w - rect.loc.x - rect.size.w,
            Transform::_270 | Transform::Flipped270 => rect.loc.y as int,
        }
    }

    /// Where the top edge of a rectangle comes to lie, within an area.
    pub open spec fn turned_top(self, rect: Rect, area: Size) -> int {
        match self {
            Transform::Normal | Transform::Flipped => rect.loc.y as int,
            Transform::_90 | Transform::Flipped270 => rect.loc.x as int,
            Transform::_180 | Transform::Flipped180 => area.h - rect.loc.y - rect.size.h,
            Transform::_270 | Transform::Flipped90 => area.w - rect.loc.x - rect.size.w,
        }
    }

    /// The rectangle after the transform, within an area.
    pub open spec fn turned_rect(self, rect: Rect, area: Size) -> Rect {
        Rect {
            loc: Point {
                x: self.turned_left(rect, area) as i32,
                y: self.turned_top(rect, area) as i32,
            },
            size: self.turned_size(rect.size),
        }
    }

    /// Whether the transform counts from the right edge of an area.
    pub open spec fn uses_right(self) -> bool {
        self is _180 || self is _270 || self is Flipped || self is Flipped90
    }

    /// Whether the transform counts from the bottom edge of an area.
    pub open spec fn uses_bottom(self) -> bool {
        self is _90 || self is _180 || self is Flipped90 || self is Flipped180
    }

    /// Whether the distances to a rectangle, from those far edges of an area that the transform
    /// counts from, can be represented.
    pub open spec fn can_turn(self, rect: Rect, area: Size) -> bool {
        &&& self.uses_right() ==> i32::MIN <= area.w - rect.loc.x <= i32::MAX && i32::MIN <= area.w
            - rect.loc.x - rect.size.w <= i32::MAX
        &&& self.uses_bottom() ==> i32::MIN <= area.h - rect.loc.y <= i32::MAX && i32::MIN
            <= area.h - rect.loc.y - rect.size.h <= i32::MAX
    }

    /// Whether a vector can be turned.
    pub open spec fn can_turn_vector(self, vector: Point) -> bool {
        &&& i32::MIN <= self.turned(vector_of(vector)).x <= i32::MAX
        &&& i32::MIN <= self.turned(vector_of(vector)).y <= i32::MAX
    }

    /// Reverses the direction of quarter turns.
    pub fn invert(self) -> (transform: Transform)
        ensures
            transform == self.inverse(),
    {
        match self {
            Transform::Normal => Transform::Normal,
            Transform::Flipped => Transform::Flipped,
            Transform::_90 => Transform::_270,
            Transform::_180 => Transform::_180,
            Transform::_270 => Transform::_90,
            Transform::Flipped90 => Transform::Flipped270,
            Transform::Flipped180 => Transform::Flipped180,
            Transform::Flipped270 => Transform::Flipped90,
        }
    }

    /// Transforms a size.
    pub fn transform_size(self, size: Size) -> (turned: Size)
        ensures
            turned == self.turned_size(size),
    {
        match self {
            Transform::_90 | Transform::_270 | Transform::Flipped90 | Transform::Flipped270 => Size {
                w: size.h,
                h: size.w,
            },
            _ => size,
        }
    }

    /// Tells whether a rectangle can be transformed inside an area.
    pub fn fits(self, rect: Rect, area: Size) -> (fits: bool)
        ensures
            fits == self.can_turn(rect, area),
    {
        let from_right: i64 = area.w as i64 - rect.loc.x as i64;
        let from_bottom: i64 = area.h as i64 - rect.loc.y as i64;
        let fits_right = is_coordinate(from_right) && is_coordinate(
            from_right - rect.size.w as i64,
        );
        let fits_bottom = is_coordinate(from_bottom) && is_coordinate(
            from_bottom - rect.size.h as i64,
        );
        match self {
            Transform::Normal | Transform::Flipped270 => true,
            Transform::_90 | Transform::Flipped180 => fits_bottom,
            Transform::_270 | Transform::Flipped => fits_right,
            Transform::_180 | Transform::Flipped90 => fits_right && fits_bottom,
        }
    }

    /// Transforms a rectangle inside an area.
    pub fn transform_rect_in(self, rect: Rect, area: Size) -> (turned: Rect)
        requires
            self.can_turn(rect, area),
        ensures
            turned == self.turned_rect(rect, area),
    {
        let loc = match self {
            Transform::Normal => rect.loc,
            Transform::_90 => Point { x: area.h - rect.loc.y - rect.size.h, y: rect.loc.x },
            Transform::_180 => Point {
                x: area.w - rect.loc.x - rect.size.w,
                y: area.h - rect.loc.y - rect.size.h,
            },
            Transform::_270 => Point { x: rect.loc.y, y: area.w - rect.loc.x - rect.size.w },
            Transform::Flipped => Point { x: area.w - rect.loc.x - rect.size.w, y: rect.loc.y },
            Transform::Flipped90 => Point {
                x: area.h - rect.loc.y - rect.size.h,
                y: area.w - rect.loc.x - rect.size.w,
            },
            Transform::Flipped180 => Point { x: rect.loc.x, y: area.h - rect.loc.y - rect.size.h },
            Transform::Flipped270 => Point { x: rect.loc.y, y: rect.loc.x },
        };
        Rect { loc, size: self.transform_size(rect.size) }
    }
}

fn is_coordinate(value: i64) -> (is: bool)
    ensures
        is == (i32::MIN <= value <= i32::MAX),
{
    i32::MIN as i64 <= value && value <= i32::MAX as i64
}

/// The vector of a point.
pub open spec fn vector_of(point: Point) -> Vector {
    Vector { x: point.x as int, y: point.y as int }
}

/// Turns a vector.
pub fn transform_vector(transform: Transform, vector: Point) -> (turned: Point)
    requires
        transform.can_turn_vector(vector),
    ensures
        vector_of(turned) == transform.turned(vector_of(vector)),
{
    match transform {
        Transform::Normal => vector,
        Transform::_90 => Point { x: -vector.y, y: vector.x },
        Transform::_180 => Point { x: -vector.x, y: -vector.y },
        Transform::_270 => Point { x: vector.y, y: -vector.x },
        Transform::Flipped => Point { x: -vector.x, y: vector.y },
        Transform::Flipped90 => Point { x: vector.y, y: vector.x },
        Transform::Flipped180 => Point { x: vector.x, y: -vector.y },
        Transform::Flipped270 => Point { x: -vector.y, y: -vector.x },
    }
}

/// Whether a transform turns every vector as two transforms do one after the other.
pub open spec fn composes(first: Transform, second: Transform, composed: Transform) -> bool {
    forall|v: Vector| #[trigger] composed.turned(v) == second.turned(first.turned(v))
}

/// Gives the transform that turns every vector as two transforms do one after the other.
pub fn compose_transforms(first: Transform, second: Transform) -> (composed: Transform)
    ensures
        composes(first, second, composed),
{
    let x = transform_vector(second, transform_vector(first, Point { x: 1, y: 0 }));
    let y = transform_vector(second, transform_vector(first, Point { x: 0, y: 1 }));
    if x.x == 1 && y.y == 1 {
        Transform::Normal
    } else if x.y == 1 && y.x == -1 {
        Transform::_90
    } else if x.x == -1 && y.y == -1 {
        Transform::_180
    } else if x.y == -1 && y.x == 1 {
        Transform::_270
    } else if x.x == -1 && y.y == 1 {
        Transform::Flipped
    } else if x.y == 1 && y.x == 1 {
        Transform::Flipped90
    } else if x.x == 1 && y.y == -1 {
        Transform::Flipped180
    } else {
        Transform::Flipped270
    }
}

/// Two transforms have one composition.
pub proof fn composition_is_unique(first: Transform, second: Transform, a: Transform, b: Transform)
    requires
        composes(first, second, a),
        composes(first, second, b),
    ensures
        a == b,
{
    let x = Vector { x: 1, y: 0 };
    let y = Vector { x: 0, y: 1 };
    assert(a.turned(x) == b.turned(x));
    assert(a.turned(y) == b.turned(y));
}

/// It does not matter which two of three transforms are composed first.
pub proof fn composition_is_associative(
    first: Transform,
    second: Transform,
    third: Transform,
    front: Transform,
    back: Transform,
    all: Transform,
)
    requires
        composes(first, second, front),
        composes(second, third, back),
    ensures
        composes(front, third, all) <==> composes(first, back, all),
{
    if composes(front, third, all) {
        assert forall|v: Vector| #[trigger] all.turned(v) == back.turned(first.turned(v)) by {
            assert(front.turned(v) == second.turned(first.turned(v)));
            assert(back.turned(first.turned(v)) == third.turned(second.turned(first.turned(v))));
        }
    }
    if composes(first, back, all) {
        assert forall|v: Vector| #[trigger] all.turned(v) == third.turned(front.turned(v)) by {
            assert(front.turned(v) == second.turned(first.turned(v)));
            assert(back.turned(first.turned(v)) == third.turned(second.turned(first.turned(v))));
        }
    }
}

/// Composing with no transform changes nothing, and a transform undoes its inverse, unless it is a
/// reflection with a quarter turn, which undoes itself.
pub proof fn composition_with_inverse(transform: Transform)
    ensures
        composes(transform, Transform::Normal, transform),
        composes(Transform::Normal, transform, transform),
        !(transform is Flipped90 || transform is Flipped270) ==> composes(
            transform.inverse(),
            transform,
            Transform::Normal,
        ),
        transform is Flipped90 || transform is Flipped270 ==> composes(
            transform,
            transform,
            Transform::Normal,
        ),
{
}

/// Whether a rectangle lies inside an area.
pub open spec fn inside(rect: Rect, area: Size) -> bool {
    &&& 0 <= rect.size.w
    &&& 0 <= rect.size.h
    &&& 0 <= rect.loc.x
    &&& 0 <= rect.loc.y
    &&& rect.loc.x + rect.size.w <= area.w
    &&& rect.loc.y + rect.size.h <= area.h
}

/// A rectangle inside an area can be transformed, lies inside the transformed area afterwards, and
/// comes back by the inverse transform, unless that is a reflection with a quarter turn, where it
/// comes back by the same transform.
pub proof fn transformed_rect_stays_inside(transform: Transform, rect: Rect, area: Size)
    requires
        inside(rect, area),
    ensures
        transform.can_turn(rect, area),
        inside(transform.turned_rect(rect, area), transform.turned_size(area)),
        !(transform is Flipped90 || transform is Flipped270) ==> transform.inverse().turned_rect(
            transform.turned_rect(rect, area),
            transform.turned_size(area),
        ) == rect,
        transform is Flipped90 || transform is Flipped270 ==> transform.turned_rect(
            transform.turned_rect(rect, area),
            transform.turned_size(area),
        ) == rect,
{
}

/// The turns are made of quarter turns, which take each axis to the next one, and the reflections are
/// turns followed by the one that reverses the horizontal axis.
pub proof fn transforms_are_quarter_turns_and_a_reflection(v: Vector)
    ensures
        Transform::Normal.turned(v) == v,
        Transform::_90.turned(v).x == -v.y,
        Transform::_90.turned(v).y == v.x,
        Transform::_180.turned(v) == Transform::_90.turned(Transform::_90.turned(v)),
        Transform::_270.turned(v) == Transform::_90.turned(Transform::_180.turned(v)),
        Transform::_90.turned(Transform::_270.turned(v)) == v,
        Transform::Flipped.turned(v).x == -v.x,
        Transform::Flipped.turned(v).y == v.y,
        Transform::Flipped90.turned(v) == Transform::Flipped.turned(Transform::_90.turned(v)),
        Transform::Flipped180.turned(v) == Transform::Flipped.turned(Transform::_180.turned(v)),
        Transform::Flipped270.turned(v) == Transform::Flipped.turned(Transform::_270.turned(v)),
{
}

/// Rectangles inside an area are turned by quarter turns, each of which takes the bottom edge of the
/// area to the left one, and reflected by reversing the horizontal axis first.
pub proof fn rectangles_turn_by_quarters(rect: Rect, area: Size)
    requires
        inside(rect, area),
    ensures
        ({
            let quarter = Transform::_90.turned_rect(rect, area);
            let sideways = Transform::_90.turned_size(area);
            let half = Transform::_180.turned_rect(rect, area);
            let reflected = Transform::Flipped.turned_rect(rect, area);
            &&& Transform::Normal.turned_rect(rect, area) == rect
            &&& quarter.loc.x + rect.loc.y + rect.size.h == area.h
            &&& quarter.loc.y == rect.loc.x
            &&& quarter.size.w == rect.size.h
            &&& quarter.size.h == rect.size.w
            &&& half == Transform::_90.turned_rect(quarter, sideways)
            &&& Transform::_270.turned_rect(rect, area) == Transform::_90.turned_rect(half, area)
            &&& reflected.loc.x + rect.loc.x + rect.size.w == area.w
            &&& reflected.loc.y == rect.loc.y
            &&& reflected.size == rect.size
            &&& Transform::Flipped90.turned_rect(rect, area) == Transform::_90.turned_rect(
                reflected,
                area,
            )
            &&& Transform::Flipped180.turned_rect(rect, area) == Transform::_180.turned_rect(
                reflected,
                area,
            )
            &&& Transform::Flipped270.turned_rect(rect, area) == Transform::_270.turned_rect(
                reflected,
                area,
            )
        }),
{
}

/// Width and height change places with every quarter turn, and with nothing else; the inverse turns
/// the other way round and keeps a reflection.
pub proof fn sizes_turn_by_quarters(transform: Transform, size: Size)
    ensures
        Transform::Normal.turned_size(size) == size,
        Transform::_90.turned_size(size).w == size.h,
        Transform::_90.turned_size(size).h == size.w,
        Transform::_180.turned_size(size) == size,
        Transform::_270.turned_size(size) == Transform::_90.turned_size(size),
        Transform::Flipped.turned_size(size) == size,
        Transform::Flipped90.turned_size(size) == Transform::_90.turned_size(size),
        Transform::Flipped180.turned_size(size) == size,
        Transform::Flipped270.turned_size(size) == Transform::_90.turned_size(size),
        transform.inverse().inverse() == transform,
        transform.inverse().turned_size(transform.turned_size(size)) == size,
        Transform::_90.inverse() is _270,
        Transform::Flipped90.inverse() is Flipped270,
        transform is Normal || transform is _180 || transform is Flipped || transform is Flipped180
            ==> transform.inverse() == transform,
{
}

/// Where an element is drawn that is transformed around an origin.
#[derive(Debug, Clone, Copy, PartialEq, Eq, Structural)]
pub struct TransformedWaylandSurfaceRenderElement {
    origin: Point,
    area: Size,
    element_transform: Transform,
}

impl TransformedWaylandSurfaceRenderElement {
    /// Where the transformed area starts.
    pub closed spec fn origin(self) -> Point {
        self.origin
    }

    /// Size of the area that is transformed.
    pub closed spec fn area(self) -> Size {
        self.area
    }

    /// The transform.
    pub closed spec fn element_transform(self) -> Transform {
        self.element_transform
    }

    /// The geometry relative to the origin.
    pub open spec fn from_origin(self, geometry: Rect) -> Rect {
        Rect {
            loc: Point {
                x: (geometry.loc.x - self.origin().x) as i32,
                y: (geometry.loc.y - self.origin().y) as i32,
            },
            size: geometry.size,
        }
    }

    /// Whether the element can be placed, given where the element inside is.
    pub open spec fn can_place(self, inner: Rect) -> bool {
        let transform = self.element_transform();
        let relative = self.from_origin(inner);
        &&& inner.loc.can_subtract(self.origin())
        &&& transform.can_turn(relative, self.area())
        &&& i32::MIN <= transform.turned_left(relative, self.area()) + self.origin().x <= i32::MAX
        &&& i32::MIN <= transform.turned_top(relative, self.area()) + self.origin().y <= i32::MAX
    }

    /// Transforms what is drawn inside an area at an origin.
    pub fn new(origin: Point, area: Size, element_transform: Transform) -> (element: Self)
        ensures
            element.origin() == origin,
            element.area() == area,
            element.element_transform() == element_transform,
    {
        TransformedWaylandSurfaceRenderElement { origin, area, element_transform }
    }

    /// How the texture of the element is sampled, given how the element inside samples it.
    pub fn sample_transform(&self, inner: Transform) -> (sample: Transform)
        ensures
            composes(self.element_transform().inverse(), inner, sample),
    {
        compose_transforms(self.element_transform.invert(), inner)
    }

    /// Where the element is drawn, given where the element inside is; nowhere, if that cannot be
    /// represented.
    pub fn checked_geometry(&self, inner: Rect) -> (geometry: Option<Rect>)
        ensures
            geometry is Some == self.can_place(inner),
            geometry is Some ==> self.is_placed(inner, geometry->0),
    {
        let x: i64 = inner.loc.x as i64 - self.origin.x as i64;
        let y: i64 = inner.loc.y as i64 - self.origin.y as i64;
        if !is_coordinate(x) || !is_coordinate(y) {
            return None;
        }
        let relative = Rect { loc: Point { x: x as i32, y: y as i32 }, size: inner.size };
        if !self.element_transform.fits(relative, self.area) {
            return None;
        }
        let turned = self.element_transform.transform_rect_in(relative, self.area);
        let x: i64 = turned.loc.x as i64 + self.origin.x as i64;
        let y: i64 = turned.loc.y as i64 + self.origin.y as i64;
        if !is_coordinate(x) || !is_coordinate(y) {
            return None;
        }
        Some(Rect { loc: Point { x: x as i32, y: y as i32 }, size: turned.size })
    }

    /// Whether the element comes to lie there, given where the element inside is.
    pub open spec fn is_placed(self, inner: Rect, geometry: Rect) -> bool {
        let transform = self.element_transform();
        let relative = self.from_origin(inner);
        &&& geometry.size == transform.turned_size(inner.size)
        &&& geometry.loc.x == transform.turned_left(relative, self.area()) + self.origin().x
        &&& geometry.loc.y == transform.turned_top(relative, self.area()) + self.origin().y
    }

    /// Where the element is drawn, given where the element inside is.
    pub fn geometry(&self, inner: Rect) -> (geometry: Rect)
        requires
            self.can_place(inner),
        ensures
            self.is_placed(inner, geometry),
    {
        let relative = Rect { loc: inner.loc.minus(self.origin), size: inner.size };
        let turned = self.element_transform.transform_rect_in(relative, self.area);
        Rect {
            loc: Point { x: turned.loc.x + self.origin.x, y: turned.loc.y + self.origin.y },
            size: turned.size,
        }
    }

    /// The damaged or opaque parts of the element, given those of the element inside and its size.
    pub fn regions(&self, inner: &Vec<Rect>, inner_size: Size) -> (regions: Vec<Rect>)
        requires
            forall|i: int|
                0 <= i < inner.len() ==> self.element_transform().can_turn(
                    #[trigger] inner[i],
                    inner_size,
                ),
        ensures
            regions@ == inner@.map_values(
                |rect: Rect| self.element_transform().turned_rect(rect, inner_size),
            ),
    {
        let mut regions: Vec<Rect> = Vec::new();
        for i in 0..inner.len()
            invariant
                forall|j: int|
                    0 <= j < inner.len() ==> self.element_transform().can_turn(
                        #[trigger] inner[j],
                        inner_size,
                    ),
                regions.len() == i,
                forall|j: int|
                    0 <= j < i ==> #[trigger] regions[j] == self.element_transform().turned_rect(
                        inner[j],
                        inner_size,
                    ),
        {
            assert(self.element_transform().can_turn(inner[i as int], inner_size));
            regions.push(self.element_transform.transform_rect_in(inner[i], inner_size));
        }
        assert(regions@ =~= inner@.map_values(
            |rect: Rect| self.element_transform().turned_rect(rect, inner_size),
        ));
        regions
    }
}

/// An element that lies inside the area at the origin comes to lie inside the turned area at the
/// origin, where its rectangle is turned to; moving the origin and the element together moves what
/// is drawn the same way.
pub proof fn elements_turn_within_their_area(
    element: TransformedWaylandSurfaceRenderElement,
    moved: TransformedWaylandSurfaceRenderElement,
    inner: Rect,
    moved_inner: Rect,
    geometry: Rect,
    moved_geometry: Rect,
    dx: int,
    dy: int,
)
    requires
        element.can_place(inner),
        element.is_placed(inner, geometry),
        moved.can_place(moved_inner),
        moved.is_placed(moved_inner, moved_geometry),
        moved.area() == element.area(),
        moved.element_transform() == element.element_transform(),
        moved.origin().x == element.origin().x + dx,
        moved.origin().y == element.origin().y + dy,
        moved_inner.loc.x == inner.loc.x + dx,
        moved_inner.loc.y == inner.loc.y + dy,
        moved_inner.size == inner.size,
    ensures
        moved_geometry.loc.x == geometry.loc.x + dx,
        moved_geometry.loc.y == geometry.loc.y + dy,
        moved_geometry.size == geometry.size,
        geometry.size == element.element_transform().turned_size(inner.size),
        element.element_transform() is Normal ==> geometry == inner,
        ({
            let relative = element.from_origin(inner);
            let area = element.element_transform().turned_size(element.area());
            inside(relative, element.area()) ==> {
                &&& geometry.loc.x - element.origin().x == element.element_transform().turned_rect(
                    relative,
                    element.area(),
                ).loc.x
                &&& geometry.loc.y - element.origin().y == element.element_transform().turned_rect(
                    relative,
                    element.area(),
                ).loc.y
                &&& 0 <= geometry.loc.x - element.origin().x
                &&& geometry.loc.x - element.origin().x + geometry.size.w <= area.w
                &&& 0 <= geometry.loc.y - element.origin().y
                &&& geometry.loc.y - element.origin().y + geometry.size.h <= area.h
            }
        }),
{
    let relative = element.from_origin(inner);
    assert(moved.from_origin(moved_inner) == relative);
    if inside(relative, element.area()) {
        transformed_rect_stays_inside(element.element_transform(), relative, element.area());
    }
}

} // verus!
