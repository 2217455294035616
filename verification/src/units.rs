//! Positions, pixels and the projections between them.
//!
//! A `Position` is a point of the map plane in map units, a `Pixel` a point or
//! a displacement on a bitmap in sub-pixel units (`PIXEL_UNIT` to the pixel).
//! The two are made so that a map `s` pixels wide shows one map unit as `s`
//! sub-pixel units: projecting is a multiplication by the width of the map and
//! loses nothing, unprojecting is the division that undoes it.
//!
//! On the global map the plane is the Web Mercator square, `WORLD_SIZE` map
//! units on a side, with `x` growing eastwards from the antimeridian and `y`
//! growing southwards from the northern edge. On a local map a position is
//! planar, `LOCAL_UNIT` map units to the unit, with `y` growing upwards, so the
//! local projection flips it.

use crate::fixed::{
    floor_div, lemma_div_of_multiple, lemma_quotient_fits, saturate, saturated,
    saturating_difference, saturating_negation, saturating_product, saturating_sum, wide_product,
    PIXEL_UNIT,
};
use crate::projector::ProjectorType;
use crate::zoom::{Scale, MAX_TOTAL_PIXELS};
use vstd::prelude::*;
use vstd::std_specs::convert::FromSpecImpl;

verus! {

/// The side of the Web Mercator square in map units.
pub const WORLD_SIZE: i64 = 0x1_0000_0000;

/// The number of map units in one unit of a local map.
pub const LOCAL_UNIT: i64 = 256;

/// Positions no further than this from the origin, on either axis, project
/// without saturation at every scale.
pub const PLANE_LIMIT: i64 = 0x1_0000_0000;

/// Pixels no further than this from the origin, on either axis, can be added
/// to and subtracted from each other without saturation. Positions within
/// `PLANE_LIMIT` project to within half of it.
pub const PIXEL_LIMIT: i64 = 0x2000_0000_0000_0000;

/// A point of the map plane, in map units.
#[derive(Clone, Copy, Debug, PartialEq, Eq, Structural)]
pub struct Position {
    pub x: i64,
    pub y: i64,
}

/// A point or a displacement on a bitmap or on the screen, in sub-pixel units.
/// What it means depends on the scale it was made at.
#[derive(Clone, Copy, Debug, PartialEq, Eq, Structural)]
pub struct Pixel {
    pub x: i64,
    pub y: i64,
}

impl Pixel {
    /// The sum, each coordinate saturating.
    pub open spec fn spec_plus(self, other: Pixel) -> Pixel {
        Pixel { x: saturated(self.x + other.x), y: saturated(self.y + other.y) }
    }

    /// The difference, each coordinate saturating.
    pub open spec fn spec_minus(self, other: Pixel) -> Pixel {
        Pixel { x: saturated(self.x - other.x), y: saturated(self.y - other.y) }
    }

    /// The opposite displacement, each coordinate saturating.
    pub open spec fn spec_negated(self) -> Pixel {
        Pixel { x: saturated(-self.x), y: saturated(-self.y) }
    }

    /// No displacement, or the origin.
    pub open spec fn spec_zero() -> Pixel {
        Pixel { x: 0, y: 0 }
    }

    /// The displacement times `hundredths` over a hundred, each coordinate
    /// rounded down and saturating.
    pub open spec fn spec_scaled(self, hundredths: i32) -> Pixel {
        Pixel {
            x: saturated((self.x * hundredths) / 100),
            y: saturated((self.y * hundredths) / 100),
        }
    }

    /// Whether both coordinates lie within `PIXEL_LIMIT` of the origin.
    pub open spec fn in_reach(self) -> bool {
        &&& -PIXEL_LIMIT <= self.x <= PIXEL_LIMIT
        &&& -PIXEL_LIMIT <= self.y <= PIXEL_LIMIT
    }

    /// Whether each coordinate is less than `tolerance` away from that of `other`.
    pub open spec fn within(self, other: Pixel, tolerance: int) -> bool {
        &&& -tolerance < self.x - other.x < tolerance
        &&& -tolerance < self.y - other.y < tolerance
    }

    /// Whether both coordinates are multiples of `s`.
    pub open spec fn aligned(self, s: int) -> bool {
        &&& self.x as int % s == 0
        &&& self.y as int % s == 0
    }

    /// The position shown at this pixel of the global bitmap `s` pixels wide.
    pub open spec fn global_unprojected(self, s: int) -> Position {
        Position { x: (self.x as int / s) as i64, y: (self.y as int / s) as i64 }
    }

    /// The position shown at this pixel of the local bitmap at scale `s`.
    pub open spec fn local_unprojected(self, s: int) -> Position {
        Position { x: (self.x as int / s) as i64, y: saturated((-self.y) / s) }
    }

    /// The position shown at this pixel, by the kind of projection.
    pub open spec fn unprojected(self, mode: ProjectorType, s: int) -> Position {
        match mode {
            ProjectorType::Global => self.global_unprojected(s),
            ProjectorType::Local => self.local_unprojected(s),
        }
    }

    /// The pixel at coordinates in sub-pixel units.
    pub fn new(x: i64, y: i64) -> (r: Pixel)
        ensures
            r == (Pixel { x, y }),
    {
        Pixel { x, y }
    }

    /// The pixel at whole-pixel coordinates.
    pub fn from_pixels(x: i32, y: i32) -> (r: Pixel)
        ensures
            r.x == x * PIXEL_UNIT,
            r.y == y * PIXEL_UNIT,
    {
        Pixel { x: x as i64 * PIXEL_UNIT, y: y as i64 * PIXEL_UNIT }
    }

    /// No displacement, or the origin.
    #[verifier::when_used_as_spec(spec_zero)]
    pub fn zero() -> (r: Pixel)
        ensures
            r == Pixel::zero(),
    {
        Pixel { x: 0, y: 0 }
    }

    /// The sum, each coordinate saturating.
    #[verifier::when_used_as_spec(spec_plus)]
    pub fn plus(self, other: Pixel) -> (r: Pixel)
        ensures
            r == self.plus(other),
    {
        Pixel { x: saturating_sum(self.x, other.x), y: saturating_sum(self.y, other.y) }
    }

    /// The difference, each coordinate saturating.
    #[verifier::when_used_as_spec(spec_minus)]
    pub fn minus(self, other: Pixel) -> (r: Pixel)
        ensures
            r == self.minus(other),
    {
        Pixel {
            x: saturating_difference(self.x, other.x),
            y: saturating_difference(self.y, other.y),
        }
    }

    /// The opposite displacement, each coordinate saturating.
    #[verifier::when_used_as_spec(spec_negated)]
    pub fn negated(self) -> (r: Pixel)
        ensures
            r == self.negated(),
    {
        Pixel { x: saturating_negation(self.x), y: saturating_negation(self.y) }
    }

    /// The displacement times `hundredths` over a hundred, each coordinate
    /// rounded down and saturating.
    #[verifier::when_used_as_spec(spec_scaled)]
    pub fn scaled(self, hundredths: i32) -> (r: Pixel)
        ensures
            r == self.scaled(hundredths),
    {
        let x: i128 = floor_div(wide_product(self.x, hundredths as i64), 100);
        let y: i128 = floor_div(wide_product(self.y, hundredths as i64), 100);
        Pixel { x: saturate(x), y: saturate(y) }
    }

    /// The position whose cell of the bitmap holds this pixel, by the kind of
    /// projection.
    pub fn bitmap_unproject(&self, mode: ProjectorType, scale: Scale) -> (r: Position)
        requires
            scale.wf(),
        ensures
            r == self.unprojected(mode, scale@),
    {
        match mode {
            ProjectorType::Global => self.global_bitmap_unproject(scale),
            ProjectorType::Local => self.local_bitmap_unproject(scale),
        }
    }

    /// The position whose cell of the global bitmap holds this pixel: each
    /// coordinate divided by the width of the map, rounded down.
    pub fn global_bitmap_unproject(&self, scale: Scale) -> (r: Position)
        requires
            scale.wf(),
        ensures
            r == self.global_unprojected(scale@),
    {
        let s: i128 = scale.total_pixels() as i128;
        let x: i128 = floor_div(self.x as i128, s);
        let y: i128 = floor_div(self.y as i128, s);
        proof {
            lemma_quotient_fits(self.x as int, s as int);
            lemma_quotient_fits(self.y as int, s as int);
        }
        Position { x: x as i64, y: y as i64 }
    }

    /// The position whose cell of the local bitmap holds this pixel; the
    /// vertical axis is flipped before the division.
    pub fn local_bitmap_unproject(&self, scale: Scale) -> (r: Position)
        requires
            scale.wf(),
        ensures
            r == self.local_unprojected(scale@),
    {
        let s: i128 = scale.total_pixels() as i128;
        let x: i128 = floor_div(self.x as i128, s);
        let y: i128 = floor_div(-(self.y as i128), s);
        proof {
            lemma_quotient_fits(self.x as int, s as int);
        }
        Position { x: x as i64, y: saturate(y) }
    }
}

impl Default for Pixel {
    /// No displacement, or the origin.
    fn default() -> (r: Pixel)
        ensures
            r == Pixel::zero(),
    {
        Pixel { x: 0, y: 0 }
    }
}

impl Position {
    /// Whether both coordinates lie within `PLANE_LIMIT` of the origin.
    pub open spec fn in_plane(self) -> bool {
        &&& -PLANE_LIMIT <= self.x <= PLANE_LIMIT
        &&& -PLANE_LIMIT <= self.y <= PLANE_LIMIT
    }

    /// Whether the position projects without saturation at scale `s`: whether
    /// its coordinates times the scale, the vertical one flipped on the local
    /// map, are within the range of a pixel's coordinates.
    pub open spec fn projects_exactly(self, mode: ProjectorType, s: int) -> bool {
        &&& i64::MIN <= self.x * s <= i64::MAX
        &&& match mode {
            ProjectorType::Global => i64::MIN <= self.y * s <= i64::MAX,
            ProjectorType::Local => i64::MIN <= -(self.y * s) <= i64::MAX,
        }
    }

    /// The nearest position within the plane: each coordinate brought to
    /// within `PLANE_LIMIT` of the origin.
    pub open spec fn nearest_in_plane(self) -> Position {
        Position {
            x: if self.x < -PLANE_LIMIT {
                (-PLANE_LIMIT) as i64
            } else if self.x > PLANE_LIMIT {
                PLANE_LIMIT
            } else {
                self.x
            },
            y: if self.y < -PLANE_LIMIT {
                (-PLANE_LIMIT) as i64
            } else if self.y > PLANE_LIMIT {
                PLANE_LIMIT
            } else {
                self.y
            },
        }
    }

    /// Where the position falls on the global bitmap `s` pixels wide.
    pub open spec fn global_projected(self, s: int) -> Pixel {
        Pixel { x: saturated(self.x * s), y: saturated(self.y * s) }
    }

    /// Where the position falls on the local bitmap at scale `s`.
    pub open spec fn local_projected(self, s: int) -> Pixel {
        Pixel { x: saturated(self.x * s), y: saturated(-(self.y * s)) }
    }

    /// Where the position falls on the bitmap, by the kind of projection.
    pub open spec fn projected(self, mode: ProjectorType, s: int) -> Pixel {
        match mode {
            ProjectorType::Global => self.global_projected(s),
            ProjectorType::Local => self.local_projected(s),
        }
    }

    /// The position at coordinates in map units.
    pub fn new(x: i64, y: i64) -> (r: Position)
        ensures
            r == (Position { x, y }),
    {
        Position { x, y }
    }

    /// Whether both coordinates lie within `PLANE_LIMIT` of the origin, where
    /// no projection saturates.
    pub fn is_in_plane(&self) -> (r: bool)
        ensures
            r == self.in_plane(),
    {
        -PLANE_LIMIT <= self.x && self.x <= PLANE_LIMIT && -PLANE_LIMIT <= self.y && self.y
            <= PLANE_LIMIT
    }

    /// The nearest position within the plane; the position itself if it lies
    /// within it.
    pub fn clamp_to_plane(self) -> (r: Position)
        ensures
            r == self.nearest_in_plane(),
            r.in_plane(),
            self.in_plane() ==> r == self,
    {
        Position {
            x: if self.x < -PLANE_LIMIT {
                -PLANE_LIMIT
            } else if self.x > PLANE_LIMIT {
                PLANE_LIMIT
            } else {
                self.x
            },
            y: if self.y < -PLANE_LIMIT {
                -PLANE_LIMIT
            } else if self.y > PLANE_LIMIT {
                PLANE_LIMIT
            } else {
                self.y
            },
        }
    }

    /// Where the position falls on the bitmap, by the kind of projection.
    pub fn bitmap_project(&self, mode: ProjectorType, scale: Scale) -> (r: Pixel)
        requires
            scale.wf(),
        ensures
            r == self.projected(mode, scale@),
    {
        match mode {
            ProjectorType::Global => self.global_bitmap_project(scale),
            ProjectorType::Local => self.local_bitmap_project(scale),
        }
    }

    /// Where the position falls on the bitmap of the whole world: each
    /// coordinate times the width of the map.
    pub fn global_bitmap_project(&self, scale: Scale) -> (r: Pixel)
        requires
            scale.wf(),
        ensures
            r == self.global_projected(scale@),
    {
        let s: i64 = scale.total_pixels() as i64;
        Pixel { x: saturating_product(self.x, s), y: saturating_product(self.y, s) }
    }

    /// Where the position falls on the local bitmap: as on the global one, but
    /// with the vertical axis flipped, since the screen grows downwards.
    pub fn local_bitmap_project(&self, scale: Scale) -> (r: Pixel)
        requires
            scale.wf(),
        ensures
            r == self.local_projected(scale@),
    {
        let s: i64 = scale.total_pixels() as i64;
        Pixel { x: saturating_product(self.x, s), y: saturate(-wide_product(self.y, s)) }
    }
}

/// A position that is kept apart from the pixels by which it has since been
/// moved. The position shown is the base position projected, minus the
/// offset, unprojected. Moving by pixels only adds to the offset, so that many
/// small moves cost no projection and lose nothing; the offset is folded into
/// the base position when the zoom is about to change, because a pixel offset
/// means a different distance at another zoom.
#[derive(Clone, Copy, Debug, PartialEq, Eq, Structural)]
pub struct AdjustedPosition {
    /// The base position.
    pub position: Position,
    /// The offset in sub-pixel units.
    pub offset: Pixel,
}

impl AdjustedPosition {
    /// The same base position with `shift` added to the offset.
    pub open spec fn spec_shift(self, shift: Pixel) -> AdjustedPosition {
        AdjustedPosition { position: self.position, offset: self.offset.plus(shift) }
    }

    /// Whether the position shown is found without saturation at scale `s`:
    /// whether the base position projects exactly, and its projection minus
    /// the offset, and on the local map the opposite of that too, are within
    /// the range of a pixel's coordinates.
    pub open spec fn shows_exactly(self, mode: ProjectorType, s: int) -> bool {
        &&& self.position.projects_exactly(mode, s)
        &&& i64::MIN <= self.position.x * s - self.offset.x <= i64::MAX
        &&& match mode {
            ProjectorType::Global => i64::MIN <= self.position.y * s - self.offset.y
                <= i64::MAX,
            ProjectorType::Local => -i64::MAX <= -(self.position.y * s) - self.offset.y
                <= i64::MAX,
        }
    }

    /// The position shown on the global map `s` pixels wide.
    pub open spec fn global_unadjusted(self, s: int) -> Position {
        self.position.global_projected(s).minus(self.offset).global_unprojected(s)
    }

    /// The position shown on the local map at scale `s`.
    pub open spec fn local_unadjusted(self, s: int) -> Position {
        self.position.local_projected(s).minus(self.offset).local_unprojected(s)
    }

    /// The position shown, by the kind of projection.
    pub open spec fn unadjusted(self, mode: ProjectorType, s: int) -> Position {
        match mode {
            ProjectorType::Global => self.global_unadjusted(s),
            ProjectorType::Local => self.local_unadjusted(s),
        }
    }

    /// The same place with the offset folded into the base, by the kind of
    /// projection.
    pub open spec fn folded(self, mode: ProjectorType, s: int) -> AdjustedPosition {
        match mode {
            ProjectorType::Global => self.global_folded(s),
            ProjectorType::Local => self.local_folded(s),
        }
    }

    /// The same place on the global map with the offset folded into the base.
    pub open spec fn global_folded(self, s: int) -> AdjustedPosition {
        AdjustedPosition { position: self.global_unadjusted(s), offset: Pixel::zero() }
    }

    /// The same place on the local map with the offset folded into the base.
    pub open spec fn local_folded(self, s: int) -> AdjustedPosition {
        AdjustedPosition { position: self.local_unadjusted(s), offset: Pixel::zero() }
    }

    /// The base position `position` moved by `offset` since.
    pub fn new(position: Position, offset: Pixel) -> (r: AdjustedPosition)
        ensures
            r == (AdjustedPosition { position, offset }),
    {
        AdjustedPosition { position, offset }
    }

    /// Adds `shift` to the offset: what is shown moves by `shift` on the
    /// screen, and the place at the centre moves the other way.
    #[verifier::when_used_as_spec(spec_shift)]
    pub fn shift(self, shift: Pixel) -> (r: AdjustedPosition)
        ensures
            r == self.shift(shift),
    {
        AdjustedPosition { position: self.position, offset: self.offset.plus(shift) }
    }

    /// The position shown, by the kind of projection.
    pub fn unadjusted_position(&self, mode: ProjectorType, scale: Scale) -> (r: Position)
        requires
            scale.wf(),
        ensures
            r == self.unadjusted(mode, scale@),
    {
        match mode {
            ProjectorType::Global => self.global_unadjusted_position(scale),
            ProjectorType::Local => self.local_unadjusted_position(scale),
        }
    }

    /// Folds the offset into the base position, by the kind of projection.
    pub fn zero_offset(self, mode: ProjectorType, scale: Scale) -> (r: AdjustedPosition)
        requires
            scale.wf(),
        ensures
            r == self.folded(mode, scale@),
    {
        match mode {
            ProjectorType::Global => self.global_zero_offset(scale),
            ProjectorType::Local => self.local_zero_offset(scale),
        }
    }

    /// The position shown on the global map.
    pub fn global_unadjusted_position(&self, scale: Scale) -> (r: Position)
        requires
            scale.wf(),
        ensures
            r == self.global_unadjusted(scale@),
    {
        self.position.global_bitmap_project(scale).minus(self.offset).global_bitmap_unproject(scale)
    }

    /// The position shown on the local map.
    pub fn local_unadjusted_position(&self, scale: Scale) -> (r: Position)
        requires
            scale.wf(),
        ensures
            r == self.local_unadjusted(scale@),
    {
        self.position.local_bitmap_project(scale).minus(self.offset).local_bitmap_unproject(scale)
    }

    /// Folds the offset into the base position of the global map: the result
    /// shows the same place and has no offset.
    pub fn global_zero_offset(self, scale: Scale) -> (r: AdjustedPosition)
        requires
            scale.wf(),
        ensures
            r == self.global_folded(scale@),
    {
        AdjustedPosition { position: self.global_unadjusted_position(scale), offset: Pixel::zero() }
    }

    /// Folds the offset into the base position of the local map: the result
    /// shows the same place and has no offset.
    pub fn local_zero_offset(self, scale: Scale) -> (r: AdjustedPosition)
        requires
            scale.wf(),
        ensures
            r == self.local_folded(scale@),
    {
        AdjustedPosition { position: self.local_unadjusted_position(scale), offset: Pixel::zero() }
    }
}

impl From<Position> for AdjustedPosition {
    /// The position itself, not moved since.
    fn from(position: Position) -> (r: AdjustedPosition) {
        AdjustedPosition { position, offset: Pixel::zero() }
    }
}

impl FromSpecImpl<Position> for AdjustedPosition {
    open spec fn obeys_from_spec() -> bool {
        true
    }

    open spec fn from_spec(position: Position) -> AdjustedPosition {
        AdjustedPosition { position, offset: Pixel::zero() }
    }
}

/// Within the plane, a product with the width of a map stays within half of
/// `PIXEL_LIMIT`, so projecting does not saturate.
pub proof fn lemma_projection_in_reach(p: Position, s: int)
    requires
        p.in_plane(),
        1 <= s <= MAX_TOTAL_PIXELS,
    ensures
        -PIXEL_LIMIT <= 2 * (p.x * s) <= PIXEL_LIMIT,
        -PIXEL_LIMIT <= 2 * (p.y * s) <= PIXEL_LIMIT,
        p.projects_exactly(ProjectorType::Global, s),
        p.projects_exactly(ProjectorType::Local, s),
        p.global_projected(s) == (Pixel { x: (p.x * s) as i64, y: (p.y * s) as i64 }),
        p.local_projected(s) == (Pixel { x: (p.x * s) as i64, y: (-(p.y * s)) as i64 }),
        p.global_projected(s).in_reach(),
        p.local_projected(s).in_reach(),
{
    let (x, y) = (p.x as int, p.y as int);
    assert(-0x1000_0000_0000_0000 <= x * s <= 0x1000_0000_0000_0000) by (nonlinear_arith)
        requires
            -0x1_0000_0000 <= x <= 0x1_0000_0000,
            1 <= s <= 0x1000_0000,
    ;
    assert(-0x1000_0000_0000_0000 <= y * s <= 0x1000_0000_0000_0000) by (nonlinear_arith)
        requires
            -0x1_0000_0000 <= y <= 0x1_0000_0000,
            1 <= s <= 0x1000_0000,
    ;
}

/// Unprojecting a projected position gives the position back, on the global
/// and on the local map, at every scale, whenever the projection did not
/// saturate.
pub proof fn lemma_unproject_project(p: Position, mode: ProjectorType, s: int)
    requires
        s >= 1,
        p.projects_exactly(mode, s),
    ensures
        p.projected(mode, s).unprojected(mode, s) == p,
{
    lemma_div_of_multiple(p.x as int, s);
    lemma_div_of_multiple(p.y as int, s);
}

/// A position whose projection saturates at the upper end does not come back:
/// unprojecting gives a lesser coordinate. This is where the round trip ends.
pub proof fn lemma_saturated_projection_is_lost(p: Position, s: int)
    requires
        s >= 1,
        p.x * s > i64::MAX,
    ensures
        p.global_projected(s).global_unprojected(s).x < p.x,
        p.local_projected(s).local_unprojected(s).x < p.x,
{
    let top = i64::MAX as int;
    crate::fixed::lemma_floor_bounds(top, s);
    lemma_quotient_fits(top, s);
    let q = top / s;
    assert(q < p.x) by (nonlinear_arith)
        requires
            q * s <= top,
            p.x * s > top,
            s >= 1,
    ;
}

/// Folding a position that has no offset changes nothing, whenever its
/// projection does not saturate: neither the base position nor, therefore, a
/// second fold after a first.
pub proof fn lemma_fold_without_offset(a: AdjustedPosition, mode: ProjectorType, s: int)
    requires
        a.offset == Pixel::zero(),
        s >= 1,
        a.position.projects_exactly(mode, s),
    ensures
        a.folded(mode, s) == a,
{
    lemma_unproject_project(a.position, mode, s);
}

/// With the base position within the plane and the offset within twice
/// `PIXEL_LIMIT`, the position shown is found without saturation.
pub proof fn lemma_shows_exactly_within_bounds(a: AdjustedPosition, mode: ProjectorType, s: int)
    requires
        a.position.in_plane(),
        -2 * PIXEL_LIMIT <= a.offset.x <= 2 * PIXEL_LIMIT,
        -2 * PIXEL_LIMIT <= a.offset.y <= 2 * PIXEL_LIMIT,
        1 <= s <= MAX_TOTAL_PIXELS,
    ensures
        a.shows_exactly(mode, s),
{
    lemma_projection_in_reach(a.position, s);
}

/// The position shown, written out. Where nothing saturates, the position
/// shown is the base position times the scale, minus the offset, over the
/// scale, rounded down. On the local map the vertical offset counts the other
/// way.
pub proof fn lemma_unadjusted(a: AdjustedPosition, mode: ProjectorType, s: int)
    requires
        s >= 1,
        a.shows_exactly(mode, s),
    ensures
        a.unadjusted(mode, s).x == (a.position.x * s - a.offset.x) / s,
        mode == ProjectorType::Global ==> a.unadjusted(mode, s).y == (a.position.y * s
            - a.offset.y) / s,
        mode == ProjectorType::Local ==> a.unadjusted(mode, s).y == (a.position.y * s
            + a.offset.y) / s,
{
    lemma_quotient_fits(a.position.x * s - a.offset.x, s);
    match mode {
        ProjectorType::Global => {
            lemma_quotient_fits(a.position.y * s - a.offset.y, s);
        },
        ProjectorType::Local => {
            lemma_quotient_fits(a.position.y * s + a.offset.y, s);
        },
    }
}

/// Folding keeps the place: the folded position shows, at the scale it was
/// folded at and at every other at which the place projects without
/// saturation, the position that was shown before.
pub proof fn lemma_fold_shows_the_same_place(
    a: AdjustedPosition,
    mode: ProjectorType,
    s: int,
    s2: int,
)
    requires
        s2 >= 1,
        a.unadjusted(mode, s).projects_exactly(mode, s2),
    ensures
        a.folded(mode, s).offset == Pixel::zero(),
        a.folded(mode, s).unadjusted(mode, s2) == a.unadjusted(mode, s),
{
    let shown = a.unadjusted(mode, s);
    lemma_fold_without_offset(
        AdjustedPosition { position: shown, offset: Pixel::zero() },
        mode,
        s2,
    );
}

} // verus!
