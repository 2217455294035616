//! The projection between positions and the screen for one frame.

use crate::center::Center;
use crate::fixed::{floor_div, lemma_shifted_quotient};
use crate::map_memory::MapMemory;
use crate::units::{
    lemma_projection_in_reach, lemma_shows_exactly_within_bounds, lemma_unadjusted,
    lemma_unproject_project, AdjustedPosition, Pixel, Position,
};
use crate::zoom::Scale;
use vstd::prelude::*;

verus! {

/// How positions relate to the screen.
#[derive(Clone, Copy, Debug, PartialEq, Eq, Structural)]
pub enum ProjectorType {
    /// The map of the world: positions are points of the Web Mercator square.
    Global,
    /// A blank plane: positions are planar coordinates in arbitrary units,
    /// and the projection only scales them and flips the vertical axis.
    Local,
}

impl Default for ProjectorType {
    /// A map is the map of the world unless it is made local.
    fn default() -> (r: ProjectorType)
        ensures
            r == ProjectorType::Global,
    {
        ProjectorType::Global
    }
}

/// A rectangle of the screen, from its top left corner to its bottom right one.
#[derive(Clone, Copy, Debug, PartialEq, Eq, Structural)]
pub struct Rect {
    pub min: Pixel,
    pub max: Pixel,
}

impl Rect {
    /// The middle of the rectangle, each coordinate rounded down.
    pub open spec fn spec_center(&self) -> Pixel {
        Pixel {
            x: ((self.min.x + self.max.x) / 2) as i64,
            y: ((self.min.y + self.max.y) / 2) as i64,
        }
    }

    /// The rectangle between two corners.
    pub fn new(min: Pixel, max: Pixel) -> (r: Rect)
        ensures
            r == (Rect { min, max }),
    {
        Rect { min, max }
    }

    /// The rectangle with its top left corner at `min` that is `size` wide and high.
    pub fn from_min_size(min: Pixel, size: Pixel) -> (r: Rect)
        ensures
            r == (Rect { min, max: min.plus(size) }),
    {
        Rect { min, max: min.plus(size) }
    }

    /// The middle of the rectangle, each coordinate rounded down.
    #[verifier::when_used_as_spec(spec_center)]
    pub fn center(&self) -> (r: Pixel)
        ensures
            r == self.center(),
    {
        let x: i128 = floor_div(self.min.x as i128 + self.max.x as i128, 2);
        let y: i128 = floor_div(self.min.y as i128 + self.max.y as i128, 2);
        Pixel { x: x as i64, y: y as i64 }
    }
}

/// The projection between positions and the screen for one frame: the state
/// of the map, the rectangle it is drawn in, the position that a following
/// map is centred at, and the scale of the map's zoom.
#[derive(Clone, Copy, Debug)]
pub struct Projector {
    pub clip_rect: Rect,
    pub memory: MapMemory,
    pub my_position: Position,
    pub scale: Scale,
}

impl Projector {
    /// The scale is a valid scale of the zoom that the map is at.
    pub open spec fn wf(&self) -> bool {
        self.memory.wf() && self.memory.has_scale(self.scale)
    }

    /// The position at the centre of the map.
    pub open spec fn center_position(&self) -> Position {
        self.memory.center_mode.shown(self.memory.projection_type, self.my_position, self.scale@)
    }

    /// Where `pos` is on the screen: as far from the middle of the rectangle
    /// as its projection is from the projection of the centre of the map.
    pub open spec fn projected(&self, pos: Position) -> Pixel {
        let mode = self.memory.projection_type;
        self.clip_rect.center().plus(
            pos.projected(mode, self.scale@).minus(
                self.center_position().projected(mode, self.scale@),
            ),
        )
    }

    /// The position shown at `screen_pos`: the centre of the map moved by the
    /// pixels between the middle of the rectangle and `screen_pos`.
    pub open spec fn unprojected(&self, screen_pos: Pixel) -> Position {
        let from_center = screen_pos.minus(self.clip_rect.center());
        (AdjustedPosition { position: self.center_position(), offset: Pixel::zero() }).shift(
            from_center.negated(),
        ).unadjusted(self.memory.projection_type, self.scale@)
    }

    /// Whether `pos` is shown without saturation: whether it and the centre
    /// of the map project exactly, and the distance between their projections,
    /// its opposite, and that distance from the middle of the rectangle are
    /// within the range of a pixel's coordinates.
    pub open spec fn shows_exactly(&self, pos: Position) -> bool {
        let mode = self.memory.projection_type;
        let p = pos.projected(mode, self.scale@);
        let c = self.center_position().projected(mode, self.scale@);
        let middle = self.clip_rect.center();
        &&& pos.projects_exactly(mode, self.scale@)
        &&& self.center_position().projects_exactly(mode, self.scale@)
        &&& -i64::MAX <= p.x - c.x <= i64::MAX
        &&& -i64::MAX <= p.y - c.y <= i64::MAX
        &&& i64::MIN <= middle.x + (p.x - c.x) <= i64::MAX
        &&& i64::MIN <= middle.y + (p.y - c.y) <= i64::MAX
    }

    /// The same projection with the map centred elsewhere.
    pub open spec fn with_center(&self, center_mode: Center) -> Projector {
        Projector {
            clip_rect: self.clip_rect,
            memory: MapMemory {
                projection_type: self.memory.projection_type,
                center_mode,
                zoom: self.memory.zoom,
            },
            my_position: self.my_position,
            scale: self.scale,
        }
    }

    /// The projection of the map in `memory` as it stands, drawn in `rect`.
    pub fn new(memory: &MapMemory, rect: Rect, my_position: Position, scale: Scale) -> (r:
        Projector)
        requires
            memory.wf(),
            memory.has_scale(scale),
        ensures
            r.wf(),
            r == (Projector { clip_rect: rect, memory: *memory, my_position, scale }),
    {
        Projector { clip_rect: rect, memory: *memory, my_position, scale }
    }

    /// Where `pos` is on the screen.
    pub fn project(&self, pos: Position) -> (r: Pixel)
        requires
            self.wf(),
        ensures
            r == self.projected(pos),
    {
        let mode = self.memory.projection_type;
        let bitmap_pos = pos.bitmap_project(mode, self.scale);
        let center = self.memory.center_mode.position(mode, self.my_position, self.scale);
        let shift = bitmap_pos.minus(center.bitmap_project(mode, self.scale));
        self.clip_rect.center().plus(shift)
    }

    /// The position shown at `screen_pos`.
    pub fn unproject(&self, screen_pos: Pixel) -> (r: Position)
        requires
            self.wf(),
        ensures
            r == self.unprojected(screen_pos),
    {
        let mode = self.memory.projection_type;
        let center = self.memory.center_mode.position(mode, self.my_position, self.scale);
        let from_center = screen_pos.minus(self.clip_rect.center());
        AdjustedPosition::new(center, Pixel::zero()).shift(
            from_center.negated(),
        ).unadjusted_position(mode, self.scale)
    }

    /// The centre of the map is shown in the middle of the rectangle.
    pub proof fn lemma_center_is_in_the_middle(self)
        requires
            self.wf(),
        ensures
            self.projected(self.center_position()) == self.clip_rect.center(),
    {
    }

    /// A map centred exactly at a position shows that position in the middle
    /// of the rectangle, whenever the position projects without saturation.
    pub proof fn lemma_centered_position_is_in_the_middle(self, pos: Position)
        requires
            self.wf(),
            pos.projects_exactly(self.memory.projection_type, self.scale@),
            self.memory.center_mode == (Center::Exact {
                pos: AdjustedPosition { position: pos, offset: Pixel::zero() },
            }),
        ensures
            self.projected(pos) == self.clip_rect.center(),
    {
        self.scale.lemma_bounds();
        lemma_unproject_project(pos, self.memory.projection_type, self.scale@);
    }

    /// With the position and the centre of the map within the plane and the
    /// middle of the rectangle within reach, the position is shown without
    /// saturation.
    pub proof fn lemma_shows_exactly_within_bounds(self, pos: Position)
        requires
            self.wf(),
            pos.in_plane(),
            self.center_position().in_plane(),
            self.clip_rect.center().in_reach(),
        ensures
            self.shows_exactly(pos),
    {
        self.scale.lemma_bounds();
        lemma_projection_in_reach(pos, self.scale@);
        lemma_projection_in_reach(self.center_position(), self.scale@);
    }

    /// Unprojecting what was projected gives the position back, on the global
    /// and on the local map, at every scale and about every rectangle,
    /// whenever the position is shown without saturation.
    pub proof fn lemma_round_trip(self, pos: Position)
        requires
            self.wf(),
            self.shows_exactly(pos),
        ensures
            self.unprojected(self.projected(pos)) == pos,
    {
        self.scale.lemma_bounds();
        lemma_unproject_project(pos, self.memory.projection_type, self.scale@);
    }

    /// Where a position is on the screen, written out. Where nothing
    /// saturates, the position is as far from the middle of the rectangle as
    /// it is from the centre of the map, times the scale. On the local map up
    /// is up, so the vertical distance counts the other way.
    pub proof fn lemma_projected(self, pos: Position)
        requires
            self.wf(),
            self.shows_exactly(pos),
        ensures
            self.projected(pos).x == self.clip_rect.center().x + pos.x * self.scale@
                - self.center_position().x * self.scale@,
            self.memory.projection_type == ProjectorType::Global ==> self.projected(pos).y
                == self.clip_rect.center().y + pos.y * self.scale@ - self.center_position().y
                * self.scale@,
            self.memory.projection_type == ProjectorType::Local ==> self.projected(pos).y
                == self.clip_rect.center().y - pos.y * self.scale@ + self.center_position().y
                * self.scale@,
    {
    }

    /// Whether shifting the centre by `shift` and showing `pos` before and
    /// after saturates nowhere: the position at the centre is found exactly
    /// before and after, the offset takes the shift, `pos` is shown exactly
    /// before and after, and where it was shown can be moved by the shift.
    pub open spec fn shifts_exactly(self, shift: Pixel, pos: Position) -> bool {
        let mode = self.memory.projection_type;
        let after = self.with_center(self.memory.center_mode.shift(shift));
        &&& self.memory.center_mode.get_adjusted_position() matches Some(stored)
        &&& stored.shows_exactly(mode, self.scale@)
        &&& i64::MIN <= stored.offset.x + shift.x <= i64::MAX
        &&& i64::MIN <= stored.offset.y + shift.y <= i64::MAX
        &&& stored.shift(shift).shows_exactly(mode, self.scale@)
        &&& self.shows_exactly(pos)
        &&& after.shows_exactly(pos)
        &&& i64::MIN <= self.projected(pos).x + shift.x <= i64::MAX
        &&& i64::MIN <= self.projected(pos).y + shift.y <= i64::MAX
    }

    /// Within the plane and within reach, shifting the centre saturates nowhere.
    pub proof fn lemma_shifts_exactly_within_bounds(self, shift: Pixel, pos: Position)
        requires
            self.wf(),
            self.memory.center_mode.get_adjusted_position() is Some,
            self.memory.center_mode.get_adjusted_position().unwrap().position.in_plane(),
            self.memory.center_mode.get_adjusted_position().unwrap().offset.in_reach(),
            shift.in_reach(),
            pos.in_plane(),
            self.center_position().in_plane(),
            self.with_center(self.memory.center_mode.shift(shift)).center_position().in_plane(),
            self.clip_rect.center().in_reach(),
        ensures
            self.shifts_exactly(shift, pos),
    {
        let s = self.scale@;
        let mode = self.memory.projection_type;
        let stored = self.memory.center_mode.get_adjusted_position().unwrap();
        let after = self.with_center(self.memory.center_mode.shift(shift));
        self.scale.lemma_bounds();
        assert(after.memory.center_mode.get_adjusted_position() == Some(stored.shift(shift)));
        lemma_shows_exactly_within_bounds(stored, mode, s);
        lemma_shows_exactly_within_bounds(stored.shift(shift), mode, s);
        self.lemma_shows_exactly_within_bounds(pos);
        after.lemma_shows_exactly_within_bounds(pos);
        self.lemma_projected(pos);
        lemma_projection_in_reach(pos, s);
        lemma_projection_in_reach(self.center_position(), s);
    }

    /// Shifting the centre moves what is shown by the same pixels: a position
    /// that was shown at `p` is shown within one map unit of `p + shift`, and
    /// exactly there if the shift is a whole number of map units. The place at
    /// the centre of the map moves the other way. This holds wherever nothing
    /// saturates.
    pub proof fn lemma_shift_moves_the_map(self, shift: Pixel, pos: Position)
        requires
            self.wf(),
            self.shifts_exactly(shift, pos),
        ensures
            self.with_center(self.memory.center_mode.shift(shift)).projected(pos).within(
                self.projected(pos).plus(shift),
                self.scale@,
            ),
            shift.aligned(self.scale@) ==> self.with_center(
                self.memory.center_mode.shift(shift),
            ).projected(pos) == self.projected(pos).plus(shift),
    {
        let s = self.scale@;
        let mode = self.memory.projection_type;
        let stored = self.memory.center_mode.get_adjusted_position().unwrap();
        let after = self.with_center(self.memory.center_mode.shift(shift));
        let middle = self.clip_rect.center();
        let (c, c2) = (self.center_position(), after.center_position());
        let (bx, by) = (stored.position.x * s, stored.position.y * s);
        let (ox, oy) = (stored.offset.x as int, stored.offset.y as int);
        let (dx, dy) = (shift.x as int, shift.y as int);
        self.scale.lemma_bounds();
        assert(after.memory.center_mode.get_adjusted_position() == Some(stored.shift(shift)));
        assert(stored.shift(shift).offset.x == ox + dx && stored.shift(shift).offset.y == oy + dy);
        lemma_unadjusted(stored, mode, s);
        lemma_unadjusted(stored.shift(shift), mode, s);
        self.lemma_projected(pos);
        after.lemma_projected(pos);
        lemma_shifted_quotient(bx - ox, dx, s);
        assert(c.x == (bx - ox) / s && c2.x == (bx - ox - dx) / s);
        let (before_x, after_x) = (self.projected(pos).x as int, after.projected(pos).x as int);
        let (before_y, after_y) = (self.projected(pos).y as int, after.projected(pos).y as int);
        assert(before_x == middle.x + pos.x * s - c.x * s);
        assert(after_x == middle.x + pos.x * s - c2.x * s);
        assert(-s < after_x - (before_x + dx) < s);
        match mode {
            ProjectorType::Global => {
                lemma_shifted_quotient(by - oy, dy, s);
                assert(c.y == (by - oy) / s && c2.y == (by - oy - dy) / s);
                assert(before_y == middle.y + pos.y * s - c.y * s);
                assert(after_y == middle.y + pos.y * s - c2.y * s);
                assert(-s < after_y - (before_y + dy) < s);
            },
            ProjectorType::Local => {
                lemma_shifted_quotient(by + oy + dy, dy, s);
                assert(c.y == (by + oy) / s && c2.y == (by + oy + dy) / s);
                assert(before_y == middle.y - pos.y * s + c.y * s);
                assert(after_y == middle.y - pos.y * s + c2.y * s);
                assert(-s < after_y - (before_y + dy) < s);
            },
        }
    }
}

} // verus!
