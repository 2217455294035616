//! The state of the map that lasts from frame to frame.

use crate::center::Center;
use crate::projector::ProjectorType;
use crate::units::{lemma_fold_shows_the_same_place, AdjustedPosition, Pixel, Position};
use crate::zoom::{InvalidZoom, Scale, Zoom, DEFAULT_ZOOM, MAX_ZOOM, ZOOM_STEP};
use vstd::prelude::*;

verus! {

/// The state of the map that lasts from frame to frame: the kind of
/// projection, where the map is centred, and the zoom.
#[derive(Clone, Copy, Debug, PartialEq, Eq)]
pub struct MapMemory {
    pub projection_type: ProjectorType,
    pub center_mode: Center,
    pub zoom: Zoom,
}

/// What a `MapMemory` holds, with the zoom as a number of thousandths of a level.
pub struct MapState {
    pub projection_type: ProjectorType,
    pub center_mode: Center,
    pub zoom: int,
}

impl MapState {
    /// Whether the zoom can change by `delta` thousandths without leaving its range.
    pub open spec fn can_zoom_by(self, delta: int) -> bool {
        0 <= self.zoom + delta <= MAX_ZOOM
    }

    /// The state after a change of the zoom by `delta` thousandths on a map
    /// `s` pixels wide. Before the zoom changes, the offset of the stored
    /// position is folded into its base, since it is measured in pixels of the
    /// old zoom. A change that would leave the range of the zoom changes
    /// nothing.
    pub open spec fn zoomed_by(self, delta: int, s: int) -> MapState {
        if self.can_zoom_by(delta) {
            MapState {
                projection_type: self.projection_type,
                center_mode: self.center_mode.folded(self.projection_type, s),
                zoom: self.zoom + delta,
            }
        } else {
            self
        }
    }

    /// The same state centred elsewhere.
    pub open spec fn with_center(self, center_mode: Center) -> MapState {
        MapState { projection_type: self.projection_type, center_mode, zoom: self.zoom }
    }

    /// The position at the centre of the map if the map is detached.
    pub open spec fn detached(self, s: int) -> Option<Position> {
        match self.center_mode.get_adjusted_position() {
            Some(pos) => Some(pos.unadjusted(self.projection_type, s)),
            None => None,
        }
    }
}

impl View for MapMemory {
    type V = MapState;

    open spec fn view(&self) -> MapState {
        MapState {
            projection_type: self.projection_type,
            center_mode: self.center_mode,
            zoom: self.zoom@,
        }
    }
}

impl MapMemory {
    /// The zoom is within its bounds.
    pub open spec fn wf(&self) -> bool {
        self.zoom.wf()
    }

    /// Whether `scale` is a valid scale of the zoom that the map is at.
    pub open spec fn has_scale(&self, scale: Scale) -> bool {
        scale.wf() && scale.zoom()@ == self.zoom@
    }

    /// Whether the map is the map of the world.
    pub fn is_global(&self) -> (r: bool)
        ensures
            r == (self.projection_type == ProjectorType::Global),
    {
        match self.projection_type {
            ProjectorType::Global => true,
            ProjectorType::Local => false,
        }
    }

    /// The current zoom.
    pub fn zoom(&self) -> (r: Zoom)
        ensures
            r == self.zoom,
    {
        self.zoom
    }

    /// Zooms in by one level. At the highest level this fails with the bounds
    /// error and changes nothing.
    pub fn zoom_in(&mut self, scale: Scale) -> (r: Result<(), InvalidZoom>)
        requires
            old(self).wf(),
            old(self).has_scale(scale),
        ensures
            final(self).wf(),
            r is Ok <==> old(self)@.can_zoom_by(ZOOM_STEP as int),
            final(self)@ == old(self)@.zoomed_by(ZOOM_STEP as int, scale@),
    {
        self.zoom_by(ZOOM_STEP, scale)
    }

    /// Zooms out by one level. At the lowest level this fails with the bounds
    /// error and changes nothing.
    pub fn zoom_out(&mut self, scale: Scale) -> (r: Result<(), InvalidZoom>)
        requires
            old(self).wf(),
            old(self).has_scale(scale),
        ensures
            final(self).wf(),
            r is Ok <==> old(self)@.can_zoom_by(-ZOOM_STEP as int),
            final(self)@ == old(self)@.zoomed_by(-ZOOM_STEP as int, scale@),
    {
        self.zoom_by(-ZOOM_STEP, scale)
    }

    /// Sets the zoom to `new_zoom` thousandths of a level. Outside 0 to
    /// `MAX_ZOOM` this fails with the bounds error and changes nothing.
    pub fn set_zoom(&mut self, new_zoom: i64, scale: Scale) -> (r: Result<(), InvalidZoom>)
        requires
            old(self).wf(),
            old(self).has_scale(scale),
        ensures
            final(self).wf(),
            r is Ok <==> 0 <= new_zoom <= MAX_ZOOM,
            final(self)@ == old(self)@.zoomed_by(new_zoom - old(self)@.zoom, scale@),
    {
        match Zoom::new(new_zoom) {
            Ok(zoom) => {
                self.center_mode = self.center_mode.zero_offset(self.projection_type, scale);
                self.zoom = zoom;
                Ok(())
            },
            Err(e) => Err(e),
        }
    }

    /// Changes the zoom by `delta` thousandths of a level. If the result would
    /// lie outside 0 to `MAX_ZOOM` this fails with the bounds error and changes
    /// nothing.
    pub fn zoom_by(&mut self, delta: i64, scale: Scale) -> (r: Result<(), InvalidZoom>)
        requires
            old(self).wf(),
            old(self).has_scale(scale),
        ensures
            final(self).wf(),
            r is Ok <==> old(self)@.can_zoom_by(delta as int),
            final(self)@ == old(self)@.zoomed_by(delta as int, scale@),
    {
        let mut zoom = self.zoom;
        match zoom.zoom_by(delta) {
            Ok(()) => {
                self.center_mode = self.center_mode.zero_offset(self.projection_type, scale);
                self.zoom = zoom;
                Ok(())
            },
            Err(e) => Err(e),
        }
    }

    /// Centres the map exactly at `pos` and detaches it.
    pub fn center_at(&mut self, pos: Position)
        ensures
            final(self)@ == old(self)@.with_center(
                Center::Exact { pos: AdjustedPosition { position: pos, offset: Pixel::zero() } },
            ),
            final(self).zoom == old(self).zoom,
    {
        self.center_mode = Center::Exact { pos: AdjustedPosition::new(pos, Pixel::zero()) };
    }

    /// Lets the map follow the position that is supplied from outside.
    pub fn follow_my_position(&mut self)
        ensures
            final(self)@ == old(self)@.with_center(Center::FollowingExternal),
            final(self).zoom == old(self).zoom,
    {
        self.center_mode = Center::FollowingExternal;
    }

    /// The position at the centre of the map if the map is detached, `None`
    /// if it follows the position that is supplied from outside.
    pub fn detached(&self, scale: Scale) -> (r: Option<Position>)
        requires
            self.has_scale(scale),
        ensures
            r == self@.detached(scale@),
    {
        match self.center_mode.get_adjusted_position() {
            Some(pos) => Some(pos.unadjusted_position(self.projection_type, scale)),
            None => None,
        }
    }
}

impl Default for MapMemory {
    /// The map of the world at the default zoom, following the outside position.
    fn default() -> (r: MapMemory)
        ensures
            r.wf(),
            r@ == (MapState {
                projection_type: ProjectorType::Global,
                center_mode: Center::FollowingExternal,
                zoom: DEFAULT_ZOOM as int,
            }),
    {
        MapMemory {
            projection_type: ProjectorType::Global,
            center_mode: Center::FollowingExternal,
            zoom: Zoom::default(),
        }
    }
}

/// A change of zoom keeps the centre of the map: the position that was at the
/// centre at the old scale is at the centre at the new one, whenever it
/// projects without saturation there. This is what folding the offset before
/// the change is for.
pub proof fn lemma_zoom_keeps_the_centre(
    state: MapState,
    delta: int,
    my_position: Position,
    s: int,
    s2: int,
)
    requires
        state.can_zoom_by(delta),
        s2 >= 1,
        state.center_mode.shown(state.projection_type, my_position, s).projects_exactly(
            state.projection_type,
            s2,
        ),
    ensures
        state.zoomed_by(delta, s).zoom == state.zoom + delta,
        state.zoomed_by(delta, s).center_mode.shown(state.projection_type, my_position, s2)
            == state.center_mode.shown(state.projection_type, my_position, s),
{
    match state.center_mode.get_adjusted_position() {
        Some(pos) => {
            lemma_fold_shows_the_same_place(pos, state.projection_type, s, s2);
        },
        None => {},
    }
}

} // verus!
