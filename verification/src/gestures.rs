//! What the gestures of one frame do to the map.
//!
//! The toolkit that draws the map reports once per frame what the pointer and
//! the fingers did. A zoom gesture zooms about the pointer, a drag moves the
//! map with the pointer, and scrolling pans it. Zooming and dragging exclude
//! each other, so that a pinch does not drag the map along.

use crate::center::{Center, Drag};
use crate::fixed::{
    floor_div, lemma_opposite_multiple, lemma_zoom_about, saturate, saturated, wide_product,
    PIXEL_UNIT,
};
use crate::map_memory::{MapMemory, MapState};
use crate::projector::{Projector, ProjectorType};
use crate::units::{
    lemma_fold_without_offset, lemma_shows_exactly_within_bounds, lemma_unadjusted,
    AdjustedPosition, Pixel, Position,
};
use crate::zoom::{Scale, Zoom};
use vstd::prelude::*;

verus! {

/// The zoom factor of a frame without a zoom gesture, in thousandths.
pub const NO_ZOOM: i64 = 1000;

/// The zoom factor that a double click with the primary button stands for.
pub const DOUBLE_CLICK_ZOOM_IN: i64 = 2000;

/// The zoom factor that a double click with the secondary button stands for.
pub const DOUBLE_CLICK_ZOOM_OUT: i64 = 0;

/// Zoom factors from here up to `DEAD_ZONE_HIGH` are taken for no gesture at all.
pub const DEAD_ZONE_LOW: i64 = 990;

/// Zoom factors from `DEAD_ZONE_LOW` up to here are taken for no gesture at all.
pub const DEAD_ZONE_HIGH: i64 = 1010;

/// The number of thousandths of zoom factor that one pixel of scrolling stands for.
pub const SCROLL_ZOOM_RATE: i64 = 5;

/// The zoom speed of a map whose speed was not set, in thousandths.
pub const DEFAULT_ZOOM_SPEED: i32 = 2000;

/// What the pointer and the fingers did in one frame.
#[derive(Clone, Copy, Debug)]
pub struct GestureInput {
    /// The zoom factor of this frame in thousandths; `NO_ZOOM` if there was none.
    pub zoom_delta: i32,
    /// Whether the pointer is over the map.
    pub pointer_inside: bool,
    /// Where the pointer hovers, from the middle of the map's rectangle, if it hovers.
    pub hover_offset: Option<Pixel>,
    /// Whether the map was double clicked with the primary button.
    pub double_clicked_primary: bool,
    /// Whether the map was double clicked with the secondary button.
    pub double_clicked_secondary: bool,
    /// What the pointer did to the map.
    pub drag: Drag,
    /// By how much the view was scrolled.
    pub scroll_delta: Pixel,
    /// Whether any finger touches the screen.
    pub any_touches: bool,
}

/// Which gestures the map answers to, and how.
#[derive(Clone, Copy, Debug, PartialEq, Eq, Structural)]
pub struct GestureSettings {
    /// Whether zoom gestures zoom the map.
    pub zoom_gesture_enabled: bool,
    /// Whether dragging moves the map.
    pub drag_gesture_enabled: bool,
    /// How many thousandths of a level the map zooms for each thousandth of zoom factor.
    pub zoom_speed: i32,
    /// Whether a double click with the primary button zooms in.
    pub double_click_to_zoom: bool,
    /// Whether a double click with the secondary button zooms out.
    pub double_click_to_zoom_out: bool,
    /// Whether zooming by scrolling needs the control key. If it does,
    /// scrolling without the key pans the map; if it does not, scrolling zooms
    /// and only fingers pan.
    pub zoom_with_ctrl: bool,
}

impl GestureSettings {
    /// The zoom factor that the frame asks for, in thousandths: the reported
    /// one, unless a double click that is attended to replaces it, or
    /// scrolling stands in for a zoom gesture that did not come.
    pub open spec fn zoom_factor(self, input: GestureInput) -> int {
        let reported = input.zoom_delta as int;
        let clicked_in = if self.double_click_to_zoom && input.pointer_inside
            && input.double_clicked_primary {
            DOUBLE_CLICK_ZOOM_IN as int
        } else {
            reported
        };
        let clicked_out = if self.double_click_to_zoom_out && input.pointer_inside
            && input.double_clicked_secondary {
            DOUBLE_CLICK_ZOOM_OUT as int
        } else {
            clicked_in
        };
        if !self.zoom_with_ctrl && clicked_out == NO_ZOOM {
            NO_ZOOM + (SCROLL_ZOOM_RATE * input.scroll_delta.y) / (PIXEL_UNIT as int)
        } else {
            clicked_out
        }
    }

    /// Whether the frame zooms the map: the zoom factor lies outside the dead
    /// zone, the pointer is over the map, and zoom gestures are attended to.
    pub open spec fn zooms(self, input: GestureInput) -> bool {
        &&& !(DEAD_ZONE_LOW <= self.zoom_factor(input) <= DEAD_ZONE_HIGH)
        &&& input.pointer_inside
        &&& self.zoom_gesture_enabled
    }

    /// By how many thousandths of a level the frame's zoom factor changes the
    /// zoom: its distance from `NO_ZOOM` times the zoom speed.
    pub open spec fn zoom_change(self, input: GestureInput) -> i64 {
        saturated(((self.zoom_factor(input) - NO_ZOOM) * self.zoom_speed) / 1000)
    }

    /// Whether the frame drags the map or lets go of it.
    pub open spec fn drags(self, input: GestureInput) -> bool {
        &&& !self.zooms(input)
        &&& self.drag_gesture_enabled
    }

    /// Whether the frame pans the map by scrolling.
    pub open spec fn pans(self, input: GestureInput) -> bool {
        &&& input.pointer_inside
        &&& (input.any_touches || self.zoom_with_ctrl)
        &&& input.scroll_delta != Pixel::zero()
    }

    /// Whether the frame's gestures are reported to have changed the map:
    /// whether it zoomed, was dragged or was let go of.
    pub open spec fn changes(self, input: GestureInput) -> bool {
        self.zooms(input) || (self.drags(input) && (input.drag.dragged || input.drag.stopped))
    }
}

impl MapState {
    /// The place under a pointer that is `offset` away from the middle of the
    /// map `s` pixels wide.
    pub open spec fn pointed(self, offset: Pixel, my_position: Position, s: int) -> Position {
        (AdjustedPosition {
            position: self.center_mode.shown(self.projection_type, my_position, s),
            offset: Pixel::zero(),
        }).shift(offset.negated()).unadjusted(self.projection_type, s)
    }

    /// The state after zooming by `delta` thousandths of a level about the
    /// pointer, on a map `s` pixels wide. The place under the pointer is made
    /// the centre, the zoom changes, and the centre is shifted back by the
    /// pointer's offset, so that the place stays under the pointer. Without a
    /// hovering pointer the map zooms about its centre.
    pub open spec fn zoomed_about(
        self,
        pointer: Option<Pixel>,
        delta: int,
        my_position: Position,
        s: int,
    ) -> MapState {
        match pointer {
            Some(offset) => {
                let pointed = AdjustedPosition {
                    position: self.pointed(offset, my_position, s),
                    offset: Pixel::zero(),
                };
                let zoomed = self.with_center(Center::Exact { pos: pointed }).zoomed_by(delta, s);
                zoomed.with_center(zoomed.center_mode.shift(offset))
            },
            None => self.zoomed_by(delta, s),
        }
    }

    /// The state after panning by `scroll` on a map `s` pixels wide: the map
    /// is detached and at rest, the position that was shown at its centre is
    /// its new base, and the scroll is all of its offset.
    pub open spec fn panned(self, scroll: Pixel, my_position: Position, s: int) -> MapState {
        let shown = self.center_mode.shown(self.projection_type, my_position, s);
        self.with_center(
            Center::Exact {
                pos: (AdjustedPosition { position: shown, offset: Pixel::zero() }).shift(scroll),
            },
        )
    }

    /// The zoom after the gestures of one frame, in thousandths of a level:
    /// changed by what a zoom gesture asks for, if that stays within the range
    /// of the zoom.
    pub open spec fn zoom_after(self, settings: GestureSettings, input: GestureInput) -> int {
        if settings.zooms(input) && self.can_zoom_by(settings.zoom_change(input) as int) {
            self.zoom + settings.zoom_change(input)
        } else {
            self.zoom
        }
    }

    /// The state after the gestures of one frame. The map is `s` pixels wide
    /// when the frame begins and `s2` pixels wide at the zoom that the frame
    /// leaves it at; a zoom gesture is taken in first, at the old width, and
    /// panning last, at the new one.
    pub open spec fn after_gestures(
        self,
        settings: GestureSettings,
        input: GestureInput,
        my_position: Position,
        s: int,
        s2: int,
    ) -> MapState {
        let moved = if settings.zooms(input) {
            self.zoomed_about(
                input.hover_offset,
                settings.zoom_change(input) as int,
                my_position,
                s,
            )
        } else if settings.drag_gesture_enabled {
            self.with_center(self.center_mode.after_drag(input.drag, my_position))
        } else {
            self
        };
        if settings.pans(input) {
            moved.panned(input.scroll_delta, my_position, s2)
        } else {
            moved
        }
    }

    /// The state after one frame: after its gestures, and then after the
    /// movement that the map is left with.
    pub open spec fn after_update(
        self,
        settings: GestureSettings,
        input: GestureInput,
        my_position: Position,
        s: int,
        s2: int,
    ) -> MapState {
        let gestured = self.after_gestures(settings, input, my_position, s, s2);
        gestured.with_center(gestured.center_mode.after_frame())
    }
}

impl GestureSettings {
    /// The zoom factor that the frame asks for, in thousandths.
    pub fn effective_zoom_factor(&self, input: &GestureInput) -> (r: i64)
        ensures
            r == self.zoom_factor(*input),
            -0x4_0000_0000 <= r <= 0x4_0000_0000,
    {
        let mut factor: i64 = input.zoom_delta as i64;
        if self.double_click_to_zoom && input.pointer_inside && input.double_clicked_primary {
            factor = DOUBLE_CLICK_ZOOM_IN;
        }
        if self.double_click_to_zoom_out && input.pointer_inside && input.double_clicked_secondary {
            factor = DOUBLE_CLICK_ZOOM_OUT;
        }
        if !self.zoom_with_ctrl && factor == NO_ZOOM {
            let scrolled: i128 = floor_div(
                wide_product(SCROLL_ZOOM_RATE, input.scroll_delta.y),
                PIXEL_UNIT as i128,
            );
            factor = (NO_ZOOM as i128 + scrolled) as i64;
        }
        factor
    }

    /// By how many thousandths of a level the frame asks to change the zoom,
    /// if it zooms the map at all.
    pub fn zoom_request(&self, input: &GestureInput) -> (r: Option<i64>)
        ensures
            r is Some <==> self.zooms(*input),
            r matches Some(delta) ==> delta == self.zoom_change(*input),
    {
        let factor = self.effective_zoom_factor(input);
        if !(DEAD_ZONE_LOW <= factor && factor <= DEAD_ZONE_HIGH) && input.pointer_inside
            && self.zoom_gesture_enabled {
            Some(
                saturate(floor_div(wide_product(factor - NO_ZOOM, self.zoom_speed as i64), 1000)),
            )
        } else {
            None
        }
    }
}

impl MapMemory {
    /// The zoom that the gestures of one frame leave the map at. The scale of
    /// that zoom is what `handle_gestures` and `update` pan at.
    pub fn zoom_after(&self, settings: &GestureSettings, input: &GestureInput) -> (r: Zoom)
        requires
            self.wf(),
        ensures
            r.wf(),
            r@ == self@.zoom_after(*settings, *input),
    {
        let mut zoom = self.zoom;
        match settings.zoom_request(input) {
            Some(delta) => {
                let _ = zoom.zoom_by(delta);
            },
            None => {},
        }
        zoom
    }

    /// Whether `scale` is a valid scale of the zoom that the gestures of one
    /// frame leave the map at.
    pub open spec fn has_scale_after(
        &self,
        settings: GestureSettings,
        input: GestureInput,
        scale: Scale,
    ) -> bool {
        scale.wf() && scale.zoom()@ == self@.zoom_after(settings, input)
    }

    /// Pans the map by `scroll`: detaches it at the position shown at its
    /// centre, at rest, and shifts it.
    pub fn pan(&mut self, scroll: Pixel, my_position: Position, scale: Scale)
        requires
            old(self).wf(),
            old(self).has_scale(scale),
        ensures
            final(self).wf(),
            final(self)@ == old(self)@.panned(scroll, my_position, scale@),
    {
        let shown = self.center_mode.position(self.projection_type, my_position, scale);
        self.center_mode = Center::Exact {
            pos: AdjustedPosition::new(shown, Pixel::zero()).shift(scroll),
        };
    }

    /// Zooms by `delta` thousandths of a level about the pointer. A change
    /// that would leave the range of the zoom leaves the zoom as it is.
    pub fn zoom_about(
        &mut self,
        pointer: Option<Pixel>,
        delta: i64,
        my_position: Position,
        scale: Scale,
    )
        requires
            old(self).wf(),
            old(self).has_scale(scale),
        ensures
            final(self).wf(),
            final(self)@ == old(self)@.zoomed_about(pointer, delta as int, my_position, scale@),
    {
        match pointer {
            Some(offset) => {
                let shown = self.center_mode.position(self.projection_type, my_position, scale);
                let pointed = AdjustedPosition::new(shown, Pixel::zero()).shift(
                    offset.negated(),
                ).zero_offset(self.projection_type, scale);
                self.center_mode = Center::Exact { pos: pointed };
                let _ = self.zoom_by(delta, scale);
                self.center_mode = self.center_mode.shift(offset);
            },
            None => {
                let _ = self.zoom_by(delta, scale);
            },
        }
    }

    /// Takes in the gestures of one frame; says whether the map zoomed, was
    /// dragged or was let go of. `scale` is the scale of the zoom that the map
    /// is at, `scale_after` that of the zoom that the frame leaves it at, which
    /// `zoom_after` tells beforehand.
    pub fn handle_gestures(
        &mut self,
        settings: &GestureSettings,
        input: &GestureInput,
        my_position: Position,
        scale: Scale,
        scale_after: Scale,
    ) -> (changed: bool)
        requires
            old(self).wf(),
            old(self).has_scale(scale),
            old(self).has_scale_after(*settings, *input, scale_after),
        ensures
            final(self).wf(),
            final(self).has_scale(scale_after),
            final(self)@ == old(self)@.after_gestures(
                *settings,
                *input,
                my_position,
                scale@,
                scale_after@,
            ),
            changed == settings.changes(*input),
    {
        let mut changed = false;
        match settings.zoom_request(input) {
            Some(delta) => {
                self.zoom_about(input.hover_offset, delta, my_position, scale);
                changed = true;
            },
            None => {
                if settings.drag_gesture_enabled {
                    changed = self.center_mode.recalculate_drag(input.drag, my_position);
                }
            },
        }
        let panning_enabled = input.any_touches || settings.zoom_with_ctrl;
        if input.pointer_inside && panning_enabled {
            if input.scroll_delta != Pixel::zero() {
                self.pan(input.scroll_delta, my_position, scale_after);
            }
        }
        changed
    }

    /// Takes the map through one frame: its gestures first, then the movement
    /// that it is left with. Says whether anything moved the map.
    pub fn update(
        &mut self,
        settings: &GestureSettings,
        input: &GestureInput,
        my_position: Position,
        scale: Scale,
        scale_after: Scale,
    ) -> (moved: bool)
        requires
            old(self).wf(),
            old(self).has_scale(scale),
            old(self).has_scale_after(*settings, *input, scale_after),
        ensures
            final(self).wf(),
            final(self).has_scale(scale_after),
            final(self)@ == old(self)@.after_update(
                *settings,
                *input,
                my_position,
                scale@,
                scale_after@,
            ),
            moved == (settings.changes(*input) || old(self)@.after_gestures(
                *settings,
                *input,
                my_position,
                scale@,
                scale_after@,
            ).center_mode.is_moving()),
    {
        let changed = self.handle_gestures(settings, input, my_position, scale, scale_after);
        let moving = self.center_mode.update_movement();
        changed || moving
    }
}

/// After zooming about the pointer the map is centred exactly, at the place
/// that was under the pointer, shifted back by the pointer's offset. This holds
/// whether or not the zoom could change, whenever the place projects without
/// saturation.
pub proof fn lemma_zoomed_about_the_pointer(
    state: MapState,
    pointer: Pixel,
    delta: int,
    my_position: Position,
    s: int,
)
    requires
        s >= 1,
        state.pointed(pointer, my_position, s).projects_exactly(state.projection_type, s),
    ensures
        ({
            let zoomed = state.zoomed_about(Some(pointer), delta, my_position, s);
            &&& zoomed.center_mode == (Center::Exact {
                pos: AdjustedPosition {
                    position: state.pointed(pointer, my_position, s),
                    offset: pointer,
                },
            })
            &&& zoomed.projection_type == state.projection_type
            &&& zoomed.zoom == if state.can_zoom_by(delta) {
                state.zoom + delta
            } else {
                state.zoom
            }
        }),
{
    let place = state.pointed(pointer, my_position, s);
    lemma_fold_without_offset(
        AdjustedPosition { position: place, offset: Pixel::zero() },
        state.projection_type,
        s,
    );
}

impl Projector {
    /// The place under a pointer that is `pointer` away from the middle of the
    /// rectangle.
    pub open spec fn pointed(&self, pointer: Pixel) -> Position {
        self.unprojected(self.clip_rect.center().plus(pointer))
    }

    /// Whether the place under the pointer is found without saturation: the
    /// pointer's place on the screen and the opposite of its offset are within
    /// the range of a pixel's coordinates, and the position that far from the
    /// centre of the map is found exactly.
    pub open spec fn points_exactly(&self, pointer: Pixel) -> bool {
        let middle = self.clip_rect.center();
        &&& i64::MIN <= middle.x + pointer.x <= i64::MAX
        &&& i64::MIN <= middle.y + pointer.y <= i64::MAX
        &&& pointer.x > i64::MIN
        &&& pointer.y > i64::MIN
        &&& (AdjustedPosition {
            position: self.center_position(),
            offset: pointer.negated(),
        }).shows_exactly(self.memory.projection_type, self.scale@)
    }

    /// Whether a zoom about the pointer that leads from this projection to
    /// `after` saturates nowhere: the place under the pointer is found exactly,
    /// the centre of the map after the zoom is found exactly, and the place is
    /// shown exactly before and after.
    pub open spec fn anchors_exactly(&self, after: Projector, pointer: Pixel) -> bool {
        let place = self.pointed(pointer);
        &&& self.points_exactly(pointer)
        &&& (AdjustedPosition { position: place, offset: pointer }).shows_exactly(
            after.memory.projection_type,
            after.scale@,
        )
        &&& self.shows_exactly(place)
        &&& after.shows_exactly(place)
    }
}

/// The place under the pointer, written out. Where nothing saturates, the
/// place is the centre times the scale, plus the pointer's offset from the
/// middle of the rectangle, over the scale, rounded down. On the local map the
/// vertical offset counts the other way.
pub proof fn lemma_pointed_place(projector: Projector, pointer: Pixel)
    requires
        projector.wf(),
        projector.points_exactly(pointer),
    ensures
        ({
            let place = projector.pointed(pointer);
            let c = projector.center_position();
            let s = projector.scale@;
            &&& place == projector.memory@.pointed(pointer, projector.my_position, s)
            &&& place.x == (c.x * s + pointer.x) / s
            &&& projector.memory.projection_type == ProjectorType::Global ==> place.y == (c.y * s
                + pointer.y) / s
            &&& projector.memory.projection_type == ProjectorType::Local ==> place.y == (c.y * s
                + (-pointer.y)) / s
        }),
{
    let c = projector.center_position();
    let middle = projector.clip_rect.center();
    let pointing = (AdjustedPosition { position: c, offset: Pixel::zero() }).shift(
        pointer.negated(),
    );
    projector.scale.lemma_bounds();
    assert(middle.plus(pointer).minus(middle) == pointer);
    assert(pointing.offset == pointer.negated());
    lemma_unadjusted(pointing, projector.memory.projection_type, projector.scale@);
}

/// Within the plane and within reach, a zoom about the pointer saturates
/// nowhere.
pub proof fn lemma_anchors_exactly_within_bounds(
    before: Projector,
    after: Projector,
    pointer: Pixel,
    delta: int,
)
    requires
        before.wf(),
        after.wf(),
        after.clip_rect == before.clip_rect,
        after.my_position == before.my_position,
        after.memory@ == before.memory@.zoomed_about(
            Some(pointer),
            delta,
            before.my_position,
            before.scale@,
        ),
        pointer.in_reach(),
        before.clip_rect.center().in_reach(),
        before.center_position().in_plane(),
        before.pointed(pointer).in_plane(),
        after.center_position().in_plane(),
    ensures
        before.anchors_exactly(after, pointer),
{
    let place = before.pointed(pointer);
    before.scale.lemma_bounds();
    after.scale.lemma_bounds();
    lemma_shows_exactly_within_bounds(
        AdjustedPosition { position: before.center_position(), offset: pointer.negated() },
        before.memory.projection_type,
        before.scale@,
    );
    lemma_shows_exactly_within_bounds(
        AdjustedPosition { position: place, offset: pointer },
        after.memory.projection_type,
        after.scale@,
    );
    before.lemma_shows_exactly_within_bounds(place);
    after.lemma_shows_exactly_within_bounds(place);
}

/// Zooming about the pointer keeps the place under the pointer where it is on
/// the screen. Before and after the zoom the place is shown within one map
/// unit of the pointer, which at scale `s` is `s` sub-pixel units; and if the
/// pointer's offset from the middle of the rectangle is a whole number of map
/// units at a scale, the place is shown exactly at the pointer at that scale.
///
/// This holds whether or not the zoom could change by `delta`, on the global
/// and on the local map, wherever nothing saturates.
pub proof fn lemma_zoom_keeps_the_pointed_place(
    before: Projector,
    after: Projector,
    pointer: Pixel,
    delta: int,
)
    requires
        before.wf(),
        after.wf(),
        after.clip_rect == before.clip_rect,
        after.my_position == before.my_position,
        after.memory@ == before.memory@.zoomed_about(
            Some(pointer),
            delta,
            before.my_position,
            before.scale@,
        ),
        before.anchors_exactly(after, pointer),
    ensures
        ({
            let target = before.clip_rect.center().plus(pointer);
            let place = before.pointed(pointer);
            &&& before.projected(place).within(target, before.scale@)
            &&& after.projected(place).within(target, after.scale@)
            &&& pointer.aligned(before.scale@) ==> before.projected(place) == target
            &&& pointer.aligned(after.scale@) ==> after.projected(place) == target
        }),
{
    let (s, s2) = (before.scale@, after.scale@);
    let mode = before.memory.projection_type;
    let c = before.center_position();
    let place = before.pointed(pointer);
    let recentred = AdjustedPosition { position: place, offset: pointer };
    before.scale.lemma_bounds();
    after.scale.lemma_bounds();
    lemma_pointed_place(before, pointer);
    lemma_zoomed_about_the_pointer(before.memory@, pointer, delta, before.my_position, s);
    assert(after.center_position() == recentred.unadjusted(mode, s2));
    lemma_unadjusted(recentred, mode, s2);
    before.lemma_projected(place);
    after.lemma_projected(place);
    lemma_zoom_about(c.x as int, pointer.x as int, s, s2);
    match mode {
        ProjectorType::Global => {
            lemma_zoom_about(c.y as int, pointer.y as int, s, s2);
        },
        ProjectorType::Local => {
            lemma_zoom_about(c.y as int, -pointer.y, s, s2);
            if pointer.aligned(s) {
                lemma_opposite_multiple(pointer.y as int, s);
            }
            if pointer.aligned(s2) {
                lemma_opposite_multiple(pointer.y as int, s2);
            }
        },
    }
}

} // verus!
