//! The two maps: the map of the world and the local map.
//!
//! A map is made anew for every frame from the position that it follows and
//! the gestures it answers to; what lasts between frames is the `MapMemory`
//! that it is made over.

use crate::gestures::{GestureInput, GestureSettings, DEFAULT_ZOOM_SPEED};
use crate::map_memory::{MapMemory, MapState};
use crate::projector::ProjectorType;
use crate::units::Position;
use crate::zoom::Scale;
use vstd::prelude::*;

verus! {

impl Default for GestureSettings {
    /// Zooming and dragging are attended to, double clicks are not, and
    /// zooming by scrolling needs the control key.
    fn default() -> (r: GestureSettings)
        ensures
            r == (GestureSettings {
                zoom_gesture_enabled: true,
                drag_gesture_enabled: true,
                zoom_speed: DEFAULT_ZOOM_SPEED,
                double_click_to_zoom: false,
                double_click_to_zoom_out: false,
                zoom_with_ctrl: true,
            }),
    {
        GestureSettings {
            zoom_gesture_enabled: true,
            drag_gesture_enabled: true,
            zoom_speed: DEFAULT_ZOOM_SPEED,
            double_click_to_zoom: false,
            double_click_to_zoom_out: false,
            zoom_with_ctrl: true,
        }
    }
}

impl MapState {
    /// The same state under another kind of projection.
    pub open spec fn with_projection(self, projection_type: ProjectorType) -> MapState {
        MapState { projection_type, center_mode: self.center_mode, zoom: self.zoom }
    }
}

/// The map of the world.
#[derive(Clone, Copy, Debug, PartialEq, Eq, Structural)]
pub struct GlobalMap {
    /// The position that the map follows while it is not detached.
    pub my_position: Position,
    /// The gestures that the map answers to.
    pub settings: GestureSettings,
}

/// A blank map in planar coordinates.
#[derive(Clone, Copy, Debug, PartialEq, Eq, Structural)]
pub struct LocalMap {
    /// The position that the map follows while it is not detached.
    pub my_position: Position,
    /// The gestures that the map answers to.
    pub settings: GestureSettings,
}

/// Either of the two maps, to be handled alike.
#[derive(Clone, Copy, Debug, PartialEq, Eq, Structural)]
pub enum Maps {
    GlobalMap(GlobalMap),
    LocalMap(LocalMap),
}

impl GlobalMap {
    /// The map of the world over `memory`, which from now on projects
    /// globally, with the default settings.
    pub fn new(memory: &mut MapMemory, my_position: Position) -> (r: GlobalMap)
        ensures
            final(memory)@ == old(memory)@.with_projection(ProjectorType::Global),
            final(memory).zoom == old(memory).zoom,
            r.my_position == my_position,
            r.settings == (GestureSettings {
                zoom_gesture_enabled: true,
                drag_gesture_enabled: true,
                zoom_speed: DEFAULT_ZOOM_SPEED,
                double_click_to_zoom: false,
                double_click_to_zoom_out: false,
                zoom_with_ctrl: true,
            }),
    {
        memory.projection_type = ProjectorType::Global;
        GlobalMap { my_position, settings: GestureSettings::default() }
    }

    /// Sets whether zoom gestures zoom the map.
    pub fn zoom_gesture(self, enabled: bool) -> (r: GlobalMap)
        ensures
            r == (GlobalMap {
                settings: GestureSettings { zoom_gesture_enabled: enabled, ..self.settings },
                ..self
            }),
    {
        let mut map = self;
        map.settings.zoom_gesture_enabled = enabled;
        map
    }

    /// Sets whether dragging moves the map.
    pub fn drag_gesture(self, enabled: bool) -> (r: GlobalMap)
        ensures
            r == (GlobalMap {
                settings: GestureSettings { drag_gesture_enabled: enabled, ..self.settings },
                ..self
            }),
    {
        let mut map = self;
        map.settings.drag_gesture_enabled = enabled;
        map
    }

    /// Sets how far the map zooms for a zoom gesture, in thousandths.
    pub fn zoom_speed(self, speed: i32) -> (r: GlobalMap)
        ensures
            r == (GlobalMap { settings: GestureSettings { zoom_speed: speed, ..self.settings }, ..self }),
    {
        let mut map = self;
        map.settings.zoom_speed = speed;
        map
    }

    /// Sets whether a double click with the primary button zooms in.
    pub fn double_click_to_zoom(self, enabled: bool) -> (r: GlobalMap)
        ensures
            r == (GlobalMap {
                settings: GestureSettings { double_click_to_zoom: enabled, ..self.settings },
                ..self
            }),
    {
        let mut map = self;
        map.settings.double_click_to_zoom = enabled;
        map
    }

    /// Sets whether a double click with the secondary button zooms out.
    pub fn double_click_to_zoom_out(self, enabled: bool) -> (r: GlobalMap)
        ensures
            r == (GlobalMap {
                settings: GestureSettings { double_click_to_zoom_out: enabled, ..self.settings },
                ..self
            }),
    {
        let mut map = self;
        map.settings.double_click_to_zoom_out = enabled;
        map
    }

    /// Sets whether zooming by scrolling needs the control key.
    pub fn zoom_with_ctrl(self, enabled: bool) -> (r: GlobalMap)
        ensures
            r == (GlobalMap {
                settings: GestureSettings { zoom_with_ctrl: enabled, ..self.settings },
                ..self
            }),
    {
        let mut map = self;
        map.settings.zoom_with_ctrl = enabled;
        map
    }

    /// Takes in the gestures of one frame on the map of the world; says
    /// whether the map zoomed, was dragged or was let go of.
    pub fn handle_gestures(
        &self,
        memory: &mut MapMemory,
        input: &GestureInput,
        scale: Scale,
        scale_after: Scale,
    ) -> (r: bool)
        requires
            old(memory).wf(),
            old(memory).has_scale(scale),
            old(memory).has_scale_after(self.settings, *input, scale_after),
        ensures
            final(memory).wf(),
            final(memory).has_scale(scale_after),
            final(memory)@ == old(memory)@.with_projection(ProjectorType::Global).after_gestures(
                self.settings,
                *input,
                self.my_position,
                scale@,
                scale_after@,
            ),
            r == self.settings.changes(*input),
    {
        memory.projection_type = ProjectorType::Global;
        memory.handle_gestures(&self.settings, input, self.my_position, scale, scale_after)
    }

    /// Takes the map of the world through one frame: its gestures first, then
    /// the movement that it is left with. Says whether anything moved the map.
    pub fn update(
        &self,
        memory: &mut MapMemory,
        input: &GestureInput,
        scale: Scale,
        scale_after: Scale,
    ) -> (moved: bool)
        requires
            old(memory).wf(),
            old(memory).has_scale(scale),
            old(memory).has_scale_after(self.settings, *input, scale_after),
        ensures
            final(memory).wf(),
            final(memory).has_scale(scale_after),
            final(memory)@ == old(memory)@.with_projection(ProjectorType::Global).after_update(
                self.settings,
                *input,
                self.my_position,
                scale@,
                scale_after@,
            ),
            moved == (self.settings.changes(*input) || old(memory)@.with_projection(
                ProjectorType::Global,
            ).after_gestures(
                self.settings,
                *input,
                self.my_position,
                scale@,
                scale_after@,
            ).center_mode.is_moving()),
    {
        memory.projection_type = ProjectorType::Global;
        memory.update(&self.settings, input, self.my_position, scale, scale_after)
    }
}

impl LocalMap {
    /// The local map over `memory`, which from now on projects locally, with
    /// the default settings.
    pub fn new(memory: &mut MapMemory, my_position: Position) -> (r: LocalMap)
        ensures
            final(memory)@ == old(memory)@.with_projection(ProjectorType::Local),
            final(memory).zoom == old(memory).zoom,
            r.my_position == my_position,
            r.settings == (GestureSettings {
                zoom_gesture_enabled: true,
                drag_gesture_enabled: true,
                zoom_speed: DEFAULT_ZOOM_SPEED,
                double_click_to_zoom: false,
                double_click_to_zoom_out: false,
                zoom_with_ctrl: true,
            }),
    {
        memory.projection_type = ProjectorType::Local;
        LocalMap { my_position, settings: GestureSettings::default() }
    }

    /// Sets whether zoom gestures zoom the map.
    pub fn zoom_gesture(self, enabled: bool) -> (r: LocalMap)
        ensures
            r == (LocalMap {
                settings: GestureSettings { zoom_gesture_enabled: enabled, ..self.settings },
                ..self
            }),
    {
        let mut map = self;
        map.settings.zoom_gesture_enabled = enabled;
        map
    }

    /// Sets whether dragging moves the map.
    pub fn drag_gesture(self, enabled: bool) -> (r: LocalMap)
        ensures
            r == (LocalMap {
                settings: GestureSettings { drag_gesture_enabled: enabled, ..self.settings },
                ..self
            }),
    {
        let mut map = self;
        map.settings.drag_gesture_enabled = enabled;
        map
    }

    /// Sets how far the map zooms for a zoom gesture, in thousandths.
    pub fn zoom_speed(self, speed: i32) -> (r: LocalMap)
        ensures
            r == (LocalMap {
                settings: GestureSettings { zoom_speed: speed, ..self.settings },
                ..self
            }),
    {
        let mut map = self;
        map.settings.zoom_speed = speed;
        map
    }

    /// Sets whether a double click with the primary button zooms in.
    pub fn double_click_to_zoom(self, enabled: bool) -> (r: LocalMap)
        ensures
            r == (LocalMap {
                settings: GestureSettings { double_click_to_zoom: enabled, ..self.settings },
                ..self
            }),
    {
        let mut map = self;
        map.settings.double_click_to_zoom = enabled;
        map
    }

    /// Sets whether a double click with the secondary button zooms out.
    pub fn double_click_to_zoom_out(self, enabled: bool) -> (r: LocalMap)
        ensures
            r == (LocalMap {
                settings: GestureSettings { double_click_to_zoom_out: enabled, ..self.settings },
                ..self
            }),
    {
        let mut map = self;
        map.settings.double_click_to_zoom_out = enabled;
        map
    }

    /// Sets whether zooming by scrolling needs the control key.
    pub fn zoom_with_ctrl(self, enabled: bool) -> (r: LocalMap)
        ensures
            r == (LocalMap {
                settings: GestureSettings { zoom_with_ctrl: enabled, ..self.settings },
                ..self
            }),
    {
        let mut map = self;
        map.settings.zoom_with_ctrl = enabled;
        map
    }

    /// Takes in the gestures of one frame on the local map; says whether the
    /// map zoomed, was dragged or was let go of.
    pub fn handle_gestures(
        &self,
        memory: &mut MapMemory,
        input: &GestureInput,
        scale: Scale,
        scale_after: Scale,
    ) -> (r: bool)
        requires
            old(memory).wf(),
            old(memory).has_scale(scale),
            old(memory).has_scale_after(self.settings, *input, scale_after),
        ensures
            final(memory).wf(),
            final(memory).has_scale(scale_after),
            final(memory)@ == old(memory)@.with_projection(ProjectorType::Local).after_gestures(
                self.settings,
                *input,
                self.my_position,
                scale@,
                scale_after@,
            ),
            r == self.settings.changes(*input),
    {
        memory.projection_type = ProjectorType::Local;
        memory.handle_gestures(&self.settings, input, self.my_position, scale, scale_after)
    }

    /// Takes the local map through one frame: its gestures first, then the
    /// movement that it is left with. Says whether anything moved the map.
    pub fn update(
        &self,
        memory: &mut MapMemory,
        input: &GestureInput,
        scale: Scale,
        scale_after: Scale,
    ) -> (moved: bool)
        requires
            old(memory).wf(),
            old(memory).has_scale(scale),
            old(memory).has_scale_after(self.settings, *input, scale_after),
        ensures
            final(memory).wf(),
            final(memory).has_scale(scale_after),
            final(memory)@ == old(memory)@.with_projection(ProjectorType::Local).after_update(
                self.settings,
                *input,
                self.my_position,
                scale@,
                scale_after@,
            ),
            moved == (self.settings.changes(*input) || old(memory)@.with_projection(
                ProjectorType::Local,
            ).after_gestures(
                self.settings,
                *input,
                self.my_position,
                scale@,
                scale_after@,
            ).center_mode.is_moving()),
    {
        memory.projection_type = ProjectorType::Local;
        memory.update(&self.settings, input, self.my_position, scale, scale_after)
    }
}

impl Maps {
    /// The kind of projection of the map.
    pub open spec fn projection(self) -> ProjectorType {
        match self {
            Maps::GlobalMap(_) => ProjectorType::Global,
            Maps::LocalMap(_) => ProjectorType::Local,
        }
    }

    /// The position that the map follows.
    pub open spec fn my_position(self) -> Position {
        match self {
            Maps::GlobalMap(map) => map.my_position,
            Maps::LocalMap(map) => map.my_position,
        }
    }

    /// The gestures that the map answers to.
    pub open spec fn settings(self) -> GestureSettings {
        match self {
            Maps::GlobalMap(map) => map.settings,
            Maps::LocalMap(map) => map.settings,
        }
    }

    /// The same map with other settings.
    pub open spec fn with_settings(self, settings: GestureSettings) -> Maps {
        match self {
            Maps::GlobalMap(map) => Maps::GlobalMap(GlobalMap { settings, ..map }),
            Maps::LocalMap(map) => Maps::LocalMap(LocalMap { settings, ..map }),
        }
    }

    /// Sets whether zoom gestures zoom the map.
    pub fn zoom_gesture(self, enabled: bool) -> (r: Maps)
        ensures
            r == self.with_settings(
                GestureSettings { zoom_gesture_enabled: enabled, ..self.settings() },
            ),
    {
        match self {
            Maps::GlobalMap(map) => Maps::GlobalMap(map.zoom_gesture(enabled)),
            Maps::LocalMap(map) => Maps::LocalMap(map.zoom_gesture(enabled)),
        }
    }

    /// Sets whether dragging moves the map.
    pub fn drag_gesture(self, enabled: bool) -> (r: Maps)
        ensures
            r == self.with_settings(
                GestureSettings { drag_gesture_enabled: enabled, ..self.settings() },
            ),
    {
        match self {
            Maps::GlobalMap(map) => Maps::GlobalMap(map.drag_gesture(enabled)),
            Maps::LocalMap(map) => Maps::LocalMap(map.drag_gesture(enabled)),
        }
    }

    /// Sets how far the map zooms for a zoom gesture, in thousandths.
    pub fn zoom_speed(self, speed: i32) -> (r: Maps)
        ensures
            r == self.with_settings(GestureSettings { zoom_speed: speed, ..self.settings() }),
    {
        match self {
            Maps::GlobalMap(map) => Maps::GlobalMap(map.zoom_speed(speed)),
            Maps::LocalMap(map) => Maps::LocalMap(map.zoom_speed(speed)),
        }
    }

    /// Sets whether a double click with the primary button zooms in.
    pub fn double_click_to_zoom(self, enabled: bool) -> (r: Maps)
        ensures
            r == self.with_settings(
                GestureSettings { double_click_to_zoom: enabled, ..self.settings() },
            ),
    {
        match self {
            Maps::GlobalMap(map) => Maps::GlobalMap(map.double_click_to_zoom(enabled)),
            Maps::LocalMap(map) => Maps::LocalMap(map.double_click_to_zoom(enabled)),
        }
    }

    /// Sets whether a double click with the secondary button zooms out.
    pub fn double_click_to_zoom_out(self, enabled: bool) -> (r: Maps)
        ensures
            r == self.with_settings(
                GestureSettings { double_click_to_zoom_out: enabled, ..self.settings() },
            ),
    {
        match self {
            Maps::GlobalMap(map) => Maps::GlobalMap(map.double_click_to_zoom_out(enabled)),
            Maps::LocalMap(map) => Maps::LocalMap(map.double_click_to_zoom_out(enabled)),
        }
    }

    /// Sets whether zooming by scrolling needs the control key.
    pub fn zoom_with_ctrl(self, enabled: bool) -> (r: Maps)
        ensures
            r == self.with_settings(GestureSettings { zoom_with_ctrl: enabled, ..self.settings() }),
    {
        match self {
            Maps::GlobalMap(map) => Maps::GlobalMap(map.zoom_with_ctrl(enabled)),
            Maps::LocalMap(map) => Maps::LocalMap(map.zoom_with_ctrl(enabled)),
        }
    }

    /// Takes the map through one frame: its gestures first, then the movement
    /// that it is left with. Says whether anything moved the map.
    pub fn update(
        &self,
        memory: &mut MapMemory,
        input: &GestureInput,
        scale: Scale,
        scale_after: Scale,
    ) -> (moved: bool)
        requires
            old(memory).wf(),
            old(memory).has_scale(scale),
            old(memory).has_scale_after(self.settings(), *input, scale_after),
        ensures
            final(memory).wf(),
            final(memory).has_scale(scale_after),
            final(memory)@ == old(memory)@.with_projection(self.projection()).after_update(
                self.settings(),
                *input,
                self.my_position(),
                scale@,
                scale_after@,
            ),
            moved == (self.settings().changes(*input) || old(memory)@.with_projection(
                self.projection(),
            ).after_gestures(
                self.settings(),
                *input,
                self.my_position(),
                scale@,
                scale_after@,
            ).center_mode.is_moving()),
    {
        match self {
            Maps::GlobalMap(map) => map.update(memory, input, scale, scale_after),
            Maps::LocalMap(map) => map.update(memory, input, scale, scale_after),
        }
    }
}

} // verus!
