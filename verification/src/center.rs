//! The centre of the map and how it moves.
//!
//! The map either follows a position that is supplied from outside, or it is
//! detached from it: centred exactly at a place, being dragged, or coasting
//! to a halt after a drag.

use crate::projector::ProjectorType;
use crate::units::{AdjustedPosition, Pixel, Position};
use crate::zoom::Scale;
use vstd::prelude::*;

verus! {

/// The energy with which a released map starts to coast, in hundredths.
pub const FULL_ENERGY: i32 = 100;

/// The energy that a coasting map loses in each frame, in hundredths.
pub const ENERGY_STEP: i32 = 3;

/// What the pointer did to the map in one frame.
#[derive(Clone, Copy, Debug, PartialEq, Eq, Structural)]
pub struct Drag {
    /// Whether the map is being dragged with the primary button.
    pub dragged: bool,
    /// Whether a drag ended in this frame.
    pub stopped: bool,
    /// By how much the pointer moved in this frame.
    pub delta: Pixel,
}

/// Where the map is centred.
#[derive(Clone, Copy, Debug, PartialEq, Eq, Structural)]
pub enum Center {
    /// At the position that is supplied from outside in every frame.
    FollowingExternal,
    /// Exactly here.
    Exact { pos: AdjustedPosition },
    /// The map is being dragged; `velocity` is the last movement of the pointer.
    Dragging { pos: AdjustedPosition, velocity: Pixel },
    /// The map was released and slows down: in every frame it moves by
    /// `velocity` times `energy` hundredths and loses `ENERGY_STEP` of its
    /// energy, and it stops when none is left.
    Coasting { pos: AdjustedPosition, velocity: Pixel, energy: i32 },
}

impl Center {
    /// The stored position, if the map is detached.
    pub open spec fn spec_get_adjusted_position(&self) -> Option<AdjustedPosition> {
        match *self {
            Center::FollowingExternal => None,
            Center::Exact { pos } => Some(pos),
            Center::Dragging { pos, .. } => Some(pos),
            Center::Coasting { pos, .. } => Some(pos),
        }
    }

    /// The same state with another stored position; a map that follows the
    /// outside position stores none and stays as it is.
    pub open spec fn with_position(self, new_pos: AdjustedPosition) -> Center {
        match self {
            Center::FollowingExternal => Center::FollowingExternal,
            Center::Exact { .. } => Center::Exact { pos: new_pos },
            Center::Dragging { velocity, .. } => Center::Dragging { pos: new_pos, velocity },
            Center::Coasting { velocity, energy, .. } => Center::Coasting {
                pos: new_pos,
                velocity,
                energy,
            },
        }
    }

    /// The same state with the stored position, if there is one, shifted by `offset`.
    pub open spec fn spec_shift(self, offset: Pixel) -> Center {
        match self.get_adjusted_position() {
            Some(pos) => self.with_position(pos.shift(offset)),
            None => self,
        }
    }

    /// The same state with the offset of the stored position folded into its
    /// base, by the kind of projection.
    pub open spec fn folded(self, mode: ProjectorType, s: int) -> Center {
        match self.get_adjusted_position() {
            Some(pos) => self.with_position(pos.folded(mode, s)),
            None => self,
        }
    }

    /// The position at the centre of the map: the stored one as it is shown,
    /// or `my_position` for a map that follows the outside position.
    pub open spec fn shown(self, mode: ProjectorType, my_position: Position, s: int) -> Position {
        match self.get_adjusted_position() {
            Some(pos) => pos.unadjusted(mode, s),
            None => my_position,
        }
    }

    /// The state after the pointer's report for one frame. A drag detaches the
    /// map where it stands and remembers the pointer's movement; the end of a
    /// drag lets a dragged map coast with full energy.
    pub open spec fn after_drag(self, drag: Drag, my_position: Position) -> Center {
        if drag.dragged {
            Center::Dragging {
                pos: match self.get_adjusted_position() {
                    Some(pos) => pos,
                    None => AdjustedPosition { position: my_position, offset: Pixel::zero() },
                },
                velocity: drag.delta,
            }
        } else if drag.stopped {
            match self {
                Center::Dragging { pos, velocity } => Center::Coasting {
                    pos,
                    velocity,
                    energy: FULL_ENERGY,
                },
                _ => self,
            }
        } else {
            self
        }
    }

    /// The state one frame later. A dragged map moves by its velocity. A
    /// coasting map moves by its velocity times its energy and loses
    /// `ENERGY_STEP`; once no energy is left it rests exactly where it is.
    pub open spec fn after_frame(self) -> Center {
        match self {
            Center::Dragging { pos, velocity } => Center::Dragging {
                pos: pos.shift(velocity),
                velocity,
            },
            Center::Coasting { pos, velocity, energy } => {
                if energy <= 0 {
                    Center::Exact { pos }
                } else if energy <= ENERGY_STEP {
                    Center::Exact { pos: pos.shift(velocity.scaled(energy)) }
                } else {
                    Center::Coasting {
                        pos: pos.shift(velocity.scaled(energy)),
                        velocity,
                        energy: (energy - ENERGY_STEP) as i32,
                    }
                }
            },
            _ => self,
        }
    }

    /// Whether the map is moving: dragged or coasting.
    pub open spec fn is_moving(self) -> bool {
        self is Dragging || self is Coasting
    }

    /// The state `frames` frames later, with no input in between.
    pub open spec fn after_frames(self, frames: nat) -> Center
        decreases frames,
    {
        if frames == 0 {
            self
        } else {
            self.after_frame().after_frames((frames - 1) as nat)
        }
    }

    /// Takes in what the pointer did in this frame; says whether it dragged
    /// the map or let go of it.
    pub fn recalculate_drag(&mut self, drag: Drag, my_position: Position) -> (r: bool)
        ensures
            *final(self) == old(self).after_drag(drag, my_position),
            r == (drag.dragged || drag.stopped),
    {
        if drag.dragged {
            let pos = match self.get_adjusted_position() {
                Some(pos) => pos,
                None => AdjustedPosition::new(my_position, Pixel::zero()),
            };
            *self = Center::Dragging { pos, velocity: drag.delta };
            true
        } else if drag.stopped {
            let current = *self;
            match current {
                Center::Dragging { pos, velocity } => {
                    *self = Center::Coasting { pos, velocity, energy: FULL_ENERGY };
                },
                _ => {},
            }
            true
        } else {
            false
        }
    }

    /// Moves the map by one frame; says whether it was moving.
    pub fn update_movement(&mut self) -> (r: bool)
        ensures
            *final(self) == old(self).after_frame(),
            r == old(self).is_moving(),
    {
        let current = *self;
        match current {
            Center::Dragging { pos, velocity } => {
                *self = Center::Dragging { pos: pos.shift(velocity), velocity };
                true
            },
            Center::Coasting { pos, velocity, energy } => {
                if energy <= 0 {
                    *self = Center::Exact { pos };
                } else {
                    let moved = pos.shift(velocity.scaled(energy));
                    if energy <= ENERGY_STEP {
                        *self = Center::Exact { pos: moved };
                    } else {
                        *self = Center::Coasting {
                            pos: moved,
                            velocity,
                            energy: energy - ENERGY_STEP,
                        };
                    }
                }
                true
            },
            _ => false,
        }
    }

    /// The stored position, if the map is detached.
    #[verifier::when_used_as_spec(spec_get_adjusted_position)]
    pub fn get_adjusted_position(&self) -> (r: Option<AdjustedPosition>)
        ensures
            r == self.get_adjusted_position(),
    {
        match *self {
            Center::FollowingExternal => None,
            Center::Exact { pos } => Some(pos),
            Center::Dragging { pos, .. } => Some(pos),
            Center::Coasting { pos, .. } => Some(pos),
        }
    }

    /// Shifts the stored position by `offset`, if the map is detached.
    #[verifier::when_used_as_spec(spec_shift)]
    pub fn shift(self, offset: Pixel) -> (r: Center)
        ensures
            r == self.shift(offset),
    {
        match self {
            Center::FollowingExternal => Center::FollowingExternal,
            Center::Exact { pos } => Center::Exact { pos: pos.shift(offset) },
            Center::Dragging { pos, velocity } => Center::Dragging {
                pos: pos.shift(offset),
                velocity,
            },
            Center::Coasting { pos, velocity, energy } => Center::Coasting {
                pos: pos.shift(offset),
                velocity,
                energy,
            },
        }
    }

    /// Folds the offset of the stored position into its base, by the kind of
    /// projection.
    pub fn zero_offset(self, mode: ProjectorType, scale: Scale) -> (r: Center)
        requires
            scale.wf(),
        ensures
            r == self.folded(mode, scale@),
    {
        match self {
            Center::FollowingExternal => Center::FollowingExternal,
            Center::Exact { pos } => Center::Exact { pos: pos.zero_offset(mode, scale) },
            Center::Dragging { pos, velocity } => Center::Dragging {
                pos: pos.zero_offset(mode, scale),
                velocity,
            },
            Center::Coasting { pos, velocity, energy } => Center::Coasting {
                pos: pos.zero_offset(mode, scale),
                velocity,
                energy,
            },
        }
    }

    /// Folds the offset of the stored position into its base on the global map.
    pub fn global_zero_offset(self, scale: Scale) -> (r: Center)
        requires
            scale.wf(),
        ensures
            r == self.folded(ProjectorType::Global, scale@),
    {
        self.zero_offset(ProjectorType::Global, scale)
    }

    /// Folds the offset of the stored position into its base on the local map.
    pub fn local_zero_offset(self, scale: Scale) -> (r: Center)
        requires
            scale.wf(),
        ensures
            r == self.folded(ProjectorType::Local, scale@),
    {
        self.zero_offset(ProjectorType::Local, scale)
    }

    /// The position at the centre of the map, by the kind of projection.
    pub fn position(&self, mode: ProjectorType, my_position: Position, scale: Scale) -> (r:
        Position)
        requires
            scale.wf(),
        ensures
            r == self.shown(mode, my_position, scale@),
    {
        match self.get_adjusted_position() {
            Some(pos) => pos.unadjusted_position(mode, scale),
            None => my_position,
        }
    }

    /// The position at the centre of the global map.
    pub fn global_position(&self, my_position: Position, scale: Scale) -> (r: Position)
        requires
            scale.wf(),
        ensures
            r == self.shown(ProjectorType::Global, my_position, scale@),
    {
        self.position(ProjectorType::Global, my_position, scale)
    }

    /// The position at the centre of the local map.
    pub fn local_position(&self, my_position: Position, scale: Scale) -> (r: Position)
        requires
            scale.wf(),
        ensures
            r == self.shown(ProjectorType::Local, my_position, scale@),
    {
        self.position(ProjectorType::Local, my_position, scale)
    }

    /// A coasting map comes to rest: with energy `e` left it is still coasting
    /// after every number of frames below the `e / ENERGY_STEP` rounded up, and
    /// after that many frames it rests at an exact position and stays there.
    pub proof fn lemma_coasting_comes_to_rest(self, frames: nat)
        requires
            self is Coasting,
            self->Coasting_energy > 0,
        ensures
            frames < (self->Coasting_energy + ENERGY_STEP - 1) / (ENERGY_STEP as int)
                ==> self.after_frames(frames) is Coasting,
            frames >= (self->Coasting_energy + ENERGY_STEP - 1) / (ENERGY_STEP as int)
                ==> self.after_frames(frames) is Exact,
        decreases frames,
    {
        if frames > 0 {
            let next = self.after_frame();
            if next is Coasting {
                next.lemma_coasting_comes_to_rest((frames - 1) as nat);
            } else {
                next.lemma_exact_stays((frames - 1) as nat);
            }
        }
    }

    /// A map that rests at an exact position stays there while no input comes.
    pub proof fn lemma_exact_stays(self, frames: nat)
        requires
            self is Exact,
        ensures
            self.after_frames(frames) == self,
        decreases frames,
    {
        if frames > 0 {
            self.lemma_exact_stays((frames - 1) as nat);
        }
    }
}

impl Default for Center {
    /// A map follows the outside position until it is told or moved otherwise.
    fn default() -> (r: Center)
        ensures
            r == Center::FollowingExternal,
    {
        Center::FollowingExternal
    }
}

} // verus!
