//! The zoom level and the scale that belongs to it.
//!
//! A zoom level is held in thousandths of a level. At level `z` the whole map
//! is `TILE_SIZE * 2^z` pixels wide. Between whole levels that width is not an
//! integer power of two; it is then supplied by the caller and only accepted
//! between the widths of the two neighbouring whole levels.

use crate::fixed::power_of_two;
use vstd::arithmetic::power2::{lemma2_to64, lemma_pow2_strictly_increases, pow2};
use vstd::prelude::*;
use vstd::string::StringExecFns;

verus! {

/// The side of a map tile in pixels, and the width of the whole map at level 0.
pub const TILE_SIZE: u32 = 256;

/// One whole zoom level, in the unit in which levels are held.
pub const ZOOM_STEP: i64 = 1000;

/// The highest whole zoom level.
pub const MAX_ZOOM_LEVEL: u8 = 20;

/// The highest zoom, in thousandths of a level. The lowest is 0.
pub const MAX_ZOOM: i64 = 20_000;

/// The zoom of a freshly created map, in thousandths of a level.
pub const DEFAULT_ZOOM: i64 = 16_000;

/// The width of the whole map in pixels at the highest zoom.
pub const MAX_TOTAL_PIXELS: u64 = 0x1000_0000;

/// A zoom change was asked for that would leave the range from 0 to `MAX_ZOOM`.
#[derive(Clone, Copy, Debug, PartialEq, Eq)]
pub struct InvalidZoom;

impl InvalidZoom {
    /// The error in words.
    pub fn to_string(&self) -> (r: String)
        ensures
            r@ == "zoom out of bounds"@,
    {
        String::from_str("zoom out of bounds")
    }
}

/// A zoom level between 0 and `MAX_ZOOM`, in thousandths of a level.
#[derive(Clone, Copy, Debug, PartialEq, Eq)]
pub struct Zoom {
    level: u32,
}

impl View for Zoom {
    type V = int;

    /// The level in thousandths.
    closed spec fn view(&self) -> int {
        self.level as int
    }
}

/// The width in pixels of the whole map at a whole zoom level.
pub open spec fn whole_level_pixels(level: nat) -> int {
    TILE_SIZE * pow2(level)
}

/// Whether `total_pixels` can be the width of the map at `level` thousandths:
/// it lies between the widths at the whole levels below and above. At a whole
/// level that leaves exactly one width.
pub open spec fn spans(level: int, total_pixels: int) -> bool {
    whole_level_pixels((level / ZOOM_STEP as int) as nat) <= total_pixels <= whole_level_pixels(
        ((level + ZOOM_STEP - 1) / ZOOM_STEP as int) as nat,
    )
}

/// The width in pixels of the whole map at a whole zoom level.
pub fn total_pixels(level: u8) -> (r: u64)
    requires
        level <= MAX_ZOOM_LEVEL,
    ensures
        r == whole_level_pixels(level as nat),
        TILE_SIZE <= r <= MAX_TOTAL_PIXELS,
{
    proof {
        lemma_whole_level_bounds(level as nat);
    }
    let p: u64 = power_of_two(level);
    256 * p
}

/// Every whole level up to the highest has a width between `TILE_SIZE` and `MAX_TOTAL_PIXELS`.
pub proof fn lemma_whole_level_bounds(level: nat)
    requires
        level <= MAX_ZOOM_LEVEL,
    ensures
        TILE_SIZE <= whole_level_pixels(level) <= MAX_TOTAL_PIXELS,
        1 <= pow2(level) <= 0x10_0000,
{
    lemma2_to64();
    if level > 0 {
        lemma_pow2_strictly_increases(0, level);
    }
    if level < 20 {
        lemma_pow2_strictly_increases(level, 20);
    }
}

impl Zoom {
    /// Every value of the type is within bounds.
    pub open spec fn wf(&self) -> bool {
        0 <= self@ <= MAX_ZOOM
    }

    /// Whether the zoom is a whole level.
    pub open spec fn is_whole(&self) -> bool {
        self@ % (ZOOM_STEP as int) == 0
    }

    /// The zoom at `level` thousandths, or the bounds error if that lies outside 0 to `MAX_ZOOM`.
    pub fn new(level: i64) -> (r: Result<Zoom, InvalidZoom>)
        ensures
            r is Ok <==> 0 <= level <= MAX_ZOOM,
            r matches Ok(z) ==> z@ == level && z.wf(),
    {
        if 0 <= level && level <= MAX_ZOOM {
            Ok(Zoom { level: level as u32 })
        } else {
            Err(InvalidZoom)
        }
    }

    /// The zoom at a whole level, or the bounds error above `MAX_ZOOM_LEVEL`.
    pub fn whole(level: u8) -> (r: Result<Zoom, InvalidZoom>)
        ensures
            r is Ok <==> level <= MAX_ZOOM_LEVEL,
            r matches Ok(z) ==> z@ == level * ZOOM_STEP && z.wf(),
    {
        Zoom::new(level as i64 * ZOOM_STEP)
    }

    /// The level in thousandths.
    pub fn level(&self) -> (r: u32)
        requires
            self.wf(),
        ensures
            r == self@,
            r <= MAX_ZOOM,
    {
        self.level
    }

    /// The nearest whole level; a level halfway between two goes up.
    pub fn round(&self) -> (r: u8)
        requires
            self.wf(),
        ensures
            r == (self@ + 500) / (ZOOM_STEP as int),
            r <= MAX_ZOOM_LEVEL,
    {
        ((self.level + 500) / 1000) as u8
    }

    /// The whole level at or below the zoom.
    pub fn floor(&self) -> (r: u8)
        requires
            self.wf(),
        ensures
            r == self@ / (ZOOM_STEP as int),
            r <= MAX_ZOOM_LEVEL,
    {
        (self.level / 1000) as u8
    }

    /// The whole level at or above the zoom.
    pub fn ceil(&self) -> (r: u8)
        requires
            self.wf(),
        ensures
            r == (self@ + ZOOM_STEP - 1) / (ZOOM_STEP as int),
            r <= MAX_ZOOM_LEVEL,
    {
        ((self.level + 999) / 1000) as u8
    }

    /// Goes up one whole level, unless that would pass `MAX_ZOOM`: then the
    /// bounds error is returned and the zoom stays as it was.
    pub fn zoom_in(&mut self) -> (r: Result<(), InvalidZoom>)
        requires
            old(self).wf(),
        ensures
            final(self).wf(),
            r is Ok <==> old(self)@ + ZOOM_STEP <= MAX_ZOOM,
            r is Ok ==> final(self)@ == old(self)@ + ZOOM_STEP,
            r is Err ==> *final(self) == *old(self),
    {
        self.zoom_by(ZOOM_STEP)
    }

    /// Goes down one whole level, unless that would pass 0: then the bounds
    /// error is returned and the zoom stays as it was.
    pub fn zoom_out(&mut self) -> (r: Result<(), InvalidZoom>)
        requires
            old(self).wf(),
        ensures
            final(self).wf(),
            r is Ok <==> old(self)@ - ZOOM_STEP >= 0,
            r is Ok ==> final(self)@ == old(self)@ - ZOOM_STEP,
            r is Err ==> *final(self) == *old(self),
    {
        self.zoom_by(-ZOOM_STEP)
    }

    /// Changes the zoom by `delta` thousandths of a level, unless the result
    /// would lie outside 0 to `MAX_ZOOM`: then the bounds error is returned and
    /// the zoom stays as it was.
    pub fn zoom_by(&mut self, delta: i64) -> (r: Result<(), InvalidZoom>)
        requires
            old(self).wf(),
        ensures
            final(self).wf(),
            r is Ok <==> 0 <= old(self)@ + delta <= MAX_ZOOM,
            r is Ok ==> final(self)@ == old(self)@ + delta,
            r is Err ==> *final(self) == *old(self),
    {
        if -MAX_ZOOM <= delta && delta <= MAX_ZOOM {
            let target: i64 = self.level as i64 + delta;
            if 0 <= target && target <= MAX_ZOOM {
                self.level = target as u32;
                return Ok(());
            }
        }
        Err(InvalidZoom)
    }
}

impl Default for Zoom {
    /// The zoom of a freshly created map.
    fn default() -> (r: Zoom)
        ensures
            r@ == DEFAULT_ZOOM,
            r.wf(),
    {
        Zoom { level: 16_000 }
    }
}

/// A zoom together with the width of the whole map, in pixels, at that zoom.
#[derive(Clone, Copy, Debug, PartialEq, Eq)]
pub struct Scale {
    zoom: Zoom,
    total_pixels: u64,
}

impl View for Scale {
    type V = int;

    /// The width of the whole map in pixels.
    closed spec fn view(&self) -> int {
        self.total_pixels as int
    }
}

impl Scale {
    /// The zoom that the scale belongs to.
    pub closed spec fn spec_zoom(&self) -> Zoom {
        self.zoom
    }

    /// The zoom is valid and the width is one that the zoom can have.
    pub open spec fn wf(&self) -> bool {
        &&& self.zoom().wf()
        &&& spans(self.zoom()@, self@)
    }

    /// The scale at `zoom` with the map `total_pixels` wide, if the zoom can
    /// have that width.
    pub fn new(zoom: Zoom, total_pixels: u64) -> (r: Option<Scale>)
        requires
            zoom.wf(),
        ensures
            r is Some <==> spans(zoom@, total_pixels as int),
            r matches Some(s) ==> s.wf() && s.zoom() == zoom && s@ == total_pixels,
    {
        let low: u64 = crate::zoom::total_pixels(zoom.floor());
        let high: u64 = crate::zoom::total_pixels(zoom.ceil());
        if low <= total_pixels && total_pixels <= high {
            Some(Scale { zoom, total_pixels })
        } else {
            None
        }
    }

    /// The scale at a whole zoom level, which needs no width from outside;
    /// `None` between whole levels.
    pub fn exact(zoom: Zoom) -> (r: Option<Scale>)
        requires
            zoom.wf(),
        ensures
            r is Some <==> zoom.is_whole(),
            r matches Some(s) ==> s.wf() && s.zoom() == zoom && s@ == whole_level_pixels(
                (zoom@ / ZOOM_STEP as int) as nat,
            ),
    {
        if zoom.level() % 1000 == 0 {
            let width: u64 = crate::zoom::total_pixels(zoom.floor());
            Some(Scale { zoom, total_pixels: width })
        } else {
            None
        }
    }

    /// The zoom that the scale belongs to.
    #[verifier::when_used_as_spec(spec_zoom)]
    pub fn zoom(&self) -> (r: Zoom)
        ensures
            r == self.zoom(),
    {
        self.zoom
    }

    /// The width of the whole map in pixels.
    pub fn total_pixels(&self) -> (r: u64)
        requires
            self.wf(),
        ensures
            r == self@,
            TILE_SIZE <= r <= MAX_TOTAL_PIXELS,
    {
        proof {
            self.lemma_bounds();
        }
        self.total_pixels
    }

    /// A valid scale is at least `TILE_SIZE` and at most `MAX_TOTAL_PIXELS`
    /// wide, and at a whole level it is exactly the width of that level.
    pub proof fn lemma_bounds(self)
        requires
            self.wf(),
        ensures
            TILE_SIZE <= self@ <= MAX_TOTAL_PIXELS,
            self.zoom().is_whole() ==> self@ == whole_level_pixels(
                (self.zoom()@ / ZOOM_STEP as int) as nat,
            ),
    {
        let level = self.zoom()@;
        lemma_whole_level_bounds((level / ZOOM_STEP as int) as nat);
        lemma_whole_level_bounds(((level + ZOOM_STEP - 1) / ZOOM_STEP as int) as nat);
    }
}

} // verus!
