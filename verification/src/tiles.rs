//! Tile identifiers and tile addressing.
//!
//! At tile zoom `z` the world is a grid of `2^z` by `2^z` tiles. The tile that
//! holds a position is found from the position's share of the world alone.
//! Sources whose tiles are larger than `TILE_SIZE` show at the display's zoom
//! what sources with tiles of `TILE_SIZE` show some levels lower.

use crate::fixed::{
    floor_div, lemma_div_of_multiple, lemma_floor_bounds, power_of_two, wide_product, PIXEL_UNIT,
};
use crate::units::{lemma_projection_in_reach, Position, WORLD_SIZE};
use crate::zoom::{lemma_whole_level_bounds, whole_level_pixels, MAX_ZOOM_LEVEL, TILE_SIZE};
use vstd::arithmetic::logarithm::{lemma_log_pow, log};
use vstd::arithmetic::power2::{
    lemma2_to64, lemma_pow2, lemma_pow2_pos, lemma_pow2_strictly_increases, lemma_pow2_unfold,
    pow2,
};
use vstd::prelude::*;

verus! {

/// One tile of the tile pyramid: at `zoom` the map is a grid of `2^zoom` by
/// `2^zoom` tiles, and `x` and `y` count columns from the west and rows from
/// the north.
#[derive(Clone, Copy, Debug, PartialEq, Eq, Hash, Structural)]
pub struct TileId {
    pub x: u32,
    pub y: u32,
    pub zoom: u8,
}

/// The tile column or row that holds a coordinate of the global map at a
/// whole zoom level: the coordinate's share of the world times the number of
/// tiles, rounded down. A coordinate on a tile boundary belongs to the tile
/// that starts there. Coordinates outside the world are clamped to the first
/// or the last tile.
pub open spec fn tile_index(coordinate: int, zoom: nat) -> int {
    let raw = (coordinate * pow2(zoom)) / (WORLD_SIZE as int);
    if raw < 0 {
        0
    } else if raw >= pow2(zoom) {
        pow2(zoom) - 1
    } else {
        raw
    }
}

/// The number of zoom levels by which a source with tiles `source_tile_size`
/// pixels wide lags behind the display: the base-two logarithm of the size
/// over `TILE_SIZE`.
pub open spec fn zoom_adjustment(source_tile_size: int) -> nat {
    log(2, source_tile_size / (TILE_SIZE as int)) as nat
}

/// Whether a source tile size is `TILE_SIZE` times a power of two, so that the
/// logarithm in `zoom_adjustment` is exact.
pub open spec fn valid_tile_size(source_tile_size: int) -> bool {
    source_tile_size == TILE_SIZE * pow2(zoom_adjustment(source_tile_size))
}

/// The zoom adjustment for a source tile size, or `None` for a size that is
/// not `TILE_SIZE` times a power of two.
pub fn tile_zoom_adjustment(source_tile_size: u32) -> (r: Option<u8>)
    ensures
        r is Some <==> valid_tile_size(source_tile_size as int),
        r matches Some(k) ==> k == zoom_adjustment(source_tile_size as int) && k <= 23,
{
    let mut k: u8 = 0;
    let mut candidate: u64 = 256;
    proof {
        lemma2_to64();
    }
    while candidate < source_tile_size as u64
        invariant
            k <= 24,
            candidate == TILE_SIZE * pow2(k as nat),
            k == 24 ==> candidate > source_tile_size,
            k > 0 ==> TILE_SIZE * pow2((k - 1) as nat) < source_tile_size,
        decreases 24 - k,
    {
        proof {
            lemma_pow2_unfold((k + 1) as nat);
            lemma2_to64();
            if k < 23 {
                lemma_pow2_strictly_increases((k + 1) as nat, 24);
            }
        }
        candidate = candidate * 2;
        k = k + 1;
    }
    if candidate == source_tile_size as u64 {
        proof {
            lemma_exact_adjustment(k as nat);
        }
        Some(k)
    } else {
        proof {
            // A valid size is one of the candidates, and the loop has passed
            // every candidate below this one.
            let a = zoom_adjustment(source_tile_size as int);
            if valid_tile_size(source_tile_size as int) {
                if a >= k {
                    if a > k {
                        lemma_pow2_strictly_increases(k as nat, a);
                    }
                    assert(TILE_SIZE * pow2(a) >= TILE_SIZE * pow2(k as nat)) by (nonlinear_arith)
                        requires
                            pow2(a) >= pow2(k as nat),
                    ;
                } else {
                    if a < k - 1 {
                        lemma_pow2_strictly_increases(a, (k - 1) as nat);
                    }
                    assert(TILE_SIZE * pow2(a) <= TILE_SIZE * pow2((k - 1) as nat))
                        by (nonlinear_arith)
                        requires
                            pow2(a) <= pow2((k - 1) as nat),
                    ;
                }
            }
        }
        None
    }
}

/// The zoom adjustment of `TILE_SIZE * 2^k` is `k`, and that size is valid.
pub proof fn lemma_exact_adjustment(k: nat)
    ensures
        zoom_adjustment(TILE_SIZE * pow2(k)) == k,
        valid_tile_size(TILE_SIZE * pow2(k)),
{
    lemma_div_of_multiple(pow2(k) as int, TILE_SIZE as int);
    assert(TILE_SIZE * pow2(k) == pow2(k) * TILE_SIZE) by (nonlinear_arith);
    lemma_log_pow(2, k);
    lemma_pow2(k);
}

impl Position {
    /// The tile of a source that holds the position when the display is at
    /// the whole level `zoom`. A source with larger tiles than `TILE_SIZE`
    /// covers the same ground at a lower level of its own, which is the zoom
    /// of the tile returned.
    pub fn tile_id(&self, zoom: u8, source_tile_size: u32) -> (r: TileId)
        requires
            valid_tile_size(source_tile_size as int),
            zoom_adjustment(source_tile_size as int) <= zoom,
            zoom - zoom_adjustment(source_tile_size as int) <= 32,
        ensures
            r.zoom == zoom - zoom_adjustment(source_tile_size as int),
            r.x == tile_index(self.x as int, r.zoom as nat),
            r.y == tile_index(self.y as int, r.zoom as nat),
            r.x < pow2(r.zoom as nat),
            r.y < pow2(r.zoom as nat),
    {
        let adjustment: u8 = match tile_zoom_adjustment(source_tile_size) {
            Some(k) => k,
            // Not reached: the size is valid.
            None => 0,
        };
        let tile_zoom: u8 = zoom - adjustment;
        TileId {
            x: tile_coordinate(self.x, tile_zoom),
            y: tile_coordinate(self.y, tile_zoom),
            zoom: tile_zoom,
        }
    }
}

/// The tile column or row of a coordinate at the tile zoom `zoom`.
fn tile_coordinate(coordinate: i64, zoom: u8) -> (r: u32)
    requires
        zoom <= 32,
    ensures
        r == tile_index(coordinate as int, zoom as nat),
        r < pow2(zoom as nat),
{
    proof {
        lemma2_to64();
        if zoom < 32 {
            lemma_pow2_strictly_increases(zoom as nat, 32);
        }
        lemma_pow2_pos(zoom as nat);
    }
    let tiles: u64 = power_of_two(zoom);
    let raw: i128 = floor_div(wide_product(coordinate, tiles as i64), 0x1_0000_0000);
    if raw < 0 {
        0
    } else if raw >= tiles as i128 {
        (tiles - 1) as u32
    } else {
        raw as u32
    }
}

/// Tile addressing and projection agree. At a whole zoom level, the tile that
/// holds a position of the world is the one that holds its pixel on the
/// bitmap of the whole world, which is made of tiles `TILE_SIZE` pixels wide.
pub proof fn lemma_tile_matches_projection(p: Position, zoom: nat)
    requires
        zoom <= MAX_ZOOM_LEVEL,
        0 <= p.x < WORLD_SIZE,
        0 <= p.y < WORLD_SIZE,
    ensures
        tile_index(p.x as int, zoom) == p.global_projected(
            whole_level_pixels(zoom),
        ).x as int / (TILE_SIZE * PIXEL_UNIT),
        tile_index(p.y as int, zoom) == p.global_projected(
            whole_level_pixels(zoom),
        ).y as int / (TILE_SIZE * PIXEL_UNIT),
{
    let tiles = pow2(zoom) as int;
    let width = whole_level_pixels(zoom);
    lemma_whole_level_bounds(zoom);
    lemma_projection_in_reach(p, width);
    lemma_tile_of_pixel(p.x as int, tiles);
    lemma_tile_of_pixel(p.y as int, tiles);
}

/// Within the world, the share of a coordinate in the number of tiles is the
/// share of its pixel in the size of a tile, and it is one of the tiles.
proof fn lemma_tile_of_pixel(c: int, tiles: int)
    requires
        0 <= c < WORLD_SIZE,
        tiles >= 1,
    ensures
        0 <= (c * tiles) / (WORLD_SIZE as int) < tiles,
        (c * tiles) / (WORLD_SIZE as int) == (c * (TILE_SIZE * tiles)) / (TILE_SIZE * PIXEL_UNIT),
{
    let world = WORLD_SIZE as int;
    vstd::arithmetic::div_mod::lemma_div_multiples_vanish_quotient(256, c * tiles, world);
    assert(256 * (c * tiles) == c * (TILE_SIZE * tiles)) by (nonlinear_arith);
    assert(0 <= c * tiles < world * tiles) by (nonlinear_arith)
        requires
            0 <= c < world,
            tiles >= 1,
    ;
    lemma_floor_bounds(c * tiles, world);
    let q = (c * tiles) / world;
    assert(0 <= q < tiles) by (nonlinear_arith)
        requires
            q * world <= c * tiles < q * world + world,
            0 <= c * tiles < world * tiles,
            world > 0,
    ;
}

} // verus!
