//! Tile coordinates and their mapping to world (pixel) positions.

use vstd::prelude::*;

verus! {

/// Width and height of one sprite in the sheet, in pixels.
pub const SPRITE_DIM: i64 = 16;

/// Integer scale factor applied to every sprite.
pub const SPRITE_SCALE: i64 = 6;

/// World pixels spanned by one tile: the sprite size times the scale.
pub const PIXELS_PER_TILE: i64 = SPRITE_SCALE * SPRITE_DIM;

/// Integer grid position of a tile or sprite. `z` orders drawing depth.
#[derive(Clone, Copy, PartialEq, Eq, Structural, Hash, Debug)]
pub struct TileCoordinate {
    pub x: i32,
    pub y: i32,
    pub z: i32,
}

/// World-space position in whole pixels.
#[derive(Clone, Copy, PartialEq, Eq, Structural, Debug)]
pub struct WorldPosition {
    pub x: i64,
    pub y: i64,
    pub z: i64,
}

/// Two coordinates name the same cell when they agree on `x` and `y`;
/// depth does not matter for gameplay.
pub open spec fn same_cell(a: TileCoordinate, b: TileCoordinate) -> bool {
    a.x == b.x && a.y == b.y
}

impl TileCoordinate {
    /// Equality on the playing plane only: `z` is ignored.
    pub fn eq2d(&self, other: &TileCoordinate) -> (r: bool)
        ensures
            r == same_cell(*self, *other),
    {
        self.x == other.x && self.y == other.y
    }

    /// World position of the tile: `x` and `y` are stretched by the
    /// pixel span of a tile, depth is carried over unchanged.
    pub fn world_position(&self) -> (p: WorldPosition)
        ensures
            p.x == PIXELS_PER_TILE * self.x,
            p.y == PIXELS_PER_TILE * self.y,
            p.z == self.z as i64,
    {
        WorldPosition {
            x: PIXELS_PER_TILE * (self.x as i64),
            y: PIXELS_PER_TILE * (self.y as i64),
            z: self.z as i64,
        }
    }
}

impl Default for TileCoordinate {
    /// The origin cell at depth zero.
    fn default() -> (c: Self)
        ensures
            c.x == 0 && c.y == 0 && c.z == 0,
    {
        TileCoordinate { x: 0, y: 0, z: 0 }
    }
}

} // verus!
