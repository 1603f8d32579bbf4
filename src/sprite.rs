//! Which sprite shows which kind of tile.

use vstd::prelude::*;

verus! {

/// Tile value of water.
pub const WATER_TILE_VALUE: u8 = 0;

/// Tile value of the first kind of sand.
pub const FIRST_SAND_TILE_VALUE: u8 = 1;

/// Tile value of the second kind of sand.
pub const SECOND_SAND_TILE_VALUE: u8 = 2;

/// Tile value of a palm tree.
pub const TREE_TILE_VALUE: u8 = 3;

/// Index of the water sprite in the sprite table.
pub const WATER_SPRITE_INDEX: u8 = 10;

/// Index of the sand sprite in the sprite table.
pub const SAND_SPRITE_INDEX: u8 = 0;

/// Index of the palm tree sprite in the sprite table.
pub const TREE_SPRITE_INDEX: u8 = 8;

/// The sprite of each known tile value.
pub open spec fn sprite_index_spec(tile_value: u8) -> u8 {
    if tile_value == WATER_TILE_VALUE {
        WATER_SPRITE_INDEX
    } else if tile_value == FIRST_SAND_TILE_VALUE || tile_value == SECOND_SAND_TILE_VALUE {
        SAND_SPRITE_INDEX
    } else {
        TREE_SPRITE_INDEX
    }
}

/// The index in the sprite table of the sprite that shows a tile value.
/// Only the values of water, sand and palm tree have a sprite.
pub fn get_sprite_index_from_tile_value(tile_value: u8) -> (r: u8)
    requires
        tile_value <= TREE_TILE_VALUE,
    ensures
        r == sprite_index_spec(tile_value),
{
    match tile_value {
        WATER_TILE_VALUE => WATER_SPRITE_INDEX,
        FIRST_SAND_TILE_VALUE | SECOND_SAND_TILE_VALUE => SAND_SPRITE_INDEX,
        _ => TREE_SPRITE_INDEX,
    }
}

} // verus!
