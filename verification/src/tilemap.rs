//! Tiles of a 2D tile map.

use vstd::prelude::*;

verus! {

/// An integer cell coordinate of the map.
#[derive(Clone, Copy, Debug, PartialEq, Eq, Structural)]
pub struct TilePosition {
    pub x: i32,
    pub y: i32,
}

/// One tile: where it sits and which definition of the tile set it draws.
#[derive(Clone, Copy, Debug, PartialEq, Eq, Structural, Default)]
pub struct Tile {
    pub position: TilePosition,
    pub definition_index: usize,
}

impl Default for TilePosition {
    /// The origin cell.
    fn default() -> (r: TilePosition)
        ensures
            r == (TilePosition { x: 0, y: 0 }),
    {
        TilePosition { x: 0, y: 0 }
    }
}

impl Tile {
    /// A tile at `position` drawing definition `definition_index`.
    pub fn new(position: TilePosition, definition_index: usize) -> (r: Tile)
        ensures
            r == (Tile { position, definition_index }),
    {
        Tile { position, definition_index }
    }
}

} // verus!
