//! Unit tests of the occlusion tile bookkeeping.

use anim_machine::occlusion::{resolve_visibility, Tile, TileBuffer, MAX_TILE_OBJECTS};

#[test]
fn tiles_fill_up_and_then_ignore() {
    let mut tile = Tile::new();
    assert_eq!(tile.count, 0);
    tile.add(5);
    tile.add(9);
    assert_eq!(tile.count, 2);
    assert_eq!(tile.objects[0], 5);
    assert_eq!(tile.objects[1], 9);
    for i in 0..MAX_TILE_OBJECTS as u32 {
        tile.add(i);
    }
    assert_eq!(tile.count, MAX_TILE_OBJECTS as u32);
    let full = tile;
    tile.add(77);
    assert_eq!(tile, full);
}

#[test]
fn tile_buffer_clears_counts() {
    let mut buffer = TileBuffer::new(3, 2);
    assert_eq!(buffer.tiles.len(), 6);
    buffer.tiles[4].add(1);
    buffer.tiles[4].add(2);
    assert_eq!(buffer.tiles[4].count, 2);
    buffer.clear();
    assert!(buffer.tiles.iter().all(|t| t.count == 0));
    // Stale slots stay but the count makes them unreachable.
    assert_eq!(buffer.tiles[4].objects[0], 1);
}

#[test]
fn visibility_resolves_from_mask_bits() {
    // One row of two tiles. Tile (0,0) lists objects 0 and 1; tile (0,1)
    // lists object 2. The mask row is mirrored vertically, but with a
    // single row that is the identity.
    let mut buffer = TileBuffer::new(2, 1);
    buffer.tiles[0].add(0);
    buffer.tiles[0].add(1);
    buffer.tiles[1].add(2);
    // In tile 0 only bit 1 (the second object) is set; in tile 1 bit 0.
    let masks = vec![0b10u32, 0b01u32];
    let visible = resolve_visibility(&buffer, &masks, 2, 1, 3);
    assert_eq!(visible, vec![false, true, true]);
}

#[test]
fn visibility_rows_are_mirrored() {
    // Two rows, one column. Tile row 0 lists object 0, tile row 1 lists
    // object 1. The mask buffer is bottom-up: its first word belongs to
    // tile row 1, its second to tile row 0.
    let mut buffer = TileBuffer::new(1, 2);
    buffer.tiles[0].add(0);
    buffer.tiles[1].add(1);
    let masks_bottom_row_seen = vec![0b1u32, 0b0u32];
    let visible = resolve_visibility(&buffer, &masks_bottom_row_seen, 1, 2, 2);
    assert_eq!(visible, vec![false, true]);

    let masks_top_row_seen = vec![0b0u32, 0b1u32];
    let visible = resolve_visibility(&buffer, &masks_top_row_seen, 1, 2, 2);
    assert_eq!(visible, vec![true, false]);
}

#[test]
fn visibility_with_no_tiles_sees_nothing() {
    let buffer = TileBuffer::new(0, 0);
    let visible = resolve_visibility(&buffer, &Vec::new(), 0, 0, 4);
    assert_eq!(visible, vec![false, false, false, false]);
}
