//! CPU side of tile-based occlusion testing.
//!
//! The screen is cut into tiles; each tile holds the indices of up to
//! [`MAX_TILE_OBJECTS`] objects whose screen rectangle touches it. After the
//! GPU writes one bit mask per tile — bit `b` set when the tile's `b`-th
//! object was seen — the mask buffer (stored bottom-up, so rows are
//! mirrored) is folded back into one visibility flag per object. Drawing
//! and reading the masks is the graphics backend's work; the bookkeeping
//! around them is verified here.

use vstd::prelude::*;

verus! {

/// One visibility bit per tile object: as many as a mask word has bits.
pub const MAX_TILE_OBJECTS: usize = 32;

/// Objects whose rectangles touch one tile, capped at the mask width; a
/// full tile silently ignores further objects.
#[derive(Clone, Copy, Debug, PartialEq, Eq)]
pub struct Tile {
    pub count: u32,
    pub objects: [u32; MAX_TILE_OBJECTS],
}

impl Tile {
    /// An empty tile.
    pub fn new() -> (r: Tile)
        ensures
            r.count == 0,
            r.objects@ =~= Seq::new(MAX_TILE_OBJECTS as nat, |i: int| 0u32),
    {
        Tile { count: 0, objects: [0; MAX_TILE_OBJECTS] }
    }

    /// Appends an object index, unless the tile is already full.
    pub fn add(&mut self, index: u32)
        requires
            old(self).count <= MAX_TILE_OBJECTS,
        ensures
            old(self).count < MAX_TILE_OBJECTS ==> {
                &&& final(self).count == old(self).count + 1
                &&& final(self).objects@ == old(self).objects@.update(
                    old(self).count as int,
                    index,
                )
            },
            old(self).count == MAX_TILE_OBJECTS ==> *final(self) == *old(self),
    {
        let count = self.count as usize;
        if count < MAX_TILE_OBJECTS {
            self.objects[count] = index;
            self.count = self.count + 1;
        }
    }
}

/// The tiles of one frame, row-major.
#[derive(Debug, PartialEq)]
pub struct TileBuffer {
    pub tiles: Vec<Tile>,
}

impl TileBuffer {
    /// `width * height` empty tiles.
    pub fn new(width: usize, height: usize) -> (r: TileBuffer)
        requires
            width * height <= usize::MAX,
        ensures
            r.tiles@.len() == width * height,
            forall|i: int| 0 <= i < r.tiles@.len() ==> #[trigger] r.tiles@[i].count == 0,
    {
        let n = width * height;
        let mut tiles: Vec<Tile> = Vec::new();
        let mut i: usize = 0;
        #[verifier::loop_isolation(false)]
        while i < n
            invariant
                i <= n,
                tiles@.len() == i,
                forall|j: int| 0 <= j < i ==> #[trigger] tiles@[j].count == 0,
            decreases n - i,
        {
            tiles.push(Tile::new());
            i = i + 1;
        }
        TileBuffer { tiles }
    }

    /// Empties every tile; the object slots keep their stale values, which
    /// the count makes unreachable.
    pub fn clear(&mut self)
        ensures
            final(self).tiles@.len() == old(self).tiles@.len(),
            forall|i: int|
                #![trigger final(self).tiles@[i]]
                0 <= i < final(self).tiles@.len() ==> {
                    &&& final(self).tiles@[i].count == 0
                    &&& final(self).tiles@[i].objects == old(self).tiles@[i].objects
                },
    {
        let n = self.tiles.len();
        let mut i: usize = 0;
        #[verifier::loop_isolation(false)]
        while i < n
            invariant
                i <= n,
                n == self.tiles@.len(),
                forall|j: int|
                    #![trigger self.tiles@[j]]
                    0 <= j < i ==> self.tiles@[j].count == 0 && self.tiles@[j].objects == old(
                        self,
                    ).tiles@[j].objects,
                forall|j: int| i <= j < n ==> #[trigger] self.tiles@[j] == old(self).tiles@[j],
            decreases n - i,
        {
            let mut t = self.tiles[i];
            t.count = 0;
            self.tiles.set(i, t);
            i = i + 1;
        }
    }
}

/// Whether bit `b` of a tile's mask word is set, exactly as the resolver
/// tests it.
pub open spec fn mask_bit_set(bits: u32, b: int) -> bool {
    bits & (1u32 << (b as u32)) == (1u32 << (b as u32))
}

/// Whether one of the first `k` objects of the tile at `(y, x)` is `obj`
/// with its mask bit set. The mask buffer stores rows bottom-up, so the
/// word of tile row `y` sits in buffer row `h - 1 - y`.
pub open spec fn cell_prefix_visible(
    tiles: Seq<Tile>,
    masks: Seq<u32>,
    w: int,
    h: int,
    y: int,
    x: int,
    k: int,
    obj: int,
) -> bool {
    exists|b: int|
        0 <= b < k && b < tiles[y * w + x].count && #[trigger] tiles[y * w + x].objects@[b] == obj
            && mask_bit_set(masks[(h - 1 - y) * w + x], b)
}

/// Whether the tile at `(y, x)` marks `obj` visible.
pub open spec fn cell_visible(
    tiles: Seq<Tile>,
    masks: Seq<u32>,
    w: int,
    h: int,
    y: int,
    x: int,
    obj: int,
) -> bool {
    cell_prefix_visible(tiles, masks, w, h, y, x, tiles[y * w + x].count as int, obj)
}

/// Whether a cell strictly before `(y_lim, x_lim)` in row-major order marks
/// `obj` visible.
pub open spec fn visible_before(
    tiles: Seq<Tile>,
    masks: Seq<u32>,
    w: int,
    h: int,
    y_lim: int,
    x_lim: int,
    obj: int,
) -> bool {
    exists|y: int, x: int|
        0 <= y < h && 0 <= x < w && (y < y_lim || (y == y_lim && x < x_lim))
            && #[trigger] cell_visible(tiles, masks, w, h, y, x, obj)
}

/// Whether any tile marks `obj` visible.
pub open spec fn spec_visible(tiles: Seq<Tile>, masks: Seq<u32>, w: int, h: int, obj: int) -> bool {
    visible_before(tiles, masks, w, h, h, 0, obj)
}

/// Folds the GPU's per-tile mask words back into one flag per object:
/// object `obj` is visible exactly when some tile lists it at a position
/// whose mask bit is set.
pub fn resolve_visibility(
    tiles: &TileBuffer,
    masks: &Vec<u32>,
    w_tiles: usize,
    h_tiles: usize,
    n_objects: usize,
) -> (r: Vec<bool>)
    requires
        tiles.tiles@.len() == w_tiles * h_tiles,
        masks@.len() == w_tiles * h_tiles,
        forall|i: int|
            0 <= i < tiles.tiles@.len() ==> #[trigger] tiles.tiles@[i].count <= MAX_TILE_OBJECTS,
        forall|i: int, b: int|
            0 <= i < tiles.tiles@.len() && 0 <= b < tiles.tiles@[i].count
                ==> #[trigger] tiles.tiles@[i].objects@[b] < n_objects,
    ensures
        r@.len() == n_objects,
        forall|obj: int|
            0 <= obj < n_objects ==> r@[obj] == spec_visible(
                tiles.tiles@,
                masks@,
                w_tiles as int,
                h_tiles as int,
                obj,
            ),
{
    let ghost ts = tiles.tiles@;
    let ghost ms = masks@;
    let ghost w = w_tiles as int;
    let ghost h = h_tiles as int;
    let _total = tiles.tiles.len();
    let mut r: Vec<bool> = Vec::new();
    let mut i: usize = 0;
    #[verifier::loop_isolation(false)]
    while i < n_objects
        invariant
            i <= n_objects,
            r@.len() == i,
            forall|j: int| 0 <= j < i ==> !(#[trigger] r@[j]),
        decreases n_objects - i,
    {
        r.push(false);
        i = i + 1;
    }
    let mut y: usize = 0;
    #[verifier::loop_isolation(false)]
    while y < h_tiles
        invariant
            y <= h_tiles,
            r@.len() == n_objects,
            forall|obj: int|
                0 <= obj < n_objects ==> r@[obj] == visible_before(ts, ms, w, h, y as int, 0, obj),
        decreases h_tiles - y,
    {
        let mut x: usize = 0;
        #[verifier::loop_isolation(false)]
        while x < w_tiles
            invariant
                x <= w_tiles,
                y < h_tiles,
                r@.len() == n_objects,
                forall|obj: int|
                    0 <= obj < n_objects ==> r@[obj] == visible_before(
                        ts,
                        ms,
                        w,
                        h,
                        y as int,
                        x as int,
                        obj,
                    ),
            decreases w_tiles - x,
        {
            proof {
                assert((y as int) * w + (x as int) < w * h && 0 <= (y as int) * w) by (
                nonlinear_arith)
                    requires
                        0 <= (y as int) && (y as int) < h,
                        0 <= (x as int) && (x as int) < w,
                ;
                assert((h - 1 - (y as int)) * w + (x as int) < w * h && 0 <= (h - 1 - (y as int))
                    * w) by (nonlinear_arith)
                    requires
                        0 <= (y as int) && (y as int) < h,
                        0 <= (x as int) && (x as int) < w,
                ;
                assert(w * h == ts.len());
                assert(ts.len() <= usize::MAX);
            }
            let tile_index = y * w_tiles + x;
            let mask_index = (h_tiles - 1 - y) * w_tiles + x;
            let tile = tiles.tiles[tile_index];
            let bits = masks[mask_index];
            let count = tile.count as usize;
            let mut k: usize = 0;
            #[verifier::loop_isolation(false)]
            while k < count
                invariant
                    k <= count,
                    count == tile.count,
                    tile == ts[(y as int) * w + x],
                    bits == ms[(h - 1 - y) * w + x],
                    y < h_tiles,
                    x < w_tiles,
                    r@.len() == n_objects,
                    forall|obj: int|
                        0 <= obj < n_objects ==> r@[obj] == (visible_before(
                            ts,
                            ms,
                            w,
                            h,
                            y as int,
                            x as int,
                            obj,
                        ) || cell_prefix_visible(ts, ms, w, h, y as int, x as int, k as int, obj)),
                decreases count - k,
            {
                let object_index = tile.objects[k];
                let mask = 1u32 << (k as u32);
                let is_visible = (bits & mask) == mask;
                let ghost r_before = r@;
                if is_visible {
                    r.set(object_index as usize, true);
                }
                proof {
                    assert forall|obj: int| 0 <= obj < n_objects implies r@[obj] == (
                    visible_before(ts, ms, w, h, y as int, x as int, obj)
                        || cell_prefix_visible(
                        ts,
                        ms,
                        w,
                        h,
                        y as int,
                        x as int,
                        k + 1,
                        obj,
                    )) by {
                        if is_visible && obj == object_index as int {
                            assert(tile.objects@[k as int] == object_index);
                            assert(mask_bit_set(ms[(h - 1 - y) * w + x], k as int));
                            assert(cell_prefix_visible(
                                ts,
                                ms,
                                w,
                                h,
                                y as int,
                                x as int,
                                k + 1,
                                obj,
                            ));
                        } else {
                            assert(r@[obj] == r_before[obj]);
                            assert(cell_prefix_visible(ts, ms, w, h, y as int, x as int, k + 1, obj)
                                == (cell_prefix_visible(ts, ms, w, h, y as int, x as int, k as int, obj)
                                || (tile.objects@[k as int] == obj && mask_bit_set(
                                ms[(h - 1 - y) * w + x],
                                k as int,
                            ))));
                        }
                    }
                }
                k = k + 1;
            }
            proof {
                assert forall|obj: int| 0 <= obj < n_objects implies r@[obj] == visible_before(
                    ts,
                    ms,
                    w,
                    h,
                    y as int,
                    (x + 1) as int,
                    obj,
                ) by {
                    assert(cell_prefix_visible(
                        ts,
                        ms,
                        w,
                        h,
                        y as int,
                        x as int,
                        ts[(y as int) * w + x].count as int,
                        obj,
                    ) == cell_visible(ts, ms, w, h, y as int, x as int, obj));
                    if visible_before(ts, ms, w, h, y as int, (x + 1) as int, obj) {
                        let (yw, xw) = choose|yw: int, xw: int|
                            0 <= yw < h && 0 <= xw < w && (yw < y as int || (yw == y as int && xw
                                < x + 1)) && #[trigger] cell_visible(ts, ms, w, h, yw, xw, obj);
                        if yw < y as int || (yw == y as int && xw < x as int) {
                            assert(visible_before(ts, ms, w, h, y as int, x as int, obj));
                        } else {
                            assert(yw == y as int && xw == x as int);
                            assert(cell_visible(ts, ms, w, h, y as int, x as int, obj));
                        }
                    }
                    if visible_before(ts, ms, w, h, y as int, x as int, obj) {
                        assert(visible_before(ts, ms, w, h, y as int, (x + 1) as int, obj));
                    }
                    if cell_visible(ts, ms, w, h, y as int, x as int, obj) {
                        assert(visible_before(ts, ms, w, h, y as int, (x + 1) as int, obj));
                    }
                }
            }
            x = x + 1;
        }
        proof {
            assert forall|obj: int| 0 <= obj < n_objects implies r@[obj] == visible_before(
                ts,
                ms,
                w,
                h,
                (y + 1) as int,
                0,
                obj,
            ) by {
                if visible_before(ts, ms, w, h, (y + 1) as int, 0, obj) {
                    let (yw, xw) = choose|yw: int, xw: int|
                        0 <= yw < h && 0 <= xw < w && (yw < y + 1 || (yw == y + 1 && xw < 0))
                            && #[trigger] cell_visible(ts, ms, w, h, yw, xw, obj);
                    assert(yw < y as int || (yw == y as int && xw < w));
                    assert(visible_before(ts, ms, w, h, y as int, w_tiles as int, obj));
                }
                if visible_before(ts, ms, w, h, y as int, w_tiles as int, obj) {
                    assert(visible_before(ts, ms, w, h, (y + 1) as int, 0, obj));
                }
            }
        }
        y = y + 1;
    }
    r
}

} // verus!
