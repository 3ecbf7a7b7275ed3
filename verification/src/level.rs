//! The tile-based level: a rectangular grid of tiles, the loader that
//! produces the built-in layout, and the placement arithmetic that maps
//! grid cells to world translations.

use vstd::prelude::*;

use crate::geometry::{coord_ok, Vec2i, COORD_LIMIT};

verus! {

/// A cell address in the level grid.
pub struct Coordinate {
    x: u32,
    y: u32,
}

impl Coordinate {
    pub closed spec fn spec_x(self) -> u32 {
        self.x
    }

    pub closed spec fn spec_y(self) -> u32 {
        self.y
    }

    pub fn new(x: u32, y: u32) -> (c: Self)
        ensures
            c.spec_x() == x,
            c.spec_y() == y,
    {
        Coordinate { x, y }
    }
}

/// One tile of the level grid.
#[derive(Clone, Copy, Debug, PartialEq, Eq, Hash, Structural)]
pub enum Tile {
    FLOOR,
    EMPTY,
    GROUND,
}

impl Tile {
    /// Only the ground blocks movement.
    pub fn is_solid(self) -> (r: bool)
        ensures
            r == (self is GROUND),
    {
        matches!(self, Tile::GROUND)
    }
}

/// A rectangular grid of tiles with `rows` rows and `cols` columns.
#[derive(Clone)]
pub struct TileSet {
    pub tiles: Vec<Vec<Tile>>,
    pub rows: u32,
    pub cols: u32,
}

impl TileSet {
    /// The grid as a sequence of rows.
    pub open spec fn grid(self) -> Seq<Seq<Tile>> {
        Seq::new(self.tiles@.len() as nat, |i: int| self.tiles@[i]@)
    }

    /// The stored dimensions describe the grid exactly.
    pub open spec fn well_formed(self) -> bool {
        &&& self.grid().len() == self.rows as int
        &&& forall|i: int| 0 <= i < self.rows as int ==> (#[trigger] self.grid()[i]).len()
            == self.cols as int
    }

    /// A grid of the given dimensions in which every tile is empty.
    pub fn new_empty(rows: u32, cols: u32) -> (ts: Self)
        ensures
            ts.well_formed(),
            ts.rows == rows,
            ts.cols == cols,
            forall|i: int, j: int|
                0 <= i < rows as int && 0 <= j < cols as int ==> ts.grid()[i][j] == Tile::EMPTY,
    {
        let mut tiles: Vec<Vec<Tile>> = Vec::new();
        let mut i: u32 = 0;
        while i < rows
            invariant
                i <= rows,
                tiles@.len() == i as int,
                forall|k: int| 0 <= k < i as int ==> (#[trigger] tiles@[k])@.len() == cols as int,
                forall|k: int, j: int|
                    0 <= k < i as int && 0 <= j < cols as int ==> tiles@[k]@[j] == Tile::EMPTY,
            decreases rows - i,
        {
            let mut row: Vec<Tile> = Vec::new();
            let mut j: u32 = 0;
            while j < cols
                invariant
                    j <= cols,
                    row@.len() == j as int,
                    forall|k: int| 0 <= k < j as int ==> row@[k] == Tile::EMPTY,
                decreases cols - j,
            {
                row.push(Tile::EMPTY);
                j = j + 1;
            }
            tiles.push(row);
            i = i + 1;
        }
        TileSet { tiles, rows, cols }
    }

    /// Whether the cell address lies inside the grid.
    pub fn is_valid_tile(&self, row: u32, col: u32) -> (r: bool)
        ensures
            r == (row < self.rows && col < self.cols),
    {
        !(row >= self.rows || col >= self.cols)
    }

    /// Replace the tile at the given cell; out-of-range addresses leave
    /// the grid unchanged.
    pub fn set_tile(&mut self, row: u32, col: u32, new_tile: Tile)
        requires
            old(self).well_formed(),
        ensures
            final(self).well_formed(),
            final(self).rows == old(self).rows,
            final(self).cols == old(self).cols,
            row < old(self).rows && col < old(self).cols ==> final(self).grid() == old(
                self,
            ).grid().update(row as int, old(self).grid()[row as int].update(col as int, new_tile)),
            !(row < old(self).rows && col < old(self).cols) ==> final(self).grid() == old(
                self,
            ).grid(),
    {
        if self.is_valid_tile(row, col) {
            proof {
                assert(self.grid()[row as int].len() == self.cols as int);
            }
            let r = row as usize;
            let c = col as usize;
            let row_ref = &mut self.tiles[r];
            row_ref[c] = new_tile;
            proof {
                assert(self.grid() =~~= old(self).grid().update(
                    row as int,
                    old(self).grid()[row as int].update(col as int, new_tile),
                ));
            }
        } else {
            proof {
                assert(self.grid() =~~= old(self).grid());
            }
        }
    }

    /// Read the tile at the given cell, or `None` when the address is
    /// outside the grid.
    pub fn get_tile(&self, row: u32, col: u32) -> (r: Option<Tile>)
        requires
            self.well_formed(),
        ensures
            r == if row < self.rows && col < self.cols {
                Some(self.grid()[row as int][col as int])
            } else {
                Option::<Tile>::None
            },
    {
        if self.is_valid_tile(row, col) {
            proof {
                assert(self.grid()[row as int].len() == self.cols as int);
            }
            Some(self.tiles[row as usize][col as usize])
        } else {
            None
        }
    }
}

/// The tile of the built-in layout at the given cell: two open rows, a
/// few floating platforms, one full floor row, and ground at the bottom.
pub open spec fn default_layout_tile(row: int, col: int) -> Tile {
    if row == 2 && col == 7 {
        Tile::FLOOR
    } else if row == 3 && (col == 4 || col == 6 || col == 7) {
        Tile::FLOOR
    } else if row == 4 {
        Tile::FLOOR
    } else if row == 5 {
        Tile::GROUND
    } else {
        Tile::EMPTY
    }
}

pub const DEFAULT_LAYOUT_ROWS: u32 = 6;

pub const DEFAULT_LAYOUT_COLS: u32 = 10;

pub struct TileSetLoader;

impl TileSetLoader {
    /// Produce the built-in level layout; the path is accepted for the
    /// loader's interface but no external source is consulted.
    pub fn load_tile_set(_path: String) -> (r: Option<TileSet>)
        ensures
            r is Some,
            r->Some_0.well_formed(),
            r->Some_0.rows == DEFAULT_LAYOUT_ROWS,
            r->Some_0.cols == DEFAULT_LAYOUT_COLS,
            forall|i: int, j: int|
                0 <= i < DEFAULT_LAYOUT_ROWS as int && 0 <= j < DEFAULT_LAYOUT_COLS as int
                    ==> r->Some_0.grid()[i][j] == default_layout_tile(i, j),
    {
        let mut ts = TileSet::new_empty(DEFAULT_LAYOUT_ROWS, DEFAULT_LAYOUT_COLS);
        ts.set_tile(2, 7, Tile::FLOOR);
        ts.set_tile(3, 4, Tile::FLOOR);
        ts.set_tile(3, 6, Tile::FLOOR);
        ts.set_tile(3, 7, Tile::FLOOR);
        let mut col: u32 = 0;
        while col < DEFAULT_LAYOUT_COLS
            invariant
                col <= DEFAULT_LAYOUT_COLS,
                ts.well_formed(),
                ts.rows == DEFAULT_LAYOUT_ROWS,
                ts.cols == DEFAULT_LAYOUT_COLS,
                forall|i: int, j: int|
                    0 <= i < DEFAULT_LAYOUT_ROWS as int && 0 <= j < DEFAULT_LAYOUT_COLS as int && !(
                    i == 4 && j < col as int) && !(i == 5 && j < col as int)
                        ==> #[trigger] ts.grid()[i][j] == if i == 4 || i == 5 {
                        Tile::EMPTY
                    } else {
                        default_layout_tile(i, j)
                    },
                forall|i: int, j: int|
                    (i == 4 || i == 5) && 0 <= j < col as int ==> #[trigger] ts.grid()[i][j]
                        == default_layout_tile(i, j),
            decreases DEFAULT_LAYOUT_COLS - col,
        {
            ts.set_tile(4, col, Tile::FLOOR);
            ts.set_tile(5, col, Tile::GROUND);
            col = col + 1;
        }
        Some(ts)
    }
}

/// The bottom-left corner and extent of the playable area.
#[derive(Clone, Copy)]
pub struct Bounds {
    /// bottom left world coordinates
    pub position: Vec2i,
    /// width and height in world coordinates
    pub size: Vec2i,
}

impl Bounds {
    pub open spec fn wf(self) -> bool {
        self.position.wf() && self.size.wf_size()
    }

    /// Whether a point lies within the bounds, edges included.
    pub fn is_in_bounds(&self, x: i64, y: i64) -> (r: bool)
        requires
            self.wf(),
            coord_ok(x),
            coord_ok(y),
        ensures
            r == (self.position.x <= x <= self.position.x + self.size.x && self.position.y <= y
                <= self.position.y + self.size.y),
    {
        if x < self.position.x || x > self.position.x + self.size.x {
            false
        } else if y < self.position.y || y > self.position.y + self.size.y {
            false
        } else {
            true
        }
    }
}

/// World translation of the tile at the given grid cell: cells grow
/// rightward and upward from the bounds' corner in steps of `tile_size`.
pub fn tile_translation(grid_row: u32, grid_col: u32, bounds: &Bounds, tile_size: i64) -> (t: Vec2i)
    requires
        bounds.wf(),
        0 <= tile_size <= COORD_LIMIT,
        grid_row as int * tile_size <= COORD_LIMIT,
        grid_col as int * tile_size <= COORD_LIMIT,
    ensures
        t.x == grid_col as int * tile_size + bounds.position.x,
        t.y == grid_row as int * tile_size + bounds.position.y,
{
    let x = grid_col as i64 * tile_size + bounds.position.x;
    let y = grid_row as i64 * tile_size + bounds.position.y;
    Vec2i { x, y }
}

/// The grid is rendered bottom-up and right-to-left: the cell drawn for
/// index `index` counted from one end is the mirrored index from the
/// other.
pub fn flipped_cell(extent: u32, index: u32) -> (r: u32)
    requires
        index < extent,
    ensures
        r == extent - 1 - index,
{
    extent - 1 - index
}

} // verus!
