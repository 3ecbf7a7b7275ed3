//! Wave layouts: a whitespace-delimited grid of single-character tokens,
//! lower-cased, row-major, where `a`, `r` and `z` name the archetype that
//! spawns at the cell and `#` leaves it empty. This module parses the
//! text, plans the spawns of a wave, and places each grid cell in the
//! world.

use vstd::prelude::*;
use vstd::string::StrSliceExecFns;

use crate::aliens::{
    AlienKind, ALIEN_ALIEN_GAP_X, ALIEN_ALIEN_GAP_Y, ALIEN_ODD_ROW_OFFSET, ALIEN_WALL_GAP_X,
    ALIEN_WALL_GAP_Y, ARIS_HEIGHT, ARIS_WIDTH,
};
use crate::geometry::Vec2i;
use crate::rng::random_below;
use crate::shared::{BOTTOM_WALL, LEFT_WALL, TOP_WALL, UNIT, WINDOW_HEIGHT, WINDOW_WIDTH};

verus! {

/// The whitespace that separates layout rows: the ASCII whitespace
/// characters.
pub open spec fn spec_is_ws(b: u8) -> bool {
    b == 32 || b == 9 || b == 10 || b == 11 || b == 12 || b == 13
}

fn is_ws(b: u8) -> (r: bool)
    ensures
        r == spec_is_ws(b),
{
    b == 32 || b == 9 || b == 10 || b == 11 || b == 12 || b == 13
}

/// ASCII lower-casing of one byte.
pub open spec fn spec_lower(b: u8) -> u8 {
    if 65 <= b <= 90 {
        (b + 32) as u8
    } else {
        b
    }
}

fn to_lower(b: u8) -> (r: u8)
    ensures
        r == spec_lower(b),
{
    if b >= 65 && b <= 90 {
        b + 32
    } else {
        b
    }
}

/// The tokens of `s` continued from a token read so far: maximal runs of
/// non-whitespace bytes, in order.
pub open spec fn spec_tokens_acc(s: Seq<u8>, cur: Seq<u8>) -> Seq<Seq<u8>>
    decreases s.len(),
{
    if s.len() == 0 {
        if cur.len() == 0 {
            Seq::empty()
        } else {
            seq![cur]
        }
    } else if spec_is_ws(s[0]) {
        (if cur.len() == 0 {
            Seq::<Seq<u8>>::empty()
        } else {
            seq![cur]
        }) + spec_tokens_acc(s.drop_first(), Seq::empty())
    } else {
        spec_tokens_acc(s.drop_first(), cur.push(s[0]))
    }
}

/// The whitespace-separated tokens of `s`.
pub open spec fn spec_tokens(s: Seq<u8>) -> Seq<Seq<u8>> {
    spec_tokens_acc(s, Seq::empty())
}

/// A sequence of byte rows, seen abstractly.
pub open spec fn rows_view(v: Seq<Vec<u8>>) -> Seq<Seq<u8>> {
    Seq::new(v.len(), |i: int| v[i]@)
}

/// Split a text into its whitespace-separated tokens.
pub fn split_whitespace_tokens(data: &[u8]) -> (tokens: Vec<Vec<u8>>)
    ensures
        rows_view(tokens@) == spec_tokens(data@),
{
    let mut out: Vec<Vec<u8>> = Vec::new();
    let mut cur: Vec<u8> = Vec::new();
    let mut i: usize = 0;
    proof {
        assert(data@.skip(0) =~= data@);
        assert(rows_view(out@) =~= Seq::<Seq<u8>>::empty());
        assert(cur@ =~= Seq::<u8>::empty());
        assert(rows_view(out@) + spec_tokens_acc(data@.skip(0), cur@) =~= spec_tokens_acc(
            data@,
            Seq::empty(),
        ));
    }
    while i < data.len()
        invariant
            0 <= i <= data@.len(),
            spec_tokens(data@) == rows_view(out@) + spec_tokens_acc(
                data@.skip(i as int),
                cur@,
            ),
        decreases data@.len() - i,
    {
        let ghost out0 = out@;
        let ghost cur0 = cur@;
        let b = data[i];
        proof {
            assert(data@.skip(i as int)[0] == data@[i as int]);
            assert(data@.skip(i as int).drop_first() =~= data@.skip(i as int + 1));
        }
        if is_ws(b) {
            if cur.len() > 0 {
                out.push(cur);
                cur = Vec::new();
                proof {
                    assert(rows_view(out@) =~= rows_view(out0) + seq![cur0]);
                    assert(rows_view(out0) + spec_tokens_acc(data@.skip(i as int), cur0)
                        =~= rows_view(out@) + spec_tokens_acc(data@.skip(i as int + 1), cur@));
                }
            } else {
                proof {
                    assert(cur@ =~= Seq::<u8>::empty());
                    assert(spec_tokens_acc(data@.skip(i as int), cur0) == Seq::<Seq<u8>>::empty()
                        + spec_tokens_acc(data@.skip(i as int).drop_first(), Seq::empty()));
                    assert(Seq::<Seq<u8>>::empty() + spec_tokens_acc(
                        data@.skip(i as int + 1),
                        cur@,
                    ) =~= spec_tokens_acc(data@.skip(i as int + 1), cur@));
                }
            }
        } else {
            cur.push(b);
            proof {
                assert(cur@ =~= cur0.push(data@[i as int]));
                assert(spec_tokens_acc(data@.skip(i as int), cur0) == spec_tokens_acc(
                    data@.skip(i as int + 1),
                    cur@,
                ));
            }
        }
        i = i + 1;
    }
    proof {
        assert(data@.skip(i as int) =~= Seq::<u8>::empty());
    }
    if cur.len() > 0 {
        let ghost out0 = out@;
        let ghost cur0 = cur@;
        out.push(cur);
        proof {
            assert(rows_view(out@) =~= rows_view(out0) + seq![cur0]);
            assert(rows_view(out@) =~= rows_view(out0) + spec_tokens_acc(
                Seq::<u8>::empty(),
                cur0,
            ));
        }
    } else {
        proof {
            assert(spec_tokens_acc(Seq::<u8>::empty(), cur@) =~= Seq::<Seq<u8>>::empty());
            assert(rows_view(out@) + Seq::<Seq<u8>>::empty() =~= rows_view(out@));
        }
    }
    proof {
        assert(rows_view(out@) =~= spec_tokens(data@));
    }
    out
}

/// One level segment: a rectangular grid of cell characters.
pub struct Wave {
    layout: Vec<Vec<char>>,
}

/// What spawns at a cell character, if anything.
pub open spec fn spec_cell_alien(c: char) -> Option<AlienKind> {
    if c == 'a' {
        Some(AlienKind::Aris)
    } else if c == 'r' {
        Some(AlienKind::Rylo)
    } else if c == 'z' {
        Some(AlienKind::Zorg)
    } else {
        None
    }
}

/// A cell character the layout grammar knows.
pub open spec fn spec_valid_cell(c: char) -> bool {
    c == '#' || spec_cell_alien(c) is Some
}

/// One planned spawn: an archetype at a grid cell.
#[derive(Clone, Copy, Debug, PartialEq, Eq, Structural)]
pub struct AlienSpawn {
    pub row: u32,
    pub col: u32,
    pub kind: AlienKind,
}

/// The spawns a single row contributes, from column `c` on.
pub open spec fn spec_row_plan(cells: Seq<char>, r: int, c: int) -> Seq<AlienSpawn>
    decreases cells.len() - c,
{
    if c < 0 || c >= cells.len() {
        Seq::empty()
    } else {
        (match spec_cell_alien(cells[c]) {
            Some(k) => seq![AlienSpawn { row: r as u32, col: c as u32, kind: k }],
            None => Seq::empty(),
        }) + spec_row_plan(cells, r, c + 1)
    }
}

/// The spawns of the whole layout, row-major, from row `r` on.
pub open spec fn spec_plan(layout: Seq<Seq<char>>, r: int) -> Seq<AlienSpawn>
    decreases layout.len() - r,
{
    if r < 0 || r >= layout.len() {
        Seq::empty()
    } else {
        spec_row_plan(layout[r], r, 0) + spec_plan(layout, r + 1)
    }
}

impl Wave {
    /// The grid as a sequence of rows of characters.
    pub closed spec fn spec_layout(&self) -> Seq<Seq<char>> {
        Seq::new(self.layout@.len() as nat, |i: int| self.layout@[i]@)
    }

    /// A non-empty rectangle.
    pub open spec fn wf(&self) -> bool {
        &&& self.spec_layout().len() > 0
        &&& forall|i: int|
            0 <= i < self.spec_layout().len() ==> (#[trigger] self.spec_layout()[i]).len()
                == self.spec_layout()[0].len()
    }

    /// Build a wave from its text rows: the grid is as wide as the first
    /// row, every byte is lower-cased, and short rows are padded with
    /// blanks.
    pub fn from_lines(lines: &Vec<Vec<u8>>) -> (w: Wave)
        requires
            lines@.len() > 0,
            forall|k: int| 0 <= k < lines@.len() ==> (#[trigger] lines@[k])@.len()
                <= lines@[0]@.len(),
        ensures
            w.wf(),
            w.spec_layout().len() == lines@.len(),
            forall|k: int|
                0 <= k < lines@.len() ==> (#[trigger] w.spec_layout()[k]).len()
                    == lines@[0]@.len(),
            forall|k: int, j: int|
                0 <= k < lines@.len() && 0 <= j < lines@[0]@.len() ==> w.spec_layout()[k][j] == (
                if j < lines@[k]@.len() {
                    spec_lower(lines@[k]@[j]) as char
                } else {
                    ' '
                }),
    {
        let cols = lines[0].len();
        let mut layout: Vec<Vec<char>> = Vec::new();
        let mut i: usize = 0;
        while i < lines.len()
            invariant
                0 <= i <= lines@.len(),
                lines@.len() > 0,
                cols == lines@[0]@.len(),
                forall|k: int| 0 <= k < lines@.len() ==> (#[trigger] lines@[k])@.len()
                    <= lines@[0]@.len(),
                layout@.len() == i as int,
                forall|k: int| 0 <= k < i as int ==> (#[trigger] layout@[k])@.len() == cols as int,
                forall|k: int, j: int|
                    0 <= k < i as int && 0 <= j < cols as int ==> layout@[k]@[j] == (
                    if j < lines@[k]@.len() {
                        spec_lower(lines@[k]@[j]) as char
                    } else {
                        ' '
                    }),
            decreases lines@.len() - i,
        {
            let line = &lines[i];
            let mut row: Vec<char> = Vec::new();
            let mut j: usize = 0;
            while j < cols
                invariant
                    0 <= j <= cols,
                    i < lines@.len(),
                    *line == lines@[i as int],
                    line@.len() <= cols,
                    row@.len() == j as int,
                    forall|q: int|
                        0 <= q < j as int ==> row@[q] == (if q < lines@[i as int]@.len() {
                            spec_lower(lines@[i as int]@[q]) as char
                        } else {
                            ' '
                        }),
                decreases cols - j,
            {
                if j < line.len() {
                    let lb = to_lower(line[j]);
                    row.push(lb as char);
                } else {
                    row.push(' ');
                }
                j = j + 1;
            }
            layout.push(row);
            i = i + 1;
        }
        Wave { layout }
    }

    /// Parse a wave from raw text: tokenize on whitespace and build the
    /// grid. `None` when the text holds no token or a row runs past the
    /// first row's width.
    pub fn parse_wave_text(data: &[u8]) -> (r: Option<Wave>)
        ensures
            ({
                let toks = spec_tokens(data@);
                if toks.len() > 0 && (forall|k: int|
                    0 <= k < toks.len() ==> (#[trigger] toks[k]).len() <= toks[0].len()) {
                    match r {
                        Some(w) => {
                            &&& w.wf()
                            &&& w.spec_layout().len() == toks.len()
                            &&& forall|k: int|
                                0 <= k < toks.len() ==> (#[trigger] w.spec_layout()[k]).len()
                                    == toks[0].len()
                            &&& forall|k: int, j: int|
                                0 <= k < toks.len() && 0 <= j < toks[0].len()
                                    ==> w.spec_layout()[k][j] == (if j < toks[k].len() {
                                    spec_lower(toks[k][j]) as char
                                } else {
                                    ' '
                                })
                        },
                        None => false,
                    }
                } else {
                    r is None
                }
            }),
    {
        let tokens = split_whitespace_tokens(data);
        if tokens.len() == 0 {
            proof {
                assert(spec_tokens(data@).len() == 0);
            }
            return None;
        }
        let first_len = tokens[0].len();
        let mut k: usize = 1;
        while k < tokens.len()
            invariant
                1 <= k <= tokens@.len(),
                tokens@.len() > 0,
                first_len == tokens@[0]@.len(),
                rows_view(tokens@) == spec_tokens(data@),
                forall|q: int| 0 <= q < k as int ==> (#[trigger] tokens@[q])@.len() <= first_len,
            decreases tokens@.len() - k,
        {
            if tokens[k].len() > first_len {
                proof {
                    assert(spec_tokens(data@)[k as int] == tokens@[k as int]@);
                    assert(spec_tokens(data@)[0] == tokens@[0]@);
                    assert((#[trigger] spec_tokens(data@)[k as int]).len() > spec_tokens(
                        data@,
                    )[0].len());
                }
                return None;
            }
            k = k + 1;
        }
        proof {
            assert(forall|q: int|
                0 <= q < tokens@.len() ==> (#[trigger] tokens@[q])@ == spec_tokens(data@)[q]);
            assert(forall|q: int|
                0 <= q < tokens@.len() ==> (#[trigger] spec_tokens(data@)[q]).len() <= spec_tokens(
                    data@,
                )[0].len());
        }
        Some(Wave::from_lines(&tokens))
    }

    /// Whether every cell of the grid belongs to the layout grammar, so
    /// that a spawn plan can be drawn from it.
    pub fn layout_valid(&self) -> (r: bool)
        requires
            self.wf(),
        ensures
            r == (forall|i: int, j: int|
                0 <= i < self.spec_layout().len() && 0 <= j < self.spec_layout()[0].len()
                    ==> spec_valid_cell(#[trigger] self.spec_layout()[i][j])),
    {
        let rows = self.layout.len();
        let cols = self.layout[0].len();
        let mut i: usize = 0;
        while i < rows
            invariant
                0 <= i <= rows,
                self.wf(),
                rows == self.spec_layout().len(),
                cols == self.spec_layout()[0].len(),
                forall|k: int, j: int|
                    0 <= k < i as int && 0 <= j < cols as int ==> spec_valid_cell(
                        #[trigger] self.spec_layout()[k][j],
                    ),
            decreases rows - i,
        {
            let row = &self.layout[i];
            let mut j: usize = 0;
            while j < cols
                invariant
                    0 <= j <= cols,
                    i < rows,
                    self.wf(),
                    rows == self.spec_layout().len(),
                    cols == self.spec_layout()[0].len(),
                    *row == self.layout@[i as int],
                    forall|q: int|
                        0 <= q < j as int ==> spec_valid_cell(
                            #[trigger] self.spec_layout()[i as int][q],
                        ),
                decreases cols - j,
            {
                let c = row[j];
                if !(c == '#' || c == 'a' || c == 'r' || c == 'z') {
                    proof {
                        assert(c == self.spec_layout()[i as int][j as int]);
                        assert(!spec_valid_cell(self.spec_layout()[i as int][j as int]));
                    }
                    return false;
                }
                j = j + 1;
            }
            i = i + 1;
        }
        true
    }

    /// Plan the spawns of this wave: every cell that names an archetype
    /// contributes one spawn, row-major.
    pub fn spawn_plan(&self) -> (plan: Vec<AlienSpawn>)
        requires
            self.wf(),
            self.spec_layout().len() <= u32::MAX,
            self.spec_layout()[0].len() <= u32::MAX,
            forall|i: int, j: int|
                0 <= i < self.spec_layout().len() && 0 <= j < self.spec_layout()[0].len()
                    ==> spec_valid_cell(#[trigger] self.spec_layout()[i][j]),
        ensures
            plan@ == spec_plan(self.spec_layout(), 0),
    {
        let ghost lay = self.spec_layout();
        let rows = self.layout.len();
        let cols = self.layout[0].len();
        let mut plan: Vec<AlienSpawn> = Vec::new();
        let mut i: usize = 0;
        while i < rows
            invariant
                0 <= i <= rows,
                self.wf(),
                lay == self.spec_layout(),
                rows == lay.len(),
                cols == lay[0].len(),
                rows <= u32::MAX,
                cols <= u32::MAX,
                forall|k: int, j: int|
                    0 <= k < lay.len() && 0 <= j < lay[0].len() ==> spec_valid_cell(
                        #[trigger] lay[k][j],
                    ),
                spec_plan(lay, 0) == plan@ + spec_plan(lay, i as int),
            decreases rows - i,
        {
            let row = &self.layout[i];
            let mut j: usize = 0;
            proof {
                assert(spec_plan(lay, i as int) == spec_row_plan(lay[i as int], i as int, 0)
                    + spec_plan(lay, i as int + 1));
                assert(plan@ + spec_plan(lay, i as int) =~= plan@ + spec_row_plan(
                    lay[i as int],
                    i as int,
                    0,
                ) + spec_plan(lay, i as int + 1));
            }
            while j < cols
                invariant
                    0 <= j <= cols,
                    i < rows,
                    self.wf(),
                    lay == self.spec_layout(),
                    rows == lay.len(),
                    cols == lay[0].len(),
                    rows <= u32::MAX,
                    cols <= u32::MAX,
                    *row == self.layout@[i as int],
                    row@ == lay[i as int],
                    forall|k: int, q: int|
                        0 <= k < lay.len() && 0 <= q < lay[0].len() ==> spec_valid_cell(
                            #[trigger] lay[k][q],
                        ),
                    spec_plan(lay, 0) == plan@ + spec_row_plan(lay[i as int], i as int, j as int)
                        + spec_plan(lay, i as int + 1),
                decreases cols - j,
            {
                let ghost plan0 = plan@;
                let c = row[j];
                proof {
                    assert(spec_valid_cell(lay[i as int][j as int]));
                    assert(spec_row_plan(lay[i as int], i as int, j as int) == (
                    match spec_cell_alien(lay[i as int][j as int]) {
                        Some(k) => seq![
                            AlienSpawn { row: i as u32, col: j as u32, kind: k },
                        ],
                        None => Seq::<AlienSpawn>::empty(),
                    }) + spec_row_plan(lay[i as int], i as int, j as int + 1));
                }
                if c == 'a' {
                    plan.push(AlienSpawn { row: i as u32, col: j as u32, kind: AlienKind::Aris });
                } else if c == 'r' {
                    plan.push(AlienSpawn { row: i as u32, col: j as u32, kind: AlienKind::Rylo });
                } else if c == 'z' {
                    plan.push(AlienSpawn { row: i as u32, col: j as u32, kind: AlienKind::Zorg });
                }
                proof {
                    assert(plan0 + spec_row_plan(lay[i as int], i as int, j as int) =~= plan@
                        + spec_row_plan(lay[i as int], i as int, j as int + 1));
                    assert(plan0 + spec_row_plan(lay[i as int], i as int, j as int) + spec_plan(
                        lay,
                        i as int + 1,
                    ) =~= plan@ + spec_row_plan(lay[i as int], i as int, j as int + 1) + spec_plan(
                        lay,
                        i as int + 1,
                    ));
                }
                j = j + 1;
            }
            proof {
                assert(spec_row_plan(lay[i as int], i as int, j as int)
                    =~= Seq::<AlienSpawn>::empty());
                assert(plan@ + spec_row_plan(lay[i as int], i as int, j as int) + spec_plan(
                    lay,
                    i as int + 1,
                ) =~= plan@ + spec_plan(lay, i as int + 1));
            }
            i = i + 1;
        }
        proof {
            assert(spec_plan(lay, i as int) =~= Seq::<AlienSpawn>::empty());
            assert(plan@ + spec_plan(lay, i as int) =~= plan@);
        }
        plan
    }

    /// World translation of the grid cell at `row`, `col`: the ranks grow
    /// rightward and downward from below the top-left corner, and odd
    /// rows stand shifted left by the odd-row offset.
    pub fn get_translation(row: u32, col: u32) -> (t: Vec2i)
        requires
            row <= 100_000,
            col <= 100_000,
        ensures
            t.x == LEFT_WALL + ALIEN_WALL_GAP_X + ARIS_WIDTH as int / 2 + col as int * (ARIS_WIDTH
                + ALIEN_ALIEN_GAP_X) - ALIEN_ODD_ROW_OFFSET * ((row as int) % 2),
            t.y == TOP_WALL - ALIEN_WALL_GAP_Y - ARIS_HEIGHT as int / 2 - 80 * UNIT - row as int
                * (ARIS_HEIGHT + ALIEN_ALIEN_GAP_Y),
    {
        let first_alien_x = LEFT_WALL + ALIEN_WALL_GAP_X + ARIS_WIDTH / 2;
        let first_alien_y = TOP_WALL - ALIEN_WALL_GAP_Y - ARIS_HEIGHT / 2 - 80 * UNIT;
        let total_alien_width = ARIS_WIDTH + ALIEN_ALIEN_GAP_X;
        let total_alien_height = ARIS_HEIGHT + ALIEN_ALIEN_GAP_Y;
        proof {
            assert(0 <= col as i64 * total_alien_width <= 48_000_000_000) by (nonlinear_arith)
                requires
                    total_alien_width == 480_000i64,
                    0 <= col <= 100_000,
            ;
            assert(0 <= row as i64 * total_alien_height <= 48_000_000_000) by (nonlinear_arith)
                requires
                    total_alien_height == 480_000i64,
                    0 <= row <= 100_000,
            ;
        }
        let odd_shift = if row % 2 == 1 {
            ALIEN_ODD_ROW_OFFSET
        } else {
            0
        };
        let alien_x = first_alien_x + (col as i64) * total_alien_width - odd_shift;
        let alien_y = first_alien_y - (row as i64) * total_alien_height;
        Vec2i { x: alien_x, y: alien_y }
    }

    /// A random off-screen point for an alien's entrance: anywhere across
    /// the window's width, and from the window's middle up to a full
    /// window height above it.
    pub fn get_starting_location() -> (t: Vec2i)
        ensures
            LEFT_WALL <= t.x < LEFT_WALL + WINDOW_WIDTH,
            BOTTOM_WALL + WINDOW_HEIGHT as int / 2 <= t.y < BOTTOM_WALL + WINDOW_HEIGHT as int / 2
                + WINDOW_HEIGHT,
    {
        let rx = random_below(WINDOW_WIDTH as u64);
        let ry = random_below(WINDOW_HEIGHT as u64);
        Vec2i {
            x: LEFT_WALL + rx as i64,
            y: BOTTOM_WALL + WINDOW_HEIGHT / 2 + ry as i64,
        }
    }

    /// The built-in wave table: the rows of each of the four wave files.
    pub fn get_data(path: &str) -> (r: Vec<&str>)
        requires
            path@ == "assets/waves/wave_0.txt"@ || path@ == "assets/waves/wave_1.txt"@ || path@
                == "assets/waves/wave_2.txt"@ || path@ == "assets/waves/wave_3.txt"@,
        ensures
            r@.len() == 5,
            path@ == "assets/waves/wave_0.txt"@ ==> r@[0]@ == "AAAAAAAAAA"@ && r@[1]@
                == "#AA#AA#AA#"@ && r@[2]@ == "##########"@ && r@[3]@ == "#AA#AA#AA#"@ && r@[4]@
                == "AAAAAAAAAA"@,
            path@ == "assets/waves/wave_1.txt"@ ==> r@[0]@ == "aa#a##a#aa"@ && r@[1]@
                == "#aaraaraa#"@ && r@[2]@ == "##########"@ && r@[3]@ == "#aaraaraa#"@ && r@[4]@
                == "raaa##aaar"@,
            path@ == "assets/waves/wave_2.txt"@ ==> r@[0]@ == "aa#zrrz#aa"@ && r@[1]@
                == "raaraaraar"@ && r@[2]@ == "zr#rzzr#rz"@ && r@[3]@ == "raa#aa#aar"@ && r@[4]@
                == "#aaa##aaa#"@,
            path@ == "assets/waves/wave_3.txt"@ ==> r@[0]@ == "razzrrzzar"@ && r@[1]@
                == "rraraararr"@ && r@[2]@ == "zrrrzzrrrz"@ && r@[3]@ == "raazaazaar"@ && r@[4]@
                == "zaaazzaaaz"@,
    {
        proof {
            reveal_strlit("assets/waves/wave_0.txt");
            reveal_strlit("assets/waves/wave_1.txt");
            reveal_strlit("assets/waves/wave_2.txt");
            reveal_strlit("assets/waves/wave_3.txt");
        }
        let c = path.get_char(18);
        let mut r: Vec<&str> = Vec::new();
        if c == '0' {
            r.push("AAAAAAAAAA");
            r.push("#AA#AA#AA#");
            r.push("##########");
            r.push("#AA#AA#AA#");
            r.push("AAAAAAAAAA");
        } else if c == '1' {
            r.push("aa#a##a#aa");
            r.push("#aaraaraa#");
            r.push("##########");
            r.push("#aaraaraa#");
            r.push("raaa##aaar");
        } else if c == '2' {
            r.push("aa#zrrz#aa");
            r.push("raaraaraar");
            r.push("zr#rzzr#rz");
            r.push("raa#aa#aar");
            r.push("#aaa##aaa#");
        } else {
            r.push("razzrrzzar");
            r.push("rraraararr");
            r.push("zrrrzzrrrz");
            r.push("raazaazaar");
            r.push("zaaazzaaaz");
        }
        r
    }
}

} // verus!
