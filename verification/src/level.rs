//! The level grid: a rectangular array of tile codes whose dimensions are
//! whole multiples of one screen, plus its text serialization.
//!
//! The exported file format deliberately carries no header: a consumer must
//! know `ROWS` and `COLUMNS` and infer the screen counts from the line count
//! and line length of the file.

use vstd::prelude::*;
use vstd::string::StringExecFns;

verus! {

/// Tile rows in one screen.
pub const ROWS: usize = 15;

/// Tile columns in one screen.
pub const COLUMNS: usize = 20;

/// The reserved tile code meaning "no object here".
pub const SPRITE_NONE: char = ' ';

/// Most screens a level may span horizontally.
pub const WIDTH_MAX: usize = 6;

/// Most screens a level may span vertically.
pub const HEIGHT_MAX: usize = 4;

/// The text form of a grid: one line per row, each line the row's tile codes
/// concatenated in column order, lines joined by a single newline, no
/// trailing newline and no header.
pub open spec fn render(grid: Seq<Seq<char>>) -> Seq<char>
    decreases grid.len(),
{
    if grid.len() == 0 {
        Seq::empty()
    } else if grid.len() == 1 {
        grid[0]
    } else {
        render(grid.drop_last()).push('\n') + grid.last()
    }
}

/// Extending a rendered prefix by one more row appends a newline (except
/// before the first row) and that row's codes.
proof fn lemma_render_step(g: Seq<Seq<char>>, r: int)
    requires
        0 <= r < g.len(),
    ensures
        render(g.take(r + 1)) == (if r == 0 {
            Seq::<char>::empty()
        } else {
            render(g.take(r)).push('\n')
        }) + g[r],
{
    let t = g.take(r + 1);
    if r == 0 {
        assert(render(t) == t[0]);
        assert(Seq::<char>::empty() + g[0] =~= g[0]);
    } else {
        assert(t.drop_last() =~= g.take(r));
        assert(t.last() == g[r]);
    }
}

/// For a non-empty grid whose rows all have `cols` columns, the rendered
/// text holds one code per cell plus one newline between each pair of
/// adjacent lines: `rows * cols + (rows - 1)` characters in all.
pub proof fn lemma_render_len(g: Seq<Seq<char>>, cols: nat)
    requires
        g.len() > 0,
        forall|r: int| 0 <= r < g.len() ==> (#[trigger] g[r]).len() == cols,
    ensures
        render(g).len() == g.len() * cols + (g.len() - 1),
    decreases g.len(),
{
    if g.len() == 1 {
        assert(render(g) == g[0]);
    } else {
        let d = g.drop_last();
        lemma_render_len(d, cols);
        assert(render(g).len() == (g.len() - 1) * cols + (g.len() - 2) + 1 + cols);
        assert((g.len() - 1) * cols + cols == g.len() * cols) by (nonlinear_arith);
    }
}

/// Relies on String::push: appends exactly the given character to the end of
/// the string.
#[verifier::external_body]
fn push_char(s: &mut String, c: char)
    ensures
        final(s)@ == old(s)@.push(c),
{
    s.push(c);
}

/// A level: a grid of tile codes, `ROWS * height` rows by
/// `COLUMNS * width` columns, where `width` and `height` count screens.
pub struct Level {
    pub tiles: Vec<Vec<char>>,
    pub width: usize,
    pub height: usize,
}

impl Level {
    /// The grid as a sequence of rows of tile codes.
    pub open spec fn grid(self) -> Seq<Seq<char>> {
        Seq::new(self.tiles@.len(), |r: int| self.tiles@[r]@)
    }

    /// The grid dimensions are in range and the tile array matches them
    /// exactly: `ROWS * height` rows, each of `COLUMNS * width` codes.
    pub open spec fn wf(self) -> bool {
        &&& 1 <= self.width <= WIDTH_MAX
        &&& 1 <= self.height <= HEIGHT_MAX
        &&& self.grid().len() == ROWS * self.height
        &&& forall|r: int|
            0 <= r < self.grid().len() ==> (#[trigger] self.grid()[r]).len() == COLUMNS
                * self.width
    }

    /// Every cell holds the empty code.
    pub open spec fn all_empty(self) -> bool {
        forall|r: int, c: int|
            0 <= r < self.grid().len() && 0 <= c < self.grid()[r].len() ==> self.grid()[r][c]
                == SPRITE_NONE
    }

    /// Total number of tile rows in the grid.
    pub fn rows(&self) -> (n: usize)
        requires
            self.height <= HEIGHT_MAX,
        ensures
            n == ROWS * self.height,
    {
        ROWS * self.height
    }

    /// Total number of tile columns in the grid.
    pub fn columns(&self) -> (n: usize)
        requires
            self.width <= WIDTH_MAX,
        ensures
            n == COLUMNS * self.width,
    {
        COLUMNS * self.width
    }

    /// Rebuilds the tile array to match `width` and `height`, every cell set
    /// to the empty code. All prior contents are discarded.
    fn build_tiles(&mut self)
        requires
            old(self).width <= WIDTH_MAX,
            old(self).height <= HEIGHT_MAX,
        ensures
            final(self).width == old(self).width,
            final(self).height == old(self).height,
            final(self).grid().len() == ROWS * final(self).height,
            forall|r: int|
                0 <= r < final(self).grid().len() ==> (#[trigger] final(self).grid()[r]).len()
                    == COLUMNS * final(self).width,
            final(self).all_empty(),
    {
        let total_rows = self.rows();
        let total_cols = self.columns();

        self.tiles.clear();

        let mut r: usize = 0;
        while r < total_rows
            invariant
                self.width == old(self).width,
                self.height == old(self).height,
                total_rows == ROWS * self.height,
                total_cols == COLUMNS * self.width,
                r <= total_rows,
                self.grid().len() == r,
                forall|i: int|
                    0 <= i < r ==> (#[trigger] self.grid()[i]).len() == total_cols,
                forall|i: int, j: int|
                    0 <= i < r && 0 <= j < self.grid()[i].len() ==> self.grid()[i][j]
                        == SPRITE_NONE,
            decreases total_rows - r,
        {
            let mut row: Vec<char> = Vec::new();

            let mut c: usize = 0;
            while c < total_cols
                invariant
                    c <= total_cols,
                    row@.len() == c,
                    forall|j: int| 0 <= j < c ==> row@[j] == SPRITE_NONE,
                decreases total_cols - c,
            {
                row.push(SPRITE_NONE);
                c += 1;
            }

            let ghost g0 = self.grid();
            self.tiles.push(row);
            proof {
                assert(self.grid() =~= g0.push(row@));
            }
            r += 1;
        }
    }

    /// Builds a level of the given screen counts with every cell empty.
    pub fn new(width: usize, height: usize) -> (level: Level)
        requires
            1 <= width <= WIDTH_MAX,
            1 <= height <= HEIGHT_MAX,
        ensures
            level.width == width,
            level.height == height,
            level.wf(),
            level.all_empty(),
    {
        let mut level = Level { tiles: Vec::new(), width, height };
        level.build_tiles();
        level
    }

    /// Sets the cell at `(row, col)` to `code`; no other cell changes.
    pub fn set_cell(&mut self, row: usize, col: usize, code: char)
        requires
            old(self).wf(),
            row < ROWS * old(self).height,
            col < COLUMNS * old(self).width,
        ensures
            final(self).wf(),
            final(self).width == old(self).width,
            final(self).height == old(self).height,
            final(self).grid() == old(self).grid().update(
                row as int,
                old(self).grid()[row as int].update(col as int, code),
            ),
    {
        proof {
            assert(self.tiles@.len() == old(self).grid().len());
            assert(self.tiles@[row as int]@.len() == old(self).grid()[row as int].len());
        }
        self.tiles[row][col] = code;
        proof {
            assert(self.grid() =~= old(self).grid().update(
                row as int,
                old(self).grid()[row as int].update(col as int, code),
            ));
        }
    }

    /// Serializes the grid to its text form; see [`render`] for the format.
    pub fn serialize(&self) -> (text: String)
        requires
            self.wf(),
        ensures
            text@ == render(self.grid()),
    {
        let total_rows = self.rows();
        let total_cols = self.columns();
        let ghost g = self.grid();

        let mut text = String::from_str("");
        proof {
            reveal_strlit("");
            assert(text@ =~= render(g.take(0)));
        }

        let mut r: usize = 0;
        while r < total_rows
            invariant
                self.wf(),
                g == self.grid(),
                total_rows == ROWS * self.height,
                total_cols == COLUMNS * self.width,
                r <= total_rows,
                text@ == render(g.take(r as int)),
            decreases total_rows - r,
        {
            if r > 0 {
                push_char(&mut text, '\n');
            }
            let ghost base = if r == 0 {
                Seq::<char>::empty()
            } else {
                render(g.take(r as int)).push('\n')
            };
            proof {
                assert(text@ =~= base + g[r as int].take(0));
            }

            let mut c: usize = 0;
            while c < total_cols
                invariant
                    self.wf(),
                    g == self.grid(),
                    total_cols == COLUMNS * self.width,
                    r < ROWS * self.height,
                    g.len() == ROWS * self.height,
                    g[r as int].len() == total_cols,
                    c <= total_cols,
                    text@ == base + g[r as int].take(c as int),
                decreases total_cols - c,
            {
                let ch = self.tiles[r][c];
                push_char(&mut text, ch);
                proof {
                    assert(text@ =~= base + g[r as int].take(c as int + 1));
                }
                c += 1;
            }

            proof {
                lemma_render_step(g, r as int);
                assert(g[r as int].take(total_cols as int) =~= g[r as int]);
            }
            r += 1;
        }

        proof {
            assert(g.take(total_rows as int) =~= g);
        }
        text
    }
}

} // verus!
