use vstd::prelude::*;
use crate::shape::{Kind, Piece, offsets, shape, lemma_shape_bounds};

verus! {

/// Board width in cells.
pub const BOARD_W: usize = 10;

/// Board height in cells; row 0 is the top.
pub const BOARD_H: usize = 20;

/// The contents of the board as rows, top first; each cell is empty or
/// holds the kind of the piece that filled it.
pub type Grid = Seq<Seq<Option<Kind>>>;

/// A row with no occupied cell.
pub open spec fn empty_row() -> Seq<Option<Kind>> {
    Seq::new(BOARD_W as nat, |x: int| None)
}

/// The board with no occupied cell.
pub open spec fn empty_grid() -> Grid {
    Seq::new(BOARD_H as nat, |y: int| empty_row())
}

/// A grid of the board's dimensions.
pub open spec fn grid_shape(g: Grid) -> bool {
    &&& g.len() == BOARD_H
    &&& forall|y: int| 0 <= y < BOARD_H ==> (#[trigger] g[y]).len() == BOARD_W
}

/// Whether the cell at column `x`, row `y` (inside the board) is occupied.
pub open spec fn occupied(g: Grid, x: int, y: int) -> bool {
    g[y][x] is Some
}

/// Whether a piece cell at column `x`, row `y` is blocked: outside the walls,
/// below the floor, or on an occupied cell. Rows above the board never block.
pub open spec fn blocked(g: Grid, x: int, y: int) -> bool {
    x < 0 || x >= BOARD_W || y >= BOARD_H || (y >= 0 && occupied(g, x, y))
}

/// Whether any cell of `p` is blocked.
pub open spec fn collides(g: Grid, p: Piece) -> bool {
    exists|i: int| 0 <= i < 4 && #[trigger] blocked(g, p.cell(i).0, p.cell(i).1)
}

/// Whether every cell of `p` lies between the walls and above the floor.
pub open spec fn within_walls(p: Piece) -> bool {
    forall|i: int|
        0 <= i < 4 ==> 0 <= #[trigger] p.cell(i).0 < BOARD_W && p.cell(i).1 < BOARD_H
}

/// Whether some cell of `p` lies above the top row.
pub open spec fn above_top(p: Piece) -> bool {
    exists|i: int| 0 <= i < 4 && #[trigger] p.cell(i).1 < 0
}

/// `g` with each cell of `p` that lies on the board set to `p`'s kind.
pub open spec fn placed(g: Grid, p: Piece) -> Grid {
    Seq::new(
        BOARD_H as nat,
        |y: int| Seq::new(BOARD_W as nat, |x: int| if p.covers(x, y) { Some(p.kind) } else { g[y][x] }),
    )
}

/// A row is full when every cell of it is occupied.
pub open spec fn full(row: Seq<Option<Kind>>) -> bool {
    forall|x: int| 0 <= x < BOARD_W ==> (#[trigger] row[x]) is Some
}

/// The rows of `rows` that are not full, in their original order.
pub open spec fn kept(rows: Grid) -> Grid
    decreases rows.len(),
{
    if rows.len() == 0 {
        rows
    } else if full(rows[0]) {
        kept(rows.drop_first())
    } else {
        seq![rows[0]].add(kept(rows.drop_first()))
    }
}

/// The number of rows that a line clear removes from `g`.
pub open spec fn full_count(g: Grid) -> nat {
    (g.len() - kept(g).len()) as nat
}

/// `g` after a line clear: its non-full rows, in order, at the bottom, with
/// empty rows above them.
pub open spec fn cleared(g: Grid) -> Grid {
    Seq::new(full_count(g), |y: int| empty_row()).add(kept(g))
}

pub proof fn lemma_kept_len(rows: Grid)
    ensures
        kept(rows).len() <= rows.len(),
    decreases rows.len(),
{
    if rows.len() > 0 {
        lemma_kept_len(rows.drop_first());
    }
}

/// The board: a fixed grid of `BOARD_H` rows of `BOARD_W` cells.
#[derive(Clone, Copy, Debug, PartialEq, Eq)]
pub struct Board {
    pub rows: [[Option<Kind>; BOARD_W]; BOARD_H],
}

impl View for Board {
    type V = Grid;

    open spec fn view(&self) -> Grid {
        Seq::new(BOARD_H as nat, |y: int| self.rows@[y]@)
    }
}

/// A cell of `p` that is not blocked lies on the board's columns and above
/// its floor.
proof fn lemma_unblocked_cell(g: Grid, p: Piece, i: int)
    requires
        0 <= i < 4,
        !blocked(g, p.cell(i).0, p.cell(i).1),
    ensures
        0 <= p.cell(i).0 < BOARD_W,
        p.cell(i).1 < BOARD_H,
{
}

impl Board {
    /// The board with every cell empty.
    pub fn empty() -> (r: Board)
        ensures
            r@ == empty_grid(),
    {
        let row: [Option<Kind>; BOARD_W] = [None; BOARD_W];
        let r = Board { rows: [row; BOARD_H] };
        assert(row@ =~= empty_row());
        assert(r@ =~= empty_grid());
        r
    }

    /// The contents of the cell at column `x`, row `y`.
    pub fn cell(&self, x: usize, y: usize) -> (r: Option<Kind>)
        requires
            x < BOARD_W,
            y < BOARD_H,
        ensures
            r == self@[y as int][x as int],
    {
        self.rows[y][x]
    }

    /// Whether any cell of `p` lies outside the walls, below the floor or on
    /// an occupied cell.
    pub fn collides(&self, p: Piece) -> (r: bool)
        ensures
            r == collides(self@, p),
    {
        let offs = offsets(p.kind, p.rot);
        let mut i: usize = 0;
        while i < 4
            invariant
                i <= 4,
                forall|j: int| 0 <= j < i ==> !#[trigger] blocked(self@, p.cell(j).0, p.cell(j).1),
                forall|j: int|
                    0 <= j < 4 ==> (#[trigger] offs[j]).0 as int == shape(p.kind, p.rot)[j].0
                        && offs[j].1 as int == shape(p.kind, p.rot)[j].1,
            decreases 4 - i,
        {
            proof {
                lemma_shape_bounds(p.kind, p.rot, i as int);
            }
            let (dx, dy) = offs[i];
            let x: i64 = p.x as i64 + dx as i64;
            let y: i64 = p.y as i64 + dy as i64;
            assert(p.cell(i as int) == (x as int, y as int));
            if x < 0 || x >= BOARD_W as i64 || y >= BOARD_H as i64 {
                assert(blocked(self@, p.cell(i as int).0, p.cell(i as int).1));
                return true;
            }
            if y >= 0 && self.rows[y as usize][x as usize].is_some() {
                assert(blocked(self@, p.cell(i as int).0, p.cell(i as int).1));
                return true;
            }
            i += 1;
        }
        false
    }

    /// Whether row `y` is full.
    pub fn row_full(&self, y: usize) -> (r: bool)
        requires
            y < BOARD_H,
        ensures
            r == full(self@[y as int]),
    {
        let mut x: usize = 0;
        while x < BOARD_W
            invariant
                y < BOARD_H,
                x <= BOARD_W,
                forall|k: int| 0 <= k < x ==> (#[trigger] self@[y as int][k]) is Some,
            decreases BOARD_W - x,
        {
            if self.rows[y][x].is_none() {
                return false;
            }
            x += 1;
        }
        true
    }

    /// Writes `p`'s kind into each of its cells that lies on the board, and
    /// tells whether some cell of `p` lies above the top row (those cells are
    /// not written).
    pub fn place(&mut self, p: Piece) -> (topped_out: bool)
        requires
            within_walls(p),
        ensures
            final(self)@ == placed(old(self)@, p),
            topped_out == above_top(p),
    {
        let offs = offsets(p.kind, p.rot);
        let ghost g = self@;
        let mut topped_out = false;
        let mut i: usize = 0;
        while i < 4
            invariant
                i <= 4,
                within_walls(p),
                forall|j: int|
                    0 <= j < 4 ==> (#[trigger] offs[j]).0 as int == shape(p.kind, p.rot)[j].0
                        && offs[j].1 as int == shape(p.kind, p.rot)[j].1,
                topped_out == exists|j: int| 0 <= j < i && #[trigger] p.cell(j).1 < 0,
                forall|y: int, x: int|
                    0 <= y < BOARD_H && 0 <= x < BOARD_W ==> #[trigger] self@[y][x] == if exists|j: int|
                        0 <= j < i && #[trigger] p.cell(j) == (x, y) {
                        Some(p.kind)
                    } else {
                        g[y][x]
                    },
            decreases 4 - i,
        {
            proof {
                lemma_shape_bounds(p.kind, p.rot, i as int);
            }
            let (dx, dy) = offs[i];
            let x: i64 = p.x as i64 + dx as i64;
            let y: i64 = p.y as i64 + dy as i64;
            assert(p.cell(i as int) == (x as int, y as int));
            assert(0 <= p.cell(i as int).0 < BOARD_W && p.cell(i as int).1 < BOARD_H);
            let ghost prev = self@;
            if y < 0 {
                topped_out = true;
            } else {
                self.rows[y as usize][x as usize] = Some(p.kind);
            }
            proof {
                assert forall|yy: int, xx: int| 0 <= yy < BOARD_H && 0 <= xx < BOARD_W implies
                    #[trigger] self@[yy][xx] == if exists|j: int|
                        0 <= j < i + 1 && #[trigger] p.cell(j) == (xx, yy) {
                        Some(p.kind)
                    } else {
                        g[yy][xx]
                    } by {
                    if p.cell(i as int) == (xx, yy) {
                        assert(self@[yy][xx] == Some(p.kind));
                    } else {
                        assert(self@[yy][xx] == prev[yy][xx]);
                        if exists|j: int| 0 <= j < i + 1 && #[trigger] p.cell(j) == (xx, yy) {
                            let j = choose|j: int| 0 <= j < i + 1 && #[trigger] p.cell(j) == (xx, yy);
                            assert(j < i);
                        }
                    }
                }
            }
            i += 1;
        }
        assert(self@ =~= placed(g, p)) by {
            assert forall|y: int| 0 <= y < BOARD_H implies #[trigger] self@[y] =~= placed(g, p)[y] by {
                assert forall|x: int| 0 <= x < BOARD_W implies self@[y][x] == placed(g, p)[y][x] by {
                    if p.covers(x, y) {
                        let j = choose|j: int| 0 <= j < 4 && #[trigger] p.cell(j) == (x, y);
                        assert(p.cell(j) == (x, y));
                    }
                }
            }
        }
        topped_out
    }

    /// Removes every full row, moves the remaining rows down in their order
    /// and fills the top with empty rows; returns how many rows were removed.
    pub fn clear_lines(&mut self) -> (count: usize)
        ensures
            final(self)@ == cleared(old(self)@),
            count == full_count(old(self)@),
            count <= BOARD_H,
    {
        let ghost g = self@;
        let empty: [Option<Kind>; BOARD_W] = [None; BOARD_W];
        assert(empty@ =~= empty_row());
        let mut new_rows: [[Option<Kind>; BOARD_W]; BOARD_H] = [empty; BOARD_H];
        let mut kept_n: usize = 0;
        let mut y: usize = BOARD_H;
        while y > 0
            invariant
                y <= BOARD_H,
                kept_n <= BOARD_H - y,
                self@ == g,
                kept_n == kept(g.subrange(y as int, BOARD_H as int)).len(),
                forall|k: int| 0 <= k < BOARD_H - kept_n ==> (#[trigger] new_rows@[k])@ == empty_row(),
                forall|k: int|
                    0 <= k < kept_n ==> new_rows@[BOARD_H - kept_n + k]@ == #[trigger] kept(
                        g.subrange(y as int, BOARD_H as int),
                    )[k],
            decreases y,
        {
            y -= 1;
            let ghost before = kept(g.subrange(y + 1, BOARD_H as int));
            proof {
                let s = g.subrange(y as int, BOARD_H as int);
                assert(s.drop_first() =~= g.subrange(y + 1, BOARD_H as int));
                assert(s[0] == g[y as int]);
                lemma_kept_len(g.subrange(y + 1, BOARD_H as int));
            }
            if !self.row_full(y) {
                let row = self.rows[y];
                new_rows[BOARD_H - 1 - kept_n] = row;
                kept_n += 1;
                proof {
                    let now = kept(g.subrange(y as int, BOARD_H as int));
                    assert(now == seq![g[y as int]].add(before));
                    assert forall|k: int| 0 <= k < kept_n implies new_rows@[BOARD_H - kept_n + k]@
                        == #[trigger] now[k] by {
                        if k > 0 {
                            assert(now[k] == before[k - 1]);
                        }
                    }
                }
            }
        }
        proof {
            assert(g.subrange(0, BOARD_H as int) =~= g);
            lemma_kept_len(g);
        }
        self.rows = new_rows;
        assert(self@ =~= cleared(g)) by {
            assert forall|k: int| 0 <= k < BOARD_H implies #[trigger] self@[k] == cleared(g)[k] by {
                if k >= BOARD_H - kept_n {
                    assert(new_rows@[BOARD_H - kept_n + (k - (BOARD_H - kept_n))]@ == kept(g)[k - (BOARD_H - kept_n)]);
                }
            }
        }
        BOARD_H - kept_n
    }
}

} // verus!
