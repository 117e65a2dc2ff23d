//! Properties that hold of the game model across operations.
use vstd::prelude::*;
use crate::board::{
    Grid, above_top, blocked, cleared, collides, empty_grid, occupied, placed, BOARD_H, BOARD_W,
};
use crate::game::{
    DROP_INTERVAL_MIN, DROP_INTERVAL_START, GameView, Input, drop_interval_for, fresh,
    horizontal_step, landing, lemma_spawn_fits_empty, moved, repeat_moves, rotated, settled,
    spawn_piece_of, ticked,
};
use crate::repeat::{HorizontalRepeat, held_dir};
use crate::shape::{Kind, Piece};

verus! {

/// Repeated horizontal moves change only the active piece and the repeat
/// state.
pub proof fn lemma_repeat_moves_keeps(v: GameView, dir: int)
    ensures
        repeat_moves(v, dir).grid == v.grid,
        repeat_moves(v, dir).score == v.score,
        repeat_moves(v, dir).lines == v.lines,
        repeat_moves(v, dir).game_over == v.game_over,
        repeat_moves(v, dir).drop_timer == v.drop_timer,
        repeat_moves(v, dir).drop_interval == v.drop_interval,
    decreases v.horizontal.repeat_timer,
{
    if v.horizontal.repeat_due() && v.horizontal.period() > 0 {
        let h = HorizontalRepeat {
            repeat_timer: (v.horizontal.repeat_timer - v.horizontal.period()) as u64,
            ..v.horizontal
        };
        let v1 = GameView { horizontal: h, ..v };
        if moved(v1, dir, 0).1 {
            lemma_repeat_moves_keeps(moved(v1, dir, 0).0, dir);
        }
    }
}

/// Horizontal movement and rotation change neither the board, the score,
/// the line count nor whether the game is over.
pub proof fn lemma_movement_keeps(v: GameView, input: Input, dt: u64)
    ensures
        ({
            let v1 = horizontal_step(v, input.left, input.right, dt);
            let v2 = if input.rotate {
                rotated(v1)
            } else {
                v1
            };
            &&& v1.grid == v.grid && v2.grid == v.grid
            &&& v1.score == v.score && v2.score == v.score
            &&& v1.lines == v.lines && v2.lines == v.lines
            &&& v1.game_over == v.game_over && v2.game_over == v.game_over
            &&& v2.drop_interval == v.drop_interval
        }),
{
    let dir = held_dir(input.left, input.right);
    let (h, _) = v.horizontal.advanced(dir, dt);
    lemma_repeat_moves_keeps(GameView { horizontal: h, ..v }, dir as int);
}

/// A cell changes only when a piece locks, a line clear removes rows, or the
/// game restarts: after any tick the board is unchanged, empty (restart), the
/// old board with one piece written into it (top-out), or that board after a
/// line clear.
pub proof fn lemma_board_changes_only_by_lock(v: GameView, input: Input, dt: u64, kind: Kind)
    ensures
        ({
            let g = ticked(v, input, dt, kind).grid;
            ||| g == v.grid
            ||| g == empty_grid()
            ||| exists|p: Piece| #[trigger] placed(v.grid, p) == g
            ||| exists|p: Piece| cleared(#[trigger] placed(v.grid, p)) == g
        }),
{
    lemma_movement_keeps(v, input, dt);
    if !v.game_over {
        let v1 = horizontal_step(v, input.left, input.right, dt);
        let v2 = if input.rotate {
            rotated(v1)
        } else {
            v1
        };
        let p = if input.hard_drop {
            landing(v2.grid, v2.active)
        } else {
            v2.active
        };
        let g = ticked(v, input, dt, kind).grid;
        if g != v.grid && !above_top(p) {
            assert(cleared(placed(v.grid, p)) == g);
        } else if g != v.grid {
            assert(placed(v.grid, p) == g);
        }
    }
}

/// `collides` holds of every piece with a cell outside the walls, below the
/// floor, or on an occupied cell of the board.
pub proof fn lemma_blocked_cell_collides(g: Grid, p: Piece, i: int)
    requires
        0 <= i < 4,
        ({
            let (x, y) = p.cell(i);
            x < 0 || x >= BOARD_W || y >= BOARD_H || (y >= 0 && occupied(g, x, y))
        }),
    ensures
        collides(g, p),
{
    assert(blocked(g, p.cell(i).0, p.cell(i).1));
}

/// A rotation whose three candidate positions all collide changes nothing.
pub proof fn lemma_rotation_blocked(v: GameView)
    requires
        ({
            let r = Piece { rot: v.active.rot.next_spec(), ..v.active };
            &&& collides(v.grid, r)
            &&& collides(v.grid, r.shifted(-1, 0))
            &&& collides(v.grid, r.shifted(1, 0))
        }),
    ensures
        rotated(v) == v,
{
}

/// The gravity period never grows as lines are cleared, and never falls
/// below its minimum; it starts at its initial value.
pub proof fn lemma_drop_interval_monotone(a: u64, b: u64)
    requires
        a <= b,
    ensures
        drop_interval_for(b) <= drop_interval_for(a),
        drop_interval_for(a) >= DROP_INTERVAL_MIN,
        drop_interval_for(0) == DROP_INTERVAL_START,
{
}

/// Within a session the score never decreases: every tick other than a
/// restart leaves it equal or higher.
pub proof fn lemma_score_monotone(v: GameView, input: Input, dt: u64, kind: Kind)
    requires
        !(v.game_over && input.restart),
    ensures
        ticked(v, input, dt, kind).score >= v.score,
{
    lemma_movement_keeps(v, input, dt);
}

/// A lock with a cell above the top ends the game without a spawn, and its
/// cells on the board are still written.
pub proof fn lemma_top_out(v: GameView)
    requires
        above_top(v.active),
    ensures
        settled(v).0.game_over,
        !settled(v).1,
        settled(v).0.grid == placed(v.grid, v.active),
        forall|x: int, y: int|
            0 <= x < BOARD_W && 0 <= y < BOARD_H && v.active.covers(x, y)
                ==> #[trigger] settled(v).0.grid[y][x] == Some(v.active.kind),
{
}

/// Once the game is over, moves and rotations do nothing, and every tick
/// without a restart leaves the whole state unchanged.
pub proof fn lemma_game_over_frozen(v: GameView, input: Input, dt: u64, kind: Kind, dx: int, dy: int)
    requires
        v.game_over,
        !input.restart,
    ensures
        moved(v, dx, dy) == (v, false),
        rotated(v) == v,
        ticked(v, input, dt, kind) == v,
{
}

/// A restart from a finished game gives a fresh game: an empty board, zero
/// score and lines, the initial gravity period and a newly spawned piece.
pub proof fn lemma_restart(v: GameView, input: Input, dt: u64, kind: Kind)
    requires
        v.game_over,
        input.restart,
    ensures
        ticked(v, input, dt, kind) == fresh(kind),
        fresh(kind).grid == empty_grid(),
        fresh(kind).score == 0,
        fresh(kind).lines == 0,
        fresh(kind).drop_interval == DROP_INTERVAL_START,
        fresh(kind).active == spawn_piece_of(kind),
        !fresh(kind).game_over,
{
    lemma_spawn_fits_empty(kind);
}

} // verus!
