use vstd::prelude::*;
use crate::board::{
    Board, Grid, above_top, blocked, cleared, collides, empty_grid, full_count, placed,
    within_walls, BOARD_H,
};
use crate::repeat::{HorizontalRepeat, held_dir, held_direction};
use crate::shape::{Kind, Piece, Rotation, KIND_COUNT, lemma_shape_bounds};

verus! {

/// Gravity period of a fresh game (µs).
pub const DROP_INTERVAL_START: u64 = 500_000;

/// The shortest gravity period (µs).
pub const DROP_INTERVAL_MIN: u64 = 100_000;

/// How much each cleared line shortens the gravity period (µs).
pub const DROP_INTERVAL_STEP: u64 = 10_000;

/// How much faster the gravity timer runs while soft drop is held.
pub const SOFT_DROP_FACTOR: u64 = 8;

/// Anchor column of a newly spawned piece.
pub const SPAWN_X: i32 = 3;

/// Anchor row of a newly spawned piece.
pub const SPAWN_Y: i32 = -1;

/// The gravity period after `lines` cleared lines:
/// `max(DROP_INTERVAL_MIN, DROP_INTERVAL_START - lines * DROP_INTERVAL_STEP)`.
pub open spec fn drop_interval_for(lines: u64) -> u64 {
    let v = DROP_INTERVAL_START - lines * DROP_INTERVAL_STEP;
    if v > DROP_INTERVAL_MIN {
        v as u64
    } else {
        DROP_INTERVAL_MIN
    }
}

/// Points for clearing `n` rows with one lock.
pub open spec fn points(n: int) -> u64 {
    if n == 1 {
        100
    } else if n == 2 {
        300
    } else if n == 3 {
        500
    } else if n == 4 {
        800
    } else {
        0
    }
}

/// Gravity time that `dt` adds while soft drop is held (saturating).
pub open spec fn soft_time(dt: u64) -> u64 {
    if dt * SOFT_DROP_FACTOR > u64::MAX {
        u64::MAX
    } else {
        (dt * SOFT_DROP_FACTOR) as u64
    }
}

/// The piece that spawns for `kind`.
pub open spec fn spawn_piece_of(kind: Kind) -> Piece {
    Piece { kind, rot: Rotation::R0, x: SPAWN_X, y: SPAWN_Y }
}

/// Where `p` comes to rest when dropped straight down on `g`.
pub open spec fn landing(g: Grid, p: Piece) -> Piece
    decreases BOARD_H - p.y,
{
    if p.y < BOARD_H && !collides(g, p.shifted(0, 1)) {
        landing(g, p.shifted(0, 1))
    } else {
        p
    }
}

/// The player's intents for one tick: keys held and keys pressed this tick.
#[derive(Clone, Copy, Debug, PartialEq, Eq, Structural)]
pub struct Input {
    pub left: bool,
    pub right: bool,
    pub soft_drop: bool,
    pub rotate: bool,
    pub hard_drop: bool,
    pub restart: bool,
}

/// The mathematical state of a game.
pub struct GameView {
    pub grid: Grid,
    pub active: Piece,
    pub drop_timer: u64,
    pub drop_interval: u64,
    pub horizontal: HorizontalRepeat,
    pub score: u64,
    pub lines: u64,
    pub game_over: bool,
}

/// A fresh game before its first piece is drawn.
pub open spec fn unspawned() -> GameView {
    GameView {
        grid: empty_grid(),
        active: spawn_piece_of(Kind::I),
        drop_timer: 0,
        drop_interval: DROP_INTERVAL_START,
        horizontal: HorizontalRepeat::neutral(),
        score: 0,
        lines: 0,
        game_over: false,
    }
}

/// `v` with a new piece of `kind` spawned; the game ends if it collides.
pub open spec fn spawned(v: GameView, kind: Kind) -> GameView {
    GameView {
        active: spawn_piece_of(kind),
        game_over: v.game_over || collides(v.grid, spawn_piece_of(kind)),
        ..v
    }
}

/// A fresh game whose first piece is of `kind`.
pub open spec fn fresh(kind: Kind) -> GameView {
    spawned(unspawned(), kind)
}

/// The attempt to shift the active piece by `(dx, dy)`, and whether it moved.
pub open spec fn moved(v: GameView, dx: int, dy: int) -> (GameView, bool) {
    if v.game_over || collides(v.grid, v.active.shifted(dx, dy)) {
        (v, false)
    } else {
        (GameView { active: v.active.shifted(dx, dy), ..v }, true)
    }
}

/// The clockwise rotation with kicks: the next rotation state at the same
/// column, one to the left, or one to the right, whichever first fits.
pub open spec fn rotated(v: GameView) -> GameView {
    let r = Piece { rot: v.active.rot.next_spec(), ..v.active };
    if v.game_over {
        v
    } else if !collides(v.grid, r) {
        GameView { active: r, ..v }
    } else if !collides(v.grid, r.shifted(-1, 0)) {
        GameView { active: r.shifted(-1, 0), ..v }
    } else if !collides(v.grid, r.shifted(1, 0)) {
        GameView { active: r.shifted(1, 0), ..v }
    } else {
        v
    }
}

/// The repeated moves in direction `dir` that the banked repeat time pays
/// for, stopping at the first move that is blocked.
pub open spec fn repeat_moves(v: GameView, dir: int) -> GameView
    decreases v.horizontal.repeat_timer,
{
    if v.horizontal.repeat_due() && v.horizontal.period() > 0 {
        let h = HorizontalRepeat {
            repeat_timer: (v.horizontal.repeat_timer - v.horizontal.period()) as u64,
            ..v.horizontal
        };
        let v1 = GameView { horizontal: h, ..v };
        if moved(v1, dir, 0).1 {
            repeat_moves(moved(v1, dir, 0).0, dir)
        } else {
            v1
        }
    } else {
        v
    }
}

/// One tick of the horizontal auto-repeat with the given keys held.
pub open spec fn horizontal_step(v: GameView, left: bool, right: bool, dt: u64) -> GameView {
    let dir = held_dir(left, right);
    let (h, fresh_press) = v.horizontal.advanced(dir, dt);
    let v1 = GameView { horizontal: h, ..v };
    if fresh_press {
        moved(v1, dir as int, 0).0
    } else if dir == 0 {
        v1
    } else {
        repeat_moves(v1, dir as int)
    }
}

/// `v` after a line clear on its grid, with lines, score and gravity period
/// updated.
pub open spec fn scored(v: GameView) -> GameView {
    let n = full_count(v.grid);
    let lines = v.lines.saturating_add(n as u64);
    GameView {
        grid: cleared(v.grid),
        lines: lines,
        score: v.score.saturating_add(points(n as int)),
        drop_interval: drop_interval_for(lines),
        ..v
    }
}

/// The active piece written into the grid. On a top-out the game ends;
/// otherwise rows are cleared and a new piece is due (the flag).
pub open spec fn settled(v: GameView) -> (GameView, bool) {
    let v1 = GameView { grid: placed(v.grid, v.active), ..v };
    if above_top(v.active) {
        (GameView { game_over: true, ..v1 }, false)
    } else {
        (scored(v1), true)
    }
}

/// A lock followed, where due, by the spawn of a piece of `kind`.
pub open spec fn locked(v: GameView, kind: Kind) -> GameView {
    if settled(v).1 {
        spawned(settled(v).0, kind)
    } else {
        settled(v).0
    }
}

/// The gravity part of a tick.
pub open spec fn gravity_step(v: GameView, soft: bool, dt: u64) -> (GameView, bool) {
    let t = v.drop_timer.saturating_add(
        if soft {
            soft_time(dt)
        } else {
            dt
        },
    );
    if t >= v.drop_interval {
        let v1 = GameView { drop_timer: 0, ..v };
        if moved(v1, 0, 1).1 {
            (moved(v1, 0, 1).0, false)
        } else {
            settled(v1)
        }
    } else {
        (GameView { drop_timer: t, ..v }, false)
    }
}

/// One tick, up to the spawn of the next piece, and whether a spawn is due.
pub open spec fn stepped(v: GameView, input: Input, dt: u64) -> (GameView, bool) {
    if v.game_over {
        if input.restart {
            (unspawned(), true)
        } else {
            (v, false)
        }
    } else {
        let v1 = horizontal_step(v, input.left, input.right, dt);
        let v2 = if input.rotate {
            rotated(v1)
        } else {
            v1
        };
        if input.hard_drop {
            settled(GameView { active: landing(v2.grid, v2.active), ..v2 })
        } else {
            gravity_step(v2, input.soft_drop, dt)
        }
    }
}

/// One whole tick, where a due spawn draws `kind`.
pub open spec fn ticked(v: GameView, input: Input, dt: u64, kind: Kind) -> GameView {
    if stepped(v, input, dt).1 {
        spawned(stepped(v, input, dt).0, kind)
    } else {
        stepped(v, input, dt).0
    }
}

/// While playing, the active piece does not collide.
pub open spec fn view_wf(v: GameView) -> bool {
    !v.game_over ==> !collides(v.grid, v.active)
}

/// A piece that does not collide has its anchor near the board.
pub proof fn lemma_fits(g: Grid, p: Piece)
    requires
        !collides(g, p),
    ensures
        -4 < p.x < 10,
        p.y < BOARD_H,
        within_walls(p),
{
    lemma_shape_bounds(p.kind, p.rot, 0);
    assert(!blocked(g, p.cell(0).0, p.cell(0).1));
    assert forall|i: int| 0 <= i < 4 implies 0 <= #[trigger] p.cell(i).0 < 10 && p.cell(i).1 < BOARD_H by {
        assert(!blocked(g, p.cell(i).0, p.cell(i).1));
    }
}

/// A spawned piece never collides on an empty board.
pub proof fn lemma_spawn_fits_empty(kind: Kind)
    ensures
        !collides(empty_grid(), spawn_piece_of(kind)),
{
    let p = spawn_piece_of(kind);
    assert forall|i: int| 0 <= i < 4 implies !#[trigger] blocked(empty_grid(), p.cell(i).0, p.cell(i).1) by {
        lemma_shape_bounds(kind, Rotation::R0, i);
    }
}

/// Relies on macroquad::rand::gen_range (quad-rand): it scales a 32-bit draw
/// by `high / 2^32` in `f64` and truncates, which is exact for small `high`,
/// so the result lies in `0..high`.
#[verifier::external_body]
fn random_below(high: i32) -> (r: i32)
    requires
        0 < high <= 1024,
    ensures
        0 <= r < high,
{
    macroquad::rand::gen_range(0, high)
}

/// A piece kind drawn uniformly at random.
pub fn random_kind() -> (r: Kind)
    ensures
        r.index_spec() < KIND_COUNT,
{
    let i = random_below(KIND_COUNT as i32);
    Kind::from_index(i as usize)
}

/// The running game: the single owned session state.
#[derive(Clone, Copy, Debug, PartialEq, Eq)]
pub struct Game {
    pub board: Board,
    pub active: Piece,
    pub drop_timer: u64,
    pub drop_interval: u64,
    pub horizontal: HorizontalRepeat,
    pub score: u64,
    pub lines: u64,
    pub game_over: bool,
}

impl View for Game {
    type V = GameView;

    open spec fn view(&self) -> GameView {
        GameView {
            grid: self.board@,
            active: self.active,
            drop_timer: self.drop_timer,
            drop_interval: self.drop_interval,
            horizontal: self.horizontal,
            score: self.score,
            lines: self.lines,
            game_over: self.game_over,
        }
    }
}

/// The gravity period after `lines` cleared lines, as `drop_interval_for`.
pub fn drop_interval_after(lines: u64) -> (r: u64)
    ensures
        r == drop_interval_for(lines),
{
    if lines >= (DROP_INTERVAL_START - DROP_INTERVAL_MIN) / DROP_INTERVAL_STEP {
        DROP_INTERVAL_MIN
    } else {
        DROP_INTERVAL_START - lines * DROP_INTERVAL_STEP
    }
}

/// Points for clearing `n` rows with one lock, as `points`.
pub fn line_points(n: usize) -> (r: u64)
    ensures
        r == points(n as int),
{
    if n == 1 {
        100
    } else if n == 2 {
        300
    } else if n == 3 {
        500
    } else if n == 4 {
        800
    } else {
        0
    }
}

/// Gravity time that `dt` adds while soft drop is held, as `soft_time`.
pub fn soft_drop_time(dt: u64) -> (r: u64)
    ensures
        r == soft_time(dt),
{
    if dt > u64::MAX / SOFT_DROP_FACTOR {
        u64::MAX
    } else {
        dt * SOFT_DROP_FACTOR
    }
}

impl Game {
    pub open spec fn wf(&self) -> bool {
        view_wf(self@)
    }

    /// A fresh game before its first piece is drawn.
    fn unspawned() -> (r: Game)
        ensures
            r@ == unspawned(),
    {
        Game {
            board: Board::empty(),
            active: Piece { kind: Kind::I, rot: Rotation::R0, x: SPAWN_X, y: SPAWN_Y },
            drop_timer: 0,
            drop_interval: DROP_INTERVAL_START,
            horizontal: HorizontalRepeat::new(),
            score: 0,
            lines: 0,
            game_over: false,
        }
    }

    /// Whether `p` collides on this game's board.
    pub fn collides(&self, p: Piece) -> (r: bool)
        ensures
            r == collides(self@.grid, p),
    {
        self.board.collides(p)
    }

    /// Spawns a piece of `kind` at the spawn anchor; the game ends if it
    /// collides.
    pub fn spawn_piece_with(&mut self, kind: Kind)
        ensures
            final(self)@ == spawned(old(self)@, kind),
    {
        let p = Piece { kind, rot: Rotation::R0, x: SPAWN_X, y: SPAWN_Y };
        self.active = p;
        if self.board.collides(p) {
            self.game_over = true;
        }
    }

    /// Spawns a piece of a randomly drawn kind.
    pub fn spawn_piece(&mut self)
        ensures
            exists|k: Kind| final(self)@ == spawned(old(self)@, k),
    {
        let k = random_kind();
        self.spawn_piece_with(k);
    }

    /// A fresh game whose first piece is of `kind`.
    pub fn new_with(kind: Kind) -> (r: Game)
        ensures
            r@ == fresh(kind),
            r.wf(),
    {
        let mut g = Game::unspawned();
        proof {
            lemma_spawn_fits_empty(kind);
        }
        g.spawn_piece_with(kind);
        g
    }

    /// A fresh game whose first piece is drawn at random.
    pub fn new() -> (r: Game)
        ensures
            exists|k: Kind| r@ == fresh(k),
            r.wf(),
    {
        Game::new_with(random_kind())
    }

    /// Shifts the active piece by `(dx, dy)` unless it would collide or the
    /// game is over; tells whether it moved.
    pub fn try_move(&mut self, dx: i32, dy: i32) -> (r: bool)
        requires
            i32::MIN <= old(self).active.x + dx <= i32::MAX,
            i32::MIN <= old(self).active.y + dy <= i32::MAX,
        ensures
            (final(self)@, r) == moved(old(self)@, dx as int, dy as int),
    {
        if self.game_over {
            return false;
        }
        let next = Piece { x: self.active.x + dx, y: self.active.y + dy, ..self.active };
        assert(next == self.active.shifted(dx as int, dy as int));
        if self.board.collides(next) {
            return false;
        }
        self.active = next;
        true
    }

    /// Rotates the active piece clockwise, trying the same column, then one
    /// to the left, then one to the right; leaves it as it is if all three
    /// collide or the game is over.
    pub fn try_rotate(&mut self)
        requires
            old(self).wf(),
        ensures
            final(self)@ == rotated(old(self)@),
    {
        if self.game_over {
            return;
        }
        proof {
            lemma_fits(self@.grid, self.active);
        }
        let next = Piece { rot: self.active.rot.next(), ..self.active };
        if !self.board.collides(next) {
            self.active = next;
            return;
        }
        let left = Piece { x: next.x - 1, ..next };
        assert(left == next.shifted(-1, 0));
        if !self.board.collides(left) {
            self.active = left;
            return;
        }
        let right = Piece { x: next.x + 1, ..next };
        assert(right == next.shifted(1, 0));
        if !self.board.collides(right) {
            self.active = right;
        }
    }

    /// Clears full rows, adds them to the line count, awards their points and
    /// recomputes the gravity period; returns how many rows were cleared.
    pub fn clear_lines(&mut self) -> (count: usize)
        ensures
            final(self)@ == scored(old(self)@),
            count == full_count(old(self)@.grid),
    {
        let n = self.board.clear_lines();
        self.lines = self.lines.saturating_add(n as u64);
        self.score = self.score.saturating_add(line_points(n));
        self.drop_interval = drop_interval_after(self.lines);
        n
    }

    /// Writes the active piece into the board. A cell above the top ends the
    /// game (the other cells are still written); otherwise full rows are
    /// cleared and the result tells that a new piece is due.
    fn settle(&mut self) -> (spawn_due: bool)
        requires
            old(self).wf(),
            !old(self).game_over,
        ensures
            (final(self)@, spawn_due) == settled(old(self)@),
            !spawn_due ==> final(self).game_over,
            spawn_due ==> !final(self).game_over,
    {
        proof {
            lemma_fits(self@.grid, self.active);
        }
        let topped_out = self.board.place(self.active);
        if topped_out {
            self.game_over = true;
            return false;
        }
        self.clear_lines();
        true
    }

    /// Locks the active piece; unless that tops out, spawns a piece of `kind`.
    pub fn lock_piece_with(&mut self, kind: Kind)
        requires
            old(self).wf(),
            !old(self).game_over,
        ensures
            final(self)@ == locked(old(self)@, kind),
            final(self).wf(),
    {
        if self.settle() {
            self.spawn_piece_with(kind);
        }
    }

    /// Locks the active piece; unless that tops out, spawns a random piece.
    pub fn lock_piece(&mut self)
        requires
            old(self).wf(),
            !old(self).game_over,
        ensures
            exists|k: Kind| final(self)@ == locked(old(self)@, k),
            final(self).wf(),
    {
        let ghost start = self@;
        if self.settle() {
            let ghost mid = self@;
            self.spawn_piece();
            proof {
                let k = choose|k: Kind| self@ == spawned(mid, k);
                assert(self@ == locked(start, k));
            }
        } else {
            assert(self@ == locked(start, Kind::I));
        }
    }

    /// One tick of horizontal movement with the given keys held for `dt`.
    pub fn update_horizontal_movement(&mut self, left: bool, right: bool, dt: u64)
        requires
            old(self).wf(),
            !old(self).game_over,
        ensures
            final(self)@ == horizontal_step(old(self)@, left, right, dt),
            final(self).wf(),
            !final(self).game_over,
    {
        let dir = held_direction(left, right);
        let fresh_press = self.horizontal.advance(dir, dt);
        proof {
            lemma_fits(self@.grid, self.active);
        }
        if fresh_press {
            self.try_move(dir, 0);
            return;
        }
        if dir == 0 {
            return;
        }
        let ghost goal = repeat_moves(self@, dir as int);
        loop
            invariant_except_break
                repeat_moves(self@, dir as int) == goal,
            invariant
                self.wf(),
                !self.game_over,
                dir == 1 || dir == -1,
            ensures
                self@ == goal,
            decreases self.horizontal.repeat_timer,
        {
            if !self.horizontal.take_period() {
                break;
            }
            proof {
                lemma_fits(self@.grid, self.active);
            }
            if !self.try_move(dir, 0) {
                break;
            }
        }
    }

    /// Moves the active piece straight down as far as it goes.
    fn drop_to_floor(&mut self)
        requires
            old(self).wf(),
            !old(self).game_over,
        ensures
            final(self)@ == (GameView { active: landing(old(self)@.grid, old(self).active), ..old(self)@ }),
            final(self).wf(),
    {
        let ghost start = self@;
        let ghost goal = landing(start.grid, start.active);
        loop
            invariant
                self.wf(),
                !self.game_over,
                self@ == (GameView { active: self.active, ..start }),
                landing(start.grid, self.active) == goal,
            ensures
                self.active == goal,
            decreases BOARD_H - self.active.y,
        {
            proof {
                lemma_fits(self@.grid, self.active);
            }
            if !self.try_move(0, 1) {
                break;
            }
        }
    }

    /// One tick up to the spawn of the next piece; tells whether a spawn is
    /// due (after a lock that did not top out, or a restart).
    pub fn step(&mut self, input: Input, dt: u64) -> (spawn_due: bool)
        requires
            old(self).wf(),
        ensures
            (final(self)@, spawn_due) == stepped(old(self)@, input, dt),
            !spawn_due ==> final(self).wf(),
            spawn_due ==> !final(self).game_over,
    {
        if self.game_over {
            if input.restart {
                *self = Game::unspawned();
                return true;
            }
            return false;
        }
        self.update_horizontal_movement(input.left, input.right, dt);
        if input.rotate {
            self.try_rotate();
        }
        if input.hard_drop {
            self.drop_to_floor();
            return self.settle();
        }
        let add = if input.soft_drop {
            soft_drop_time(dt)
        } else {
            dt
        };
        self.drop_timer = self.drop_timer.saturating_add(add);
        if self.drop_timer >= self.drop_interval {
            self.drop_timer = 0;
            proof {
                lemma_fits(self@.grid, self.active);
            }
            if !self.try_move(0, 1) {
                return self.settle();
            }
        }
        false
    }

    /// One tick of `dt` microseconds with the given intents; a piece spawned
    /// during the tick is of `kind`.
    pub fn update_with(&mut self, input: Input, dt: u64, kind: Kind)
        requires
            old(self).wf(),
        ensures
            final(self)@ == ticked(old(self)@, input, dt, kind),
            final(self).wf(),
    {
        if self.step(input, dt) {
            self.spawn_piece_with(kind);
        }
    }

    /// One tick of `dt` microseconds with the given intents; a piece spawned
    /// during the tick is drawn at random.
    pub fn update(&mut self, input: Input, dt: u64)
        requires
            old(self).wf(),
        ensures
            exists|k: Kind| final(self)@ == ticked(old(self)@, input, dt, k),
            final(self).wf(),
    {
        let ghost start = self@;
        if self.step(input, dt) {
            let ghost mid = self@;
            self.spawn_piece();
            proof {
                let k = choose|k: Kind| self@ == spawned(mid, k);
                assert(self@ == ticked(start, input, dt, k));
            }
        } else {
            assert(self@ == ticked(start, input, dt, Kind::I));
        }
    }
}

} // verus!
