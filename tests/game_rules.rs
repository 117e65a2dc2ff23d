use tetris_core::board::{Board, BOARD_H, BOARD_W};
use tetris_core::game::{
    drop_interval_after, line_points, random_kind, soft_drop_time, Game, Input,
    DROP_INTERVAL_START,
};
use tetris_core::repeat::{held_direction, repeat_interval, HorizontalRepeat};
use tetris_core::shape::{offsets, Kind, Piece, Rotation};

const NO_INPUT: Input = Input {
    left: false,
    right: false,
    soft_drop: false,
    rotate: false,
    hard_drop: false,
    restart: false,
};

fn piece(kind: Kind, rot: Rotation, x: i32, y: i32) -> Piece {
    Piece { kind, rot, x, y }
}

fn game_with(board: Board, active: Piece) -> Game {
    Game {
        board,
        active,
        drop_timer: 0,
        drop_interval: DROP_INTERVAL_START,
        horizontal: HorizontalRepeat::new(),
        score: 0,
        lines: 0,
        game_over: false,
    }
}

fn occupied_count(board: &Board) -> usize {
    let mut n = 0;
    for y in 0..BOARD_H {
        for x in 0..BOARD_W {
            if board.cell(x, y).is_some() {
                n += 1;
            }
        }
    }
    n
}

fn fill_row(board: &mut Board, y: usize, kind: Kind) {
    for x in 0..BOARD_W {
        board.rows[y][x] = Some(kind);
    }
}

#[test]
fn shape_table_i_piece() {
    assert_eq!(offsets(Kind::I, Rotation::R0), [(0, 1), (1, 1), (2, 1), (3, 1)]);
    assert_eq!(offsets(Kind::I, Rotation::R1), [(2, 0), (2, 1), (2, 2), (2, 3)]);
    assert_eq!(offsets(Kind::O, Rotation::R3), [(1, 0), (2, 0), (1, 1), (2, 1)]);
    assert_eq!(offsets(Kind::L, Rotation::R3), [(0, 0), (1, 0), (1, 1), (1, 2)]);
}

#[test]
fn kind_index_round_trip() {
    for i in 0..7 {
        assert_eq!(Kind::from_index(i).index(), i);
    }
    assert_eq!(Kind::T.index(), 2);
    assert_eq!(Rotation::R3.next(), Rotation::R0);
}

#[test]
fn collides_outside_walls_floor_and_on_cells() {
    let mut board = Board::empty();
    // Left wall: I horizontal at x = -1 has a cell at column -1.
    assert!(board.collides(piece(Kind::I, Rotation::R0, -1, 0)));
    // Right wall: cells up to column 10.
    assert!(board.collides(piece(Kind::I, Rotation::R0, 7, 0)));
    assert!(!board.collides(piece(Kind::I, Rotation::R0, 6, 0)));
    // Floor: I horizontal occupies row y + 1.
    assert!(board.collides(piece(Kind::I, Rotation::R0, 0, 19)));
    assert!(!board.collides(piece(Kind::I, Rotation::R0, 0, 18)));
    // Rows above the board never block.
    assert!(!board.collides(piece(Kind::I, Rotation::R1, 0, -3)));
    board.rows[5][4] = Some(Kind::Z);
    assert!(board.collides(piece(Kind::O, Rotation::R0, 3, 5)));
    assert!(!board.collides(piece(Kind::O, Rotation::R0, 3, 6)));
}

#[test]
fn clear_lines_two_full_rows() {
    let mut board = Board::empty();
    fill_row(&mut board, 17, Kind::I);
    fill_row(&mut board, 19, Kind::J);
    board.rows[18][0] = Some(Kind::S);
    board.rows[16][1] = Some(Kind::T);
    board.rows[3][9] = Some(Kind::L);
    let before = board;
    let mut game = game_with(board, piece(Kind::O, Rotation::R0, 3, -1));
    let count = game.clear_lines();
    assert_eq!(count, 2);
    assert_eq!(game.score, 300);
    assert_eq!(game.lines, 2);
    assert_eq!(game.drop_interval, 480_000);
    let after = game.board;
    // Old row 18 is now the bottom row, old row 16 just above it.
    assert_eq!(after.rows[19], before.rows[18]);
    assert_eq!(after.rows[18], before.rows[16]);
    assert_eq!(after.rows[5], before.rows[3]);
    for y in 2..16 {
        assert_eq!(after.rows[y + 2], before.rows[y]);
    }
    assert_eq!(after.rows[0], [None; BOARD_W]);
    assert_eq!(after.rows[1], [None; BOARD_W]);
    assert_eq!(occupied_count(&after), 3);
}

#[test]
fn clear_lines_none_full_keeps_board() {
    let mut board = Board::empty();
    board.rows[19][0] = Some(Kind::I);
    let before = board;
    assert_eq!(board.clear_lines(), 0);
    assert_eq!(board, before);
}

#[test]
fn clear_lines_four_rows_scores_800() {
    let mut board = Board::empty();
    for y in 16..20 {
        fill_row(&mut board, y, Kind::I);
    }
    let mut game = game_with(board, piece(Kind::O, Rotation::R0, 3, -1));
    assert_eq!(game.clear_lines(), 4);
    assert_eq!(game.score, 800);
    assert_eq!(occupied_count(&game.board), 0);
}

#[test]
fn hard_drop_i_piece_lands_on_floor() {
    let mut game = Game::new_with(Kind::I);
    assert_eq!(game.active, piece(Kind::I, Rotation::R0, 3, -1));
    let input = Input { hard_drop: true, ..NO_INPUT };
    game.update_with(input, 16_000, Kind::T);
    for x in 0..BOARD_W {
        let expected = if (3..=6).contains(&x) { Some(Kind::I) } else { None };
        assert_eq!(game.board.cell(x, 19), expected);
    }
    assert_eq!(occupied_count(&game.board), 4);
    assert_eq!(game.active, piece(Kind::T, Rotation::R0, 3, -1));
    assert!(!game.game_over);
    assert_eq!(game.score, 0);
}

fn count_repeat_moves(ticks: usize) -> usize {
    let mut h = HorizontalRepeat::new();
    let mut moves = 0;
    for _ in 0..ticks {
        if h.advance(1, 100_000) {
            moves += 1;
        }
        while h.take_period() {
            moves += 1;
        }
    }
    moves
}

#[test]
fn horizontal_repeat_counts() {
    // Ticks at t = 0, 0.1, ..., 0.5 s.
    assert_eq!(count_repeat_moves(1), 1);
    assert_eq!(count_repeat_moves(2), 1);
    assert_eq!(count_repeat_moves(6), 6);
    // Ticks up to t = 1.0 s.
    assert_eq!(count_repeat_moves(11), 16);
}

#[test]
fn horizontal_repeat_state_and_periods() {
    let mut h = HorizontalRepeat::new();
    assert!(h.advance(-1, 50_000));
    assert_eq!(h, HorizontalRepeat { dir: -1, hold_time: 0, repeat_timer: 0 });
    assert!(!h.advance(-1, 100_000));
    assert_eq!(h.hold_time, 100_000);
    assert_eq!(h.repeat_timer, 0);
    assert!(!h.advance(-1, 100_000));
    assert_eq!(h.repeat_timer, 100_000);
    assert!(h.take_period());
    assert_eq!(h.repeat_timer, 20_000);
    assert!(!h.take_period());
    // Switching direction is a fresh press.
    assert!(h.advance(1, 10_000));
    assert_eq!(h.hold_time, 0);
    // Neither or both held is neutral.
    assert!(!h.advance(0, 10_000));
    assert_eq!(h, HorizontalRepeat::new());
    assert_eq!(repeat_interval(0), 80_000);
    assert_eq!(repeat_interval(399_999), 80_000);
    assert_eq!(repeat_interval(400_000), 50_000);
    assert_eq!(repeat_interval(900_000), 30_000);
    assert_eq!(held_direction(true, false), -1);
    assert_eq!(held_direction(false, true), 1);
    assert_eq!(held_direction(true, true), 0);
    assert_eq!(held_direction(false, false), 0);
}

#[test]
fn holding_right_stops_at_wall() {
    let mut game = Game::new_with(Kind::O);
    let input = Input { right: true, ..NO_INPUT };
    for _ in 0..11 {
        game.update_with(input, 100_000, Kind::O);
    }
    // O cells are at columns x + 1 and x + 2; the wall stops it at x = 7.
    assert_eq!(game.active.x, 7);
    assert!(!game.game_over);
}

#[test]
fn gravity_and_soft_drop() {
    let mut game = Game::new_with(Kind::T);
    game.update_with(NO_INPUT, 400_000, Kind::T);
    assert_eq!(game.active.y, -1);
    assert_eq!(game.drop_timer, 400_000);
    game.update_with(NO_INPUT, 100_000, Kind::T);
    assert_eq!(game.active.y, 0);
    assert_eq!(game.drop_timer, 0);
    let soft = Input { soft_drop: true, ..NO_INPUT };
    game.update_with(soft, 62_500, Kind::T);
    assert_eq!(game.active.y, 1);
    assert_eq!(soft_drop_time(10), 80);
    assert_eq!(soft_drop_time(u64::MAX), u64::MAX);
}

#[test]
fn rotation_with_kicks() {
    // Vertical I against the left wall: rotating to horizontal needs a kick.
    let mut game = game_with(Board::empty(), piece(Kind::I, Rotation::R3, -1, 5));
    game.try_rotate();
    // R0 at x = -1 collides, at x = -2 collides, at x = 0 fits.
    assert_eq!(game.active, piece(Kind::I, Rotation::R0, 0, 5));
    // Plain rotation in open space keeps the anchor.
    let mut open = game_with(Board::empty(), piece(Kind::T, Rotation::R0, 4, 5));
    open.try_rotate();
    assert_eq!(open.active, piece(Kind::T, Rotation::R1, 4, 5));
}

#[test]
fn rotation_blocked_is_noop() {
    // I horizontal in a one-row slot between full rows: no rotation fits.
    let mut board = Board::empty();
    fill_row(&mut board, 10, Kind::Z);
    fill_row(&mut board, 12, Kind::Z);
    let start = piece(Kind::I, Rotation::R0, 3, 10);
    let mut game = game_with(board, start);
    assert!(!game.collides(start));
    game.try_rotate();
    assert_eq!(game.active, start);
}

#[test]
fn try_move_blocked_and_free() {
    let mut game = Game::new_with(Kind::O);
    assert!(game.try_move(-1, 0));
    assert_eq!(game.active.x, 2);
    assert!(game.try_move(0, 1));
    assert_eq!(game.active.y, 0);
    assert!(game.try_move(-3, 0));
    assert!(!game.try_move(-1, 0));
    assert_eq!(game.active.x, -1);
}

fn top_out_game() -> Game {
    let mut board = Board::empty();
    board.rows[1][3] = Some(Kind::L);
    board.rows[1][4] = Some(Kind::L);
    board.rows[1][5] = Some(Kind::L);
    // T in R0 at (3, -1) covers (4, -1), (3, 0), (4, 0), (5, 0).
    game_with(board, piece(Kind::T, Rotation::R0, 3, -1))
}

#[test]
fn top_out_keeps_cells_and_ends_game() {
    let mut game = top_out_game();
    let input = Input { hard_drop: true, ..NO_INPUT };
    game.update_with(input, 16_000, Kind::I);
    assert!(game.game_over);
    assert_eq!(game.board.cell(3, 0), Some(Kind::T));
    assert_eq!(game.board.cell(4, 0), Some(Kind::T));
    assert_eq!(game.board.cell(5, 0), Some(Kind::T));
    assert_eq!(occupied_count(&game.board), 6);
    // No new piece was spawned.
    assert_eq!(game.active, piece(Kind::T, Rotation::R0, 3, -1));
    let frozen = game;
    assert!(!game.try_move(1, 0));
    game.try_rotate();
    let all = Input { left: true, rotate: true, soft_drop: true, hard_drop: true, ..NO_INPUT };
    game.update_with(all, 1_000_000, Kind::O);
    assert_eq!(game, frozen);
}

#[test]
fn lock_piece_with_spawns_next() {
    let mut game = game_with(Board::empty(), piece(Kind::O, Rotation::R0, 0, 18));
    game.lock_piece_with(Kind::S);
    assert_eq!(game.board.cell(1, 18), Some(Kind::O));
    assert_eq!(game.board.cell(2, 19), Some(Kind::O));
    assert_eq!(game.active, piece(Kind::S, Rotation::R0, 3, -1));
    assert!(!game.game_over);
}

#[test]
fn spawn_onto_occupied_cells_ends_game() {
    let mut board = Board::empty();
    board.rows[0][4] = Some(Kind::I);
    let mut game = game_with(board, piece(Kind::O, Rotation::R0, 0, 18));
    game.lock_piece_with(Kind::O);
    assert!(game.game_over);
}

#[test]
fn restart_gives_fresh_game() {
    let mut game = top_out_game();
    game.score = 1200;
    game.lines = 9;
    game.update_with(Input { hard_drop: true, ..NO_INPUT }, 0, Kind::I);
    assert!(game.game_over);
    game.update_with(Input { restart: true, ..NO_INPUT }, 16_000, Kind::Z);
    assert!(!game.game_over);
    assert_eq!(occupied_count(&game.board), 0);
    assert_eq!(game.score, 0);
    assert_eq!(game.lines, 0);
    assert_eq!(game.drop_interval, 500_000);
    assert_eq!(game.drop_timer, 0);
    assert_eq!(game.active, piece(Kind::Z, Rotation::R0, 3, -1));
    assert_eq!(game, Game::new_with(Kind::Z));
}

#[test]
fn drop_interval_shrinks_to_floor() {
    assert_eq!(drop_interval_after(0), 500_000);
    assert_eq!(drop_interval_after(1), 490_000);
    assert_eq!(drop_interval_after(10), 400_000);
    assert_eq!(drop_interval_after(39), 110_000);
    assert_eq!(drop_interval_after(40), 100_000);
    assert_eq!(drop_interval_after(1000), 100_000);
    let mut last = drop_interval_after(0);
    for lines in 1..100 {
        let now = drop_interval_after(lines);
        assert!(now <= last);
        assert!(now >= 100_000);
        last = now;
    }
}

#[test]
fn points_table() {
    assert_eq!(line_points(0), 0);
    assert_eq!(line_points(1), 100);
    assert_eq!(line_points(2), 300);
    assert_eq!(line_points(3), 500);
    assert_eq!(line_points(4), 800);
    assert_eq!(line_points(5), 0);
}

#[test]
fn score_and_cells_follow_locks() {
    // Drop O pieces side by side across the bottom: five of them fill two rows.
    let mut game = Game::new_with(Kind::O);
    let mut last_score = 0;
    let hard = Input { hard_drop: true, ..NO_INPUT };
    for i in 0..5 {
        // Move the O so that its cells sit at columns 2i and 2i + 1.
        let target = 2 * i as i32 - 1;
        while game.active.x > target {
            assert!(game.try_move(-1, 0));
        }
        while game.active.x < target {
            assert!(game.try_move(1, 0));
        }
        game.update_with(hard, 0, Kind::O);
        assert!(game.score >= last_score);
        last_score = game.score;
        if i < 4 {
            assert_eq!(occupied_count(&game.board), 4 * (i + 1));
        }
    }
    assert_eq!(occupied_count(&game.board), 0);
    assert_eq!(game.lines, 2);
    assert_eq!(game.score, 300);
    assert_eq!(game.drop_interval, 480_000);
}

#[test]
fn random_draws_vary() {
    let mut seen = [false; 7];
    for _ in 0..200 {
        seen[random_kind().index()] = true;
    }
    assert!(seen.iter().filter(|s| **s).count() > 1);
    let game = Game::new();
    assert!(!game.game_over);
    assert_eq!(game.active.y, -1);
}
