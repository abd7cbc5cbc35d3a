use snake_core::game::GameState;
use snake_core::game::Snapshot;
use snake_core::grid::Cell;
use snake_core::grid::Direction;

fn cell(x: i32, y: i32) -> Cell {
    Cell { x, y }
}

fn new_default(seed: u64) -> GameState {
    GameState::new(16, 16, cell(3, 3), Direction::Up, seed)
}

fn assert_sound(g: &GameState) {
    let s = g.snapshot();
    // all snake cells pairwise distinct
    for i in 0..s.cells.len() {
        for j in (i + 1)..s.cells.len() {
            assert_ne!(s.cells[i], s.cells[j], "snake cells overlap");
        }
    }
    // all snake cells on the field
    for c in &s.cells {
        assert!(0 <= c.x && c.x < 16 && 0 <= c.y && c.y < 16, "snake off the field");
    }
    // food, when present, on the field and off the snake
    if let Some(f) = s.food {
        assert!(0 <= f.x && f.x < 16 && 0 <= f.y && f.y < 16, "food off the field");
        assert!(!s.cells.contains(&f), "food on the snake");
    }
    // length tracks the score
    assert_eq!(s.cells.len(), 2 + s.score as usize);
}

#[test]
fn opposite_maps_each_direction() {
    assert_eq!(Direction::Left.opposite(), Direction::Right);
    assert_eq!(Direction::Right.opposite(), Direction::Left);
    assert_eq!(Direction::Up.opposite(), Direction::Down);
    assert_eq!(Direction::Down.opposite(), Direction::Up);
}

#[test]
fn new_game_initial_state() {
    let g = new_default(11);
    let s = g.snapshot();
    assert_eq!(s.cells, vec![cell(3, 3), cell(3, 2)]);
    assert_eq!(s.score, 0);
    assert!(s.food.is_some());
    assert_sound(&g);
    assert_eq!(g.current_direction, Direction::Up);
    assert_eq!(g.pending_direction, Direction::Up);
}

#[test]
fn reversal_is_rejected_and_head_moves_up() {
    let mut g = new_default(5);
    // move the food out of the snake's way so this tick neither eats nor dies
    g.food = Some(cell(10, 10));
    g.submit_direction(Direction::Down);
    assert_eq!(g.pending_direction, Direction::Up);
    let out = g.tick();
    assert!(!out.reset);
    let s = g.snapshot();
    assert_eq!(s.cells[0], cell(3, 4), "head must move Up, not Down");
}

#[test]
fn non_reversal_input_is_latched() {
    let mut g = new_default(5);
    g.submit_direction(Direction::Left);
    assert_eq!(g.pending_direction, Direction::Left);
    g.submit_direction(Direction::Right);
    // Right reverses the latched Left? No: reversal is judged against the
    // direction applied last tick (Up), so Right is accepted.
    assert_eq!(g.pending_direction, Direction::Right);
}

#[test]
fn growth_on_food() {
    let mut g = new_default(21);
    g.food = Some(cell(3, 4));
    let out = g.tick();
    assert!(!out.reset);
    assert_eq!(out.score, 1);
    let s = g.snapshot();
    assert_eq!(s.cells, vec![cell(3, 4), cell(3, 3), cell(3, 2)]);
    assert_eq!(s.score, 1);
    let f = s.food.expect("food must be re-placed after eating");
    assert!(!s.cells.contains(&f));
    assert_sound(&g);
}

#[test]
fn bounds_death_resets() {
    let mut g = GameState::new(16, 16, cell(0, 5), Direction::Left, 13);
    let out = g.tick();
    assert!(out.reset, "moving Left from x = 0 must reset");
    assert_eq!(out.score, 0);
    let s = g.snapshot();
    assert_eq!(s.cells, vec![cell(0, 5), cell(1, 5)]);
    assert_eq!(s.score, 0);
    assert!(s.food.is_some());
    assert_sound(&g);
}

#[test]
fn bounds_death_on_far_wall() {
    let mut g = GameState::new(16, 16, cell(15, 8), Direction::Right, 13);
    let out = g.tick();
    assert!(out.reset, "moving Right from x = 15 on a width-16 field must reset");
    assert_sound(&g);
}

#[test]
fn self_collision_death_resets() {
    let mut g = new_default(31);
    // a length-4 snake forming a U-turn; moving Left lands on the body
    g.snake = vec![cell(3, 3), cell(3, 2), cell(2, 2), cell(2, 3)];
    g.score = 2;
    g.current_direction = Direction::Up;
    g.pending_direction = Direction::Left;
    g.food = Some(cell(10, 10));
    let out = g.tick();
    assert!(out.reset, "moving onto the body must reset");
    assert_eq!(out.score, 0);
    let s = g.snapshot();
    assert_eq!(s.cells, vec![cell(3, 3), cell(3, 2)]);
    assert_eq!(s.score, 0);
    assert!(s.food.is_some());
    assert_sound(&g);
}

#[test]
fn moving_into_vacated_tail_cell_still_dies() {
    // the collision check runs against the pre-move body, so stepping into
    // the cell the tail is vacating this very tick is judged a collision
    let mut g = new_default(37);
    g.snake = vec![cell(3, 3), cell(4, 3), cell(4, 4), cell(3, 4)];
    g.score = 2;
    g.current_direction = Direction::Left;
    g.pending_direction = Direction::Up;
    g.food = Some(cell(10, 10));
    let out = g.tick();
    assert!(out.reset);
    assert_sound(&g);
}

#[test]
fn advance_shifts_every_segment() {
    let mut g = new_default(41);
    g.snake = vec![cell(5, 5), cell(5, 4), cell(4, 4)];
    g.score = 1;
    g.current_direction = Direction::Up;
    g.pending_direction = Direction::Up;
    g.food = Some(cell(10, 10));
    let died = g.advance();
    assert!(!died);
    let s = g.snapshot();
    assert_eq!(s.cells, vec![cell(5, 6), cell(5, 5), cell(5, 4)]);
    assert_eq!(g.last_tail, Some(cell(4, 4)));
    assert_eq!(g.current_direction, Direction::Up);
}

#[test]
fn eating_is_detected_then_growth_applied() {
    let mut g = new_default(43);
    g.food = Some(cell(3, 3));
    g.last_tail = Some(cell(7, 7));
    let ate = g.check_eating();
    assert!(ate);
    assert_eq!(g.food, None);
    let before = g.snapshot();
    g.apply_growth();
    let s = g.snapshot();
    assert_eq!(s.score, before.score + 1);
    assert_eq!(s.cells.len(), before.cells.len() + 1);
    assert_eq!(*s.cells.last().unwrap(), cell(7, 7));
}

#[test]
fn eating_misses_when_food_elsewhere() {
    let mut g = new_default(43);
    g.food = Some(cell(9, 9));
    let ate = g.check_eating();
    assert!(!ate);
    assert_eq!(g.food, Some(cell(9, 9)));
}

#[test]
fn food_placement_validity_and_fairness() {
    let mut g = new_default(47);
    let blocked = vec![cell(3, 3), cell(3, 2)];
    let mut counts = [[0u32; 16]; 16];
    let mut previous = g.food;
    for _ in 0..10_000 {
        let placed = g.place_food();
        assert!(placed);
        let f = g.food.expect("a free cell exists, so food must be placed");
        assert!(0 <= f.x && f.x < 16 && 0 <= f.y && f.y < 16);
        assert!(!blocked.contains(&f), "food placed on a blocked cell");
        assert_ne!(Some(f), previous, "food placed on the old food cell");
        counts[f.x as usize][f.y as usize] += 1;
        previous = Some(f);
    }
    // every non-blocked cell is reachable, and none is wildly favoured:
    // 10_000 draws over 254 free cells average to about 39 per cell
    for x in 0..16i32 {
        for y in 0..16i32 {
            let n = counts[x as usize][y as usize];
            if blocked.contains(&cell(x, y)) {
                assert_eq!(n, 0);
            } else {
                assert!(n >= 1, "cell ({x}, {y}) was never chosen");
                assert!(n <= 500, "cell ({x}, {y}) chosen {n} times, far over the mean");
            }
        }
    }
}

#[test]
fn full_board_leaves_food_unplaced() {
    // a 2-by-1 field is completely covered by the initial snake, so the
    // documented placement policy reports that no cell is free
    let mut g = GameState::new(2, 1, cell(0, 0), Direction::Left, 3);
    assert_eq!(g.snapshot().cells, vec![cell(0, 0), cell(1, 0)]);
    assert!(g.food.is_none());
    assert!(!g.place_food());
    assert!(g.food.is_none());
}

fn scripted_direction(step: u64) -> Option<Direction> {
    // a fixed pseudo-random input script, identical across runs
    let r = step.wrapping_mul(6364136223846793005).wrapping_add(1442695040888963407) >> 33;
    match r % 6 {
        0 => Some(Direction::Left),
        1 => Some(Direction::Up),
        2 => Some(Direction::Right),
        3 => Some(Direction::Down),
        _ => None,
    }
}

fn snapshots_of_run(seed: u64, ticks: u64) -> Vec<(Snapshot, u32, bool)> {
    let mut g = new_default(seed);
    let mut log = Vec::new();
    for step in 0..ticks {
        if let Some(d) = scripted_direction(step) {
            g.submit_direction(d);
        }
        let out = g.tick();
        log.push((g.snapshot(), out.score, out.reset));
    }
    log
}

#[test]
fn replay_with_same_seed_is_identical() {
    let a = snapshots_of_run(12345, 400);
    let b = snapshots_of_run(12345, 400);
    assert_eq!(a.len(), b.len());
    for (x, y) in a.iter().zip(b.iter()) {
        assert_eq!(x, y, "two runs with one seed and one input script diverged");
    }
}

#[test]
fn invariants_hold_across_many_ticks() {
    let mut g = new_default(99);
    let mut resets = 0u32;
    for step in 0..2_000u64 {
        if let Some(d) = scripted_direction(step.wrapping_mul(7)) {
            g.submit_direction(d);
        }
        let out = g.tick();
        assert_sound(&g);
        if out.reset {
            resets += 1;
            assert_eq!(out.score, 0);
        }
    }
    // the run must actually have exercised deaths
    assert!(resets > 0, "the script never killed the snake");
}

#[test]
fn steered_run_grows_and_stays_sound() {
    let mut g = new_default(101);
    let mut meals = 0u32;
    for _ in 0..2_000u64 {
        // chase the food greedily; a reversal is simply ignored by the latch
        let s = g.snapshot();
        if let Some(f) = s.food {
            let head = s.cells[0];
            let d = if f.x > head.x {
                Direction::Right
            } else if f.x < head.x {
                Direction::Left
            } else if f.y > head.y {
                Direction::Up
            } else {
                Direction::Down
            };
            g.submit_direction(d);
        }
        let before = g.snapshot().score;
        let out = g.tick();
        assert_sound(&g);
        if !out.reset && out.score == before + 1 {
            meals += 1;
        }
    }
    // the run must actually have exercised growth
    assert!(meals > 0, "the snake never ate");
}

#[test]
fn snapshot_reflects_state() {
    let mut g = new_default(55);
    g.food = Some(cell(8, 9));
    let s = g.snapshot();
    assert_eq!(s.cells, vec![cell(3, 3), cell(3, 2)]);
    assert_eq!(s.food, Some(cell(8, 9)));
    assert_eq!(s.score, 0);
}
