//! The simulation state and the per-tick pipeline: input latch, movement,
//! eating and growth, food placement, and the death/reset lifecycle.

use vstd::prelude::*;

use crate::grid::Cell;
use crate::grid::Direction;
use crate::rng;

verus! {

/// All cells of a snake body are pairwise distinct.
pub open spec fn cells_distinct(s: Seq<Cell>) -> bool {
    forall|i: int, j: int| 0 <= i < j < s.len() ==> s[i] != s[j]
}

/// Some cell of the `width` by `height` field is not occupied by `body`.
pub open spec fn free_cell_exists(width: i32, height: i32, body: Seq<Cell>) -> bool {
    exists|c: Cell| c.in_grid(width, height) && !body.contains(c)
}

/// How many random cells food placement samples before it falls back to a
/// deterministic scan of the field.
pub const FOOD_SAMPLE_TRIES: u32 = 64;

/// What one call of `tick` reports back to the scheduler.
#[derive(Clone, Copy, PartialEq, Eq, Structural, Debug)]
pub struct TickOutcome {
    /// The score after the tick (zero whenever a reset happened).
    pub score: u32,
    /// Whether the snake died this tick and the board was re-seeded.
    pub reset: bool,
}

/// A read-only copy of everything a renderer needs: the ordered snake cells
/// (head first), the food cell, and the score.
#[derive(PartialEq, Eq, Debug)]
pub struct Snapshot {
    pub cells: Vec<Cell>,
    pub food: Option<Cell>,
    pub score: u32,
}

/// The whole simulation state: configuration, the live snake (head first),
/// the latched input, the food cell, and the score. Exactly one stage mutates
/// it at a time; `tick` runs the stages in their fixed order.
pub struct GameState {
    /// Number of columns of the field.
    pub width: i32,
    /// Number of rows of the field.
    pub height: i32,
    /// Where the head is re-seeded after a death.
    pub start: Cell,
    /// The heading the snake is re-seeded with; the single trailing segment
    /// sits one cell behind the head, opposite to this direction.
    pub start_direction: Direction,
    /// The body, head first.
    pub snake: Vec<Cell>,
    /// The direction actually applied by the last movement step.
    pub current_direction: Direction,
    /// The latched input, applied by the next movement step.
    pub pending_direction: Direction,
    /// The single food cell, when one is on the board.
    pub food: Option<Cell>,
    /// The cell the tail vacated during the most recent movement step; a
    /// newly grown segment appears there.
    pub last_tail: Option<Cell>,
    /// Food eaten since the last reset.
    pub score: u32,
    /// The seeded source of randomness for food placement.
    pub rng: rand::rngs::StdRng,
}

impl GameState {
    /// The configuration is usable: positive extent, and the two re-seed
    /// cells lie on the field.
    pub open spec fn config_ok(self) -> bool {
        &&& 1 <= self.width
        &&& 1 <= self.height
        &&& self.start.in_grid(self.width, self.height)
        &&& self.start.step_spec(self.start_direction.opposite_spec()).in_grid(
            self.width,
            self.height,
        )
    }

    /// The two-segment body the snake is (re-)seeded with: the head at the
    /// start cell and one segment immediately behind it.
    pub open spec fn initial_snake(self) -> Seq<Cell> {
        seq![self.start, self.start.step_spec(self.start_direction.opposite_spec())]
    }

    /// The live body is sound: at least head and one segment, pairwise
    /// distinct cells, all on the field.
    pub open spec fn snake_ok(self) -> bool {
        &&& 2 <= self.snake@.len()
        &&& cells_distinct(self.snake@)
        &&& forall|i: int|
            0 <= i < self.snake@.len() ==> self.snake@[i].in_grid(self.width, self.height)
    }

    /// Food, when present, is on the field and on no snake cell.
    pub open spec fn food_ok(self) -> bool {
        self.food matches Some(f) ==> f.in_grid(self.width, self.height)
            && !self.snake@.contains(f)
    }

    /// The invariant that holds between ticks.
    pub open spec fn wf(self) -> bool {
        &&& self.config_ok()
        &&& self.snake_ok()
        &&& self.food_ok()
        &&& self.snake@.len() == 2 + self.score
    }

    /// Where the head will move on the next tick.
    pub open spec fn next_head(self) -> Cell {
        self.snake@[0].step_spec(self.pending_direction)
    }

    /// The next head cell leaves the field.
    pub open spec fn hits_wall(self) -> bool {
        !self.next_head().in_grid(self.width, self.height)
    }

    /// The next head cell lands on the pre-move body. The comparison is
    /// against the snapshot taken before the move, so moving into the cell the
    /// tail is vacating this same tick still counts as a collision.
    pub open spec fn hits_body(self) -> bool {
        self.snake@.contains(self.next_head())
    }

    /// The next movement step is fatal.
    pub open spec fn dies(self) -> bool {
        self.hits_wall() || self.hits_body()
    }

    /// The next movement step lands the head on the food.
    pub open spec fn eats(self) -> bool {
        !self.dies() && self.food == Some(self.next_head())
    }

    /// The body after one movement step: the new head in front, and every
    /// trailing segment in the pre-move position of the one ahead of it.
    pub open spec fn moved_snake(self) -> Seq<Cell> {
        Seq::new(
            self.snake@.len(),
            |i: int| if i == 0 { self.next_head() } else { self.snake@[i - 1] },
        )
    }

    /// The body after a movement step followed by growth: the whole pre-move
    /// body with the new head in front, since the grown segment appears
    /// exactly where the tail just was.
    pub open spec fn grown_snake(self) -> Seq<Cell> {
        seq![self.next_head()] + self.snake@
    }

    /// A cell no food may be placed on: any snake cell, and the current food
    /// cell if one is present.
    pub open spec fn blocked(self, c: Cell) -> bool {
        self.snake@.contains(c) || self.food == Some(c)
    }

    /// The body after a full tick.
    pub open spec fn tick_snake(self) -> Seq<Cell> {
        if self.dies() {
            self.initial_snake()
        } else if self.eats() {
            self.grown_snake()
        } else {
            self.moved_snake()
        }
    }

    /// The score after a full tick.
    pub open spec fn tick_score(self) -> int {
        if self.dies() {
            0
        } else if self.eats() {
            self.score + 1
        } else {
            self.score as int
        }
    }

    /// The heading (both current and pending) after a full tick.
    pub open spec fn tick_direction(self) -> Direction {
        if self.dies() {
            self.start_direction
        } else {
            self.pending_direction
        }
    }
}

/// Whether the body `v` occupies cell `c`.
fn contains_cell(v: &Vec<Cell>, c: Cell) -> (r: bool)
    ensures
        r == v@.contains(c),
{
    let mut i: usize = 0;
    while i < v.len()
        invariant
            0 <= i <= v@.len(),
            forall|k: int| 0 <= k < i ==> v@[k] != c,
        decreases v@.len() - i,
    {
        if v[i] == c {
            return true;
        }
        i += 1;
    }
    false
}

/// Copies the cells of `v`.
fn copy_cells(v: &Vec<Cell>) -> (r: Vec<Cell>)
    ensures
        r@ == v@,
{
    let mut r: Vec<Cell> = Vec::new();
    let mut i: usize = 0;
    while i < v.len()
        invariant
            0 <= i <= v@.len(),
            r@ == v@.subrange(0, i as int),
        decreases v@.len() - i,
    {
        r.push(v[i]);
        assert(r@ =~= v@.subrange(0, (i + 1) as int));
        i += 1;
    }
    assert(r@ =~= v@);
    r
}

impl GameState {
    /// Builds a fresh game on a `width` by `height` field, with the snake
    /// seeded at `start` heading `start_direction`, and one food item placed
    /// on a free cell by the generator seeded with `seed`.
    pub fn new(
        width: i32,
        height: i32,
        start: Cell,
        start_direction: Direction,
        seed: u64,
    ) -> (g: GameState)
        requires
            1 <= width,
            1 <= height,
            start.in_grid(width, height),
            start.step_spec(start_direction.opposite_spec()).in_grid(width, height),
        ensures
            g.wf(),
            g.width == width,
            g.height == height,
            g.start == start,
            g.start_direction == start_direction,
            g.snake@ == g.initial_snake(),
            g.current_direction == start_direction,
            g.pending_direction == start_direction,
            g.score == 0,
            g.food is Some == free_cell_exists(width, height, g.snake@),
            g.last_tail is None,
    {
        let behind = start.step(start_direction.opposite());
        let mut snake: Vec<Cell> = Vec::new();
        snake.push(start);
        snake.push(behind);
        let mut g = GameState {
            width,
            height,
            start,
            start_direction,
            snake,
            current_direction: start_direction,
            pending_direction: start_direction,
            food: None,
            last_tail: None,
            score: 0,
            rng: rng::rng_from_seed(seed),
        };
        proof {
            crate::grid::lemma_step_moves(start, start_direction.opposite_spec());
            assert(g.snake@ =~= g.initial_snake());
        }
        let _ = g.place_food();
        g
    }

    /// Latches a raw directional input for the next tick, unless it is the
    /// exact reverse of the direction applied last tick; a reversal is
    /// silently ignored. Safe to call any number of times between ticks.
    pub fn submit_direction(&mut self, d: Direction)
        ensures
            d != old(self).current_direction.opposite_spec() ==> final(self).pending_direction
                == d,
            d == old(self).current_direction.opposite_spec() ==> final(self).pending_direction
                == old(self).pending_direction,
            final(self).snake == old(self).snake,
            final(self).current_direction == old(self).current_direction,
            final(self).food == old(self).food,
            final(self).last_tail == old(self).last_tail,
            final(self).score == old(self).score,
            final(self).width == old(self).width,
            final(self).height == old(self).height,
            final(self).start == old(self).start,
            final(self).start_direction == old(self).start_direction,
            final(self).wf() == old(self).wf(),
    {
        if !(d == self.current_direction.opposite()) {
            self.pending_direction = d;
        }
    }

    /// Whether `c` is blocked for food placement.
    fn is_blocked(&self, c: Cell) -> (r: bool)
        ensures
            r == self.blocked(c),
    {
        if contains_cell(&self.snake, c) {
            return true;
        }
        match self.food {
            Some(f) => f == c,
            None => false,
        }
    }

    /// Places the food on a cell that is neither on the snake nor on the
    /// current food cell: up to `FOOD_SAMPLE_TRIES` uniformly random draws
    /// over the whole field, then — so that placement cannot retry forever —
    /// a deterministic scan for the first free cell. Reports whether a free
    /// cell existed; when none does, the food is left as it was.
    pub fn place_food(&mut self) -> (placed: bool)
        requires
            1 <= old(self).width,
            1 <= old(self).height,
        ensures
            placed == (exists|c: Cell|
                c.in_grid(old(self).width, old(self).height) && !old(self).blocked(c)),
            old(self).food is None ==> placed == free_cell_exists(
                old(self).width,
                old(self).height,
                old(self).snake@,
            ),
            placed ==> (final(self).food matches Some(f) && f.in_grid(
                old(self).width,
                old(self).height,
            ) && !old(self).snake@.contains(f) && old(self).food != Some(f)),
            !placed ==> final(self).food == old(self).food,
            final(self).snake == old(self).snake,
            final(self).current_direction == old(self).current_direction,
            final(self).pending_direction == old(self).pending_direction,
            final(self).last_tail == old(self).last_tail,
            final(self).score == old(self).score,
            final(self).width == old(self).width,
            final(self).height == old(self).height,
            final(self).start == old(self).start,
            final(self).start_direction == old(self).start_direction,
    {
        let mut tries: u32 = 0;
        while tries < FOOD_SAMPLE_TRIES
            invariant
                self.snake == old(self).snake,
                self.food == old(self).food,
                self.current_direction == old(self).current_direction,
                self.pending_direction == old(self).pending_direction,
                self.last_tail == old(self).last_tail,
                self.score == old(self).score,
                self.width == old(self).width,
                self.height == old(self).height,
                self.start == old(self).start,
                self.start_direction == old(self).start_direction,
                1 <= self.width,
                1 <= self.height,
            decreases FOOD_SAMPLE_TRIES - tries,
        {
            let x = rng::draw_below(&mut self.rng, self.width);
            let y = rng::draw_below(&mut self.rng, self.height);
            let c = Cell { x, y };
            if !self.is_blocked(c) {
                self.food = Some(c);
                proof {
                    assert(c.in_grid(old(self).width, old(self).height) && !old(self).blocked(
                        c,
                    ));
                    if old(self).food is None {
                        assert(!old(self).snake@.contains(c));
                    }
                }
                return true;
            }
            tries = tries + 1;
        }
        let mut x: i32 = 0;
        while x < self.width
            invariant
                0 <= x <= self.width,
                self.snake == old(self).snake,
                self.food == old(self).food,
                self.current_direction == old(self).current_direction,
                self.pending_direction == old(self).pending_direction,
                self.last_tail == old(self).last_tail,
                self.score == old(self).score,
                self.width == old(self).width,
                self.height == old(self).height,
                self.start == old(self).start,
                self.start_direction == old(self).start_direction,
                1 <= self.width,
                1 <= self.height,
                forall|c: Cell|
                    c.in_grid(self.width, self.height) && c.x < x ==> self.blocked(c),
            decreases self.width - x,
        {
            let mut y: i32 = 0;
            while y < self.height
                invariant
                    0 <= x < self.width,
                    0 <= y <= self.height,
                    self.snake == old(self).snake,
                    self.food == old(self).food,
                    self.current_direction == old(self).current_direction,
                    self.pending_direction == old(self).pending_direction,
                    self.last_tail == old(self).last_tail,
                    self.score == old(self).score,
                    self.width == old(self).width,
                    self.height == old(self).height,
                    self.start == old(self).start,
                    self.start_direction == old(self).start_direction,
                    1 <= self.width,
                    1 <= self.height,
                    forall|c: Cell|
                        c.in_grid(self.width, self.height) && c.x < x ==> self.blocked(c),
                    forall|c: Cell|
                        c.in_grid(self.width, self.height) && c.x == x && c.y < y
                            ==> self.blocked(c),
                decreases self.height - y,
            {
                let c = Cell { x, y };
                if !self.is_blocked(c) {
                    self.food = Some(c);
                    proof {
                        assert(c.in_grid(old(self).width, old(self).height) && !old(
                            self,
                        ).blocked(c));
                        if old(self).food is None {
                            assert(!old(self).snake@.contains(c));
                        }
                    }
                    return true;
                }
                y = y + 1;
            }
            x = x + 1;
        }
        proof {
            assert forall|c: Cell|
                c.in_grid(self.width, self.height) implies self.blocked(c) by {
                assert(c.x < self.width);
            }
            if exists|c: Cell|
                c.in_grid(old(self).width, old(self).height) && !old(self).blocked(c) {
                let c = choose|c: Cell|
                    c.in_grid(old(self).width, old(self).height) && !old(self).blocked(c);
                assert(self.blocked(c));
            }
            if free_cell_exists(old(self).width, old(self).height, old(self).snake@) {
                let c = choose|c: Cell|
                    c.in_grid(old(self).width, old(self).height) && !old(self).snake@.contains(
                        c,
                    );
                assert(self.blocked(c));
            }
        }
        false
    }

    /// Movement engine: applies the latched direction, moves the head one
    /// cell, shifts every trailing segment into the pre-move position of the
    /// one ahead of it, records the vacated tail cell, and reports whether
    /// the move was fatal (off the field, or onto the pre-move body).
    pub fn advance(&mut self) -> (died: bool)
        requires
            old(self).config_ok(),
            2 <= old(self).snake@.len(),
            forall|i: int|
                0 <= i < old(self).snake@.len() ==> old(self).snake@[i].in_grid(
                    old(self).width,
                    old(self).height,
                ),
        ensures
            died == old(self).dies(),
            final(self).snake@ == old(self).moved_snake(),
            final(self).current_direction == old(self).pending_direction,
            final(self).pending_direction == old(self).pending_direction,
            final(self).last_tail == Some(old(self).snake@[old(self).snake@.len() - 1]),
            final(self).food == old(self).food,
            final(self).score == old(self).score,
            final(self).width == old(self).width,
            final(self).height == old(self).height,
            final(self).start == old(self).start,
            final(self).start_direction == old(self).start_direction,
    {
        let n = self.snake.len();
        self.current_direction = self.pending_direction;
        let new_head = self.snake[0].step(self.current_direction);
        let mut died = !new_head.is_in_grid(self.width, self.height);
        if contains_cell(&self.snake, new_head) {
            died = true;
        }
        self.last_tail = Some(self.snake[n - 1]);
        let mut moved: Vec<Cell> = Vec::new();
        moved.push(new_head);
        let mut i: usize = 1;
        while i < n
            invariant
                1 <= i <= n,
                n == self.snake@.len(),
                moved@.len() == i,
                moved@[0] == old(self).moved_snake()[0],
                self.snake == old(self).snake,
                self.pending_direction == old(self).pending_direction,
                forall|k: int| 1 <= k < i ==> moved@[k] == self.snake@[k - 1],
            decreases n - i,
        {
            moved.push(self.snake[i - 1]);
            i += 1;
        }
        self.snake = moved;
        proof {
            assert(self.snake@ =~= old(self).moved_snake());
        }
        died
    }

    /// Eating check: when the head stands on the food, removes the food and
    /// reports that growth (and a fresh placement) is due.
    pub fn check_eating(&mut self) -> (ate: bool)
        requires
            1 <= old(self).snake@.len(),
        ensures
            ate == (old(self).food == Some(old(self).snake@[0])),
            final(self).food == (if ate {
                Option::<Cell>::None
            } else {
                old(self).food
            }),
            final(self).snake == old(self).snake,
            final(self).current_direction == old(self).current_direction,
            final(self).pending_direction == old(self).pending_direction,
            final(self).last_tail == old(self).last_tail,
            final(self).score == old(self).score,
            final(self).width == old(self).width,
            final(self).height == old(self).height,
            final(self).start == old(self).start,
            final(self).start_direction == old(self).start_direction,
    {
        let head = self.snake[0];
        let ate = match self.food {
            Some(f) => f == head,
            None => false,
        };
        if ate {
            self.food = None;
        }
        ate
    }

    /// Growth handler: appends one segment at the cell the tail vacated this
    /// tick, and counts the food just eaten.
    pub fn apply_growth(&mut self)
        requires
            old(self).last_tail is Some,
            old(self).score < u32::MAX,
        ensures
            final(self).snake@ == old(self).snake@.push(old(self).last_tail->Some_0),
            final(self).score == old(self).score + 1,
            final(self).food == old(self).food,
            final(self).current_direction == old(self).current_direction,
            final(self).pending_direction == old(self).pending_direction,
            final(self).last_tail == old(self).last_tail,
            final(self).width == old(self).width,
            final(self).height == old(self).height,
            final(self).start == old(self).start,
            final(self).start_direction == old(self).start_direction,
    {
        let t = self.last_tail.unwrap();
        self.snake.push(t);
        self.score = self.score + 1;
    }

    /// Lifecycle controller: tears the board down after a death and re-seeds
    /// it — the fixed two-segment snake at the start cell, score zero, and a
    /// fresh food placement.
    pub fn reset(&mut self)
        requires
            old(self).config_ok(),
        ensures
            final(self).wf(),
            final(self).snake@ == final(self).initial_snake(),
            final(self).current_direction == old(self).start_direction,
            final(self).pending_direction == old(self).start_direction,
            final(self).score == 0,
            final(self).food is Some == free_cell_exists(
                old(self).width,
                old(self).height,
                final(self).snake@,
            ),
            final(self).last_tail is None,
            final(self).width == old(self).width,
            final(self).height == old(self).height,
            final(self).start == old(self).start,
            final(self).start_direction == old(self).start_direction,
    {
        let behind = self.start.step(self.start_direction.opposite());
        let mut snake: Vec<Cell> = Vec::new();
        snake.push(self.start);
        snake.push(behind);
        self.snake = snake;
        self.current_direction = self.start_direction;
        self.pending_direction = self.start_direction;
        self.food = None;
        self.last_tail = None;
        self.score = 0;
        proof {
            crate::grid::lemma_step_moves(self.start, self.start_direction.opposite_spec());
            assert(self.snake@ =~= self.initial_snake());
        }
        let _ = self.place_food();
    }

    /// One simulation tick: movement first; on a fatal move the lifecycle
    /// reset runs within the same tick; otherwise the eating check, growth,
    /// and a fresh food placement when food was eaten. Returns the score and
    /// whether a reset happened.
    ///
    /// The cells of the snake stay pairwise distinct, and the food never
    /// lands on the snake: both are part of `wf`, established here for every
    /// tick.
    pub fn tick(&mut self) -> (out: TickOutcome)
        requires
            old(self).wf(),
            old(self).score < u32::MAX,
        ensures
            final(self).wf(),
            cells_distinct(final(self).snake@),
            final(self).food matches Some(f) ==> !final(self).snake@.contains(f),
            out.reset == old(self).dies(),
            out.score == final(self).score,
            final(self).snake@ == old(self).tick_snake(),
            final(self).score == old(self).tick_score(),
            final(self).current_direction == old(self).tick_direction(),
            final(self).pending_direction == old(self).tick_direction(),
            !old(self).dies() && !old(self).eats() ==> final(self).food == old(self).food,
            old(self).dies() || old(self).eats() ==> final(self).food is Some == free_cell_exists(
                old(self).width,
                old(self).height,
                final(self).snake@,
            ),
            final(self).width == old(self).width,
            final(self).height == old(self).height,
            final(self).start == old(self).start,
            final(self).start_direction == old(self).start_direction,
    {
        let died = self.advance();
        if died {
            self.reset();
            TickOutcome { score: self.score, reset: true }
        } else {
            let ate = self.check_eating();
            proof {
                assert(old(self).moved_snake()[0] == old(self).next_head());
                assert(ate == old(self).eats());
            }
            if ate {
                self.apply_growth();
                proof {
                    assert(self.snake@ =~= old(self).grown_snake());
                }
                let _ = self.place_food();
            }
            proof {
                lemma_tick_normal_wf(*old(self), *self);
            }
            TickOutcome { score: self.score, reset: false }
        }
    }

    /// Read-only query for the rendering collaborator: the ordered snake
    /// cells, the food cell if present, and the score.
    pub fn snapshot(&self) -> (s: Snapshot)
        ensures
            s.cells@ == self.snake@,
            s.food == self.food,
            s.score == self.score,
    {
        Snapshot { cells: copy_cells(&self.snake), food: self.food, score: self.score }
    }
}

/// Helper for `tick`: on a non-fatal move the moved (and possibly grown)
/// body is sound again, and untouched food stays off the body.
proof fn lemma_tick_normal_wf(pre: GameState, post: GameState)
    requires
        pre.wf(),
        !pre.dies(),
        pre.eats() ==> post.snake@ == pre.grown_snake() && post.score == pre.score + 1 && (
        post.food matches Some(f) ==> f.in_grid(pre.width, pre.height)
            && !pre.grown_snake().contains(f)),
        !pre.eats() ==> post.snake@ == pre.moved_snake() && post.score == pre.score
            && post.food == pre.food,
        post.width == pre.width,
        post.height == pre.height,
        post.start == pre.start,
        post.start_direction == pre.start_direction,
    ensures
        post.wf(),
{
    assert(pre.moved_snake()[0] == pre.next_head());
    if pre.eats() {
        assert forall|i: int, j: int|
            0 <= i < j < post.snake@.len() implies post.snake@[i] != post.snake@[j] by {
            if i == 0 {
                assert(post.snake@[j] == pre.snake@[j - 1]);
                assert(pre.snake@.contains(pre.snake@[j - 1]));
            }
        }
        assert forall|i: int|
            0 <= i < post.snake@.len() implies post.snake@[i].in_grid(post.width, post.height) by {
            if i > 0 {
                assert(post.snake@[i] == pre.snake@[i - 1]);
            }
        }
    } else {
        assert forall|i: int, j: int|
            0 <= i < j < post.snake@.len() implies post.snake@[i] != post.snake@[j] by {
            if i == 0 {
                assert(post.snake@[j] == pre.snake@[j - 1]);
                assert(pre.snake@.contains(pre.snake@[j - 1]));
            }
        }
        assert forall|i: int|
            0 <= i < post.snake@.len() implies post.snake@[i].in_grid(post.width, post.height) by {
            if i > 0 {
                assert(post.snake@[i] == pre.snake@[i - 1]);
            }
        }
        if post.food is Some {
            let f = post.food->Some_0;
            assert(!pre.snake@.contains(f));
            assert(pre.food == Some(f));
            assert forall|i: int|
                0 <= i < post.snake@.len() implies post.snake@[i] != f by {
                if i == 0 {
                    assert(post.snake@[0] == pre.next_head());
                } else {
                    assert(post.snake@[i] == pre.snake@[i - 1]);
                    assert(pre.snake@.contains(pre.snake@[i - 1]));
                }
            }
            if post.snake@.contains(f) {
                let w = choose|k: int| 0 <= k < post.snake@.len() && post.snake@[k] == f;
                assert(post.snake@[w] != f);
            }
        }
    }
}

/// Law: replaying from states that agree on everything the simulation
/// observes — body, headings, food, score and configuration — yields the same
/// tick outcome: same death verdict, same body, same score, same heading.
/// Only where fresh food lands is left to the seeded random source, so two
/// runs with the same seed and the same inputs coincide entirely.
pub proof fn lemma_tick_deterministic(a: GameState, b: GameState)
    requires
        a.snake@ == b.snake@,
        a.current_direction == b.current_direction,
        a.pending_direction == b.pending_direction,
        a.food == b.food,
        a.score == b.score,
        a.width == b.width,
        a.height == b.height,
        a.start == b.start,
        a.start_direction == b.start_direction,
    ensures
        a.dies() == b.dies(),
        a.eats() == b.eats(),
        a.tick_snake() == b.tick_snake(),
        a.tick_score() == b.tick_score(),
        a.tick_direction() == b.tick_direction(),
{
    assert(a.next_head() == b.next_head());
    assert(a.moved_snake() =~= b.moved_snake());
    assert(a.initial_snake() =~= b.initial_snake());
    assert(a.grown_snake() =~= b.grown_snake());
    assert(a.tick_snake() =~= b.tick_snake());
}

} // verus!
