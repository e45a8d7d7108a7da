//! The owned simulation state and the per-tick control flow: heading
//! resolution, movement, food consumption, scoring, the collision-driven
//! game-over transition, food respawn, and restart.

use vstd::prelude::*;

use crate::config::{Config, Dir, GameState, Position, Velocity, ZLayer};
use crate::food::{spawn_food, Food, SpawnError};
use crate::input::InputQueue;
use crate::player::{
    apply_player_input, check_player_collision, check_player_food_collision, eats, fatal_collision,
    lemma_reversals_never_turn, move_player, moved_tail, moved_to_grow, resolve_heading, Snake,
    GROWTH_PER_FOOD, INITIAL_GROWTH, START_X, START_Y,
};
use crate::score::{update, ScoreUpdate, ScoreValue};

verus! {

/// The whole gameplay state, exclusively owned by the per-frame simulation
/// step; there is no ambient global state.
pub struct Game {
    pub config: Config,
    pub state: GameState,
    pub snake: Snake,
    pub input: InputQueue,
    pub food: Option<Food>,
    pub score: ScoreValue,
}

/// Z-order layer on which the head is drawn.
pub const PLAYER_Z: i32 = 10;

/// Z-order layer on which tail segments are drawn.
pub const TAIL_Z: i32 = 8;

/// Z-order layer on which the food item is drawn.
pub const FOOD_Z: i32 = 2;

/// The cells the snake occupies: its head, then every tail segment.
pub open spec fn occupied_cells(s: Snake) -> Seq<Position> {
    seq![s.head] + s.tail@
}

/// The heading adopted by the heading-resolution pass of a tick from `g`.
pub open spec fn tick_heading(g: Game) -> Dir {
    resolve_heading(g.input@, g.snake.velocity.dir).1
}

/// The input still queued after the heading-resolution pass of a tick.
pub open spec fn tick_queue(g: Game) -> Seq<Dir> {
    resolve_heading(g.input@, g.snake.velocity.dir).0
}

/// The snake as it stands after the heading-resolution pass of a tick.
pub open spec fn resolved_snake(g: Game) -> Snake {
    Snake {
        head: g.snake.head,
        velocity: Velocity { dir: tick_heading(g) },
        tail: g.snake.tail,
        to_grow: g.snake.to_grow,
    }
}

/// Where the head stands after the movement step of a tick from `g`.
pub open spec fn tick_head_x(g: Game) -> int {
    g.snake.head.x + tick_heading(g).dx()
}

/// Where the head stands after the movement step of a tick from `g`.
pub open spec fn tick_head_y(g: Game) -> int {
    g.snake.head.y + tick_heading(g).dy()
}

/// The tail after the movement step of a tick from `g`.
pub open spec fn tick_tail(g: Game) -> Seq<Position> {
    moved_tail(resolved_snake(g))
}

/// Whether the movement step of a tick from `g` lands the head on the food.
pub open spec fn tick_ate(g: Game) -> bool {
    g.food matches Some(f) && f.pos.x == tick_head_x(g) && f.pos.y == tick_head_y(g)
}

/// The growth credit after a tick from `g`: the movement step may consume
/// one unit, and eating grants the per-food amount.
pub open spec fn tick_to_grow(g: Game) -> int {
    moved_to_grow(resolved_snake(g)) + (if tick_ate(g) {
        GROWTH_PER_FOOD as int
    } else {
        0
    })
}

/// Whether the tick from `g` ends in a fatal wall or self collision.
pub open spec fn tick_fatal(g: Game) -> bool {
    ||| tick_head_x(g) < 0
    ||| tick_head_x(g) >= g.config.grid_size_x
    ||| tick_head_y(g) < 0
    ||| tick_head_y(g) >= g.config.grid_size_y
    ||| exists|i: int|
        0 <= i < tick_tail(g).len() && (#[trigger] tick_tail(g)[i]).x == tick_head_x(g)
            && tick_tail(g)[i].y == tick_head_y(g)
}

/// Collect the cells the snake occupies: the head first, then the tail
/// oldest first.
pub fn occupied_vec(snake: &Snake) -> (v: Vec<Position>)
    ensures
        v@ == occupied_cells(*snake),
{
    let mut v: Vec<Position> = Vec::new();
    v.push(snake.head);
    proof {
        assert(v@ =~= seq![snake.head] + snake.tail@.subrange(0, 0));
    }
    let n = snake.tail.len();
    let mut i: usize = 0;
    while i < n
        invariant
            n == snake.tail@.len(),
            i <= n,
            v@ == seq![snake.head] + snake.tail@.subrange(0, i as int),
        decreases n - i,
    {
        let seg = snake.tail[i];
        v.push(seg);
        proof {
            assert(snake.tail@.subrange(0, i + 1) =~= snake.tail@.subrange(0, i as int).push(
                snake.tail@[i as int],
            ));
            assert(v@ =~= seq![snake.head] + snake.tail@.subrange(0, i + 1));
        }
        i = i + 1;
    }
    proof {
        assert(snake.tail@.subrange(0, n as int) =~= snake.tail@);
    }
    v
}

/// What the rendering collaborator draws: one (cell, layer) pair for the
/// head, one for each tail segment oldest first, and one for the active
/// food item.
pub open spec fn layout_cells(g: Game) -> Seq<(Position, ZLayer)> {
    let base = seq![(g.snake.head, ZLayer { z: PLAYER_Z })] + Seq::new(
        g.snake.tail@.len(),
        |i: int| (g.snake.tail@[i], ZLayer { z: TAIL_Z }),
    );
    match g.food {
        Some(f) => base.push((f.pos, ZLayer { z: FOOD_Z })),
        None => base,
    }
}

impl Game {
    /// Well-formedness, established at creation and preserved by every step:
    /// the grid holds the start cell, a playing snake's head is on the grid,
    /// and the active food item is on the grid.
    pub open spec fn wf(self) -> bool {
        &&& self.config.wf()
        &&& START_X < self.config.grid_size_x
        &&& START_Y < self.config.grid_size_y
        &&& self.state is InGame ==> self.config.in_grid(self.snake.head)
        &&& self.food matches Some(f) ==> self.config.in_grid(f.pos)
    }

    /// A fresh game for the given configuration: the snake at its start cell,
    /// an empty input queue, zero score, the first food item already placed,
    /// and the state machine in play.
    pub fn new(config: Config) -> (g: Game)
        requires
            config.wf(),
            START_X < config.grid_size_x,
            START_Y < config.grid_size_y,
        ensures
            g.wf(),
            g.config == config,
            g.state is InGame,
            g.snake.head == (Position { x: START_X, y: START_Y }),
            g.snake.velocity.dir is Still,
            g.snake.tail@ == Seq::<Position>::empty(),
            g.snake.to_grow == INITIAL_GROWTH,
            g.input@ == Seq::<Dir>::empty(),
            g.score.0 == 0,
            g.food matches Some(f) && config.in_grid(f.pos) && f.pos != g.snake.head,
    {
        let mut g = Game {
            config,
            state: GameState::InGame,
            snake: Snake::new(),
            input: InputQueue::default(),
            food: None,
            score: ScoreValue(0),
        };
        g.restart();
        g
    }

    /// One simulation tick while playing: resolve the heading from the
    /// queued input, move the snake, consume food under the new head cell,
    /// settle the score events, and end the game on a wall or self
    /// collision. Returns this tick's score events for the display.
    pub fn tick(&mut self) -> (events: Vec<ScoreUpdate>)
        requires
            old(self).wf(),
            old(self).state is InGame,
            old(self).snake.to_grow + GROWTH_PER_FOOD <= u32::MAX,
            old(self).score.0 < i32::MAX,
        ensures
            final(self).wf(),
            final(self).config == old(self).config,
            final(self).input@ == tick_queue(*old(self)),
            final(self).snake.velocity.dir == tick_heading(*old(self)),
            final(self).snake.head.x == tick_head_x(*old(self)),
            final(self).snake.head.y == tick_head_y(*old(self)),
            final(self).snake.tail@ == tick_tail(*old(self)),
            final(self).snake.to_grow == tick_to_grow(*old(self)),
            final(self).food == (if tick_ate(*old(self)) {
                Option::<Food>::None
            } else {
                old(self).food
            }),
            final(self).score.0 == old(self).score.0 + (if tick_ate(*old(self)) {
                1int
            } else {
                0
            }),
            final(self).state == (if tick_fatal(*old(self)) {
                GameState::GameOver
            } else {
                GameState::InGame
            }),
            events@ == (if tick_ate(*old(self)) {
                seq![ScoreUpdate::AteFood]
            } else {
                Seq::<ScoreUpdate>::empty()
            }),
    {
        let ghost g0 = *self;
        let mut events: Vec<ScoreUpdate> = Vec::new();
        apply_player_input(&mut self.input, &mut self.snake.velocity);
        move_player(&mut self.snake);
        proof {
            // Landing on the food cell and eating it are the same event:
            // two cells are equal exactly when their coordinates are.
            assert(eats(g0.food, self.snake.head) == tick_ate(g0)) by {
                match g0.food {
                    Some(f) => {
                        if f.pos.x == tick_head_x(g0) && f.pos.y == tick_head_y(g0) {
                            assert(f.pos == self.snake.head);
                        }
                    },
                    None => {},
                }
            }
        }
        check_player_food_collision(
            &self.snake.head,
            &mut self.snake.to_grow,
            &mut self.food,
            &mut events,
        );
        update(&mut self.score, &events);
        let fatal = check_player_collision(&self.config, &self.snake.head, &self.snake.tail);
        if fatal {
            self.state = GameState::GameOver;
        }
        events
    }

    /// The per-entity (cell, z-layer) pairs that an external transform-sync
    /// step maps to pixel transforms: the head, each tail segment oldest
    /// first, then the food item.
    pub fn layout(&self) -> (v: Vec<(Position, ZLayer)>)
        ensures
            v@ == layout_cells(*self),
    {
        let mut v: Vec<(Position, ZLayer)> = Vec::new();
        v.push((self.snake.head, ZLayer { z: PLAYER_Z }));
        proof {
            assert(v@ =~= seq![(self.snake.head, ZLayer { z: PLAYER_Z })] + Seq::new(
                0,
                |j: int| (self.snake.tail@[j], ZLayer { z: TAIL_Z }),
            ));
        }
        let n = self.snake.tail.len();
        let mut i: usize = 0;
        while i < n
            invariant
                n == self.snake.tail@.len(),
                i <= n,
                v@ == seq![(self.snake.head, ZLayer { z: PLAYER_Z })] + Seq::new(
                    i as nat,
                    |j: int| (self.snake.tail@[j], ZLayer { z: TAIL_Z }),
                ),
            decreases n - i,
        {
            let seg = self.snake.tail[i];
            v.push((seg, ZLayer { z: TAIL_Z }));
            proof {
                assert(v@ =~= seq![(self.snake.head, ZLayer { z: PLAYER_Z })] + Seq::new(
                    (i + 1) as nat,
                    |j: int| (self.snake.tail@[j], ZLayer { z: TAIL_Z }),
                ));
            }
            i = i + 1;
        }
        match &self.food {
            Some(f) => {
                v.push((f.pos, ZLayer { z: FOOD_Z }));
            },
            None => {},
        }
        proof {
            assert(v@ =~= layout_cells(*self));
        }
        v
    }

    /// React to the periodic spawn check: if no food item is active, place
    /// one on a random cell that the snake does not occupy. `Ok(true)` means
    /// a new item was placed, `Ok(false)` that one was already active, and
    /// `BoardFull` reports the unrecoverable fully occupied board.
    pub fn respawn_food(&mut self) -> (r: Result<bool, SpawnError>)
        requires
            old(self).wf(),
        ensures
            final(self).wf(),
            final(self).config == old(self).config,
            final(self).state == old(self).state,
            final(self).snake == old(self).snake,
            final(self).input@ == old(self).input@,
            final(self).score == old(self).score,
            old(self).food is Some ==> r == Ok::<bool, SpawnError>(false) && final(self).food
                == old(self).food,
            old(self).food is None ==> {
                &&& (r is Ok <==> exists|p: Position|
                    old(self).config.in_grid(p) && !occupied_cells(old(self).snake).contains(p))
                &&& (r is Ok ==> r == Ok::<bool, SpawnError>(true)
                    && (final(self).food matches Some(f)
                        && old(self).config.in_grid(f.pos)
                        && !occupied_cells(old(self).snake).contains(f.pos)))
                &&& (r is Err ==> r == Err::<bool, SpawnError>(SpawnError::BoardFull)
                    && final(self).food is None)
            },
    {
        if self.food.is_some() {
            return Ok(false);
        }
        let occupied = occupied_vec(&self.snake);
        let rf = spawn_food(&self.config, &occupied);
        match rf {
            Ok(f) => {
                self.food = Some(f);
                Ok(true)
            },
            Err(e) => Err(e),
        }
    }

    /// The restart transition: every gameplay entity is destroyed and
    /// recreated. The snake returns to its start cell with its initial
    /// heading and growth credit, the input queue and score are cleared, a
    /// fresh food item is placed on a free cell, and play resumes.
    pub fn restart(&mut self)
        requires
            old(self).wf(),
        ensures
            final(self).wf(),
            final(self).config == old(self).config,
            final(self).state is InGame,
            final(self).snake.head == (Position { x: START_X, y: START_Y }),
            final(self).snake.velocity.dir is Still,
            final(self).snake.tail@ == Seq::<Position>::empty(),
            final(self).snake.to_grow == INITIAL_GROWTH,
            final(self).input@ == Seq::<Dir>::empty(),
            final(self).score.0 == 0,
            final(self).food matches Some(f) && final(self).config.in_grid(f.pos) && f.pos
                != final(self).snake.head,
    {
        self.state = GameState::InGame;
        self.snake = Snake::new();
        self.input.clear();
        self.score = ScoreValue(0);
        self.food = None;
        let occupied = occupied_vec(&self.snake);
        proof {
            // The origin is free — the fresh snake occupies only its start
            // cell — so the spawner is owed a food item.
            let w = Position { x: 0, y: 0 };
            assert(occupied@[0] == self.snake.head);
            if occupied@.contains(w) {
                let k = choose|k: int| 0 <= k < occupied@.len() && occupied@[k] == w;
                assert(false);
            }
            assert(exists|p: Position| self.config.in_grid(p) && !occupied@.contains(p));
        }
        let r = spawn_food(&self.config, &occupied);
        match r {
            Ok(f) => {
                proof {
                    assert(occupied@.contains(self.snake.head));
                }
                self.food = Some(f);
            },
            Err(_) => {},
        }
    }
}

/// Law: one tick never shrinks the tail; its segment count stays the same
/// or grows by exactly one. Only a restart shortens the snake.
pub proof fn lemma_tick_tail_never_shrinks(g: Game)
    ensures
        tick_tail(g).len() == g.snake.tail@.len() || tick_tail(g).len() == g.snake.tail@.len() + 1,
{
}

/// Law: when everything queued is the current heading's opposite, a tick
/// leaves the heading unchanged and drains the queue; an instant reversal
/// can never happen.
pub proof fn lemma_tick_rejects_reversals(g: Game)
    requires
        forall|i: int| 0 <= i < g.input@.len() ==> g.input@[i] == g.snake.velocity.dir.opposite(),
    ensures
        tick_heading(g) == g.snake.velocity.dir,
        tick_queue(g) == Seq::<Dir>::empty(),
{
    lemma_reversals_never_turn(g.input@, g.snake.velocity.dir);
}

/// Law: a head cell one past the right edge is a fatal collision, for any
/// grid width of at least one cell; the tick ends the game on it.
pub proof fn lemma_right_edge_fatal(g: Game)
    requires
        1 <= g.config.grid_size_x,
        tick_head_x(g) == g.config.grid_size_x,
    ensures
        tick_fatal(g),
{
}

} // verus!
