//! The snake state machine: heading resolution from queued input, the
//! fixed-tick movement and growth step, and the collision checks that decide
//! food consumption and game over.

use std::collections::VecDeque;
use vstd::prelude::*;

use crate::config::{Config, Dir, Position, Velocity};
use crate::food::Food;
use crate::input::InputQueue;
use crate::score::ScoreUpdate;

verus! {

/// Column of the cell where the snake's head spawns at game (re)start.
pub const START_X: i32 = 5;

/// Row of the cell where the snake's head spawns at game (re)start.
pub const START_Y: i32 = 5;

/// Growth credit granted at game (re)start.
pub const INITIAL_GROWTH: u32 = 3;

/// Growth credit granted for each food item eaten.
pub const GROWTH_PER_FOOD: u32 = 2;

/// The snake: head cell, current heading, the ordered tail segments (oldest
/// first), and the pending growth credit.
pub struct Snake {
    pub head: Position,
    pub velocity: Velocity,
    pub tail: VecDeque<Position>,
    pub to_grow: u32,
}

impl Snake {
    /// The fresh snake of a game (re)start: sitting still at the start cell,
    /// with an empty tail and the initial growth credit.
    pub fn new() -> (s: Snake)
        ensures
            s.head == (Position { x: START_X, y: START_Y }),
            s.velocity.dir is Still,
            s.tail@ == Seq::<Position>::empty(),
            s.to_grow == INITIAL_GROWTH,
    {
        Snake {
            head: Position { x: START_X, y: START_Y },
            velocity: Velocity { dir: Dir::Still },
            tail: VecDeque::new(),
            to_grow: INITIAL_GROWTH,
        }
    }
}

/// One heading-resolution pass over the queued input: entries are consumed
/// front to back until one is neither the current heading nor its opposite;
/// that one becomes the new heading. If the queue drains without such an
/// entry the heading is unchanged. Returns the remaining queue and the
/// heading after the pass.
pub open spec fn resolve_heading(q: Seq<Dir>, d: Dir) -> (Seq<Dir>, Dir)
    decreases q.len(),
{
    if q.len() == 0 {
        (q, d)
    } else if q[0] != d && q[0] != d.opposite() {
        (q.drop_first(), q[0])
    } else {
        resolve_heading(q.drop_first(), d)
    }
}

/// Adopt the first admissible queued direction as the new heading. Entries
/// equal to the current heading or to its 180-degree opposite are consumed
/// and rejected, so a queued instant reversal is a no-op while a 90-degree
/// turn queued ahead of time is honoured.
pub fn apply_player_input(input_queue: &mut InputQueue, velocity: &mut Velocity)
    ensures
        (final(input_queue)@, final(velocity).dir)
            == resolve_heading(old(input_queue)@, old(velocity).dir),
{
    loop
        invariant
            velocity.dir == old(velocity).dir,
            resolve_heading(input_queue@, velocity.dir)
                == resolve_heading(old(input_queue)@, old(velocity).dir),
        decreases input_queue@.len(),
    {
        match input_queue.pop_last_input() {
            None => {
                return ;
            },
            Some(input) => {
                if input != velocity.dir && input != velocity.dir.opposite() {
                    velocity.dir = input;
                    return ;
                }
            },
        }
    }
}

/// The tail after one movement step from state `s`: a moving snake leaves a
/// new segment at its head cell and, with no growth credit pending, gives up
/// its oldest segment.
pub open spec fn moved_tail(s: Snake) -> Seq<Position> {
    if s.velocity.dir is Still {
        s.tail@
    } else if s.to_grow == 0 {
        s.tail@.push(s.head).drop_first()
    } else {
        s.tail@.push(s.head)
    }
}

/// The growth credit after one movement step from state `s`: a moving snake
/// with credit pending consumes one unit of it.
pub open spec fn moved_to_grow(s: Snake) -> int {
    if s.velocity.dir !is Still && s.to_grow > 0 {
        s.to_grow - 1
    } else {
        s.to_grow as int
    }
}

/// One movement step. If the snake is moving, a new tail segment appears at
/// the current head cell and either the oldest segment is removed (the snake
/// slides) or one unit of growth credit is consumed (the snake lengthens);
/// the head then advances one cell along the heading.
pub fn move_player(snake: &mut Snake)
    requires
        i32::MIN < old(snake).head.x < i32::MAX,
        i32::MIN < old(snake).head.y < i32::MAX,
    ensures
        final(snake).velocity == old(snake).velocity,
        final(snake).head.x == old(snake).head.x + old(snake).velocity.dir.dx(),
        final(snake).head.y == old(snake).head.y + old(snake).velocity.dir.dy(),
        final(snake).tail@ == moved_tail(*old(snake)),
        final(snake).to_grow == moved_to_grow(*old(snake)),
{
    if snake.velocity.dir != Dir::Still {
        snake.tail.push_back(snake.head);
        if snake.to_grow == 0 {
            let _ = snake.tail.pop_front();
        } else {
            snake.to_grow = snake.to_grow - 1;
        }
    }
    let dir = snake.velocity.dir;
    snake.head.apply_offset(&dir);
}

/// Whether the head stands on the active food item.
pub open spec fn eats(food: Option<Food>, head: Position) -> bool {
    food matches Some(f) && f.pos == head
}

/// After movement: if the head has entered the food's cell, grant the growth
/// credit for one food item, destroy the item, and emit a score event.
pub fn check_player_food_collision(
    head: &Position,
    to_grow: &mut u32,
    food: &mut Option<Food>,
    events: &mut Vec<ScoreUpdate>,
)
    requires
        *old(to_grow) + GROWTH_PER_FOOD <= u32::MAX,
    ensures
        eats(*old(food), *head) ==> {
            &&& *final(to_grow) == *old(to_grow) + GROWTH_PER_FOOD
            &&& *final(food) is None
            &&& final(events)@ == old(events)@.push(ScoreUpdate::AteFood)
        },
        !eats(*old(food), *head) ==> {
            &&& *final(to_grow) == *old(to_grow)
            &&& *final(food) == *old(food)
            &&& final(events)@ == old(events)@
        },
{
    let ate = match *food {
        Some(f) => f.pos == *head,
        None => false,
    };
    if ate {
        *to_grow = *to_grow + GROWTH_PER_FOOD;
        *food = None;
        events.push(ScoreUpdate::AteFood);
    }
}

/// A fatal collision: the head has left the grid or overlaps a tail segment.
pub open spec fn fatal_collision(config: Config, head: Position, tail: Seq<Position>) -> bool {
    !config.in_grid(head) || tail.contains(head)
}

/// Decide whether the head's current cell ends the game: outside the grid
/// walls, or on any current tail segment.
pub fn check_player_collision(config: &Config, head: &Position, tail: &VecDeque<Position>) -> (fatal:
    bool)
    ensures
        fatal == fatal_collision(*config, *head, tail@),
{
    if head.x < 0 || head.x >= config.grid_size_x || head.y < 0 || head.y >= config.grid_size_y {
        return true;
    }
    let n = tail.len();
    let mut i: usize = 0;
    while i < n
        invariant
            n == tail@.len(),
            i <= n,
            forall|j: int| 0 <= j < i ==> tail@[j] != *head,
        decreases n - i,
    {
        if tail[i] == *head {
            assert(tail@.contains(*head));
            return true;
        }
        i = i + 1;
    }
    false
}

/// Law: once the snake is moving, a queue of real directions can never set
/// the heading back to `Still`; only key edges feed the queue, and no key
/// maps to `Still`.
pub proof fn lemma_no_return_to_still(q: Seq<Dir>, d: Dir)
    requires
        forall|i: int| 0 <= i < q.len() ==> q[i] !is Still,
        d !is Still,
    ensures
        resolve_heading(q, d).1 !is Still,
    decreases q.len(),
{
    if q.len() > 0 && !(q[0] != d && q[0] != d.opposite()) {
        let rest = q.drop_first();
        assert(forall|i: int| 0 <= i < rest.len() ==> rest[i] == q[i + 1] && rest[i] !is Still);
        lemma_no_return_to_still(rest, d);
    }
}

/// Law: a queue consisting solely of the current heading's opposite never
/// changes the heading; every such entry is consumed and rejected, so the
/// pass also drains the queue.
pub proof fn lemma_reversals_never_turn(q: Seq<Dir>, d: Dir)
    requires
        forall|i: int| 0 <= i < q.len() ==> q[i] == d.opposite(),
    ensures
        resolve_heading(q, d).1 == d,
        resolve_heading(q, d).0 == Seq::<Dir>::empty(),
    decreases q.len(),
{
    if q.len() == 0 {
        assert(q =~= Seq::<Dir>::empty());
    } else {
        assert(q[0] == d.opposite());
        let rest = q.drop_first();
        assert(forall|i: int| 0 <= i < rest.len() ==> rest[i] == q[i + 1] && rest[i] == d.opposite());
        lemma_reversals_never_turn(rest, d);
    }
}

} // verus!
