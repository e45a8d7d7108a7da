//! The bounded integer coordinate space and the direction vocabulary, plus
//! the static parameters of a game and the overall game state.

use vstd::prelude::*;

verus! {

/// Static parameters of one game: the grid size in cells, and the scale at
/// which a rendering collaborator draws one cell (unused by the core math).
#[derive(Clone, Copy, Debug, PartialEq, Eq, Structural)]
pub struct Config {
    pub grid_size_x: i32,
    pub grid_size_y: i32,
    pub pixels_per_cell: i32,
}

impl Config {
    /// A usable configuration: the grid has at least one cell each way.
    pub open spec fn wf(self) -> bool {
        0 < self.grid_size_x && 0 < self.grid_size_y
    }

    /// The cell `p` lies inside the grid bounds.
    pub open spec fn in_grid(self, p: Position) -> bool {
        0 <= p.x < self.grid_size_x && 0 <= p.y < self.grid_size_y
    }
}

/// Whether the simulation is running or has ended in a fatal collision.
#[derive(Clone, Copy, Debug, PartialEq, Eq, Structural, Hash)]
pub enum GameState {
    InGame,
    GameOver,
}

impl Default for GameState {
    fn default() -> (s: GameState)
        ensures
            s is InGame,
    {
        GameState::InGame
    }
}

/// A cell of the grid, addressed by integer coordinates. Used both for
/// logical occupancy and as the rendering offset of an entity.
#[derive(Clone, Copy, Debug, PartialEq, Eq, Structural, Hash)]
pub struct Position {
    pub x: i32,
    pub y: i32,
}

/// Z-ordering layer handed to the rendering collaborator along with a cell.
#[derive(Clone, Copy, Debug, PartialEq, Eq, Structural)]
pub struct ZLayer {
    pub z: i32,
}

impl Position {
    /// Move this cell one step along `dir`.
    pub fn apply_offset(&mut self, dir: &Dir)
        requires
            i32::MIN < old(self).x < i32::MAX,
            i32::MIN < old(self).y < i32::MAX,
        ensures
            final(self).x == old(self).x + dir.dx(),
            final(self).y == old(self).y + dir.dy(),
    {
        let (dx, dy) = dir.to_x_y();
        self.x += dx;
        self.y += dy;
    }
}

/// A direction of travel. `Still` means "not yet moving": a fresh snake sits
/// in place until the player picks a real direction.
#[derive(Clone, Copy, Debug, PartialEq, Eq, Structural, Hash)]
pub enum Dir {
    Still,
    Left,
    Right,
    Up,
    Down,
}

impl Dir {
    /// Horizontal component of this direction's unit offset.
    pub open spec fn dx(self) -> int {
        match self {
            Dir::Still => 0,
            Dir::Left => -1,
            Dir::Right => 1,
            Dir::Up => 0,
            Dir::Down => 0,
        }
    }

    /// Vertical component of this direction's unit offset.
    pub open spec fn dy(self) -> int {
        match self {
            Dir::Still => 0,
            Dir::Left => 0,
            Dir::Right => 0,
            Dir::Up => 1,
            Dir::Down => -1,
        }
    }

    /// The 180-degree reversal of this direction; `Still` is its own opposite.
    pub open spec fn opposite_spec(&self) -> Dir {
        match self {
            Dir::Still => Dir::Still,
            Dir::Left => Dir::Right,
            Dir::Right => Dir::Left,
            Dir::Up => Dir::Down,
            Dir::Down => Dir::Up,
        }
    }

    /// The unit offset of this direction as `(dx, dy)`.
    pub fn to_x_y(&self) -> (r: (i32, i32))
        ensures
            r.0 == self.dx(),
            r.1 == self.dy(),
    {
        match self {
            Dir::Still => (0, 0),
            Dir::Left => (-1, 0),
            Dir::Right => (1, 0),
            Dir::Up => (0, 1),
            Dir::Down => (0, -1),
        }
    }

    /// The 180-degree reversal of this direction.
    #[verifier::when_used_as_spec(opposite_spec)]
    pub fn opposite(&self) -> (r: Dir)
        ensures
            r == self.opposite_spec(),
    {
        match self {
            Dir::Still => Dir::Still,
            Dir::Left => Dir::Right,
            Dir::Right => Dir::Left,
            Dir::Up => Dir::Down,
            Dir::Down => Dir::Up,
        }
    }
}

/// The snake's current heading, applied to its head cell once per tick.
#[derive(Clone, Copy, Debug, PartialEq, Eq, Structural)]
pub struct Velocity {
    pub dir: Dir,
}

} // verus!
