//! Wall and self collisions and the game-over transition.

use std::collections::VecDeque;

use snake_core::config::{Config, Dir, GameState, Position, Velocity};
use snake_core::game::Game;
use snake_core::input::InputQueue;
use snake_core::player::Snake;
use snake_core::score::ScoreValue;

fn game_with_snake(config: Config, snake: Snake) -> Game {
    Game {
        config,
        state: GameState::InGame,
        snake,
        input: InputQueue::default(),
        food: None,
        score: ScoreValue(0),
    }
}

fn snake_at(x: i32, y: i32, dir: Dir) -> Snake {
    Snake {
        head: Position { x, y },
        velocity: Velocity { dir },
        tail: VecDeque::new(),
        to_grow: 0,
    }
}

#[test]
fn right_wall_is_fatal() {
    // The smallest grid that holds the start cell: entering x == grid_size_x
    // (one past the right edge) ends the game on that tick.
    let config = Config { grid_size_x: 6, grid_size_y: 6, pixels_per_cell: 30 };
    let mut g = game_with_snake(config, snake_at(5, 3, Dir::Right));
    g.tick();
    assert_eq!(g.snake.head.x, 6);
    assert_eq!(g.state, GameState::GameOver);
}

#[test]
fn left_wall_is_fatal() {
    let config = Config { grid_size_x: 8, grid_size_y: 8, pixels_per_cell: 30 };
    let mut g = game_with_snake(config, snake_at(0, 3, Dir::Left));
    g.tick();
    assert_eq!(g.snake.head.x, -1);
    assert_eq!(g.state, GameState::GameOver);
}

#[test]
fn top_wall_is_fatal() {
    let config = Config { grid_size_x: 8, grid_size_y: 8, pixels_per_cell: 30 };
    let mut g = game_with_snake(config, snake_at(3, 7, Dir::Up));
    g.tick();
    assert_eq!(g.snake.head.y, 8);
    assert_eq!(g.state, GameState::GameOver);
}

#[test]
fn bottom_wall_is_fatal() {
    let config = Config { grid_size_x: 8, grid_size_y: 8, pixels_per_cell: 30 };
    let mut g = game_with_snake(config, snake_at(3, 0, Dir::Down));
    g.tick();
    assert_eq!(g.snake.head.y, -1);
    assert_eq!(g.state, GameState::GameOver);
}

#[test]
fn running_into_own_tail_is_fatal() {
    let config = Config { grid_size_x: 10, grid_size_y: 10, pixels_per_cell: 30 };
    let mut tail = VecDeque::new();
    // Oldest first; after the move the head lands on (3,2), which is still
    // part of the tail.
    tail.push_back(Position { x: 2, y: 3 });
    tail.push_back(Position { x: 3, y: 3 });
    tail.push_back(Position { x: 3, y: 2 });
    let snake = Snake {
        head: Position { x: 2, y: 2 },
        velocity: Velocity { dir: Dir::Right },
        tail,
        to_grow: 0,
    };
    let mut g = game_with_snake(config, snake);
    g.tick();
    assert_eq!(g.snake.head, Position { x: 3, y: 2 });
    assert_eq!(g.state, GameState::GameOver);
}

#[test]
fn moving_into_just_vacated_cell_is_not_fatal() {
    let config = Config { grid_size_x: 10, grid_size_y: 10, pixels_per_cell: 30 };
    let mut tail = VecDeque::new();
    // The oldest segment (3,2) is removed on the same tick the head enters
    // its cell, so the move is safe.
    tail.push_back(Position { x: 3, y: 2 });
    tail.push_back(Position { x: 3, y: 3 });
    tail.push_back(Position { x: 2, y: 3 });
    let snake = Snake {
        head: Position { x: 2, y: 2 },
        velocity: Velocity { dir: Dir::Right },
        tail,
        to_grow: 0,
    };
    let mut g = game_with_snake(config, snake);
    g.tick();
    assert_eq!(g.snake.head, Position { x: 3, y: 2 });
    assert_eq!(g.state, GameState::InGame);
}
