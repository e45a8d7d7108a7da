//! Heading resolution: one pass over the queued input per tick.

use snake_core::config::{Dir, Velocity};
use snake_core::input::InputQueue;
use snake_core::player::apply_player_input;

fn queue_of(dirs: &[Dir]) -> InputQueue {
    let mut q = InputQueue::default();
    for d in dirs {
        q.insert_input(*d);
    }
    q
}

#[test]
fn reversal_is_skipped_then_turn_adopted() {
    // Heading Right with [Left, Up] queued: Left is the opposite of Right and
    // is rejected, Up is adopted, and the queue is left empty.
    let mut q = queue_of(&[Dir::Left, Dir::Up]);
    let mut v = Velocity { dir: Dir::Right };
    apply_player_input(&mut q, &mut v);
    assert_eq!(v.dir, Dir::Up);
    assert_eq!(q.len(), 0);
}

#[test]
fn queued_reversals_never_turn() {
    let mut q = queue_of(&[Dir::Left, Dir::Left, Dir::Left]);
    let mut v = Velocity { dir: Dir::Right };
    apply_player_input(&mut q, &mut v);
    assert_eq!(v.dir, Dir::Right);
    assert_eq!(q.len(), 0);
}

#[test]
fn empty_queue_keeps_heading() {
    let mut q = InputQueue::default();
    let mut v = Velocity { dir: Dir::Down };
    apply_player_input(&mut q, &mut v);
    assert_eq!(v.dir, Dir::Down);
    assert_eq!(q.len(), 0);
}

#[test]
fn repeat_of_current_heading_is_rejected() {
    let mut q = queue_of(&[Dir::Right, Dir::Down]);
    let mut v = Velocity { dir: Dir::Right };
    apply_player_input(&mut q, &mut v);
    assert_eq!(v.dir, Dir::Down);
    assert_eq!(q.len(), 0);
}

#[test]
fn remainder_stays_queued_after_adoption() {
    let mut q = queue_of(&[Dir::Up, Dir::Left]);
    let mut v = Velocity { dir: Dir::Right };
    apply_player_input(&mut q, &mut v);
    assert_eq!(v.dir, Dir::Up);
    // Left is still pending for the next tick.
    assert_eq!(q.len(), 1);
    assert_eq!(q.pop_last_input(), Some(Dir::Left));
}

#[test]
fn first_real_direction_wakes_a_still_snake() {
    // Still is its own opposite, so a queued Still is rejected and the first
    // real direction is adopted.
    let mut q = queue_of(&[Dir::Still, Dir::Up]);
    let mut v = Velocity { dir: Dir::Still };
    apply_player_input(&mut q, &mut v);
    assert_eq!(v.dir, Dir::Up);
}

#[test]
fn unit_offsets_and_opposites() {
    assert_eq!(Dir::Still.to_x_y(), (0, 0));
    assert_eq!(Dir::Left.to_x_y(), (-1, 0));
    assert_eq!(Dir::Right.to_x_y(), (1, 0));
    assert_eq!(Dir::Up.to_x_y(), (0, 1));
    assert_eq!(Dir::Down.to_x_y(), (0, -1));
    assert_eq!(Dir::Still.opposite(), Dir::Still);
    assert_eq!(Dir::Left.opposite(), Dir::Right);
    assert_eq!(Dir::Right.opposite(), Dir::Left);
    assert_eq!(Dir::Up.opposite(), Dir::Down);
    assert_eq!(Dir::Down.opposite(), Dir::Up);
}

#[test]
fn input_queue_is_fifo() {
    let mut q = queue_of(&[Dir::Up, Dir::Down, Dir::Left]);
    assert_eq!(q.len(), 3);
    assert_eq!(q.pop_last_input(), Some(Dir::Up));
    assert_eq!(q.pop_last_input(), Some(Dir::Down));
    q.insert_input(Dir::Right);
    assert_eq!(q.pop_last_input(), Some(Dir::Left));
    assert_eq!(q.pop_last_input(), Some(Dir::Right));
    assert_eq!(q.pop_last_input(), None);
    let mut q2 = queue_of(&[Dir::Up, Dir::Down]);
    q2.clear();
    assert_eq!(q2.len(), 0);
    assert_eq!(q2.pop_last_input(), None);
}
