//! The queue of raw directional intents, in arrival order, decoupled from
//! the tick rate.

use std::collections::VecDeque;
use vstd::prelude::*;

use crate::config::Dir;

verus! {

/// Raw direction requests in arrival order. Insertion order is preserved and
/// consumption is strictly first-in first-out, one request per tick, so the
/// player may queue several turns within one tick interval without loss.
pub struct InputQueue {
    queue: VecDeque<Dir>,
}

impl View for InputQueue {
    type V = Seq<Dir>;

    closed spec fn view(&self) -> Seq<Dir> {
        self.queue@
    }
}

impl Default for InputQueue {
    /// An empty queue, as created at game start.
    fn default() -> (q: InputQueue)
        ensures
            q@ == Seq::<Dir>::empty(),
    {
        InputQueue { queue: VecDeque::new() }
    }
}

impl InputQueue {
    /// Remove and return the oldest pending direction, or report empty.
    pub fn pop_last_input(&mut self) -> (r: Option<Dir>)
        ensures
            old(self)@.len() == 0 ==> r is None && final(self)@ == old(self)@,
            old(self)@.len() > 0 ==> r == Some(old(self)@[0]) && final(self)@ == old(self)@.drop_first(),
    {
        self.queue.pop_front()
    }

    /// Append a raw direction request behind every pending one. Called once
    /// per detected key edge, not per tick.
    pub fn insert_input(&mut self, dir: Dir)
        ensures
            final(self)@ == old(self)@.push(dir),
    {
        self.queue.push_back(dir);
    }

    /// Drop every pending request, as done on restart.
    pub fn clear(&mut self)
        ensures
            final(self)@ == Seq::<Dir>::empty(),
    {
        self.queue.clear();
    }

    /// The number of pending requests.
    pub fn len(&self) -> (n: usize)
        ensures
            n == self@.len(),
    {
        self.queue.len()
    }
}

} // verus!
