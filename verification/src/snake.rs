use crate::direction::Direction;
use crate::model::{cell, cell_opt, cells, step, SnakeModel};
use std::collections::VecDeque;
use vstd::prelude::*;

verus! {

/// A snake on a wrap-around grid.
///
/// The body is kept head first: the front of the queue is the head, the
/// back is the tail. `tail` holds the cell that the last tick took off the
/// back, until it is put back or the next tick replaces it.
pub struct Snake {
    direction: Direction,
    body: VecDeque<(i32, i32)>,
    tail: Option<(i32, i32)>,
}

impl View for Snake {
    type V = SnakeModel;

    closed spec fn view(&self) -> SnakeModel {
        SnakeModel {
            heading: self.direction,
            body: cells(self.body@),
            pending: cell_opt(self.tail),
        }
    }
}

/// Computes one step from `from` on a field of `width` by `height` cells.
fn step_cell(from: (i32, i32), heading: Direction, width: i32, height: i32) -> (to: (i32, i32))
    requires
        width >= 1,
        height >= 1,
    ensures
        cell(to) == step(cell(from), heading, width as int, height as int),
{
    let (x, y) = from;
    match heading {
        Direction::Right => (if x < width - 1 { x + 1 } else { 0 }, y),
        Direction::Left => (if x > 0 { x - 1 } else { width - 1 }, y),
        Direction::Down => (x, if y < height - 1 { y + 1 } else { 0 }),
        Direction::Up => (x, if y > 0 { y - 1 } else { height - 1 }),
    }
}

impl Snake {
    /// Whether the snake covers at least one cell. Every snake that `new`
    /// returns does, and every operation keeps it so.
    pub open spec fn wf(&self) -> bool {
        self@.valid()
    }

    /// Makes the snake that starts at the origin `(x, y)`: three cells in a
    /// row, the tail on the origin and the head at `(x + 2, y)`, heading
    /// `Right`. The origin has to leave room for the head in an `i32`.
    pub fn new(x: i32, y: i32) -> (snake: Snake)
        requires
            x + 2 <= i32::MAX,
        ensures
            snake.wf(),
            snake@ == SnakeModel::initial(x as int, y as int),
    {
        let mut body: VecDeque<(i32, i32)> = VecDeque::new();
        body.push_back((x + 2, y));
        body.push_back((x + 1, y));
        body.push_back((x, y));
        proof {
            assert(cells(body@) =~= SnakeModel::initial(x as int, y as int).body);
        }
        Snake { direction: Direction::Right, body, tail: None }
    }

    /// Returns the cell of the head.
    pub fn head_position(&self) -> (head: (i32, i32))
        requires
            self.wf(),
        ensures
            cell(head) == self@.head(),
    {
        self.body[0]
    }

    /// Moves the snake by one tick on a field of `width` by `height` cells.
    ///
    /// A requested heading replaces the current one as it comes; it is the
    /// caller who drops a request for the opposite of the current heading.
    /// The body keeps its length: the new head comes in front, the old tail
    /// leaves and is kept for `restore_tail`.
    pub fn move_forward(&mut self, dir: Option<Direction>, width: i32, height: i32)
        requires
            old(self).wf(),
            width >= 1,
            height >= 1,
        ensures
            final(self).wf(),
            final(self)@ == old(self)@.advance(dir, width as int, height as int),
            final(self)@.body.len() == old(self)@.body.len(),
            final(self)@.head() == old(self)@.next_head(dir, width as int, height as int),
            final(self)@.pending == Some(old(self)@.body.last()),
    {
        match dir {
            Some(d) => self.direction = d,
            None => (),
        }
        let head = self.head_position();
        let new_head = step_cell(head, self.direction, width, height);
        let removed = self.body.pop_back().unwrap();
        self.body.push_front(new_head);
        self.tail = Some(removed);
        proof {
            assert(cells(self.body@) =~= seq![cell(new_head)] + cells(old(self).body@).drop_last());
        }
    }

    /// Returns the current heading.
    pub fn head_direction(&self) -> (heading: Direction)
        ensures
            heading == self@.heading,
    {
        self.direction
    }

    /// Returns where the head would be after one tick with `dir` on a field
    /// of `width` by `height` cells. The snake stays as it is.
    pub fn next_head(&self, dir: Option<Direction>, width: i32, height: i32) -> (next: (i32, i32))
        requires
            self.wf(),
            width >= 1,
            height >= 1,
        ensures
            cell(next) == self@.next_head(dir, width as int, height as int),
    {
        let head = self.head_position();
        let moving_dir = match dir {
            Some(d) => d,
            None => self.direction,
        };
        step_cell(head, moving_dir, width, height)
    }

    /// Puts the tail cell that the last tick removed back behind the body,
    /// which grows by one cell. The cell is used up: a second call needs
    /// another tick first.
    pub fn restore_tail(&mut self)
        requires
            old(self).wf(),
            old(self)@.pending is Some,
        ensures
            final(self).wf(),
            final(self)@ == old(self)@.restore_tail(),
            final(self)@.body.len() == old(self)@.body.len() + 1,
            final(self)@.body.last() == old(self)@.pending.unwrap(),
    {
        let block = self.tail.take().unwrap();
        self.body.push_back(block);
        proof {
            assert(cells(self.body@) =~= cells(old(self).body@).push(cell(block)));
        }
    }

    /// Tells whether `(x, y)` is one of the body's cells, the last one left
    /// out: the tail is about to move on, so a head that enters the tail's
    /// cell does not run into the snake.
    pub fn overlap_tail(&self, x: i32, y: i32) -> (hit: bool)
        requires
            self.wf(),
        ensures
            hit == self@.overlaps_tail(cell((x, y))),
    {
        let n: usize = self.body.len();
        let ghost scanned = cells(self.body@).drop_last();
        let mut i: usize = 0;
        while i + 1 < n
            invariant
                n == self.body@.len(),
                n >= 1,
                i + 1 <= n,
                scanned == cells(self.body@).drop_last(),
                forall|j: int| 0 <= j < i ==> scanned[j] != cell((x, y)),
            decreases n - i,
        {
            let block = self.body[i];
            if x == block.0 && y == block.1 {
                assert(scanned[i as int] == cell((x, y)));
                return true;
            }
            i += 1;
        }
        false
    }

    /// Returns the body's cells from head to tail.
    pub fn segments(&self) -> (out: Vec<(i32, i32)>)
        ensures
            cells(out@) == self@.body,
            out@.len() == self@.body.len(),
            forall|i: int| 0 <= i < out@.len() ==> cell(#[trigger] out@[i]) == self@.body[i],
    {
        let n: usize = self.body.len();
        let mut out: Vec<(i32, i32)> = Vec::new();
        let mut i: usize = 0;
        while i < n
            invariant
                n == self.body@.len(),
                i <= n,
                out@ == self.body@.take(i as int),
            decreases n - i,
        {
            out.push(self.body[i]);
            i += 1;
        }
        out
    }

    /// Returns the tail cell that `restore_tail` would put back, if there
    /// is one.
    pub fn pending_tail(&self) -> (pending: Option<(i32, i32)>)
        ensures
            cell_opt(pending) == self@.pending,
    {
        self.tail
    }
}

} // verus!
