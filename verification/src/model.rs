use crate::direction::Direction;
use vstd::prelude::*;

verus! {

/// A grid cell as a pair `(x, y)` of unbounded integers.
pub type Cell = (int, int);

/// The cell that a pair of machine integers stands for.
pub open spec fn cell(c: (i32, i32)) -> Cell {
    (c.0 as int, c.1 as int)
}

/// The cells that a sequence of machine pairs stands for, in order.
pub open spec fn cells(s: Seq<(i32, i32)>) -> Seq<Cell> {
    s.map_values(|c: (i32, i32)| cell(c))
}

/// The cell that an optional machine pair stands for.
pub open spec fn cell_opt(c: Option<(i32, i32)>) -> Option<Cell> {
    match c {
        Some(p) => Some(cell(p)),
        None => None,
    }
}

/// Whether `c` lies on a field of `width` columns and `height` rows.
pub open spec fn in_field(c: Cell, width: int, height: int) -> bool {
    0 <= c.0 < width && 0 <= c.1 < height
}

/// Whether `c` lies on the edge of the field that `heading` points off:
/// the last column for `Right`, column 0 for `Left`, the last row for
/// `Down`, row 0 for `Up`.
pub open spec fn on_leading_edge(c: Cell, heading: Direction, width: int, height: int) -> bool {
    match heading {
        Direction::Right => c.0 == width - 1,
        Direction::Left => c.0 == 0,
        Direction::Down => c.1 == height - 1,
        Direction::Up => c.1 == 0,
    }
}

/// The change of `(x, y)` that one step in `heading` makes away from the
/// edges.
pub open spec fn offset(heading: Direction) -> Cell {
    match heading {
        Direction::Right => (1, 0),
        Direction::Left => (-1, 0),
        Direction::Down => (0, 1),
        Direction::Up => (0, -1),
    }
}

/// The cell one step from `c` in `heading` on a wrap-around field.
///
/// Only the coordinate along the heading changes. Going `Right` or `Down`
/// it grows by one while it is below the last column or row, and becomes 0
/// otherwise; going `Left` or `Up` it shrinks by one while it is above 0,
/// and becomes the last column or row otherwise.
pub open spec fn step(c: Cell, heading: Direction, width: int, height: int) -> Cell {
    match heading {
        Direction::Right => (if c.0 < width - 1 { c.0 + 1 } else { 0 }, c.1),
        Direction::Left => (if c.0 > 0 { c.0 - 1 } else { width - 1 }, c.1),
        Direction::Down => (c.0, if c.1 < height - 1 { c.1 + 1 } else { 0 }),
        Direction::Up => (c.0, if c.1 > 0 { c.1 - 1 } else { height - 1 }),
    }
}

/// What a snake is: where it is heading, the cells it covers from head to
/// tail, and the tail cell it gave up on its last tick, if that cell can
/// still be put back.
pub struct SnakeModel {
    pub heading: Direction,
    pub body: Seq<Cell>,
    pub pending: Option<Cell>,
}

impl SnakeModel {
    /// A snake covers at least one cell.
    pub open spec fn valid(self) -> bool {
        self.body.len() >= 1
    }

    /// The snake laid out from the origin `(x, y)`: three cells in a row
    /// with the tail on the origin and the head two cells to its right,
    /// heading `Right`, with nothing to put back.
    pub open spec fn initial(x: int, y: int) -> SnakeModel {
        SnakeModel {
            heading: Direction::Right,
            body: seq![(x + 2, y), (x + 1, y), (x, y)],
            pending: None,
        }
    }

    /// The first cell of the body.
    pub open spec fn head(self) -> Cell {
        self.body.first()
    }

    /// The heading of the next step: the requested one if there is a
    /// request, the current one otherwise. A request is taken as it comes,
    /// also when it reverses the snake.
    pub open spec fn steered(self, request: Option<Direction>) -> Direction {
        match request {
            Some(d) => d,
            None => self.heading,
        }
    }

    /// Where the head would be after one tick with `request`.
    pub open spec fn next_head(self, request: Option<Direction>, width: int, height: int) -> Cell {
        step(self.head(), self.steered(request), width, height)
    }

    /// The snake after one tick: it takes on the steered heading, a new
    /// head is put in front of the body, and the last cell leaves the body
    /// and is kept as the one that can be put back.
    pub open spec fn advance(self, request: Option<Direction>, width: int, height: int)
        -> SnakeModel {
        SnakeModel {
            heading: self.steered(request),
            body: seq![self.next_head(request, width, height)] + self.body.drop_last(),
            pending: Some(self.body.last()),
        }
    }

    /// The snake after the kept tail cell has been put back behind the
    /// body. The cell is used up by this.
    pub open spec fn restore_tail(self) -> SnakeModel {
        SnakeModel {
            heading: self.heading,
            body: self.body.push(self.pending.unwrap()),
            pending: None,
        }
    }

    /// Whether every cell of the body lies on the field.
    pub open spec fn inside(self, width: int, height: int) -> bool {
        forall|i: int| 0 <= i < self.body.len() ==> in_field(#[trigger] self.body[i], width, height)
    }

    /// Whether `c` is covered by the body without its last cell.
    pub open spec fn overlaps_tail(self, c: Cell) -> bool {
        self.body.drop_last().contains(c)
    }
}

} // verus!
