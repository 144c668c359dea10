use crate::direction::Direction;
use crate::model::{in_field, offset, on_leading_edge, step, Cell, SnakeModel};
use vstd::arithmetic::div_mod::{lemma_mod_add_multiples_vanish, lemma_mod_self_0, lemma_small_mod};
use vstd::prelude::*;

verus! {

/// A step off an edge of the field lands on the opposite edge, and the
/// coordinate across the heading stays as it was.
pub proof fn lemma_step_wraps(c: Cell, heading: Direction, width: int, height: int)
    requires
        on_leading_edge(c, heading, width, height),
    ensures
        step(c, heading, width, height) == match heading {
            Direction::Right => (0int, c.1),
            Direction::Left => (width - 1, c.1),
            Direction::Down => (c.0, 0int),
            Direction::Up => (c.0, height - 1),
        },
        on_leading_edge(step(c, heading, width, height), heading.opposite(), width, height),
        heading.is_horizontal() ==> step(c, heading, width, height).1 == c.1,
        !heading.is_horizontal() ==> step(c, heading, width, height).0 == c.0,
{
}

/// A step from a cell of the field that is not on the edge ahead moves by
/// exactly one cell in the heading.
pub proof fn lemma_step_inside(c: Cell, heading: Direction, width: int, height: int)
    requires
        in_field(c, width, height),
        !on_leading_edge(c, heading, width, height),
    ensures
        step(c, heading, width, height) == (c.0 + offset(heading).0, c.1 + offset(heading).1),
{
}

/// On the field a step is addition modulo the field's size, and it stays
/// on the field.
pub proof fn lemma_step_modular(c: Cell, heading: Direction, width: int, height: int)
    requires
        in_field(c, width, height),
    ensures
        step(c, heading, width, height) == (
            (c.0 + offset(heading).0) % width,
            (c.1 + offset(heading).1) % height,
        ),
        in_field(step(c, heading, width, height), width, height),
{
    lemma_wrap_one(c.0, offset(heading).0, width);
    lemma_wrap_one(c.1, offset(heading).1, height);
}

/// Adding -1, 0 or 1 to a number below `m` and reducing modulo `m` wraps
/// at most once.
proof fn lemma_wrap_one(x: int, d: int, m: int)
    requires
        0 <= x < m,
        -1 <= d <= 1,
    ensures
        (x + d) % m == if x + d < 0 {
            m - 1
        } else if x + d >= m {
            0
        } else {
            x + d
        },
{
    if x + d < 0 {
        lemma_mod_add_multiples_vanish(-1, m);
        lemma_small_mod((m - 1) as nat, m as nat);
    } else if x + d >= m {
        lemma_mod_self_0(m);
    } else {
        lemma_small_mod((x + d) as nat, m as nat);
    }
}

/// On the field a step and then a step the other way lead back to the
/// start.
pub proof fn lemma_step_back(c: Cell, heading: Direction, width: int, height: int)
    requires
        in_field(c, width, height),
    ensures
        step(step(c, heading, width, height), heading.opposite(), width, height) == c,
{
}

/// A tick never changes the length of the body.
pub proof fn lemma_advance_keeps_length(
    s: SnakeModel,
    request: Option<Direction>,
    width: int,
    height: int,
)
    requires
        s.valid(),
    ensures
        s.advance(request, width, height).body.len() == s.body.len(),
        s.advance(request, width, height).valid(),
{
}

/// Putting the tail back makes the body longer by exactly one cell.
pub proof fn lemma_restore_tail_adds_one(s: SnakeModel)
    requires
        s.valid(),
        s.pending is Some,
    ensures
        s.restore_tail().body.len() == s.body.len() + 1,
        s.restore_tail().valid(),
{
}

/// After a tick the head is where `next_head` said it would be, for the
/// same request and the same field.
pub proof fn lemma_advance_lands_on_next_head(
    s: SnakeModel,
    request: Option<Direction>,
    width: int,
    height: int,
)
    requires
        s.valid(),
    ensures
        s.advance(request, width, height).head() == s.next_head(request, width, height),
{
}

/// A tick and then putting the tail back gives the body before the tick
/// with the new head in front: one cell longer, and its last cell is the
/// tail that the tick took off.
pub proof fn lemma_restore_replays_tail(
    s: SnakeModel,
    request: Option<Direction>,
    width: int,
    height: int,
)
    requires
        s.valid(),
    ensures
        s.advance(request, width, height).pending == Some(s.body.last()),
        s.advance(request, width, height).restore_tail().body
            == seq![s.next_head(request, width, height)] + s.body,
        s.advance(request, width, height).restore_tail().body.len() == s.body.len() + 1,
        s.advance(request, width, height).restore_tail().body.last() == s.body.last(),
{
}

/// A tick with no request keeps the heading, and a tick with a request
/// takes it on whatever the heading was.
pub proof fn lemma_advance_heading(
    s: SnakeModel,
    request: Option<Direction>,
    width: int,
    height: int,
)
    ensures
        request is None ==> s.advance(request, width, height).heading == s.heading,
        request is Some ==> s.advance(request, width, height).heading == request.unwrap(),
{
}

/// A snake that lies on the field still lies on it after a tick: the field
/// has no way out.
pub proof fn lemma_advance_stays_inside(
    s: SnakeModel,
    request: Option<Direction>,
    width: int,
    height: int,
)
    requires
        s.valid(),
        s.inside(width, height),
    ensures
        s.advance(request, width, height).inside(width, height),
{
}

/// The last cell of the body does not count as hit unless the cell shows
/// up earlier in the body too.
pub proof fn lemma_tail_is_excluded(s: SnakeModel, c: Cell)
    requires
        s.valid(),
    ensures
        s.overlaps_tail(c) <==> exists|i: int| 0 <= i < s.body.len() - 1 && s.body[i] == c,
{
    let front = s.body.drop_last();
    if s.overlaps_tail(c) {
        let i = choose|i: int| 0 <= i < front.len() && front[i] == c;
        assert(s.body[i] == c);
    }
    if exists|i: int| 0 <= i < s.body.len() - 1 && s.body[i] == c {
        let i = choose|i: int| 0 <= i < s.body.len() - 1 && s.body[i] == c;
        assert(front[i] == c);
    }
}

} // verus!
