//! The snake: an ordered run of segments with a heading.

use std::collections::VecDeque;
use tokio::sync::broadcast::Sender;
use vstd::prelude::*;
use crate::events::{Event, EventSink};
use crate::sprites::food::{first_egg_at, no_egg_at, Egg, Food};

verus! {

/// One of the four headings a snake can travel in.
#[derive(Clone, Copy, PartialEq, Eq, Debug, Structural)]
pub enum Direction {
    Right,
    Left,
    Up,
    Down,
}

impl Direction {
    /// The heading that points the other way.
    pub open spec fn spec_opposite(self) -> Direction {
        match self {
            Direction::Right => Direction::Left,
            Direction::Left => Direction::Right,
            Direction::Up => Direction::Down,
            Direction::Down => Direction::Up,
        }
    }

    /// The heading that points the other way.
    #[verifier::when_used_as_spec(spec_opposite)]
    pub fn opposite(self) -> (r: Direction)
        ensures
            r == self.spec_opposite(),
    {
        match self {
            Direction::Right => Direction::Left,
            Direction::Left => Direction::Right,
            Direction::Up => Direction::Down,
            Direction::Down => Direction::Up,
        }
    }

    /// The heading's name, as event messages spell it.
    pub open spec fn name(self) -> Seq<char> {
        match self {
            Direction::Right => "Right"@,
            Direction::Left => "Left"@,
            Direction::Up => "Up"@,
            Direction::Down => "Down"@,
        }
    }

    /// The heading's name, as event messages spell it.
    pub fn label(self) -> (s: &'static str)
        ensures
            s@ == self.name(),
    {
        match self {
            Direction::Right => "Right",
            Direction::Left => "Left",
            Direction::Up => "Up",
            Direction::Down => "Down",
        }
    }
}

/// One cell of the snake's body.
#[derive(Clone, Copy, PartialEq, Eq, Debug, Structural)]
pub struct Segment {
    pub x: u16,
    pub y: u16,
}

/// The cell one step from `head` in the direction `heading`, on a grid of
/// `width` by `height` cells whose edges are joined: a step over the right or
/// bottom edge lands on column or row 0, a step over the left or top edge on
/// the last column or row.
pub open spec fn next_head(head: Segment, heading: Direction, width: u16, height: u16) -> Segment {
    match heading {
        Direction::Right => Segment {
            x: if head.x + 1 < width {
                (head.x + 1) as u16
            } else {
                0
            },
            y: head.y,
        },
        Direction::Left => Segment {
            x: if head.x > 0 {
                (head.x - 1) as u16
            } else {
                (width - 1) as u16
            },
            y: head.y,
        },
        Direction::Up => Segment {
            x: head.x,
            y: if head.y > 0 {
                (head.y - 1) as u16
            } else {
                (height - 1) as u16
            },
        },
        Direction::Down => Segment {
            x: head.x,
            y: if head.y + 1 < height {
                (head.y + 1) as u16
            } else {
                0
            },
        },
    }
}

/// The body after one step: the tail cell is given up and the cell one step
/// from the head becomes the new head.
pub open spec fn slid(body: Seq<Segment>, heading: Direction, width: u16, height: u16) -> Seq<
    Segment,
> {
    body.drop_first().push(next_head(body.last(), heading, width, height))
}

/// The body after one step for each heading in `headings`, in turn.
pub open spec fn slid_along(
    body: Seq<Segment>,
    headings: Seq<Direction>,
    width: u16,
    height: u16,
) -> Seq<Segment>
    decreases headings.len(),
{
    if headings.len() == 0 {
        body
    } else {
        slid(slid_along(body, headings.drop_last(), width, height), headings.last(), width, height)
    }
}

/// The heading after a command to turn to `wanted`: the command is obeyed
/// unless it asks for the heading the snake has or for the opposite one.
pub open spec fn turned(heading: Direction, wanted: Direction) -> Direction {
    if wanted != heading && wanted != heading.spec_opposite() {
        wanted
    } else {
        heading
    }
}

/// The events that one step to `head` announces, given the eggs that lay on
/// the grid before it.
pub open spec fn step_events(eggs: Seq<Egg>, head: Segment) -> Seq<Event> {
    if no_egg_at(eggs, head.x, head.y) {
        seq![Event::SnakeForward { x: head.x, y: head.y }]
    } else {
        seq![
            Event::SnakeGrow { x: head.x, y: head.y },
            Event::SnakeForward { x: head.x, y: head.y },
        ]
    }
}

/// The snake. Its segments run from the tail, first, to the head, last.
pub struct Snake {
    segments: VecDeque<Segment>,
    direction: Direction,
    grow: bool,
    sink: EventSink,
}

impl Snake {
    /// The segments, tail first and head last.
    pub closed spec fn body(&self) -> Seq<Segment> {
        self.segments@
    }

    /// The heading the next step will take.
    pub closed spec fn heading(&self) -> Direction {
        self.direction
    }

    /// Whether the snake was set up to grow when it eats.
    pub closed spec fn grows(&self) -> bool {
        self.grow
    }

    /// Every event the snake has announced, oldest first.
    pub closed spec fn events(&self) -> Seq<Event> {
        self.sink.sent()
    }

    /// How many of its events no receiver was there to take.
    pub closed spec fn lost(&self) -> u64 {
        self.sink.lost()
    }

    /// A snake has at least one segment.
    pub open spec fn wf(&self) -> bool {
        self.body().len() >= 1
    }

    /// The head: the last segment.
    pub open spec fn head(&self) -> Segment {
        self.body().last()
    }

    /// The cells the segments lie on, as pairs of column and row.
    pub open spec fn cells(&self) -> Seq<(u16, u16)> {
        self.body().map_values(|segment: Segment| (segment.x, segment.y))
    }

    /// Whether `self` and `food` are what one step on a `width` by `height`
    /// grid leaves of `before` and `food_before`.
    ///
    /// The body slides one cell along the heading. Heading and growth flag
    /// stay. If no egg lay on the new head's cell, the food is as it was;
    /// else the first egg that lay there lies somewhere on the food's grid
    /// now, and every other egg where it lay. The step is announced, after
    /// the meal if there was one.
    pub open spec fn stepped(
        &self,
        food: Food,
        before: Snake,
        food_before: Food,
        width: u16,
        height: u16,
    ) -> bool {
        let head = next_head(before.head(), before.heading(), width, height);
        &&& self.wf()
        &&& self.body() == slid(before.body(), before.heading(), width, height)
        &&& self.heading() == before.heading()
        &&& self.grows() == before.grows()
        &&& self.events() == before.events() + step_events(food_before@, head)
        &&& before.lost() <= self.lost() <= before.lost() + 2
        &&& food.wf()
        &&& food.grid_width() == food_before.grid_width()
        &&& food.grid_height() == food_before.grid_height()
        &&& food@.len() == food_before@.len()
        &&& no_egg_at(food_before@, head.x, head.y) ==> food@ == food_before@
        &&& forall|i: int|
            first_egg_at(food_before@, i, head.x, head.y) ==> food@ == food_before@.update(
                i,
                food@[i],
            ) && food.holds(#[trigger] food@[i])
    }

    /// Whether `self` is what a command to turn to `wanted` leaves of
    /// `before`: the heading is taken unless it is the one the snake has or
    /// the opposite one, a turn that is taken is announced, and nothing else
    /// changes.
    pub open spec fn steered(&self, before: Snake, wanted: Direction) -> bool {
        &&& self.heading() == turned(before.heading(), wanted)
        &&& self.body() == before.body()
        &&& self.grows() == before.grows()
        &&& self.events() == if self.heading() != before.heading() {
            before.events().push(Event::SnakeTurn { direction: wanted })
        } else {
            before.events()
        }
        &&& before.lost() <= self.lost() <= before.lost() + 1
        &&& self.heading() == before.heading() ==> self.lost() == before.lost()
    }

    /// Lays out a snake of `s_count` segments in a row: segment `i` lies on
    /// `(start_x + i, start_y)`, so the head is the rightmost, and the snake
    /// heads right. Announces the layout on `tx`.
    pub fn new(s_count: u16, start_x: u16, start_y: u16, grow: bool, tx: Sender<String>) -> (snake:
        Snake)
        requires
            s_count >= 1,
            start_x + s_count - 1 <= u16::MAX,
        ensures
            snake.wf(),
            snake.body() == Seq::new(
                s_count as nat,
                |i: int| Segment { x: (start_x + i) as u16, y: start_y },
            ),
            snake.heading() == Direction::Right,
            snake.grows() == grow,
            snake.events() == seq![Event::SnakeInit { length: s_count, start_x, start_y }],
            snake.lost() <= 1,
    {
        let mut segments: VecDeque<Segment> = VecDeque::new();
        let mut i: u16 = 0;
        while i < s_count
            invariant
                i <= s_count,
                start_x + s_count - 1 <= u16::MAX,
                segments@ == Seq::new(
                    i as nat,
                    |k: int| Segment { x: (start_x + k) as u16, y: start_y },
                ),
            decreases s_count - i,
        {
            segments.push_back(Segment { x: start_x + i, y: start_y });
            i = i + 1;
        }
        let mut sink = EventSink::new(tx);
        sink.emit(Event::SnakeInit { length: s_count, start_x, start_y });
        Snake { segments, direction: Direction::Right, grow, sink }
    }

    /// Moves the snake one cell in its heading, across the edges of the
    /// `width` by `height` grid if need be.
    ///
    /// The new head is added and the tail cell given up, so the length stays
    /// as it was. If an egg lies on the new head's cell, the first such egg is
    /// laid again elsewhere and the meal is announced. The step itself is
    /// always announced.
    pub fn forward(&mut self, food: &mut Food, width: u16, height: u16)
        requires
            old(self).wf(),
            old(food).wf(),
            width > 0,
            height > 0,
        ensures
            final(self).stepped(*final(food), *old(self), *old(food), width, height),
            final(self).body().len() == old(self).body().len(),
            final(self).head() == next_head(old(self).head(), old(self).heading(), width, height),
    {
        let head = self.segments[self.segments.len() - 1];
        let (new_x, new_y) = match self.direction {
            Direction::Right => (
                if head.x < width - 1 {
                    head.x + 1
                } else {
                    0
                },
                head.y,
            ),
            Direction::Left => (
                if head.x > 0 {
                    head.x - 1
                } else {
                    width - 1
                },
                head.y,
            ),
            Direction::Up => (
                head.x,
                if head.y > 0 {
                    head.y - 1
                } else {
                    height - 1
                },
            ),
            Direction::Down => (
                head.x,
                if head.y < height - 1 {
                    head.y + 1
                } else {
                    0
                },
            ),
        };
        assert(Segment { x: new_x, y: new_y } == next_head(
            old(self).head(),
            old(self).heading(),
            width,
            height,
        ));

        let e_idx = food.position(new_x, new_y);
        if let Some(e_idx) = e_idx {
            food._replace(e_idx);
            self.sink.emit(Event::SnakeGrow { x: new_x, y: new_y });
            assert forall|i: int| first_egg_at(old(food)@, i, new_x, new_y) implies i == e_idx by {
                if i < e_idx {
                    assert(old(food)@.take(e_idx as int)[i] == old(food)@[i]);
                } else if i > e_idx {
                    assert(old(food)@.take(i)[e_idx as int] == old(food)@[e_idx as int]);
                }
            }
        } else {
            assert forall|i: int| !first_egg_at(old(food)@, i, new_x, new_y) by {}
        }

        self.segments.push_back(Segment { x: new_x, y: new_y });
        self.segments.pop_front();
        self.sink.emit(Event::SnakeForward { x: new_x, y: new_y });
        proof {
            assert(final(self).body() =~= slid(
                old(self).body(),
                old(self).heading(),
                width,
                height,
            ));
            assert(final(self).events() =~= old(self).events() + step_events(
                old(food)@,
                Segment { x: new_x, y: new_y },
            ));
        }
    }

    /// Turns the snake to `new_direction`, unless that is the heading it has
    /// or the opposite one: a snake cannot turn back on itself. A turn that is
    /// taken is announced; a command that is not obeyed changes nothing.
    pub fn turn(&mut self, new_direction: Direction)
        ensures
            new_direction == old(self).heading() ==> final(self).heading() == old(self).heading(),
            new_direction == old(self).heading().spec_opposite() ==> final(self).heading()
                == old(self).heading(),
            new_direction != old(self).heading() && new_direction != old(self).heading().spec_opposite()
                ==> final(self).heading() == new_direction,
            final(self).steered(*old(self), new_direction),
    {
        let opposite = self.direction.opposite();
        if new_direction != opposite && new_direction != self.direction {
            self.sink.emit(Event::SnakeTurn { direction: new_direction });
            self.direction = new_direction;
        }
    }

    /// Adds a head on `(new_x, new_y)` and keeps the tail, so the snake is one
    /// segment longer. No step of the snake does this by itself.
    pub fn _grow(&mut self, new_x: u16, new_y: u16)
        ensures
            final(self).body() == old(self).body().push(Segment { x: new_x, y: new_y }),
            final(self).heading() == old(self).heading(),
            final(self).grows() == old(self).grows(),
            final(self).events() == old(self).events(),
            final(self).lost() == old(self).lost(),
    {
        self.segments.push_back(Segment { x: new_x, y: new_y });
    }

    /// The segments, tail first and head last.
    pub fn segments(&self) -> (segments: &VecDeque<Segment>)
        ensures
            segments@ == self.body(),
    {
        &self.segments
    }

    /// The heading the next step will take.
    pub fn direction(&self) -> (heading: Direction)
        ensures
            heading == self.heading(),
    {
        self.direction
    }

    /// Whether the snake was set up to grow when it eats.
    pub fn grow_enabled(&self) -> (grow: bool)
        ensures
            grow == self.grows(),
    {
        self.grow
    }

    /// How many of the snake's events no receiver was there to take.
    pub fn dropped(&self) -> (n: u64)
        ensures
            n == self.lost(),
    {
        self.sink.dropped()
    }
}

/// A command to turn never reverses the snake and never fails to turn it
/// aside: asked for its own heading or the opposite one, the snake keeps its
/// heading; asked for any other, it takes that one.
pub proof fn lemma_turn_rule(heading: Direction, wanted: Direction)
    ensures
        turned(heading, heading) == heading,
        turned(heading, heading.spec_opposite()) == heading,
        wanted != heading && wanted != heading.spec_opposite() ==> turned(heading, wanted)
            == wanted,
        turned(heading, wanted) != heading.spec_opposite(),
{
}

/// However many steps a snake takes, and whatever its heading at each, it
/// keeps the number of segments it started with.
pub proof fn lemma_length_is_constant(
    body: Seq<Segment>,
    headings: Seq<Direction>,
    width: u16,
    height: u16,
)
    requires
        body.len() >= 1,
    ensures
        slid_along(body, headings, width, height).len() == body.len(),
    decreases headings.len(),
{
    if headings.len() > 0 {
        lemma_length_is_constant(body, headings.drop_last(), width, height);
    }
}

/// The edges of the grid are joined. A step right from the last column lands
/// on column 0 and a step left from column 0 on the last column; a step down
/// from the last row lands on row 0 and a step up from row 0 on the last row.
/// The other coordinate stays as it is.
pub proof fn lemma_wraparound(head: Segment, width: u16, height: u16)
    requires
        width > 0,
        height > 0,
    ensures
        head.x == width - 1 ==> next_head(head, Direction::Right, width, height) == (Segment {
            x: 0,
            y: head.y,
        }),
        head.x == 0 ==> next_head(head, Direction::Left, width, height) == (Segment {
            x: (width - 1) as u16,
            y: head.y,
        }),
        head.y == height - 1 ==> next_head(head, Direction::Down, width, height) == (Segment {
            x: head.x,
            y: 0,
        }),
        head.y == 0 ==> next_head(head, Direction::Up, width, height) == (Segment {
            x: head.x,
            y: (height - 1) as u16,
        }),
{
}

/// On the grid, a step is a step modulo the grid's size: from a head that
/// lies on the grid, the coordinate along the heading goes up or down by one
/// modulo the width or the height, and the new head lies on the grid too.
pub proof fn lemma_step_stays_on_grid(head: Segment, heading: Direction, width: u16, height: u16)
    requires
        head.x < width,
        head.y < height,
    ensures
        next_head(head, heading, width, height).x < width,
        next_head(head, heading, width, height).y < height,
        next_head(head, Direction::Right, width, height).x == (head.x + 1) % (width as int),
        next_head(head, Direction::Left, width, height).x == (head.x + width - 1) % (width as int),
        next_head(head, Direction::Down, width, height).y == (head.y + 1) % (height as int),
        next_head(head, Direction::Up, width, height).y == (head.y + height - 1) % (height as int),
{
    let w = width as int;
    let h = height as int;
    if head.x + 1 < w {
        vstd::arithmetic::div_mod::lemma_small_mod((head.x + 1) as nat, w as nat);
    } else {
        vstd::arithmetic::div_mod::lemma_mod_self_0(w);
    }
    if head.x > 0 {
        vstd::arithmetic::div_mod::lemma_mod_add_multiples_vanish(head.x - 1, w);
        vstd::arithmetic::div_mod::lemma_small_mod((head.x - 1) as nat, w as nat);
    } else {
        vstd::arithmetic::div_mod::lemma_small_mod((w - 1) as nat, w as nat);
    }
    if head.y + 1 < h {
        vstd::arithmetic::div_mod::lemma_small_mod((head.y + 1) as nat, h as nat);
    } else {
        vstd::arithmetic::div_mod::lemma_mod_self_0(h);
    }
    if head.y > 0 {
        vstd::arithmetic::div_mod::lemma_mod_add_multiples_vanish(head.y - 1, h);
        vstd::arithmetic::div_mod::lemma_small_mod((head.y - 1) as nat, h as nat);
    } else {
        vstd::arithmetic::div_mod::lemma_small_mod((h - 1) as nat, h as nat);
    }
}

} // verus!
