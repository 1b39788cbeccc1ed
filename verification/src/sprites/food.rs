//! The food: a fixed number of eggs lying on the grid.

use vstd::prelude::*;

verus! {

/// An egg, by the cell it lies on.
#[derive(Clone, Copy, PartialEq, Eq, Debug, Structural)]
pub struct Egg {
    pub x: u16,
    pub y: u16,
}

/// The eggs on a grid of a given size. Their number never changes: an egg that
/// is eaten is laid again somewhere else.
pub struct Food {
    _width: u16,
    _height: u16,
    eggs: Vec<Egg>,
}

/// Calls `rand::random_range` on the range from 0 up to, not including, `bound`.
///
/// The range must not be empty. The number that comes back lies in it; which
/// one it is, is up to the thread's random number generator.
#[verifier::external_body]
fn random_below(bound: u16) -> (n: u16)
    requires
        bound > 0,
    ensures
        n < bound,
{
    rand::random_range(0..bound)
}

/// No egg in `eggs` lies on `(x, y)`.
pub open spec fn no_egg_at(eggs: Seq<Egg>, x: u16, y: u16) -> bool {
    forall|j: int| 0 <= j < eggs.len() ==> eggs[j] != (Egg { x, y })
}

/// The egg at `i` lies on `(x, y)`, and no egg before it does.
pub open spec fn first_egg_at(eggs: Seq<Egg>, i: int, x: u16, y: u16) -> bool {
    &&& 0 <= i < eggs.len()
    &&& eggs[i] == (Egg { x, y })
    &&& no_egg_at(eggs.take(i), x, y)
}

impl View for Food {
    type V = Seq<Egg>;

    /// The eggs, in the order in which they are kept.
    closed spec fn view(&self) -> Seq<Egg> {
        self.eggs@
    }
}

impl Food {
    /// The width of the grid the eggs are laid on.
    pub closed spec fn grid_width(&self) -> u16 {
        self._width
    }

    /// The height of the grid the eggs are laid on.
    pub closed spec fn grid_height(&self) -> u16 {
        self._height
    }

    /// Where there are eggs, the grid has cells to lay them on.
    pub open spec fn wf(&self) -> bool {
        self@.len() > 0 ==> self.grid_width() > 0 && self.grid_height() > 0
    }

    /// The cells the eggs lie on, as pairs of column and row.
    pub open spec fn cells(&self) -> Seq<(u16, u16)> {
        self@.map_values(|egg: Egg| (egg.x, egg.y))
    }

    /// Whether `egg` lies on this food's grid.
    pub open spec fn holds(&self, egg: Egg) -> bool {
        egg.x < self.grid_width() && egg.y < self.grid_height()
    }

    /// Lays `count` eggs, each on a cell of the `width` by `height` grid that
    /// is drawn at random. Two eggs may share a cell.
    pub fn new(count: u16, width: u16, height: u16) -> (food: Food)
        requires
            count > 0 ==> width > 0 && height > 0,
        ensures
            food.wf(),
            food.grid_width() == width,
            food.grid_height() == height,
            food@.len() == count,
            forall|i: int| 0 <= i < food@.len() ==> food.holds(#[trigger] food@[i]),
    {
        let mut eggs: Vec<Egg> = Vec::new();
        let mut laid: u16 = 0;
        while laid < count
            invariant
                laid <= count,
                count > 0 ==> width > 0 && height > 0,
                eggs@.len() == laid,
                forall|i: int| 0 <= i < eggs@.len() ==> (#[trigger] eggs@[i]).x < width && eggs@[i].y < height,
            decreases count - laid,
        {
            let egg = Egg { x: random_below(width), y: random_below(height) };
            eggs.push(egg);
            laid = laid + 1;
        }
        Food { eggs, _width: width, _height: height }
    }

    /// Puts `egg` in place of the egg at `idx`.
    pub fn place(&mut self, idx: usize, egg: Egg)
        requires
            idx < old(self)@.len(),
        ensures
            final(self)@ == old(self)@.update(idx as int, egg),
            final(self).grid_width() == old(self).grid_width(),
            final(self).grid_height() == old(self).grid_height(),
    {
        self.eggs[idx] = egg;
    }

    /// Lays the egg at `idx` again, on a cell of the grid drawn at random.
    /// No other egg moves.
    pub fn _replace(&mut self, idx: usize)
        requires
            old(self).wf(),
            idx < old(self)@.len(),
        ensures
            final(self).wf(),
            final(self).holds(final(self)@[idx as int]),
            final(self)@ == old(self)@.update(idx as int, final(self)@[idx as int]),
            final(self).grid_width() == old(self).grid_width(),
            final(self).grid_height() == old(self).grid_height(),
    {
        let egg = Egg { x: random_below(self._width), y: random_below(self._height) };
        self.place(idx, egg);
    }

    /// The index of the first egg that lies on `(x, y)`, if any does.
    pub fn position(&self, x: u16, y: u16) -> (found: Option<usize>)
        ensures
            match found {
                Some(i) => first_egg_at(self@, i as int, x, y),
                None => no_egg_at(self@, x, y),
            },
    {
        let mut i: usize = 0;
        while i < self.eggs.len()
            invariant
                i <= self.eggs@.len(),
                no_egg_at(self.eggs@.take(i as int), x, y),
            decreases self.eggs@.len() - i,
        {
            let egg = self.eggs[i];
            if egg.x == x && egg.y == y {
                return Some(i);
            }
            i = i + 1;
            assert forall|j: int| 0 <= j < i implies self.eggs@.take(i as int)[j] != (Egg {
                x,
                y,
            }) by {
                if j < i - 1 {
                    assert(self.eggs@.take(i - 1)[j] == self.eggs@[j]);
                }
            }
        }
        assert(self.eggs@.take(i as int) =~= self.eggs@);
        None
    }

    /// The eggs, in the order in which they are kept.
    pub fn eggs(&self) -> (eggs: &Vec<Egg>)
        ensures
            eggs@ == self@,
    {
        &self.eggs
    }

    /// The width of the grid the eggs are laid on.
    pub fn width(&self) -> (w: u16)
        ensures
            w == self.grid_width(),
    {
        self._width
    }

    /// The height of the grid the eggs are laid on.
    pub fn height(&self) -> (h: u16)
        ensures
            h == self.grid_height(),
    {
        self._height
    }
}

} // verus!
