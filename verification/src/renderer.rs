//! The canvas: the grid a frame is drawn on, and the turn of the game loop
//! that draws it.
//!
//! The canvas never touches the terminal. It is told what the terminal
//! reported and what the player did, and it hands back the text of the frame
//! to show and whether to go on.

use tokio::sync::broadcast::Sender;
use vstd::prelude::*;
use vstd::string::*;
use crate::events::{Event, EventSink};
use crate::grid::{
    border, border_buffer, frame_text, lemma_overlay_next, overlay, rows_text, stamp, BLANK,
};
use crate::input::{command, command_for, Command, Input};
use crate::sprites::food::Food;
use crate::sprites::snake::Snake;

verus! {

/// The number of columns of the grid, and the least the terminal must have.
pub const MIN_WIDTH: u16 = 160;

/// The number of rows of the grid, and the least the terminal must have.
pub const MIN_HEIGHT: u16 = 40;

/// How many times a second the game is updated.
pub const TICK_RATE: u64 = 90;

/// How long a frame stays, in milliseconds.
pub const FRAME_INTERVAL_MS: u64 = 1000 / TICK_RATE;

/// The glyph of an egg.
pub const EGG: char = '@';

/// The glyph of a segment of the snake.
pub const SEGMENT: char = 'o';

/// Why a canvas cannot be had, or cannot go on.
#[derive(Clone, Copy, PartialEq, Eq, Debug, Structural)]
pub enum CanvasError {
    /// The terminal has fewer columns or rows than the grid.
    TerminalTooSmall,
}

impl CanvasError {
    /// The error in words.
    pub open spec fn text(self) -> Seq<char> {
        "terminal size too small"@
    }

    /// The error in words.
    pub fn message(&self) -> (s: String)
        ensures
            s@ == self.text(),
    {
        String::from_str("terminal size too small")
    }
}

/// Whether a terminal of the size `size` has room for a grid of `width` by
/// `height` cells. A terminal whose size is not known has not.
pub open spec fn fits(size: Option<(u16, u16)>, width: u16, height: u16) -> bool {
    match size {
        Some((columns, rows)) => columns >= width && rows >= height,
        None => false,
    }
}

/// The size to go by, given whether the output is a terminal and what size
/// the system reported for it: the reported size, if the output is a
/// terminal and has at least one column and one row.
pub open spec fn usable_size(is_tty: bool, reported: Option<(u16, u16)>) -> Option<(u16, u16)> {
    match reported {
        Some((columns, rows)) => if is_tty && columns > 0 && rows > 0 {
            Some((columns, rows))
        } else {
            None
        },
        None => None,
    }
}

/// The size to go by, given whether the output is a terminal and what size
/// the system reported for it.
pub fn _get_size(is_tty: bool, reported: Option<(u16, u16)>) -> (size: Option<(u16, u16)>)
    ensures
        size == usable_size(is_tty, reported),
{
    if !is_tty {
        return None;
    }
    match reported {
        Some((x, y)) => if x > 0 && y > 0 {
            Some((x, y))
        } else {
            None
        },
        None => None,
    }
}

/// What a canvas holds, as plain values.
pub struct CanvasView {
    /// The grid, row by row.
    pub cells: Seq<char>,
    /// The columns and rows of the grid.
    pub grid: (u16, u16),
    /// The columns and rows of the terminal, as last heard of.
    pub terminal: (u16, u16),
    /// How long a frame stays, in milliseconds.
    pub interval: u64,
    /// Every event the canvas has announced, oldest first.
    pub events: Seq<Event>,
    /// How many of them no receiver was there to take.
    pub lost: u64,
}

/// The canvas: the grid that is drawn on, the size of the terminal it is
/// shown in, and the channel it announces itself on. The grid is as large as
/// it was set up, whatever becomes of the terminal.
pub struct Canvas {
    f_buffer: Vec<char>,
    _mspf: u64,
    sink: EventSink,
    _width: u16,
    _height: u16,
    _width_i: u16,
    _height_i: u16,
}

impl View for Canvas {
    type V = CanvasView;

    closed spec fn view(&self) -> CanvasView {
        CanvasView {
            cells: self.f_buffer@,
            grid: (self._width_i, self._height_i),
            terminal: (self._width, self._height),
            interval: self._mspf,
            events: self.sink.sent(),
            lost: self.sink.lost(),
        }
    }
}

/// How a turn of the game loop went on after the input was seen to.
#[derive(Clone, Copy, PartialEq, Eq, Debug)]
pub enum Next {
    /// The game goes on.
    Continue,
    /// The player left.
    Quit,
    /// The game cannot go on.
    Abort(CanvasError),
}

/// What a turn of the game loop comes to.
#[derive(PartialEq, Eq, Debug)]
pub enum Tick {
    /// The game went on, and this is the text of the frame to show.
    Frame(Vec<char>),
    /// The player left: nothing was updated, and the game is over.
    Quit,
    /// The game cannot go on: nothing was updated.
    Abort(CanvasError),
}

impl Canvas {
    /// The grid has one cell for each column of each row.
    pub open spec fn wf(&self) -> bool {
        self@.cells.len() == self@.grid.0 * self@.grid.1
    }

    /// Whether `self` is what a resize to `w` columns and `h` rows leaves of
    /// `before`, the terminal still being large enough: the new size is
    /// noted and the grid holds the border and nothing else.
    pub open spec fn respawned(&self, before: Canvas, w: u16, h: u16) -> bool {
        self@ == (CanvasView {
            terminal: (w, h),
            cells: border(before@.grid.0, before@.grid.1),
            ..before@
        })
    }

    /// Whether `self` is what a resize to `w` columns and `h` rows leaves of
    /// `before`, once it is announced too.
    pub open spec fn resized(&self, before: Canvas, w: u16, h: u16) -> bool {
        &&& self@.terminal == (w, h)
        &&& self@.cells == border(before@.grid.0, before@.grid.1)
        &&& self@.grid == before@.grid
        &&& self@.interval == before@.interval
        &&& self@.events == before@.events.push(Event::Resized)
        &&& before@.lost <= self@.lost <= before@.lost + 1
    }

    /// Whether `self`, `snake` and `next` are what seeing to `input` leaves
    /// of `before` and `snake_before`.
    ///
    /// To quit changes nothing and ends the game. An arrow key turns the
    /// snake, as far as a snake can be turned. A resize is noted and
    /// announced and the border drawn afresh if the terminal is still large
    /// enough for the grid; if it is not, nothing changes and the game
    /// cannot go on. Any other input, and none at all, changes nothing.
    pub open spec fn reacted(
        &self,
        snake: Snake,
        next: Next,
        before: Canvas,
        snake_before: Snake,
        input: Option<Input>,
    ) -> bool {
        match command_for(input) {
            Command::Quit => next == Next::Quit && *self == before && snake == snake_before,
            Command::Turn(direction) => next == Next::Continue && *self == before && snake.steered(
                snake_before,
                direction,
            ),
            Command::Resize { w, h, measured } => snake == snake_before && if fits(
                measured,
                before@.grid.0,
                before@.grid.1,
            ) {
                next == Next::Continue && self.resized(before, w, h)
            } else {
                next == Next::Abort(CanvasError::TerminalTooSmall) && *self == before
            },
            Command::Nothing => next == Next::Continue && *self == before && snake == snake_before,
        }
    }

    /// Sets up the canvas for a terminal of the size `size`, if that has
    /// room for the grid of 160 by 40 cells, and announces it on `tx`. The
    /// grid starts out blank.
    pub fn new(size: Option<(u16, u16)>, tx: Sender<String>) -> (result: Result<
        Canvas,
        CanvasError,
    >)
        ensures
            match result {
                Ok(canvas) => {
                    &&& fits(size, MIN_WIDTH, MIN_HEIGHT)
                    &&& canvas.wf()
                    &&& canvas@.cells == Seq::new(
                        (MIN_WIDTH * MIN_HEIGHT) as nat,
                        |i: int| BLANK,
                    )
                    &&& canvas@.grid == (MIN_WIDTH, MIN_HEIGHT)
                    &&& Some(canvas@.terminal) == size
                    &&& canvas@.interval == FRAME_INTERVAL_MS
                    &&& canvas@.events == seq![
                        Event::CanvasInit {
                            width: MIN_WIDTH,
                            height: MIN_HEIGHT,
                            fps: FRAME_INTERVAL_MS,
                        },
                    ]
                    &&& canvas@.lost <= 1
                },
                Err(e) => !fits(size, MIN_WIDTH, MIN_HEIGHT) && e == CanvasError::TerminalTooSmall,
            },
    {
        match size {
            Some((x, y)) => {
                if x >= MIN_WIDTH && y >= MIN_HEIGHT {
                    let mut sink = EventSink::new(tx);
                    sink.emit(
                        Event::CanvasInit {
                            width: MIN_WIDTH,
                            height: MIN_HEIGHT,
                            fps: FRAME_INTERVAL_MS,
                        },
                    );
                    let f_buffer: Vec<char> = vec![BLANK; MIN_WIDTH as usize * MIN_HEIGHT as usize];
                    assert(f_buffer@ =~= Seq::new((MIN_WIDTH * MIN_HEIGHT) as nat, |i: int| BLANK));
                    Ok(
                        Canvas {
                            f_buffer,
                            _mspf: FRAME_INTERVAL_MS,
                            sink,
                            _width: x,
                            _height: y,
                            _width_i: MIN_WIDTH,
                            _height_i: MIN_HEIGHT,
                        },
                    )
                } else {
                    Err(CanvasError::TerminalTooSmall)
                }
            },
            None => Err(CanvasError::TerminalTooSmall),
        }
    }

    /// Draws the border afresh: the grid holds the border and nothing else.
    pub fn generic_buff(&mut self)
        ensures
            final(self).wf(),
            final(self)@ == (CanvasView {
                cells: border(old(self)@.grid.0, old(self)@.grid.1),
                ..old(self)@
            }),
    {
        self.f_buffer = border_buffer(self._width_i, self._height_i);
    }

    /// Puts `glyph` on the cell in column `x` of row `y` of a grid that is
    /// `width` cells wide, if the canvas has that cell.
    pub fn stamp(&mut self, x: u16, y: u16, width: u16, glyph: char)
        ensures
            final(self)@ == (CanvasView {
                cells: crate::grid::stamped(old(self)@.cells, (x, y), width, glyph),
                ..old(self)@
            }),
            final(self).wf() == old(self).wf(),
    {
        stamp(&mut self.f_buffer, x, y, width, glyph);
    }

    /// Puts the egg glyph on each cell that an egg lies on.
    pub fn stamp_eggs(&mut self, food: &Food, width: u16)
        ensures
            final(self)@ == (CanvasView {
                cells: overlay(old(self)@.cells, food.cells(), width, EGG),
                ..old(self)@
            }),
            final(self).wf() == old(self).wf(),
    {
        let eggs = food.eggs();
        let mut k: usize = 0;
        proof {
            assert(overlay(self@.cells, food.cells().take(0), width, EGG) =~= self@.cells);
        }
        while k < eggs.len()
            invariant
                k <= eggs@.len(),
                eggs@ == food@,
                self@ == (CanvasView {
                    cells: overlay(old(self)@.cells, food.cells().take(k as int), width, EGG),
                    ..old(self)@
                }),
            decreases eggs@.len() - k,
        {
            let egg = eggs[k];
            proof {
                lemma_overlay_next(old(self)@.cells, food.cells(), width, EGG, k as int);
            }
            self.stamp(egg.x, egg.y, width, EGG);
            k = k + 1;
        }
        proof {
            assert(food.cells().take(k as int) =~= food.cells());
        }
    }

    /// Puts the segment glyph on each cell that the snake lies on.
    pub fn stamp_snake(&mut self, snake: &Snake, width: u16)
        ensures
            final(self)@ == (CanvasView {
                cells: overlay(old(self)@.cells, snake.cells(), width, SEGMENT),
                ..old(self)@
            }),
            final(self).wf() == old(self).wf(),
    {
        let segments = snake.segments();
        let mut k: usize = 0;
        proof {
            assert(overlay(self@.cells, snake.cells().take(0), width, SEGMENT) =~= self@.cells);
        }
        while k < segments.len()
            invariant
                k <= segments@.len(),
                segments@ == snake.body(),
                self@ == (CanvasView {
                    cells: overlay(
                        old(self)@.cells,
                        snake.cells().take(k as int),
                        width,
                        SEGMENT,
                    ),
                    ..old(self)@
                }),
            decreases segments@.len() - k,
        {
            let segment = segments[k];
            proof {
                lemma_overlay_next(old(self)@.cells, snake.cells(), width, SEGMENT, k as int);
            }
            self.stamp(segment.x, segment.y, width, SEGMENT);
            k = k + 1;
        }
        proof {
            assert(snake.cells().take(k as int) =~= snake.cells());
        }
    }

    /// The text of the frame: the grid row by row, each row followed by a
    /// carriage return and a line feed.
    pub fn frame(&self) -> (text: Vec<char>)
        requires
            self.wf(),
        ensures
            text@ == rows_text(self@.cells, self@.grid.0, self@.grid.1 as nat),
    {
        frame_text(&self.f_buffer, self._width_i, self._height_i)
    }

    /// Takes in that the terminal was resized to `_w` columns and `_h` rows
    /// and reported `measured` when asked for its size. If it still has room
    /// for the grid, the new size is noted and the border drawn afresh; if
    /// not, nothing changes and the resize is refused.
    fn _respawn(&mut self, _w: u16, _h: u16, measured: Option<(u16, u16)>) -> (result: Result<
        (),
        CanvasError,
    >)
        ensures
            match result {
                Ok(_) => fits(measured, old(self)@.grid.0, old(self)@.grid.1) && final(self).respawned(*old(self), _w, _h) && final(self).wf(),
                Err(e) => !fits(measured, old(self)@.grid.0, old(self)@.grid.1) && e
                    == CanvasError::TerminalTooSmall && *final(self) == *old(self),
            },
    {
        match measured {
            Some((x, y)) => {
                if x >= self._width_i && y >= self._height_i {
                    self._width = _w;
                    self._height = _h;
                    self.generic_buff();
                    Ok(())
                } else {
                    Err(CanvasError::TerminalTooSmall)
                }
            },
            None => Err(CanvasError::TerminalTooSmall),
        }
    }

    /// Answers a resize of the terminal to `_w` columns and `_h` rows, the
    /// terminal having reported `measured` when asked for its size. If it
    /// still has room for the grid, the new size is noted, the border drawn
    /// afresh and the resize announced; if not, nothing changes and the game
    /// cannot go on.
    pub fn _on_resize(&mut self, _w: u16, _h: u16, measured: Option<(u16, u16)>) -> (result:
        Result<(), CanvasError>)
        ensures
            match result {
                Ok(_) => fits(measured, old(self)@.grid.0, old(self)@.grid.1) && final(self).resized(*old(self), _w, _h) && final(self).wf(),
                Err(e) => !fits(measured, old(self)@.grid.0, old(self)@.grid.1) && e
                    == CanvasError::TerminalTooSmall && *final(self) == *old(self),
            },
    {
        match self._respawn(_w, _h, measured) {
            Ok(_) => {},
            Err(e) => {
                return Err(e);
            },
        }
        self.sink.emit(Event::Resized);
        Ok(())
    }

    /// Sees to what came in from the terminal since the last frame.
    ///
    /// `q` or Escape ends the game. An arrow key turns the snake, as far as
    /// a snake can be turned. A resize is answered as `_on_resize` answers
    /// it. Anything else is passed over.
    pub fn react(&mut self, snake: &mut Snake, input: Option<Input>) -> (next: Next)
        ensures
            final(self).reacted(*final(snake), next, *old(self), *old(snake), input),
            old(self).wf() ==> final(self).wf(),
            old(snake).wf() ==> final(snake).wf(),
    {
        match command(input) {
            Command::Quit => Next::Quit,
            Command::Turn(direction) => {
                snake.turn(direction);
                Next::Continue
            },
            Command::Resize { w, h, measured } => match self._on_resize(w, h, measured) {
                Ok(_) => Next::Continue,
                Err(e) => Next::Abort(e),
            },
            Command::Nothing => Next::Continue,
        }
    }

    /// One turn of the game loop.
    ///
    /// First `input`, which is what came in from the terminal since the last
    /// frame was shown, is seen to as `react` does. If the game goes on,
    /// `update` is called once, with the canvas, the snake, the food and the
    /// size of the grid, to bring the game forward and draw it; then the
    /// grid is written out as the text of the frame. The caller shows the
    /// frame, waits for the frame interval to pass, and comes back with the
    /// next input. If the game does not go on, `update` is not called, and
    /// the caller puts the terminal back as it was.
    ///
    /// `update` may do what it likes to the game, but it has to take any
    /// canvas, snake and food that are well formed, and leave the canvas
    /// well formed and its grid the size it was.
    pub fn animate<F>(
        &mut self,
        _snake: &mut Snake,
        _food: &mut Food,
        mut update: F,
        input: Option<Input>,
    ) -> (tick: Tick) where F: FnMut(&mut Canvas, &mut Snake, &mut Food, u16, u16)
        requires
            old(self).wf(),
            old(_snake).wf(),
            old(_food).wf(),
            forall|c: &mut Canvas, s: &mut Snake, f: &mut Food|
                c.wf() && c@.grid == old(self)@.grid && s.wf() && f.wf() ==> call_requires(
                    update,
                    (c, s, f, old(self)@.grid.0, old(self)@.grid.1),
                ),
            forall|c: &mut Canvas, s: &mut Snake, f: &mut Food, w: u16, h: u16|
                call_ensures(update, (c, s, f, w, h), ()) ==> final(c).wf() && final(c)@.grid
                    == c@.grid,
        ensures
            final(self).wf(),
            final(self)@.grid == old(self)@.grid,
            match tick {
                Tick::Quit => {
                    &&& final(self).reacted(
                        *final(_snake),
                        Next::Quit,
                        *old(self),
                        *old(_snake),
                        input,
                    )
                    &&& *final(_food) == *old(_food)
                },
                Tick::Abort(e) => {
                    &&& final(self).reacted(
                        *final(_snake),
                        Next::Abort(e),
                        *old(self),
                        *old(_snake),
                        input,
                    )
                    &&& *final(_food) == *old(_food)
                },
                Tick::Frame(text) => {
                    &&& exists|c: &mut Canvas, s: &mut Snake, f: &mut Food|
                        {
                            &&& c.reacted(*s, Next::Continue, *old(self), *old(_snake), input)
                            &&& *f == *old(_food)
                            &&& #[trigger] call_ensures(
                                update,
                                (c, s, f, old(self)@.grid.0, old(self)@.grid.1),
                                (),
                            )
                            &&& *final(c) == *final(self)
                            &&& *final(s) == *final(_snake)
                            &&& *final(f) == *final(_food)
                        }
                    &&& text@ == rows_text(
                        final(self)@.cells,
                        final(self)@.grid.0,
                        final(self)@.grid.1 as nat,
                    )
                },
            },
    {
        match self.react(_snake, input) {
            Next::Quit => Tick::Quit,
            Next::Abort(e) => Tick::Abort(e),
            Next::Continue => {
                let width = self._width_i;
                let height = self._height_i;
                update(self, _snake, _food, width, height);
                Tick::Frame(self.frame())
            },
        }
    }

    /// The grid, row by row.
    pub fn buffer(&self) -> (cells: &Vec<char>)
        ensures
            cells@ == self@.cells,
    {
        &self.f_buffer
    }

    /// The number of columns of the grid.
    pub fn width(&self) -> (columns: u16)
        ensures
            columns == self@.grid.0,
    {
        self._width_i
    }

    /// The number of rows of the grid.
    pub fn height(&self) -> (rows: u16)
        ensures
            rows == self@.grid.1,
    {
        self._height_i
    }

    /// The columns and rows of the terminal, as last heard of.
    pub fn terminal_size(&self) -> (size: (u16, u16))
        ensures
            size == self@.terminal,
    {
        (self._width, self._height)
    }

    /// How long a frame stays, in milliseconds.
    pub fn frame_interval_ms(&self) -> (ms: u64)
        ensures
            ms == self@.interval,
    {
        self._mspf
    }

    /// How many of the canvas's events no receiver was there to take.
    pub fn dropped(&self) -> (n: u64)
        ensures
            n == self@.lost,
    {
        self.sink.dropped()
    }
}

/// Brings the game forward by one step and draws it.
///
/// The border is drawn afresh, the eggs are laid on it, then the snake, as
/// both are before the step, on a grid taken to be `width` cells wide. Then
/// the snake takes one step on the canvas's grid.
pub fn update(canvas: &mut Canvas, snake: &mut Snake, food: &mut Food, width: u16, _height: u16)
    requires
        old(snake).wf(),
        old(food).wf(),
        old(canvas)@.grid.0 > 0,
        old(canvas)@.grid.1 > 0,
    ensures
        final(canvas).wf(),
        final(canvas)@ == (CanvasView {
            cells: overlay(
                overlay(
                    border(old(canvas)@.grid.0, old(canvas)@.grid.1),
                    old(food).cells(),
                    width,
                    EGG,
                ),
                old(snake).cells(),
                width,
                SEGMENT,
            ),
            ..old(canvas)@
        }),
        final(snake).stepped(
            *final(food),
            *old(snake),
            *old(food),
            old(canvas)@.grid.0,
            old(canvas)@.grid.1,
        ),
{
    canvas.generic_buff();
    canvas.stamp_eggs(food, width);
    canvas.stamp_snake(snake, width);
    let grid_width = canvas.width();
    let grid_height = canvas.height();
    snake.forward(food, grid_width, grid_height);
}

/// One turn of the game loop with the game's own update: `animate` with
/// `update`.
pub fn play(canvas: &mut Canvas, snake: &mut Snake, food: &mut Food, input: Option<Input>) -> (tick:
    Tick)
    requires
        old(canvas).wf(),
        old(canvas)@.grid.0 > 0,
        old(canvas)@.grid.1 > 0,
        old(snake).wf(),
        old(food).wf(),
    ensures
        final(canvas).wf(),
        final(canvas)@.grid == old(canvas)@.grid,
        final(snake).wf(),
        final(food).wf(),
        match tick {
            Tick::Quit => {
                &&& final(canvas).reacted(
                    *final(snake),
                    Next::Quit,
                    *old(canvas),
                    *old(snake),
                    input,
                )
                &&& *final(food) == *old(food)
            },
            Tick::Abort(e) => {
                &&& final(canvas).reacted(
                    *final(snake),
                    Next::Abort(e),
                    *old(canvas),
                    *old(snake),
                    input,
                )
                &&& *final(food) == *old(food)
            },
            Tick::Frame(text) => {
                &&& exists|seen: Canvas, turned: Snake|
                    {
                        &&& #[trigger] seen.reacted(
                            turned,
                            Next::Continue,
                            *old(canvas),
                            *old(snake),
                            input,
                        )
                        &&& final(canvas)@ == (CanvasView {
                            cells: overlay(
                                overlay(
                                    border(old(canvas)@.grid.0, old(canvas)@.grid.1),
                                    old(food).cells(),
                                    old(canvas)@.grid.0,
                                    EGG,
                                ),
                                turned.cells(),
                                old(canvas)@.grid.0,
                                SEGMENT,
                            ),
                            ..seen@
                        })
                        &&& final(snake).stepped(
                            *final(food),
                            turned,
                            *old(food),
                            old(canvas)@.grid.0,
                            old(canvas)@.grid.1,
                        )
                    }
                &&& text@ == rows_text(
                    final(canvas)@.cells,
                    final(canvas)@.grid.0,
                    final(canvas)@.grid.1 as nat,
                )
            },
        },
{
    canvas.animate(snake, food, update, input)
}

} // verus!
