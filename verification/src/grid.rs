//! The grid of characters that a frame is made of: the border that frames
//! the play area, the glyphs that lie on it, and the text that shows it.
//!
//! A grid of `width` by `height` cells is kept row by row in one sequence:
//! the cell in column `x` of row `y` is at index `y * width + x`.

use vstd::prelude::*;
use vstd::arithmetic::div_mod::lemma_fundamental_div_mod_converse;

verus! {

/// The glyph of a cell that nothing lies on.
pub const BLANK: char = ' ';

/// The glyph in the four corners of the border.
pub const CORNER: char = '+';

/// The glyph along the left and right edges.
pub const VERTICAL: char = '|';

/// The glyph along the top and bottom edges.
pub const HORIZONTAL: char = '~';

/// The index of the cell in column `at.0` of row `at.1`.
pub open spec fn cell_of(at: (u16, u16), width: u16) -> int {
    at.1 * width + at.0
}

/// The glyph that the border has in column `x` of row `y`: a corner where a
/// vertical and a horizontal edge meet, an edge glyph elsewhere along the
/// edges, and a blank inside.
pub open spec fn border_glyph(x: int, y: int, width: int, height: int) -> char {
    let v_edge = x == 0 || x == width - 1;
    let h_edge = y == 0 || y == height - 1;
    if h_edge && v_edge {
        CORNER
    } else if v_edge {
        VERTICAL
    } else if h_edge {
        HORIZONTAL
    } else {
        BLANK
    }
}

/// The grid that holds the border and nothing else.
pub open spec fn border(width: u16, height: u16) -> Seq<char> {
    Seq::new(
        (width * height) as nat,
        |i: int| border_glyph(i % (width as int), i / (width as int), width as int, height as int),
    )
}

/// Whether one of `cells` is the cell at index `i`.
pub open spec fn covers(cells: Seq<(u16, u16)>, width: u16, i: int) -> bool {
    exists|k: int| 0 <= k < cells.len() && #[trigger] cell_of(cells[k], width) == i
}

/// The grid `base` with `glyph` on each of `cells`. A cell whose index lies
/// past the end of the grid is left out.
pub open spec fn overlay(base: Seq<char>, cells: Seq<(u16, u16)>, width: u16, glyph: char) -> Seq<
    char,
> {
    Seq::new(
        base.len(),
        |i: int|
            if covers(cells, width, i) {
                glyph
            } else {
                base[i]
            },
    )
}

/// The grid `base` with `glyph` on the cell `at`, if the grid has that cell.
pub open spec fn stamped(base: Seq<char>, at: (u16, u16), width: u16, glyph: char) -> Seq<char> {
    if cell_of(at, width) < base.len() {
        base.update(cell_of(at, width), glyph)
    } else {
        base
    }
}

/// The text of the first `rows` rows of `grid`: each row's cells, left to
/// right, and after each row a carriage return and a line feed.
pub open spec fn rows_text(grid: Seq<char>, width: u16, rows: nat) -> Seq<char>
    decreases rows,
{
    if rows == 0 {
        Seq::empty()
    } else {
        rows_text(grid, width, (rows - 1) as nat) + grid.subrange(
            (rows - 1) * width,
            rows * width,
        ) + seq!['\r', '\n']
    }
}

/// The index of a cell of the grid lies inside the grid, and gives the
/// cell's column and row back.
pub proof fn lemma_cell_index(x: int, y: int, width: int, height: int)
    requires
        0 <= x < width,
        0 <= y < height,
    ensures
        0 <= y * width + x < width * height,
        (y * width + x) % width == x,
        (y * width + x) / width == y,
{
    assert(0 <= y * width && (y + 1) * width <= height * width) by (nonlinear_arith)
        requires
            0 <= y < height,
            0 < width,
    ;
    assert((y + 1) * width == y * width + width) by (nonlinear_arith);
    assert(height * width == width * height) by (nonlinear_arith);
    lemma_fundamental_div_mod_converse(y * width + x, width, y, x);
}

/// The border's grid holds, in each cell, the glyph the border has there.
pub proof fn lemma_border_cell(width: u16, height: u16, x: int, y: int)
    requires
        0 <= x < width,
        0 <= y < height,
    ensures
        0 <= y * width + x < border(width, height).len(),
        border(width, height)[y * width + x] == border_glyph(x, y, width as int, height as int),
{
    lemma_cell_index(x, y, width as int, height as int);
}

/// A border has a corner glyph in each of the four corner cells, the
/// vertical edge glyph down the first and last columns between them, the
/// horizontal edge glyph along the first and last rows between them, and
/// blanks everywhere inside.
pub proof fn lemma_border_shape(width: u16, height: u16, x: int, y: int)
    requires
        0 <= x < width,
        0 <= y < height,
    ensures
        (x == 0 || x == width - 1) && (y == 0 || y == height - 1) ==> border(width, height)[y
            * width + x] == CORNER,
        (x == 0 || x == width - 1) && 0 < y < height - 1 ==> border(width, height)[y * width + x]
            == VERTICAL,
        0 < x < width - 1 && (y == 0 || y == height - 1) ==> border(width, height)[y * width + x]
            == HORIZONTAL,
        0 < x < width - 1 && 0 < y < height - 1 ==> border(width, height)[y * width + x] == BLANK,
{
    lemma_border_cell(width, height, x, y);
}

/// Builds the grid that holds the border and nothing else.
pub fn border_buffer(width: u16, height: u16) -> (buffer: Vec<char>)
    ensures
        buffer@ == border(width, height),
{
    let w: usize = width as usize;
    let h: usize = height as usize;
    assert(w * h <= 0xffff * 0xffff) by (nonlinear_arith)
        requires
            0 <= w <= 0xffff,
            0 <= h <= 0xffff,
    ;
    let mut buffer: Vec<char> = vec![BLANK; w * h];
    let mut y: usize = 0;
    while y < h
        invariant
            w == width,
            h == height,
            y <= h,
            w * h <= 0xffff * 0xffff,
            buffer@.len() == w * h,
            forall|i: int|
                0 <= i < y * w && i < w * h ==> buffer@[i] == border(width, height)[i],
            forall|i: int| y * w <= i < w * h ==> buffer@[i] == BLANK,
        decreases h - y,
    {
        let mut x: usize = 0;
        while x < w
            invariant
                w == width,
                h == height,
                y < h,
                x <= w,
                w * h <= 0xffff * 0xffff,
                buffer@.len() == w * h,
                forall|i: int|
                    0 <= i < y * w + x && i < w * h ==> buffer@[i] == border(width, height)[i],
                forall|i: int| y * w + x <= i < w * h ==> buffer@[i] == BLANK,
            decreases w - x,
        {
            proof {
                lemma_cell_index(x as int, y as int, w as int, h as int);
            }
            let idx: usize = y * w + x;
            let v_edge = x == 0 || x == w - 1;
            let h_edge = y == 0 || y == h - 1;
            if h_edge && v_edge {
                buffer[idx] = CORNER;
            } else if v_edge {
                buffer[idx] = VERTICAL;
            } else if h_edge {
                buffer[idx] = HORIZONTAL;
            }
            x = x + 1;
        }
        proof {
            assert((y + 1) * w == y * w + w) by (nonlinear_arith);
        }
        y = y + 1;
    }
    proof {
        assert(h * w == w * h) by (nonlinear_arith);
        assert(buffer@ =~= border(width, height));
    }
    buffer
}

/// Laying glyphs on cells one after the other gives the overlay: the
/// overlay of the first `k + 1` cells is the overlay of the first `k` with
/// the glyph stamped on the next cell.
pub proof fn lemma_overlay_next(
    base: Seq<char>,
    cells: Seq<(u16, u16)>,
    width: u16,
    glyph: char,
    k: int,
)
    requires
        0 <= k < cells.len(),
    ensures
        overlay(base, cells.take(k + 1), width, glyph) == stamped(
            overlay(base, cells.take(k), width, glyph),
            cells[k],
            width,
            glyph,
        ),
{
    let before = overlay(base, cells.take(k), width, glyph);
    let after = overlay(base, cells.take(k + 1), width, glyph);
    assert forall|i: int| 0 <= i < base.len() implies after[i] == stamped(
        before,
        cells[k],
        width,
        glyph,
    )[i] by {
        if covers(cells.take(k), width, i) {
            let j = choose|j: int|
                0 <= j < cells.take(k).len() && #[trigger] cell_of(cells.take(k)[j], width) == i;
            assert(cell_of(cells.take(k + 1)[j], width) == i);
        }
        if cell_of(cells[k], width) == i {
            assert(cell_of(cells.take(k + 1)[k], width) == i);
        }
        if covers(cells.take(k + 1), width, i) {
            let j = choose|j: int|
                0 <= j < cells.take(k + 1).len() && #[trigger] cell_of(
                    cells.take(k + 1)[j],
                    width,
                ) == i;
            if j < k {
                assert(cell_of(cells.take(k)[j], width) == i);
            }
        }
    }
    assert(after =~= stamped(before, cells[k], width, glyph));
}

/// Puts `glyph` on the cell in column `x` of row `y`, if the grid has that
/// cell: a cell whose index lies past the end of the grid is passed over.
pub fn stamp(buffer: &mut Vec<char>, x: u16, y: u16, width: u16, glyph: char)
    ensures
        final(buffer)@ == stamped(old(buffer)@, (x, y), width, glyph),
{
    assert(y * width + x <= 0xffff * 0xffff + 0xffff) by (nonlinear_arith)
        requires
            0 <= x <= 0xffff,
            0 <= y <= 0xffff,
            0 <= width <= 0xffff,
    ;
    let idx: usize = y as usize * width as usize + x as usize;
    if idx < buffer.len() {
        buffer[idx] = glyph;
    }
}

/// Writes a grid out as text: row by row, each row followed by a carriage
/// return and a line feed.
pub fn frame_text(buffer: &Vec<char>, width: u16, height: u16) -> (text: Vec<char>)
    requires
        buffer@.len() == width * height,
    ensures
        text@ == rows_text(buffer@, width, height as nat),
{
    let w: usize = width as usize;
    let h: usize = height as usize;
    assert(w * h <= 0xffff * 0xffff) by (nonlinear_arith)
        requires
            0 <= w <= 0xffff,
            0 <= h <= 0xffff,
    ;
    let mut text: Vec<char> = Vec::new();
    let mut y: usize = 0;
    while y < h
        invariant
            w == width,
            h == height,
            y <= h,
            w * h <= 0xffff * 0xffff,
            buffer@.len() == w * h,
            text@ == rows_text(buffer@, width, y as nat),
        decreases h - y,
    {
        proof {
            assert(0 <= y * w && (y + 1) * w <= h * w && h * w == w * h) by (nonlinear_arith)
                requires
                    0 <= y < h,
                    0 <= w,
            ;
            assert((y + 1) * w == y * w + w) by (nonlinear_arith);
        }
        let mut x: usize = 0;
        while x < w
            invariant
                w == width,
                h == height,
                y < h,
                x <= w,
                w * h <= 0xffff * 0xffff,
                buffer@.len() == w * h,
                0 <= y * w,
                y * w + w <= w * h,
                text@ == rows_text(buffer@, width, y as nat) + buffer@.subrange(
                    y * w,
                    y * w + x,
                ),
            decreases w - x,
        {
            let idx: usize = y * w + x;
            text.push(buffer[idx]);
            proof {
                assert(buffer@.subrange(y * w, y * w + x).push(buffer@[idx as int])
                    =~= buffer@.subrange(y * w, y * w + x + 1));
                assert(text@ =~= rows_text(buffer@, width, y as nat) + buffer@.subrange(
                    y * w,
                    y * w + x + 1,
                ));
            }
            x = x + 1;
        }
        text.push('\r');
        text.push('\n');
        proof {
            assert(text@ =~= rows_text(buffer@, width, y as nat) + buffer@.subrange(
                y * w,
                (y + 1) * w,
            ) + seq!['\r', '\n']);
        }
        y = y + 1;
    }
    text
}

} // verus!
