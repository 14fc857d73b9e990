//! The mathematical model of the automaton.
//!
//! A generation is a `Seq<Seq<bool>>`: row-major, `true` for an alive cell.
//! Edges do not wrap: a position outside the grid holds no cell, so a cell on
//! the boundary has fewer than eight neighbours.

use vstd::prelude::*;

verus! {

/// Number of rows.
pub open spec fn grid_height(g: Seq<Seq<bool>>) -> nat {
    g.len()
}

/// Number of columns: the length of the first row, and 0 when there is no row.
pub open spec fn grid_width(g: Seq<Seq<bool>>) -> nat {
    if g.len() == 0 {
        0
    } else {
        g[0].len()
    }
}

/// A rectangular grid whose dimensions fit in `u32`.
pub open spec fn is_grid(g: Seq<Seq<bool>>) -> bool {
    &&& g.len() <= u32::MAX
    &&& grid_width(g) <= u32::MAX
    &&& forall|r: int| 0 <= r < g.len() ==> (#[trigger] g[r]).len() == grid_width(g)
}

/// The grid of the given dimensions in which every cell is dead.
pub open spec fn dead_grid(height: nat, width: nat) -> Seq<Seq<bool>> {
    Seq::new(height, |r: int| Seq::new(width, |c: int| false))
}

/// `g` with every cell dead.
pub open spec fn cleared(g: Seq<Seq<bool>>) -> Seq<Seq<bool>> {
    dead_grid(grid_height(g), grid_width(g))
}

/// The cells of a pattern given as an array of rows.
pub open spec fn array_cells<const WIDTH: usize, const HEIGHT: usize>(
    data: [[bool; HEIGHT]; WIDTH],
) -> Seq<Seq<bool>> {
    Seq::new(WIDTH as nat, |r: int| data@[r]@)
}

/// The glider that travels towards the south east.
pub open spec fn glider_cells() -> Seq<Seq<bool>> {
    seq![
        seq![false, true, false],
        seq![false, false, true],
        seq![true, true, true],
    ]
}

/// The acorn.
pub open spec fn acorn_cells() -> Seq<Seq<bool>> {
    seq![
        seq![false, true, false, false, false, false, false],
        seq![false, false, false, true, false, false, false],
        seq![true, true, false, false, true, true, true],
    ]
}

/// Whether `(r, c)` is a position of the grid that holds an alive cell.
pub open spec fn alive_at(g: Seq<Seq<bool>>, r: int, c: int) -> bool {
    0 <= r < g.len() && 0 <= c < g[r].len() && g[r][c]
}

/// 1 for an alive cell at `(r, c)`, 0 for a dead one or for a position outside the grid.
pub open spec fn census(g: Seq<Seq<bool>>, r: int, c: int) -> int {
    if alive_at(g, r, c) {
        1
    } else {
        0
    }
}

/// Number of alive cells among the up to eight positions adjacent to `(r, c)`
/// horizontally, vertically and diagonally. The cell itself is not counted.
pub open spec fn neighbor_count(g: Seq<Seq<bool>>, r: int, c: int) -> int {
    census(g, r - 1, c - 1) + census(g, r - 1, c) + census(g, r - 1, c + 1)
        + census(g, r, c - 1) + census(g, r, c + 1)
        + census(g, r + 1, c - 1) + census(g, r + 1, c) + census(g, r + 1, c + 1)
}

/// Number of alive cells of row `r` in columns `from` to `to - 1`.
pub open spec fn span_census(g: Seq<Seq<bool>>, r: int, from: int, to: int) -> int
    decreases to - from,
{
    if from >= to {
        0
    } else {
        span_census(g, r, from, to - 1) + census(g, r, to - 1)
    }
}

/// Number of alive cells in rows `top` to `bottom - 1`, columns `left` to `right - 1`.
pub open spec fn window_census(
    g: Seq<Seq<bool>>,
    top: int,
    bottom: int,
    left: int,
    right: int,
) -> int
    decreases bottom - top,
{
    if top >= bottom {
        0
    } else {
        window_census(g, top, bottom - 1, left, right) + span_census(g, bottom - 1, left, right)
    }
}

/// `i - 1`, or `i` itself at the first row or column.
pub open spec fn window_first(i: int) -> int {
    if i > 0 {
        i - 1
    } else {
        i
    }
}

/// `i + 1`, or `i` itself at the last of `n` rows or columns.
pub open spec fn window_last(i: int, n: int) -> int {
    if i < n - 1 {
        i + 1
    } else {
        i
    }
}

/// Conway's rule: an alive cell stays alive with two or three alive
/// neighbours, a dead cell becomes alive with exactly three.
pub open spec fn next_state(alive: bool, neighbors: int) -> bool {
    if alive {
        neighbors == 2 || neighbors == 3
    } else {
        neighbors == 3
    }
}

/// State of the cell at `(r, c)` one generation after `g`.
pub open spec fn next_cell(g: Seq<Seq<bool>>, r: int, c: int) -> bool {
    next_state(g[r][c], neighbor_count(g, r, c))
}

/// Row `r` one generation after `g`.
pub open spec fn next_row(g: Seq<Seq<bool>>, r: int) -> Seq<bool> {
    Seq::new(g[r].len(), |c: int| next_cell(g, r, c))
}

/// The generation that follows `g`. Every cell is computed from `g` alone.
pub open spec fn next_generation(g: Seq<Seq<bool>>) -> Seq<Seq<bool>> {
    Seq::new(g.len(), |r: int| next_row(g, r))
}

/// Rows `from` to `to - 1` of the generation that follows `g`.
pub open spec fn next_rows(g: Seq<Seq<bool>>, from: int, to: int) -> Seq<Seq<bool>> {
    Seq::new((to - from) as nat, |k: int| next_row(g, from + k))
}

/// First row of slice `t` when `height` rows are cut into `workers` contiguous
/// slices of nearly equal size. Slice `t` ends where slice `t + 1` starts.
pub open spec fn slice_start(height: int, workers: int, t: int) -> int {
    (t * height) / workers
}

/// Number of slices that a grid of `height` rows is cut into when `workers`
/// workers are asked for: no slice is empty, so there are at most `height`.
pub open spec fn slice_count(height: int, workers: int) -> int {
    if workers < height {
        workers
    } else {
        height
    }
}

/// What each of `workers` workers produces from `g`, in the order of the
/// slices: worker `t` computes the rows of slice `t`, and reads nothing but `g`.
pub open spec fn worker_outputs(g: Seq<Seq<bool>>, workers: int) -> Seq<Seq<Seq<bool>>> {
    Seq::new(
        workers as nat,
        |t: int|
            next_rows(
                g,
                slice_start(g.len() as int, workers, t),
                slice_start(g.len() as int, workers, t + 1),
            ),
    )
}

/// Whether two grids have as many rows, and row by row as many cells.
pub open spec fn same_shape(a: Seq<Seq<bool>>, b: Seq<Seq<bool>>) -> bool {
    &&& a.len() == b.len()
    &&& forall|r: int| 0 <= r < a.len() ==> (#[trigger] a[r]).len() == b[r].len()
}

/// `g` moved down by `rows` and right by `columns` inside a grid enlarged by
/// as much; the cells that the move uncovers are dead.
pub open spec fn shifted(g: Seq<Seq<bool>>, rows: int, columns: int) -> Seq<Seq<bool>> {
    Seq::new(
        (g.len() + rows) as nat,
        |r: int|
            Seq::new(
                (grid_width(g) + columns) as nat,
                |c: int| alive_at(g, r - rows, c - columns),
            ),
    )
}

/// `g` with every cell that is alive in `other` made alive too. A cell of `g`
/// at a position that `other` lacks keeps its state.
pub open spec fn overlaid(g: Seq<Seq<bool>>, other: Seq<Seq<bool>>) -> Seq<Seq<bool>> {
    Seq::new(g.len(), |r: int| Seq::new(g[r].len(), |c: int| g[r][c] || alive_at(other, r, c)))
}

/// `g` after `pattern` was stamped on it `rows` down and `columns` right of
/// the top left corner: a cell is alive if it was alive, or if the pattern
/// has an alive cell for it.
pub open spec fn stamped(
    g: Seq<Seq<bool>>,
    pattern: Seq<Seq<bool>>,
    rows: int,
    columns: int,
) -> Seq<Seq<bool>> {
    Seq::new(
        g.len(),
        |r: int|
            Seq::new(g[r].len(), |c: int| g[r][c] || alive_at(pattern, r - rows, c - columns)),
    )
}

/// The character that stands for a cell in text.
pub open spec fn cell_glyph(alive: bool) -> char {
    if alive {
        'O'
    } else {
        ' '
    }
}

/// One row as text: a glyph per cell.
pub open spec fn row_glyphs(row: Seq<bool>) -> Seq<char> {
    Seq::new(row.len(), |c: int| cell_glyph(row[c]))
}

/// The grid as text: each row's glyphs followed by a line feed.
pub open spec fn grid_text(g: Seq<Seq<bool>>) -> Seq<char>
    decreases g.len(),
{
    if g.len() == 0 {
        Seq::empty()
    } else {
        grid_text(g.drop_last()) + row_glyphs(g.last()).push('\n')
    }
}

} // verus!
