//! Laws of the model: what holds of every grid.

use vstd::prelude::*;

use vstd::arithmetic::div_mod::{
    lemma_div_is_ordered, lemma_div_multiples_vanish, lemma_div_plus_one,
};
use vstd::arithmetic::mul::lemma_mul_inequality;

use crate::life::{
    alive_at, census, cleared, grid_height, grid_width, is_grid, neighbor_count, next_generation,
    next_rows, overlaid, same_shape, shifted, slice_start, span_census, stamped, window_census,
    window_first, window_last, worker_outputs,
};

verus! {

/// The neighbours of a cell can be counted over a window: the rows and
/// columns from one before the cell to one after it, cut off at the edges of
/// the grid. The window holds the neighbours and the cell itself, so the
/// count over it, less one for an alive cell, is the number of alive neighbours.
pub proof fn lemma_window_holds_the_neighbors(g: Seq<Seq<bool>>, r: int, c: int)
    requires
        is_grid(g),
        0 <= r < grid_height(g),
        0 <= c < grid_width(g),
    ensures
        neighbor_count(g, r, c) == window_census(
            g,
            window_first(r),
            window_last(r, grid_height(g) as int) + 1,
            window_first(c),
            window_last(c, grid_width(g) as int) + 1,
        ) - census(g, r, c),
        0 <= neighbor_count(g, r, c) <= 8,
{
    reveal_with_fuel(span_census, 4);
    reveal_with_fuel(window_census, 4);
    assert(g[r].len() == grid_width(g));
    if r > 0 {
        assert(g[r - 1].len() == grid_width(g));
    }
    if r < g.len() - 1 {
        assert(g[r + 1].len() == grid_width(g));
    }
}

/// The slices follow one another from row 0 to the last row: slice `t` starts
/// inside the grid and ends, not before it starts, where slice `t + 1` starts.
pub proof fn lemma_slices_are_contiguous(height: int, workers: int, t: int)
    requires
        0 <= height,
        1 <= workers,
        0 <= t < workers,
    ensures
        slice_start(height, workers, 0) == 0,
        slice_start(height, workers, workers) == height,
        0 <= slice_start(height, workers, t) <= slice_start(height, workers, t + 1) <= height,
{
    lemma_div_multiples_vanish(height, workers);
    lemma_mul_inequality(0, t, height);
    lemma_mul_inequality(t, t + 1, height);
    lemma_mul_inequality(t + 1, workers, height);
    lemma_div_is_ordered(0, t * height, workers);
    lemma_div_is_ordered(t * height, (t + 1) * height, workers);
    lemma_div_is_ordered((t + 1) * height, workers * height, workers);
}

/// With no more workers than rows, no slice is empty.
pub proof fn lemma_no_slice_is_empty(height: int, workers: int, t: int)
    requires
        1 <= workers <= height,
        0 <= t < workers,
    ensures
        slice_start(height, workers, t) < slice_start(height, workers, t + 1),
{
    assert((t + 1) * height == t * height + height) by (nonlinear_arith);
    lemma_div_is_ordered(t * height + workers, t * height + height, workers);
    lemma_div_plus_one(t * height, workers);
}

/// The outputs of the first `t` workers, joined in order, are the first rows
/// of the next generation, up to the start of slice `t`.
proof fn lemma_first_outputs(g: Seq<Seq<bool>>, workers: int, t: int)
    requires
        1 <= workers,
        0 <= t <= workers,
    ensures
        worker_outputs(g, workers).take(t).flatten() == next_rows(
            g,
            0,
            slice_start(g.len() as int, workers, t),
        ),
    decreases t,
{
    let outputs = worker_outputs(g, workers);
    let height = g.len() as int;
    if t == 0 {
        lemma_slices_are_contiguous(height, workers, 0);
    } else {
        lemma_first_outputs(g, workers, t - 1);
        lemma_slices_are_contiguous(height, workers, t - 1);
        assert(outputs.take(t) =~= outputs.take(t - 1).push(outputs[t - 1]));
        outputs.take(t - 1).lemma_flatten_push(outputs[t - 1]);
    }
}

/// A step computed slice by slice is the synchronous step: whatever the number
/// of workers, their outputs joined in the order of the slices are the next
/// generation, every cell of which depends on the grid before the step alone.
pub proof fn lemma_sliced_step_is_synchronous(g: Seq<Seq<bool>>, workers: int)
    requires
        1 <= workers,
    ensures
        worker_outputs(g, workers).flatten() == next_generation(g),
{
    let outputs = worker_outputs(g, workers);
    lemma_first_outputs(g, workers, workers);
    lemma_slices_are_contiguous(g.len() as int, workers, 0);
    assert(outputs.take(workers) =~= outputs);
}

/// A step changes nothing in a grid without cells, be it without rows or
/// without columns.
pub proof fn lemma_step_without_cells(g: Seq<Seq<bool>>)
    requires
        is_grid(g),
        grid_height(g) == 0 || grid_width(g) == 0,
    ensures
        next_generation(g) == g,
{
    assert(next_generation(g) =~~= g);
}

/// A step keeps the dimensions of the grid.
pub proof fn lemma_step_keeps_shape(g: Seq<Seq<bool>>)
    requires
        is_grid(g),
    ensures
        is_grid(next_generation(g)),
        same_shape(next_generation(g), g),
{
    let next = next_generation(g);
    assert forall|r: int| 0 <= r < next.len() implies (#[trigger] next[r]).len() == grid_width(
        next,
    ) by {
        assert(g[r].len() == grid_width(g));
        assert(g[0].len() == grid_width(g));
    }
}

/// Clearing leaves no cell alive and keeps the dimensions, and clearing a
/// cleared grid changes nothing.
pub proof fn lemma_clear_is_idempotent(g: Seq<Seq<bool>>)
    requires
        is_grid(g),
    ensures
        forall|r: int, c: int| !alive_at(cleared(g), r, c),
        same_shape(cleared(g), g),
        cleared(cleared(g)) == cleared(g),
{
    assert forall|r: int| 0 <= r < g.len() implies (#[trigger] cleared(g)[r]).len()
        == g[r].len() by {
        assert(g[r].len() == grid_width(g));
    }
}

/// A grid moved by an offset is a grid that is larger by the offset. Its
/// width is that of its rows: a grid that still has no row has no width.
pub proof fn lemma_offset_enlarges(g: Seq<Seq<bool>>, rows: int, columns: int)
    requires
        is_grid(g),
        0 <= rows,
        0 <= columns,
        grid_height(g) + rows <= u32::MAX,
        grid_width(g) + columns <= u32::MAX,
    ensures
        is_grid(shifted(g, rows, columns)),
        grid_height(shifted(g, rows, columns)) == grid_height(g) + rows,
        grid_height(g) + rows > 0 ==> grid_width(shifted(g, rows, columns)) == grid_width(g)
            + columns,
        forall|r: int, c: int|
            alive_at(shifted(g, rows, columns), r + rows, c + columns) == alive_at(g, r, c),
{
    let moved = shifted(g, rows, columns);
    assert forall|r: int, c: int| alive_at(moved, r + rows, c + columns) == alive_at(
        g,
        r,
        c,
    ) by {
        if alive_at(g, r, c) {
            assert(g[r].len() == grid_width(g));
        }
    }
}

/// Stamping a pattern on a grid, by merging the pattern moved to its place,
/// makes alive the cells for which the pattern has an alive cell and leaves
/// every other cell of the grid as it was.
pub proof fn lemma_merge_with_offset_stamps(
    g: Seq<Seq<bool>>,
    pattern: Seq<Seq<bool>>,
    rows: int,
    columns: int,
)
    requires
        is_grid(pattern),
        0 <= rows,
        0 <= columns,
    ensures
        overlaid(g, shifted(pattern, rows, columns)) == stamped(g, pattern, rows, columns),
{
    let moved = shifted(pattern, rows, columns);
    assert forall|r: int, c: int| alive_at(moved, r, c) == alive_at(
        pattern,
        r - rows,
        c - columns,
    ) by {
        if alive_at(pattern, r - rows, c - columns) {
            assert(pattern[r - rows].len() == grid_width(pattern));
        }
    }
    assert(overlaid(g, moved) =~~= stamped(g, pattern, rows, columns));
}

/// Merging only adds: the grid keeps its dimensions, its alive cells stay
/// alive, and a cell changes only where the other grid has an alive cell.
pub proof fn lemma_merge_only_adds(g: Seq<Seq<bool>>, other: Seq<Seq<bool>>)
    ensures
        same_shape(overlaid(g, other), g),
        forall|r: int, c: int| alive_at(g, r, c) ==> alive_at(overlaid(g, other), r, c),
        forall|r: int, c: int|
            !alive_at(other, r, c) ==> alive_at(overlaid(g, other), r, c) == alive_at(g, r, c),
{
}

} // verus!
