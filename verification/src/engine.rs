//! The step engine: neighbour counting, the transition rule, and the
//! computation of the next generation slice by slice.

use vstd::prelude::*;

use crate::laws::{
    lemma_sliced_step_is_synchronous, lemma_slices_are_contiguous, lemma_step_without_cells,
    lemma_window_holds_the_neighbors,
};
use crate::life::{
    grid_height, grid_width, is_grid, neighbor_count, next_cell, next_generation, next_row,
    next_rows, next_state, same_shape, slice_count, slice_start, span_census, window_census,
    worker_outputs,
};
use crate::pool::Pool;

verus! {

/// Number of workers that [`Pool::step`] asks for.
pub const WORKERS: u32 = 6;

impl Pool {
    /// Number of alive cells adjacent to `(row, column)`. A cell on the edge
    /// of the grid has fewer than eight neighbours: edges do not wrap.
    pub fn count_alive_neighbors(&self, row: u32, column: u32) -> (count: u8)
        requires
            row < grid_height(self@),
            column < grid_width(self@),
        ensures
            count == neighbor_count(self@, row as int, column as int),
    {
        proof {
            use_type_invariant(self);
        }
        let mut count = 0u8;
        let height = self.height();
        let width = self.width();
        let row_start = if row > 0 {
            row - 1
        } else {
            row
        };
        let row_end = if row < height - 1 {
            row + 1
        } else {
            row
        };
        let column_start = if column > 0 {
            column - 1
        } else {
            column
        };
        let column_end = if column < width - 1 {
            column + 1
        } else {
            column
        };
        let mut i = row_start;
        while i < row_end + 1
            invariant
                is_grid(self@),
                height == grid_height(self@),
                width == grid_width(self@),
                row_start <= i <= row_end + 1,
                row_end < height,
                row_end - row_start <= 2,
                column_start <= column_end < width,
                column_end - column_start <= 2,
                count <= 3 * (i - row_start),
                count == window_census(
                    self@,
                    row_start as int,
                    i as int,
                    column_start as int,
                    column_end + 1,
                ),
            decreases row_end + 1 - i,
        {
            let mut j = column_start;
            while j < column_end + 1
                invariant
                    is_grid(self@),
                    height == grid_height(self@),
                    width == grid_width(self@),
                    row_start <= i <= row_end,
                    row_end < height,
                    row_end - row_start <= 2,
                    column_start <= j <= column_end + 1,
                    column_end < width,
                    column_end - column_start <= 2,
                    count <= 3 * (i - row_start) + (j - column_start),
                    count == window_census(
                        self@,
                        row_start as int,
                        i as int,
                        column_start as int,
                        column_end + 1,
                    ) + span_census(self@, i as int, column_start as int, j as int),
                decreases column_end + 1 - j,
            {
                if self.get_cell(i, j) {
                    count += 1;
                }
                j += 1;
            }
            i += 1;
        }
        proof {
            lemma_window_holds_the_neighbors(self@, row as int, column as int);
        }
        // Count only neighbors
        if self.get_cell(row, column) {
            count -= 1;
        }
        count
    }

    /// The new state of a cell, given its current state and the number of its alive neighbours.
    pub fn get_next_state(current_state: bool, neighbors_count: u8) -> (alive: bool)
        ensures
            alive == next_state(current_state, neighbors_count as int),
    {
        if current_state {
            neighbors_count == 2 || neighbors_count == 3
        } else {
            neighbors_count == 3
        }
    }

    /// Rows `start` to `stop - 1` of the next generation: the work of one
    /// worker. The grid is only read.
    pub fn next_state_part(&self, start: u32, stop: u32) -> (part: Vec<Vec<bool>>)
        requires
            start <= stop <= grid_height(self@),
        ensures
            part.deep_view() == next_rows(self@, start as int, stop as int),
    {
        proof {
            use_type_invariant(self);
        }
        let width = self.width();
        let mut part: Vec<Vec<bool>> = Vec::new();
        let mut i = start;
        while i < stop
            invariant
                is_grid(self@),
                width == grid_width(self@),
                start <= i <= stop <= grid_height(self@),
                part.len() == i - start,
                forall|k: int|
                    0 <= k < part.len() ==> (#[trigger] part[k])@ == next_row(self@, start + k),
            decreases stop - i,
        {
            let mut row: Vec<bool> = Vec::new();
            let mut j: u32 = 0;
            while j < width
                invariant
                    is_grid(self@),
                    width == grid_width(self@),
                    i < grid_height(self@),
                    j <= width,
                    row.len() == j,
                    forall|c: int|
                        0 <= c < j ==> #[trigger] row[c] == next_cell(self@, i as int, c),
                decreases width - j,
            {
                let alive = Self::get_next_state(
                    self.get_cell(i, j),
                    self.count_alive_neighbors(i, j),
                );
                row.push(alive);
                j += 1;
            }
            part.push(row);
            i += 1;
        }
        assert(part.deep_view() =~~= next_rows(self@, start as int, stop as int));
        part
    }

    /// The slices that the rows are cut into for `workers` workers, as pairs
    /// of a first row and the row after the last. A grid with fewer rows than
    /// workers gets one slice per row; without rows, or without workers,
    /// there is no slice.
    pub fn slices(&self, workers: u32) -> (plan: Vec<(u32, u32)>)
        ensures
            plan.len() == slice_count(grid_height(self@) as int, workers as int),
            forall|t: int|
                0 <= t < plan.len() ==> {
                    &&& (#[trigger] plan[t]).0 == slice_start(
                        grid_height(self@) as int,
                        plan.len() as int,
                        t,
                    )
                    &&& plan[t].1 == slice_start(
                        grid_height(self@) as int,
                        plan.len() as int,
                        t + 1,
                    )
                },
    {
        let height = self.height();
        let count = if workers < height {
            workers
        } else {
            height
        };
        let mut plan: Vec<(u32, u32)> = Vec::new();
        let mut t: u32 = 0;
        while t < count
            invariant
                t <= count <= height,
                plan.len() == t,
                forall|k: int|
                    0 <= k < t ==> {
                        &&& (#[trigger] plan[k]).0 == slice_start(height as int, count as int, k)
                        &&& plan[k].1 == slice_start(height as int, count as int, k + 1)
                    },
            decreases count - t,
        {
            proof {
                lemma_slices_are_contiguous(height as int, count as int, t as int);
                assert(0 <= t * height <= (t + 1) * height <= 0xffff_ffff * 0xffff_ffff)
                    by (nonlinear_arith)
                    requires
                        0 <= t < 0xffff_ffff,
                        0 <= height <= 0xffff_ffff,
                ;
            }
            let start = ((t as u64 * height as u64) / (count as u64)) as u32;
            let stop = (((t as u64 + 1) * height as u64) / (count as u64)) as u32;
            plan.push((start, stop));
            t += 1;
        }
        plan
    }

    /// Joins `parts` in order and makes the result the state of the grid, in
    /// one assignment, if it has the shape of the grid. Otherwise the grid is
    /// left as it is. Returns whether the grid took the new state.
    pub fn commit(&mut self, parts: Vec<Vec<Vec<bool>>>) -> (committed: bool)
        ensures
            committed == same_shape(parts.deep_view().flatten(), old(self)@),
            committed ==> final(self)@ == parts.deep_view().flatten(),
            !committed ==> final(self)@ == old(self)@,
    {
        proof {
            use_type_invariant(&*self);
        }
        let ghost all = parts.deep_view();
        let mut remaining = parts;
        let mut rows: Vec<Vec<bool>> = Vec::new();
        let mut t: usize = 0;
        while t < remaining.len()
            invariant
                t <= remaining.len(),
                remaining.len() == all.len(),
                forall|k: int|
                    t <= k < remaining.len() ==> (#[trigger] remaining[k]).deep_view() == all[k],
                rows.deep_view() == all.take(t as int).flatten(),
            decreases remaining.len() - t,
        {
            rows.append(&mut remaining[t]);
            proof {
                assert(all.take(t + 1) =~= all.take(t as int).push(all[t as int]));
                all.take(t as int).lemma_flatten_push(all[t as int]);
            }
            t += 1;
        }
        assert(all.take(all.len() as int) =~= all);
        let ghost next = rows.deep_view();
        let height = self.height();
        let width = self.width();
        if rows.len() != height as usize {
            return false;
        }
        let mut r: usize = 0;
        while r < rows.len()
            invariant
                r <= rows.len(),
                rows.len() == height,
                next == rows.deep_view(),
                next == parts.deep_view().flatten(),
                self@ == old(self)@,
                is_grid(self@),
                height == grid_height(self@),
                width == grid_width(self@),
                forall|k: int| 0 <= k < r ==> (#[trigger] next[k]).len() == width,
            decreases rows.len() - r,
        {
            assert(next[r as int].len() == rows[r as int].len());
            if rows[r].len() != width as usize {
                return false;
            }
            r += 1;
        }
        assert(same_shape(next, self@));
        self.replace_rows(rows);
        true
    }

    /// Replaces the grid by its next generation, computed slice by slice for
    /// `workers` workers. The result is the same for every number of workers.
    pub fn step_with_workers(&mut self, workers: u32)
        requires
            workers >= 1,
        ensures
            final(self)@ == next_generation(old(self)@),
    {
        proof {
            use_type_invariant(&*self);
        }
        if self.height() == 0 || self.width() == 0 {
            proof {
                lemma_step_without_cells(self@);
            }
            return ;
        }
        let plan = self.slices(workers);
        let ghost count = plan.len() as int;
        let ghost height = grid_height(self@) as int;
        let mut parts: Vec<Vec<Vec<bool>>> = Vec::new();
        let mut t: usize = 0;
        while t < plan.len()
            invariant
                t <= plan.len(),
                self@ == old(self)@,
                count == plan.len(),
                height == grid_height(self@),
                1 <= count <= height,
                parts.len() == t,
                forall|k: int|
                    0 <= k < plan.len() ==> {
                        &&& (#[trigger] plan[k]).0 == slice_start(height, count, k)
                        &&& plan[k].1 == slice_start(height, count, k + 1)
                    },
                forall|k: int|
                    0 <= k < t ==> (#[trigger] parts[k]).deep_view() == worker_outputs(
                        self@,
                        count,
                    )[k],
            decreases plan.len() - t,
        {
            proof {
                lemma_slices_are_contiguous(height, count, t as int);
            }
            let (start, stop) = plan[t];
            let part = self.next_state_part(start, stop);
            parts.push(part);
            t += 1;
        }
        proof {
            assert(parts.deep_view() =~= worker_outputs(self@, count));
            lemma_sliced_step_is_synchronous(self@, count);
        }
        let committed = self.commit(parts);
        assert(committed);
    }

    /// Replaces the grid by its next generation.
    pub fn step(&mut self)
        ensures
            final(self)@ == next_generation(old(self)@),
    {
        self.step_with_workers(WORKERS)
    }
}

} // verus!
