//! The grid: the cells and their dimensions, the named patterns, and the
//! operations that change cells in place or stamp one grid onto another.
//!
//! A [`Pool`] is always rectangular. Its view `pool@` is the sequence of its
//! rows, and every contract is stated over that view.

use vstd::prelude::*;

use vstd::string::StringExecFns;

use crate::life::{
    acorn_cells, alive_at, array_cells, cleared, dead_grid, glider_cells, grid_height, grid_text,
    grid_width, is_grid, overlaid, row_glyphs, same_shape, shifted,
};
use crate::random::{gen_ratio, thread_rng};

verus! {

/// A bounded rectangular grid of cells.
pub struct Pool {
    /// Alive state of each cell, row by row; `true` is alive.
    state: Vec<Vec<bool>>,
}

impl View for Pool {
    type V = Seq<Seq<bool>>;

    /// The rows of the grid, each a sequence of cells.
    closed spec fn view(&self) -> Seq<Seq<bool>> {
        rows_view(self.state@)
    }
}

/// The cells held by a vector of rows.
spec fn rows_view(rows: Seq<Vec<bool>>) -> Seq<Seq<bool>> {
    Seq::new(rows.len(), |r: int| rows[r]@)
}

/// Whether `(r, c)` comes before `(i, j)` when the cells are visited row by row.
spec fn visited(r: int, c: int, i: int, j: int) -> bool {
    r < i || (r == i && c < j)
}

/// [`shifted`] while it is being filled: the source cells before `(i, j)` are copied.
spec fn partly_shifted(
    g: Seq<Seq<bool>>,
    rows: int,
    columns: int,
    i: int,
    j: int,
) -> Seq<Seq<bool>> {
    Seq::new(
        (g.len() + rows) as nat,
        |r: int|
            Seq::new(
                (grid_width(g) + columns) as nat,
                |c: int| visited(r - rows, c - columns, i, j) && alive_at(g, r - rows, c - columns),
            ),
    )
}

/// [`overlaid`] while it is being filled: the cells before `(i, j)` are merged.
spec fn partly_overlaid(g: Seq<Seq<bool>>, other: Seq<Seq<bool>>, i: int, j: int) -> Seq<
    Seq<bool>,
> {
    Seq::new(
        g.len(),
        |r: int|
            Seq::new(
                g[r].len(),
                |c: int| g[r][c] || (visited(r, c, i, j) && alive_at(other, r, c)),
            ),
    )
}

/// A row of `width` dead cells.
fn dead_row(width: usize) -> (row: Vec<bool>)
    ensures
        row@ == Seq::new(width as nat, |c: int| false),
{
    let mut row: Vec<bool> = Vec::new();
    while row.len() < width
        invariant
            row.len() <= width,
            forall|c: int| 0 <= c < row.len() ==> !row[c],
        decreases width - row.len(),
    {
        row.push(false);
    }
    row
}

impl Pool {
    /// Every row has the same number of cells, and both dimensions fit in `u32`.
    #[verifier::type_invariant]
    pub open spec fn wf(&self) -> bool {
        is_grid(self@)
    }

    /// Moves the rows out and leaves the grid empty, so that they can be changed in place.
    fn take_rows(&mut self) -> (rows: Vec<Vec<bool>>)
        ensures
            rows_view(rows@) == old(self)@,
            is_grid(rows_view(rows@)),
            final(self)@ == Seq::<Seq<bool>>::empty(),
    {
        proof {
            use_type_invariant(&*self);
        }
        let mut rows: Vec<Vec<bool>> = Vec::new();
        std::mem::swap(&mut rows, &mut self.state);
        rows
    }

    /// Makes `rows` the state of the grid.
    fn put_rows(&mut self, rows: Vec<Vec<bool>>)
        requires
            is_grid(rows_view(rows@)),
        ensures
            final(self)@ == rows_view(rows@),
    {
        self.state = rows;
    }

    /// Replaces the whole state by `rows` in one assignment.
    pub(crate) fn replace_rows(&mut self, rows: Vec<Vec<bool>>)
        requires
            is_grid(rows.deep_view()),
        ensures
            final(self)@ == rows.deep_view(),
    {
        assert(rows_view(rows@) =~~= rows.deep_view());
        self.state = rows;
    }

    /// A grid of `height` rows and `width` columns with every cell dead.
    pub fn new(width: u32, height: u32) -> (pool: Self)
        ensures
            pool@ == dead_grid(height as nat, width as nat),
    {
        let mut state: Vec<Vec<bool>> = Vec::new();
        while state.len() < height as usize
            invariant
                state.len() <= height,
                forall|r: int| 0 <= r < state.len() ==> (#[trigger] state[r])@ == Seq::new(
                    width as nat,
                    |c: int| false,
                ),
            decreases height - state.len(),
        {
            state.push(dead_row(width as usize));
        }
        Pool { state }
    }

    /// Number of columns; 0 for a grid without rows.
    pub fn width(&self) -> (w: u32)
        ensures
            w == grid_width(self@),
    {
        proof {
            use_type_invariant(self);
        }
        if self.state.len() == 0 {
            0
        } else {
            self.state[0].len() as u32
        }
    }

    /// Number of rows.
    pub fn height(&self) -> (h: u32)
        ensures
            h == grid_height(self@),
    {
        proof {
            use_type_invariant(self);
        }
        self.state.len() as u32
    }

    /// State of the cell at `(row, column)`.
    pub fn get_cell(&self, row: u32, column: u32) -> (alive: bool)
        requires
            row < grid_height(self@),
            column < grid_width(self@),
        ensures
            alive == self@[row as int][column as int],
    {
        proof {
            use_type_invariant(self);
        }
        assert(self@[row as int] == self.state[row as int]@);
        self.state[row as usize][column as usize]
    }

    /// Overwrites the cell at `(row, column)`; every other cell keeps its state.
    pub fn set_cell(&mut self, row: u32, column: u32, state: bool)
        requires
            row < grid_height(old(self)@),
            column < grid_width(old(self)@),
        ensures
            final(self)@ == old(self)@.update(
                row as int,
                old(self)@[row as int].update(column as int, state),
            ),
    {
        let mut rows = self.take_rows();
        assert(rows_view(rows@)[row as int].len() == grid_width(rows_view(rows@)));
        rows[row as usize][column as usize] = state;
        assert(rows_view(rows@) =~= old(self)@.update(
            row as int,
            old(self)@[row as int].update(column as int, state),
        ));
        self.put_rows(rows);
    }

    /// Makes every cell alive or dead independently, each with probability
    /// one half, as drawn from the generator of the calling thread. The
    /// dimensions stay; which cells are alive is left to chance, and two calls
    /// need not agree.
    pub fn randomize(&mut self)
        ensures
            same_shape(final(self)@, old(self)@),
    {
        proof {
            use_type_invariant(&*self);
        }
        let height = self.height();
        let width = self.width();
        let mut rng = thread_rng();
        let mut i: u32 = 0;
        while i < height
            invariant
                i <= height,
                is_grid(self@),
                height == grid_height(self@),
                width == grid_width(self@),
                same_shape(self@, old(self)@),
            decreases height - i,
        {
            let mut j: u32 = 0;
            while j < width
                invariant
                    i < height,
                    j <= width,
                    is_grid(self@),
                    height == grid_height(self@),
                    width == grid_width(self@),
                    same_shape(self@, old(self)@),
                decreases width - j,
            {
                let alive = gen_ratio(&mut rng, 1, 2);
                self.set_cell(i, j, alive);
                j += 1;
            }
            i += 1;
        }
    }

    /// Kills every cell.
    pub fn clear(&mut self)
        ensures
            final(self)@ == cleared(old(self)@),
    {
        let mut rows = self.take_rows();
        let ghost width = grid_width(rows_view(rows@));
        assert forall|r: int| 0 <= r < rows.len() implies (#[trigger] rows[r])@.len() == width by {
            assert(rows_view(rows@)[r].len() == width);
        }
        let mut i: usize = 0;
        while i < rows.len()
            invariant
                i <= rows.len(),
                rows.len() == old(self)@.len(),
                forall|r: int| 0 <= r < rows.len() ==> (#[trigger] rows[r])@.len() == width,
                forall|r: int, c: int| 0 <= r < i && 0 <= c < width ==> !(#[trigger] rows[r]@[c]),
            decreases rows.len() - i,
        {
            let mut j: usize = 0;
            while j < rows[i].len()
                invariant
                    i < rows.len(),
                    j <= rows[i as int].len(),
                    rows.len() == old(self)@.len(),
                    forall|r: int| 0 <= r < rows.len() ==> (#[trigger] rows[r])@.len() == width,
                    forall|r: int, c: int|
                        0 <= r < i && 0 <= c < width ==> !(#[trigger] rows[r]@[c]),
                    forall|c: int| 0 <= c < j ==> !(#[trigger] rows[i as int]@[c]),
                decreases rows[i as int].len() - j,
            {
                rows[i][j] = false;
                j += 1;
            }
            i += 1;
        }
        assert(rows_view(rows@) =~~= dead_grid(grid_height(old(self)@), grid_width(old(self)@)));
        self.put_rows(rows);
    }

    /// The grid whose rows are the rows of `data`.
    pub fn from_array<const WIDTH: usize, const HEIGHT: usize>(
        data: &[[bool; HEIGHT]; WIDTH],
    ) -> (pool: Self)
        requires
            WIDTH <= u32::MAX,
            HEIGHT <= u32::MAX,
        ensures
            pool@ == array_cells(*data),
    {
        Pool { state: Self::convert_2d_array_to_vec(data) }
    }

    /// Copies an array of rows into vectors.
    fn convert_2d_array_to_vec<const WIDTH: usize, const HEIGHT: usize>(
        arr: &[[bool; HEIGHT]; WIDTH],
    ) -> (ret: Vec<Vec<bool>>)
        ensures
            ret.len() == WIDTH,
            forall|r: int| 0 <= r < WIDTH ==> (#[trigger] ret[r])@ == arr@[r]@,
    {
        let mut ret: Vec<Vec<bool>> = Vec::with_capacity(WIDTH);
        let mut i: usize = 0;
        while i < WIDTH
            invariant
                i <= WIDTH,
                ret.len() == i,
                forall|r: int| 0 <= r < i ==> (#[trigger] ret[r])@ == arr@[r]@,
            decreases WIDTH - i,
        {
            let mut vec_row: Vec<bool> = Vec::with_capacity(HEIGHT);
            let mut j: usize = 0;
            while j < HEIGHT
                invariant
                    i < WIDTH,
                    j <= HEIGHT,
                    vec_row.len() == j,
                    forall|c: int| 0 <= c < j ==> vec_row[c] == arr@[i as int]@[c],
                decreases HEIGHT - j,
            {
                vec_row.push(arr[i][j]);
                j += 1;
            }
            ret.push(vec_row);
            i += 1;
        }
        ret
    }

    /// A glider that travels towards the south east.
    pub fn glider_south_east() -> (pool: Self)
        ensures
            pool@ == glider_cells(),
    {
        let data: [[bool; 3]; 3] = [
            [false, true, false],
            [false, false, true],
            [true, true, true],
        ];
        Self::from_array(&data)
    }

    /// An acorn.
    pub fn acorn() -> (pool: Self)
        ensures
            pool@ == acorn_cells(),
    {
        let data: [[bool; 7]; 3] = [
            [false, true, false, false, false, false, false],
            [false, false, false, true, false, false, false],
            [true, true, false, false, true, true, true],
        ];
        Self::from_array(&data)
    }

    /// A new grid, larger by the offsets, that holds this grid's pattern moved
    /// down by `row_offset` and right by `column_offset`. Every other cell is dead.
    pub fn with_offset(&self, row_offset: u32, column_offset: u32) -> (result: Pool)
        requires
            grid_height(self@) + row_offset <= u32::MAX,
            grid_width(self@) + column_offset <= u32::MAX,
        ensures
            result@ == shifted(self@, row_offset as int, column_offset as int),
    {
        proof {
            use_type_invariant(self);
        }
        let height = self.height();
        let width = self.width();
        let new_width = width + column_offset;
        let new_height = height + row_offset;
        let mut result = Pool::new(new_width, new_height);
        assert(result@ =~~= partly_shifted(self@, row_offset as int, column_offset as int, 0, 0));
        let mut i: u32 = 0;
        while i < height
            invariant
                i <= height,
                height == grid_height(self@),
                width == grid_width(self@),
                is_grid(self@),
                height + row_offset <= u32::MAX,
                width + column_offset <= u32::MAX,
                result@ == partly_shifted(
                    self@,
                    row_offset as int,
                    column_offset as int,
                    i as int,
                    0,
                ),
            decreases height - i,
        {
            let mut j: u32 = 0;
            while j < width
                invariant
                    i < height,
                    j <= width,
                    height == grid_height(self@),
                    width == grid_width(self@),
                    is_grid(self@),
                    height + row_offset <= u32::MAX,
                    width + column_offset <= u32::MAX,
                    result@ == partly_shifted(
                        self@,
                        row_offset as int,
                        column_offset as int,
                        i as int,
                        j as int,
                    ),
                decreases width - j,
            {
                let alive = self.get_cell(i, j);
                result.set_cell(row_offset + i, column_offset + j, alive);
                assert(result@ =~~= partly_shifted(
                    self@,
                    row_offset as int,
                    column_offset as int,
                    i as int,
                    j + 1,
                ));
                j += 1;
            }
            assert(result@ =~~= partly_shifted(
                self@,
                row_offset as int,
                column_offset as int,
                i + 1,
                0,
            ));
            i += 1;
        }
        assert(result@ =~~= shifted(self@, row_offset as int, column_offset as int));
        result
    }

    /// Makes alive every cell that is alive in `other`, where the two grids
    /// overlap; a dead cell of `other` changes nothing, and neither does a
    /// cell of `other` outside this grid.
    pub fn merge(&mut self, other: Pool)
        ensures
            final(self)@ == overlaid(old(self)@, other@),
    {
        proof {
            use_type_invariant(&*self);
            use_type_invariant(&other);
        }
        let own_height = self.height();
        let other_height = other.height();
        let height = if own_height < other_height {
            own_height
        } else {
            other_height
        };
        let own_width = self.width();
        let other_width = other.width();
        let width = if own_width < other_width {
            own_width
        } else {
            other_width
        };
        assert(self@ =~~= partly_overlaid(old(self)@, other@, 0, 0));
        let mut i: u32 = 0;
        while i < height
            invariant
                i <= height,
                is_grid(old(self)@),
                is_grid(other@),
                height <= grid_height(old(self)@),
                height <= grid_height(other@),
                width <= grid_width(old(self)@),
                width <= grid_width(other@),
                height == grid_height(old(self)@) || height == grid_height(other@),
                width == grid_width(old(self)@) || width == grid_width(other@),
                self@ == partly_overlaid(old(self)@, other@, i as int, 0),
            decreases height - i,
        {
            let mut j: u32 = 0;
            while j < width
                invariant
                    i < height,
                    j <= width,
                    is_grid(old(self)@),
                    is_grid(other@),
                    height <= grid_height(old(self)@),
                    height <= grid_height(other@),
                    width <= grid_width(old(self)@),
                    width <= grid_width(other@),
                    width == grid_width(old(self)@) || width == grid_width(other@),
                    self@ == partly_overlaid(old(self)@, other@, i as int, j as int),
                decreases width - j,
            {
                let alive = self.get_cell(i, j) || other.get_cell(i, j);
                self.set_cell(i, j, alive);
                assert(self@ =~~= partly_overlaid(old(self)@, other@, i as int, j + 1));
                j += 1;
            }
            assert(self@ =~~= partly_overlaid(old(self)@, other@, i + 1, 0));
            i += 1;
        }
        assert(self@ =~~= overlaid(old(self)@, other@));
    }

    /// The grid as text, one line per row: `O` for an alive cell, a space for a dead one.
    pub fn to_text(&self) -> (text: String)
        ensures
            text@ == grid_text(self@),
    {
        proof {
            use_type_invariant(self);
        }
        let height = self.height();
        let width = self.width();
        let mut text = String::new();
        let mut i: u32 = 0;
        while i < height
            invariant
                i <= height,
                height == grid_height(self@),
                width == grid_width(self@),
                is_grid(self@),
                text@ == grid_text(self@.take(i as int)),
            decreases height - i,
        {
            let ghost above = text@;
            let ghost glyphs = row_glyphs(self@[i as int]);
            let mut j: u32 = 0;
            while j < width
                invariant
                    i < height,
                    j <= width,
                    height == grid_height(self@),
                    width == grid_width(self@),
                    is_grid(self@),
                    glyphs == row_glyphs(self@[i as int]),
                    text@ == above + glyphs.take(j as int),
                decreases width - j,
            {
                if self.get_cell(i, j) {
                    text.append("O");
                } else {
                    text.append(" ");
                }
                proof {
                    reveal_strlit("O");
                    reveal_strlit(" ");
                }
                j += 1;
            }
            text.append("\n");
            proof {
                reveal_strlit("\n");
                assert(glyphs.take(width as int) =~= glyphs);
                assert(self@.take(i + 1).drop_last() =~= self@.take(i as int));
            }
            i += 1;
        }
        assert(self@.take(height as int) =~= self@);
        text
    }
}

impl core::ops::AddAssign<Pool> for Pool {
    /// `self += other` is [`Pool::merge`].
    fn add_assign(&mut self, other: Pool)
        ensures
            final(self)@ == overlaid(old(self)@, other@),
    {
        self.merge(other)
    }
}

} // verus!
