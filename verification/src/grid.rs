//! The character-grid plot of a trajectory: a fixed-size surface of
//! cells covering a rectangle of physical space, with a rounding
//! projection from physical coordinates to cell indices and a marker
//! run drawn around the cell where the ball enters the target.

use crate::sim::Sample;
use crate::sim::Trajectory;
use vstd::arithmetic::div_mod::lemma_div_pos_is_pos;
use vstd::arithmetic::div_mod::lemma_fundamental_div_mod;
use vstd::arithmetic::div_mod::lemma_fundamental_div_mod_converse;
use vstd::arithmetic::mul::lemma_mul_inequality;
use vstd::prelude::*;

verus! {

/// Largest admitted number of rows or columns.
pub const MAX_CELLS: usize = 10_000;

/// Largest admitted physical extent of the surface, in micrometers
/// (one thousand kilometers).
pub const MAX_EXTENT_UM: i64 = 1_000_000_000_000;

/// The cell a physical coordinate projects to: `v * (n - 1) / e`
/// rounded to the nearest whole cell, halves away from zero.
pub open spec fn spec_cell(v: int, e: int, n: int) -> int {
    (2 * v * (n - 1) + e) / (2 * e)
}

/// The projection stays on the surface, and a coordinate exactly at the
/// far edge lands exactly on the last cell.
pub proof fn lemma_cell_bounds(v: int, e: int, n: int)
    requires
        0 <= v <= e,
        1 <= e,
        1 <= n,
    ensures
        0 <= spec_cell(v, e, n) < n,
        v == e ==> spec_cell(v, e, n) == n - 1,
{
    let num = 2 * v * (n - 1) + e;
    let den = 2 * e;
    assert(0 <= 2 * v * (n - 1)) by (nonlinear_arith)
        requires
            0 <= v,
            1 <= n,
    ;
    lemma_div_pos_is_pos(num, den);
    assert(num < den * n) by (nonlinear_arith)
        requires
            0 <= v <= e,
            1 <= e,
            1 <= n,
            num == 2 * v * (n - 1) + e,
            den == 2 * e,
    ;
    lemma_fundamental_div_mod(num, den);
    let q = num / den;
    if q >= n {
        lemma_mul_inequality(n, q, den);
        assert(false);
    }
    if v == e {
        assert(num == (n - 1) * den + e) by (nonlinear_arith)
            requires
                num == 2 * e * (n - 1) + e,
                den == 2 * e,
        ;
        lemma_fundamental_div_mod_converse(num, den, n - 1, e);
    }
}

/// Projects a physical coordinate in `0 ..= extent_um` onto a row of
/// `cells` cells, rounding to the nearest cell; the far edge maps
/// exactly to the last cell.
pub fn meters_to_cell(v_um: i64, extent_um: i64, cells: usize) -> (c: usize)
    requires
        0 <= v_um <= extent_um,
        1 <= extent_um <= MAX_EXTENT_UM,
        1 <= cells <= MAX_CELLS,
    ensures
        c == spec_cell(v_um as int, extent_um as int, cells as int),
        c < cells,
        v_um == extent_um ==> c == cells - 1,
{
    proof {
        lemma_cell_bounds(v_um as int, extent_um as int, cells as int);
        assert(0 <= 2 * (v_um as int) * (cells - 1) <= 2 * MAX_EXTENT_UM * (MAX_CELLS as int))
            by (nonlinear_arith)
            requires
                0 <= v_um <= MAX_EXTENT_UM,
                0 <= cells - 1 < MAX_CELLS,
        ;
    }
    let num = 2 * (v_um as u64) * ((cells - 1) as u64) + (extent_um as u64);
    let den = 2 * (extent_um as u64);
    (num / den) as usize
}

/// A character surface of `num_rows * num_cols` cells covering
/// `rows_meters_um * cols_meters_um` of physical space, row 0 at the
/// ground.
pub struct DisplayCMD {
    /// The cells in row-major order, row 0 first.
    pub buf: Vec<char>,
    /// Number of rows.
    pub num_rows: usize,
    /// Number of columns.
    pub num_cols: usize,
    /// Physical height covered by the rows, micrometers.
    pub rows_meters_um: i64,
    /// Physical width covered by the columns, micrometers.
    pub cols_meters_um: i64,
}

/// The buffer index of a cell.
pub open spec fn spec_idx(cols: int, row: int, col: int) -> int {
    row * cols + col
}

/// A buffer index is in range whenever its cell is.
pub proof fn lemma_idx_bounds(rows: int, cols: int, row: int, col: int)
    requires
        0 <= row < rows,
        0 <= col < cols,
    ensures
        0 <= spec_idx(cols, row, col) < rows * cols,
        row < rows - 1 || col < cols - 1 ==> spec_idx(cols, row, col) < rows * cols - 1,
{
    assert(0 <= row * cols + col < rows * cols && (row < rows - 1 || col < cols - 1 ==> row * cols
        + col < rows * cols - 1)) by (nonlinear_arith)
        requires
            0 <= row < rows,
            0 <= col < cols,
    ;
}

/// The buffer after one plotted sample: the target-entry marker run
/// when the instant flag is set, otherwise the plain trace character.
pub open spec fn spec_mark(
    buf: Seq<char>,
    cols: int,
    row: int,
    col: int,
    ch: char,
    flag: bool,
) -> Seq<char> {
    if flag {
        buf.update(spec_idx(cols, row, col - 2), '=').update(spec_idx(cols, row, col - 1), '=')
            .update(spec_idx(cols, row, col + 1), '=').update(spec_idx(cols, row, col + 2), '=')
            .update(spec_idx(cols, row, col), '*')
    } else {
        buf.update(spec_idx(cols, row, col), ch)
    }
}

impl DisplayCMD {
    /// Dimensions within bounds and a buffer of exactly one character
    /// per cell.
    pub open spec fn wf(self) -> bool {
        &&& 1 <= self.num_rows <= MAX_CELLS
        &&& 1 <= self.num_cols <= MAX_CELLS
        &&& 1 <= self.rows_meters_um <= MAX_EXTENT_UM
        &&& 1 <= self.cols_meters_um <= MAX_EXTENT_UM
        &&& self.buf@.len() == self.num_rows * self.num_cols
    }

    /// The row a physical height projects to.
    pub open spec fn spec_row_of(self, y_um: int) -> int {
        spec_cell(y_um, self.rows_meters_um as int, self.num_rows as int)
    }

    /// The column a physical abscissa projects to.
    pub open spec fn spec_col_of(self, x_um: int) -> int {
        spec_cell(x_um, self.cols_meters_um as int, self.num_cols as int)
    }

    /// Builds a blank surface; out-of-bounds dimensions are rejected.
    pub fn new(num_rows: usize, num_cols: usize, rows_meters_um: i64, cols_meters_um: i64) -> (r:
        Option<DisplayCMD>)
        ensures
            r.is_some() <==> (1 <= num_rows <= MAX_CELLS && 1 <= num_cols <= MAX_CELLS && 1
                <= rows_meters_um <= MAX_EXTENT_UM && 1 <= cols_meters_um <= MAX_EXTENT_UM),
            r.is_some() ==> {
                let d = r.unwrap();
                &&& d.wf()
                &&& d.num_rows == num_rows
                &&& d.num_cols == num_cols
                &&& d.rows_meters_um == rows_meters_um
                &&& d.cols_meters_um == cols_meters_um
                &&& forall|i: int| 0 <= i < d.buf@.len() ==> d.buf@[i] == ' '
            },
    {
        if 1 <= num_rows && num_rows <= MAX_CELLS && 1 <= num_cols && num_cols <= MAX_CELLS && 1
            <= rows_meters_um && rows_meters_um <= MAX_EXTENT_UM && 1 <= cols_meters_um
            && cols_meters_um <= MAX_EXTENT_UM {
            proof {
                assert(num_rows * num_cols <= MAX_CELLS * MAX_CELLS) by (nonlinear_arith)
                    requires
                        1 <= num_rows <= MAX_CELLS,
                        1 <= num_cols <= MAX_CELLS,
                ;
            }
            let total = num_rows * num_cols;
            let mut buf: Vec<char> = Vec::new();
            let mut i: usize = 0;
            while i < total
                invariant
                    i <= total,
                    buf@.len() == i,
                    forall|j: int| 0 <= j < i ==> buf@[j] == ' ',
                decreases total - i,
            {
                buf.push(' ');
                i += 1;
            }
            Some(DisplayCMD { buf, num_rows, num_cols, rows_meters_um, cols_meters_um })
        } else {
            None
        }
    }

    /// Writes one character at a cell.
    pub fn set_pixel(&mut self, ch: char, row: usize, col: usize)
        requires
            old(self).wf(),
            row < old(self).num_rows,
            col < old(self).num_cols,
        ensures
            final(self).wf(),
            final(self).num_rows == old(self).num_rows,
            final(self).num_cols == old(self).num_cols,
            final(self).rows_meters_um == old(self).rows_meters_um,
            final(self).cols_meters_um == old(self).cols_meters_um,
            final(self).buf@ == old(self).buf@.update(
                spec_idx(old(self).num_cols as int, row as int, col as int),
                ch,
            ),
    {
        proof {
            lemma_idx_bounds(
                self.num_rows as int,
                self.num_cols as int,
                row as int,
                col as int,
            );
            assert(row * self.num_cols + col < MAX_CELLS * MAX_CELLS) by (nonlinear_arith)
                requires
                    row < self.num_rows <= MAX_CELLS,
                    col < self.num_cols <= MAX_CELLS,
            ;
        }
        let idx = row * self.num_cols + col;
        self.buf.set(idx, ch);
    }

    /// Reads one cell.
    pub fn get_pixel(&self, row: usize, col: usize) -> (c: char)
        requires
            self.wf(),
            row < self.num_rows,
            col < self.num_cols,
        ensures
            c == self.buf@[spec_idx(self.num_cols as int, row as int, col as int)],
    {
        proof {
            lemma_idx_bounds(
                self.num_rows as int,
                self.num_cols as int,
                row as int,
                col as int,
            );
            assert(row * self.num_cols + col < MAX_CELLS * MAX_CELLS) by (nonlinear_arith)
                requires
                    row < self.num_rows <= MAX_CELLS,
                    col < self.num_cols <= MAX_CELLS,
            ;
        }
        let idx = row * self.num_cols + col;
        self.buf[idx]
    }

    /// Plots one sample given in physical coordinates.  When the
    /// entry flag is set, a run of five cells is marked: `=` on the two
    /// neighbours on each side and `*` at the centre; the run must fit
    /// on the row.
    pub fn set_pixel_meters(&mut self, ch: char, row_meters_um: i64, col_meters_um: i64, flag: bool)
        requires
            old(self).wf(),
            0 <= row_meters_um <= old(self).rows_meters_um,
            0 <= col_meters_um <= old(self).cols_meters_um,
            flag ==> 2 <= old(self).spec_col_of(col_meters_um as int) && old(self).spec_col_of(
                col_meters_um as int,
            ) + 2 < old(self).num_cols,
        ensures
            final(self).wf(),
            final(self).num_rows == old(self).num_rows,
            final(self).num_cols == old(self).num_cols,
            final(self).rows_meters_um == old(self).rows_meters_um,
            final(self).cols_meters_um == old(self).cols_meters_um,
            final(self).buf@ == spec_mark(
                old(self).buf@,
                old(self).num_cols as int,
                old(self).spec_row_of(row_meters_um as int),
                old(self).spec_col_of(col_meters_um as int),
                ch,
                flag,
            ),
    {
        let row = meters_to_cell(row_meters_um, self.rows_meters_um, self.num_rows);
        let col = meters_to_cell(col_meters_um, self.cols_meters_um, self.num_cols);
        if flag {
            self.set_pixel('=', row, col - 2);
            self.set_pixel('=', row, col - 1);
            self.set_pixel('=', row, col + 1);
            self.set_pixel('=', row, col + 2);
            self.set_pixel('*', row, col);
        } else {
            self.set_pixel(ch, row, col);
        }
    }

    /// A sample lies on the surface, and when it carries the entry
    /// flag its five-cell marker run fits on its row.
    pub open spec fn spec_sample_plottable(self, s: Sample) -> bool {
        &&& 0 <= s.y_um <= self.rows_meters_um
        &&& 0 <= s.x_um <= self.cols_meters_um
        &&& s.entered ==> 2 <= self.spec_col_of(s.x_um as int) && self.spec_col_of(s.x_um as int)
            + 2 < self.num_cols
    }

    /// Plots each sample in turn with the trace character `O`,
    /// validating every sample first: either all samples are plotted,
    /// or the surface is left untouched.
    pub fn plot_trajectory(&mut self, traj: &Trajectory) -> (ok: bool)
        requires
            old(self).wf(),
        ensures
            final(self).wf(),
            final(self).num_rows == old(self).num_rows,
            final(self).num_cols == old(self).num_cols,
            final(self).rows_meters_um == old(self).rows_meters_um,
            final(self).cols_meters_um == old(self).cols_meters_um,
            ok <==> (forall|i: int|
                0 <= i < traj.samples@.len() ==> old(self).spec_sample_plottable(
                    #[trigger] traj.samples@[i],
                )),
            ok ==> final(self).buf@ == spec_plot_upto(
                *old(self),
                traj.samples@,
                traj.samples@.len() as int,
            ),
            !ok ==> final(self).buf@ == old(self).buf@,
    {
        let n = traj.samples.len();
        let mut i: usize = 0;
        while i < n
            invariant
                i <= n,
                n == traj.samples@.len(),
                self.wf(),
                *self == *old(self),
                forall|j: int|
                    0 <= j < i ==> old(self).spec_sample_plottable(#[trigger] traj.samples@[j]),
            decreases n - i,
        {
            let s = traj.samples[i];
            let in_bounds = 0 <= s.y_um && s.y_um <= self.rows_meters_um && 0 <= s.x_um && s.x_um
                <= self.cols_meters_um;
            if !in_bounds {
                assert(!old(self).spec_sample_plottable(traj.samples@[i as int]));
                return false;
            }
            if s.entered {
                let col = meters_to_cell(s.x_um, self.cols_meters_um, self.num_cols);
                if !(col >= 2 && col + 2 < self.num_cols) {
                    assert(!old(self).spec_sample_plottable(traj.samples@[i as int]));
                    return false;
                }
            }
            i += 1;
        }
        let mut k: usize = 0;
        while k < n
            invariant
                k <= n,
                n == traj.samples@.len(),
                self.wf(),
                self.num_rows == old(self).num_rows,
                self.num_cols == old(self).num_cols,
                self.rows_meters_um == old(self).rows_meters_um,
                self.cols_meters_um == old(self).cols_meters_um,
                self.buf@ == spec_plot_upto(*old(self), traj.samples@, k as int),
                forall|j: int|
                    0 <= j < n ==> old(self).spec_sample_plottable(#[trigger] traj.samples@[j]),
            decreases n - k,
        {
            let s = traj.samples[k];
            assert(old(self).spec_sample_plottable(traj.samples@[k as int]));
            self.set_pixel_meters('O', s.y_um, s.x_um, s.entered);
            k += 1;
        }
        true
    }

    /// The surface as printable rows, top row of the display first:
    /// row 0 of the grid sits at the ground, so the rows come out in
    /// descending row order.
    pub fn render_lines(&self) -> (r: Vec<Vec<char>>)
        requires
            self.wf(),
        ensures
            r@.len() == self.num_rows,
            forall|i: int| 0 <= i < self.num_rows ==> #[trigger] r@[i]@.len() == self.num_cols,
            forall|i: int, j: int|
                0 <= i < self.num_rows && 0 <= j < self.num_cols ==> #[trigger] r@[i]@[j]
                    == self.buf@[spec_idx(self.num_cols as int, self.num_rows - 1 - i, j)],
    {
        let mut r: Vec<Vec<char>> = Vec::new();
        let mut i: usize = 0;
        while i < self.num_rows
            invariant
                i <= self.num_rows,
                self.wf(),
                r@.len() == i,
                forall|a: int| 0 <= a < i ==> #[trigger] r@[a]@.len() == self.num_cols,
                forall|a: int, b: int|
                    0 <= a < i && 0 <= b < self.num_cols ==> #[trigger] r@[a]@[b]
                        == self.buf@[spec_idx(self.num_cols as int, self.num_rows - 1 - a, b)],
            decreases self.num_rows - i,
        {
            let row = self.num_rows - 1 - i;
            let mut line: Vec<char> = Vec::new();
            let mut j: usize = 0;
            while j < self.num_cols
                invariant
                    j <= self.num_cols,
                    self.wf(),
                    row == self.num_rows - 1 - i,
                    i < self.num_rows,
                    line@.len() == j,
                    forall|b: int|
                        0 <= b < j ==> #[trigger] line@[b] == self.buf@[spec_idx(
                            self.num_cols as int,
                            row as int,
                            b,
                        )],
                decreases self.num_cols - j,
            {
                line.push(self.get_pixel(row, j));
                j += 1;
            }
            r.push(line);
            i += 1;
        }
        r
    }
}

/// The surface after the first `n` samples are plotted with the trace
/// character `O`.
pub open spec fn spec_plot_upto(d0: DisplayCMD, samples: Seq<Sample>, n: int) -> Seq<char>
    decreases n,
{
    if n <= 0 {
        d0.buf@
    } else {
        spec_mark(
            spec_plot_upto(d0, samples, n - 1),
            d0.num_cols as int,
            d0.spec_row_of(samples[n - 1].y_um as int),
            d0.spec_col_of(samples[n - 1].x_um as int),
            'O',
            samples[n - 1].entered,
        )
    }
}

} // verus!
