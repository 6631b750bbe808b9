//! Interaction-matrix algebra.
//!
//! A matrix is a square grid of fixed-point coefficients: a stored value `v`
//! stands for `v / COEFFICIENT_UNIT`. Row `i`, column `j` is the influence of
//! species `j` on species `i`. Every operation keeps the matrix square and of
//! the same size.

use vstd::arithmetic::div_mod::{lemma_mod_self_0, lemma_small_mod};
use crate::random::random_in;
use vstd::prelude::*;

verus! {

/// Number of stored units in one whole coefficient.
pub const COEFFICIENT_UNIT: i64 = 1_000_000;

/// Largest magnitude of a stored coefficient. `i32::MIN` is never stored, so
/// negation is always defined.
pub const MAX_COEFFICIENT: i32 = 2147483647;

/// The reorderings of a matrix: each output cell copies one input cell.
#[derive(Clone, Copy, Debug, PartialEq, Eq, Structural)]
pub enum Rearrangement {
    FlipHorizontal,
    FlipVertical,
    RotateClockwise,
    RotateCounterClockwise,
    ShiftLeft,
    ShiftRight,
    ShiftUp,
    ShiftDown,
}

/// The entrywise changes of a matrix.
#[derive(Clone, Copy, Debug, PartialEq, Eq, Structural)]
pub enum EntryMap {
    /// Multiply by a fixed-point factor.
    Scale(i32),
    Negate,
    Zero,
}

/// Every row has as many entries as there are rows.
pub open spec fn is_square(m: Seq<Seq<i32>>) -> bool {
    forall|i: int| 0 <= i < m.len() ==> (#[trigger] m[i]).len() == m.len()
}

/// No entry is `i32::MIN`.
pub open spec fn entries_bounded(m: Seq<Seq<i32>>) -> bool {
    forall|i: int, j: int|
        0 <= i < m.len() && 0 <= j < m[i].len() ==> (#[trigger] m[i][j]) != i32::MIN
}

pub open spec fn is_matrix(m: Seq<Seq<i32>>) -> bool {
    is_square(m) && entries_bounded(m)
}

/// The cell of an `n`×`n` input that output cell `(i, j)` copies.
pub open spec fn source_cell(op: Rearrangement, n: int, i: int, j: int) -> (int, int) {
    match op {
        Rearrangement::FlipHorizontal => (i, n - 1 - j),
        Rearrangement::FlipVertical => (n - 1 - i, j),
        Rearrangement::RotateClockwise => (n - 1 - j, i),
        Rearrangement::RotateCounterClockwise => (j, n - 1 - i),
        Rearrangement::ShiftLeft => (i, (j + 1) % n),
        Rearrangement::ShiftRight => (i, (j + n - 1) % n),
        Rearrangement::ShiftUp => ((i + 1) % n, j),
        Rearrangement::ShiftDown => ((i + n - 1) % n, j),
    }
}

/// The matrix `m` reordered by `op`.
pub open spec fn rearranged(m: Seq<Seq<i32>>, op: Rearrangement) -> Seq<Seq<i32>> {
    Seq::new(
        m.len(),
        |i: int|
            Seq::new(
                m.len(),
                |j: int|
                    m[source_cell(op, m.len() as int, i, j).0][source_cell(
                        op,
                        m.len() as int,
                        i,
                        j,
                    ).1],
            ),
    )
}

/// `a / d` rounded toward zero, for `d > 0`.
pub open spec fn div_toward_zero(a: int, d: int) -> int {
    if a >= 0 {
        a / d
    } else {
        -((-a) / d)
    }
}

/// `v` limited to the storable range.
pub open spec fn clamp_coefficient(v: int) -> int {
    if v > MAX_COEFFICIENT {
        MAX_COEFFICIENT as int
    } else if v < -MAX_COEFFICIENT {
        -MAX_COEFFICIENT
    } else {
        v
    }
}

/// Coefficient `v` times the fixed-point factor `k`, rounded toward zero and
/// limited to the storable range.
pub open spec fn scaled_entry(v: int, k: int) -> int {
    clamp_coefficient(div_toward_zero(v * k, COEFFICIENT_UNIT as int))
}

/// What `f` makes of entry `v`.
pub open spec fn mapped_entry(f: EntryMap, v: i32) -> i32 {
    match f {
        EntryMap::Scale(k) => scaled_entry(v as int, k as int) as i32,
        EntryMap::Negate => (-v) as i32,
        EntryMap::Zero => 0i32,
    }
}

/// `f` applied to every entry of `m`.
pub open spec fn mapped(m: Seq<Seq<i32>>, f: EntryMap) -> Seq<Seq<i32>> {
    Seq::new(m.len(), |i: int| Seq::new(m[i].len(), |j: int| mapped_entry(f, m[i][j])))
}

/// Any single operation of the algebra.
#[derive(Clone, Copy, Debug, PartialEq, Eq, Structural)]
pub enum MatrixOp {
    Reorder(Rearrangement),
    Entrywise(EntryMap),
}

/// The matrix `m` after `op`.
pub open spec fn applied(m: Seq<Seq<i32>>, op: MatrixOp) -> Seq<Seq<i32>> {
    match op {
        MatrixOp::Reorder(r) => rearranged(m, r),
        MatrixOp::Entrywise(f) => mapped(m, f),
    }
}

/// `op` applied `k` times to `m`.
pub open spec fn applied_times(m: Seq<Seq<i32>>, op: MatrixOp, k: nat) -> Seq<Seq<i32>>
    decreases k,
{
    if k == 0 {
        m
    } else {
        applied(applied_times(m, op, (k - 1) as nat), op)
    }
}

/// The entries of `m` row after row.
pub open spec fn flattened(m: Seq<Seq<i32>>) -> Seq<i32>
    decreases m.len(),
{
    if m.len() == 0 {
        Seq::empty()
    } else {
        flattened(m.drop_last()) + m.last()
    }
}

/// A square matrix of fixed-point species-interaction coefficients.
#[derive(Clone, Debug)]
pub struct ForceMatrix {
    rows: Vec<Vec<i32>>,
}

impl View for ForceMatrix {
    type V = Seq<Seq<i32>>;

    closed spec fn view(&self) -> Seq<Seq<i32>> {
        self.rows@.map_values(|r: Vec<i32>| r@)
    }
}

/// The index of the cell that output cell `(i, j)` of an `n`×`n` matrix copies.
fn source_index(op: Rearrangement, n: usize, i: usize, j: usize) -> (r: (usize, usize))
    requires
        i < n,
        j < n,
    ensures
        r.0 as int == source_cell(op, n as int, i as int, j as int).0,
        r.1 as int == source_cell(op, n as int, i as int, j as int).1,
        r.0 < n,
        r.1 < n,
{
    let ghost k = n as int;
    match op {
        Rearrangement::FlipHorizontal => (i, n - 1 - j),
        Rearrangement::FlipVertical => (n - 1 - i, j),
        Rearrangement::RotateClockwise => (n - 1 - j, i),
        Rearrangement::RotateCounterClockwise => (j, n - 1 - i),
        Rearrangement::ShiftLeft => {
            if j + 1 == n {
                proof {
                    lemma_mod_self_0(k);
                }
                (i, 0)
            } else {
                proof {
                    lemma_small_mod((j + 1) as nat, k as nat);
                }
                (i, j + 1)
            }
        },
        Rearrangement::ShiftRight => {
            if j == 0 {
                proof {
                    lemma_small_mod((k - 1) as nat, k as nat);
                }
                (i, n - 1)
            } else {
                proof {
                    lemma_mod_after_wrap(j - 1, k);
                }
                (i, j - 1)
            }
        },
        Rearrangement::ShiftUp => {
            if i + 1 == n {
                proof {
                    lemma_mod_self_0(k);
                }
                (0, j)
            } else {
                proof {
                    lemma_small_mod((i + 1) as nat, k as nat);
                }
                (i + 1, j)
            }
        },
        Rearrangement::ShiftDown => {
            if i == 0 {
                proof {
                    lemma_small_mod((k - 1) as nat, k as nat);
                }
                (n - 1, j)
            } else {
                proof {
                    lemma_mod_after_wrap(i - 1, k);
                }
                (i - 1, j)
            }
        },
    }
}

/// `(a + n) % n == a` for `0 <= a < n`.
proof fn lemma_mod_after_wrap(a: int, n: int)
    requires
        0 <= a < n,
    ensures
        (a + n) % n == a,
{
    vstd::arithmetic::div_mod::lemma_mod_add_multiples_vanish(a, n);
    lemma_small_mod(a as nat, n as nat);
}

/// Exec form of `mapped_entry`.
fn map_entry(f: EntryMap, v: i32) -> (r: i32)
    requires
        v != i32::MIN,
    ensures
        r == mapped_entry(f, v),
        r != i32::MIN,
{
    match f {
        EntryMap::Scale(k) => {
            proof {
                let (a, b) = (v as int, k as int);
                assert(-0x8000_0000 <= a <= 0x7fff_ffff && -0x8000_0000 <= b <= 0x7fff_ffff);
                assert(-0x4000_0000_0000_0000 <= a * b <= 0x4000_0000_0000_0000) by (nonlinear_arith)
                    requires
                        -0x8000_0000 <= a <= 0x7fff_ffff,
                        -0x8000_0000 <= b <= 0x7fff_ffff,
                ;
            }
            let p: i64 = (v as i64) * (k as i64);
            let q: i64 = if p >= 0 {
                p / COEFFICIENT_UNIT
            } else {
                -((-p) / COEFFICIENT_UNIT)
            };
            if q > MAX_COEFFICIENT as i64 {
                MAX_COEFFICIENT
            } else if q < -(MAX_COEFFICIENT as i64) {
                -MAX_COEFFICIENT
            } else {
                q as i32
            }
        },
        EntryMap::Negate => -v,
        EntryMap::Zero => 0,
    }
}

impl ForceMatrix {
    pub open spec fn wf(&self) -> bool {
        is_matrix(self@)
    }

    /// Number of species, which is the number of rows and of columns.
    pub fn size(&self) -> (r: usize)
        ensures
            r == self@.len(),
    {
        self.rows.len()
    }

    /// Reorders the cells as `op` says.
    pub fn rearrange(&mut self, op: Rearrangement)
        requires
            old(self).wf(),
        ensures
            final(self).wf(),
            final(self)@ == rearranged(old(self)@, op),
    {
        let n = self.rows.len();
        let ghost m = self@;
        let mut out: Vec<Vec<i32>> = Vec::new();
        let mut i: usize = 0;
        while i < n
            invariant
                n == m.len(),
                m == self@,
                is_matrix(m),
                i <= n,
                out@.len() == i,
                forall|a: int| 0 <= a < i ==> (#[trigger] out@[a])@ == rearranged(m, op)[a],
            decreases n - i,
        {
            let mut row: Vec<i32> = Vec::new();
            let mut j: usize = 0;
            while j < n
                invariant
                    n == m.len(),
                    m == self@,
                    is_matrix(m),
                    i < n,
                    j <= n,
                    row@.len() == j,
                    forall|b: int| 0 <= b < j ==> row@[b] == rearranged(m, op)[i as int][b],
                decreases n - j,
            {
                let (si, sj) = source_index(op, n, i, j);
                proof {
                    assert(self.rows@[si as int]@ == m[si as int]);
                    assert(m[si as int].len() == n);
                }
                row.push(self.rows[si][sj]);
                j += 1;
            }
            assert(row@ =~= rearranged(m, op)[i as int]);
            out.push(row);
            i += 1;
        }
        self.rows = out;
        proof {
            assert(self@ =~= rearranged(m, op));
            assert forall|a: int, b: int|
                0 <= a < self@.len() && 0 <= b < self@[a].len() implies (#[trigger] self@[a][b])
                != i32::MIN by {
                let s = source_cell(op, n as int, a, b);
                assert(self@[a][b] == m[s.0][s.1]);
            }
        }
    }

    /// Applies `f` to every entry.
    pub fn map_entries(&mut self, f: EntryMap)
        requires
            old(self).wf(),
        ensures
            final(self).wf(),
            final(self)@ == mapped(old(self)@, f),
    {
        let n = self.rows.len();
        let ghost m = self@;
        let mut out: Vec<Vec<i32>> = Vec::new();
        let mut i: usize = 0;
        while i < n
            invariant
                n == m.len(),
                m == self@,
                is_matrix(m),
                i <= n,
                out@.len() == i,
                forall|a: int| 0 <= a < i ==> (#[trigger] out@[a])@ == mapped(m, f)[a],
                forall|a: int, b: int|
                    0 <= a < i && 0 <= b < out@[a]@.len() ==> (#[trigger] out@[a]@[b])
                        != i32::MIN,
            decreases n - i,
        {
            let mut row: Vec<i32> = Vec::new();
            let mut j: usize = 0;
            proof {
                assert(self.rows@[i as int]@ == m[i as int]);
            }
            while j < n
                invariant
                    n == m.len(),
                    m == self@,
                    is_matrix(m),
                    i < n,
                    j <= n,
                    row@.len() == j,
                    forall|b: int| 0 <= b < j ==> row@[b] == mapped(m, f)[i as int][b],
                    forall|b: int| 0 <= b < j ==> (#[trigger] row@[b]) != i32::MIN,
                decreases n - j,
            {
                proof {
                    assert(self.rows@[i as int]@ == m[i as int]);
                }
                let e = map_entry(f, self.rows[i][j]);
                row.push(e);
                j += 1;
            }
            assert(row@ =~= mapped(m, f)[i as int]);
            out.push(row);
            i += 1;
        }
        self.rows = out;
        assert(self@ =~= mapped(m, f));
    }

    /// An `n`×`n` matrix of zeros.
    pub fn zeros(n: usize) -> (r: ForceMatrix)
        ensures
            r.wf(),
            r@ == Seq::new(n as nat, |i: int| Seq::new(n as nat, |j: int| 0i32)),
    {
        let ghost target = Seq::new(n as nat, |i: int| Seq::new(n as nat, |j: int| 0i32));
        let mut rows: Vec<Vec<i32>> = Vec::new();
        let mut i: usize = 0;
        while i < n
            invariant
                target == Seq::new(n as nat, |a: int| Seq::new(n as nat, |b: int| 0i32)),
                i <= n,
                rows@.len() == i,
                forall|a: int| 0 <= a < i ==> (#[trigger] rows@[a])@ == target[a],
            decreases n - i,
        {
            let mut row: Vec<i32> = Vec::new();
            let mut j: usize = 0;
            while j < n
                invariant
                    target == Seq::new(n as nat, |a: int| Seq::new(n as nat, |b: int| 0i32)),
                    j <= n,
                    i < n,
                    row@ == Seq::new(j as nat, |b: int| 0i32),
                decreases n - j,
            {
                row.push(0);
                assert(row@ =~= Seq::new((j + 1) as nat, |b: int| 0i32));
                j += 1;
            }
            assert(row@ =~= target[i as int]);
            rows.push(row);
            i += 1;
        }
        let r = ForceMatrix { rows };
        assert(r@ =~= target);
        r
    }

    /// A matrix holding `rows`, or `None` where they do not form a square
    /// matrix or hold `i32::MIN`.
    pub fn from_rows(rows: Vec<Vec<i32>>) -> (r: Option<ForceMatrix>)
        ensures
            r is Some <==> is_matrix(rows@.map_values(|v: Vec<i32>| v@)),
            r matches Some(fm) ==> fm@ == rows@.map_values(|v: Vec<i32>| v@) && fm.wf(),
    {
        let fm = ForceMatrix { rows };
        if fm.is_well_formed() {
            Some(fm)
        } else {
            None
        }
    }

    /// Whether the rows form a square matrix without `i32::MIN`.
    pub fn is_well_formed(&self) -> (r: bool)
        ensures
            r == self.wf(),
    {
        let n = self.rows.len();
        let ghost m = self@;
        let mut i: usize = 0;
        while i < n
            invariant
                n == m.len(),
                m == self@,
                i <= n,
                forall|a: int| 0 <= a < i ==> (#[trigger] m[a]).len() == n,
                forall|a: int, b: int|
                    0 <= a < i && 0 <= b < m[a].len() ==> (#[trigger] m[a][b]) != i32::MIN,
            decreases n - i,
        {
            if self.rows[i].len() != n {
                assert(m[i as int].len() != m.len());
                return false;
            }
            let mut j: usize = 0;
            while j < n
                invariant
                    n == m.len(),
                    m == self@,
                    i < n,
                    j <= n,
                    m[i as int].len() == n,
                    forall|b: int| 0 <= b < j ==> (#[trigger] m[i as int][b]) != i32::MIN,
                decreases n - j,
            {
                if self.rows[i][j] == i32::MIN {
                    assert(m[i as int][j as int] == i32::MIN);
                    return false;
                }
                j += 1;
            }
            i += 1;
        }
        true
    }

    /// A copy of this matrix.
    pub fn duplicate(&self) -> (r: ForceMatrix)
        ensures
            r@ == self@,
    {
        let rows = self.to_rows();
        let r = ForceMatrix { rows };
        assert(r@ =~= self@);
        r
    }

    /// Draws every coefficient afresh from `[-1, 1]`.
    pub fn randomize(&mut self)
        requires
            old(self).wf(),
        ensures
            final(self).wf(),
            final(self)@.len() == old(self)@.len(),
            forall|i: int, j: int|
                0 <= i < final(self)@.len() && 0 <= j < final(self)@.len() ==> -COEFFICIENT_UNIT
                    <= #[trigger] final(self)@[i][j] <= COEFFICIENT_UNIT,
    {
        let n = self.rows.len();
        let mut out: Vec<Vec<i32>> = Vec::new();
        let mut i: usize = 0;
        while i < n
            invariant
                i <= n,
                out@.len() == i,
                forall|a: int| 0 <= a < i ==> (#[trigger] out@[a])@.len() == n,
                forall|a: int, b: int|
                    0 <= a < i && 0 <= b < n ==> -COEFFICIENT_UNIT <= #[trigger] out@[a]@[b]
                        <= COEFFICIENT_UNIT,
            decreases n - i,
        {
            let mut row: Vec<i32> = Vec::new();
            let mut j: usize = 0;
            while j < n
                invariant
                    j <= n,
                    row@.len() == j,
                    forall|b: int|
                        0 <= b < j ==> -COEFFICIENT_UNIT <= #[trigger] row@[b] <= COEFFICIENT_UNIT,
                decreases n - j,
            {
                let v = random_in(-COEFFICIENT_UNIT, COEFFICIENT_UNIT + 1);
                row.push(v as i32);
                j += 1;
            }
            out.push(row);
            i += 1;
        }
        self.rows = out;
    }

    /// The rows, top to bottom.
    pub fn to_rows(&self) -> (r: Vec<Vec<i32>>)
        ensures
            r@.map_values(|v: Vec<i32>| v@) == self@,
    {
        let n = self.rows.len();
        let mut out: Vec<Vec<i32>> = Vec::new();
        let mut i: usize = 0;
        while i < n
            invariant
                n == self@.len(),
                i <= n,
                out@.len() == i,
                forall|a: int| 0 <= a < i ==> (#[trigger] out@[a])@ == self@[a],
            decreases n - i,
        {
            let row = vec_copy(&self.rows[i]);
            out.push(row);
            i += 1;
        }
        assert(out@.map_values(|v: Vec<i32>| v@) =~= self@);
        out
    }

    /// The entries row after row: the layout of the coefficient buffer.
    pub fn flatten(&self) -> (r: Vec<i32>)
        ensures
            r@ == flattened(self@),
    {
        let n = self.rows.len();
        let ghost m = self@;
        let mut out: Vec<i32> = Vec::new();
        let mut i: usize = 0;
        while i < n
            invariant
                n == m.len(),
                m == self@,
                i <= n,
                out@ == flattened(m.take(i as int)),
            decreases n - i,
        {
            let row = &self.rows[i];
            let len = row.len();
            let mut j: usize = 0;
            while j < len
                invariant
                    m == self@,
                    i < n,
                    n == m.len(),
                    *row == self.rows@[i as int],
                    len == row@.len(),
                    j <= len,
                    out@ == flattened(m.take(i as int)) + row@.take(j as int),
                decreases len - j,
            {
                out.push(row[j]);
                proof {
                    assert(row@.take(j as int + 1) =~= row@.take(j as int).push(row@[j as int]));
                    assert(out@ =~= flattened(m.take(i as int)) + row@.take(j as int + 1));
                }
                j += 1;
            }
            proof {
                assert(row@.take(len as int) =~= row@);
                assert(row@ == m[i as int]);
                assert(m.take(i as int + 1).drop_last() =~= m.take(i as int));
                assert(m.take(i as int + 1).last() == m[i as int]);
            }
            i += 1;
        }
        assert(m.take(n as int) =~= m);
        out
    }

    /// Performs `op`.
    pub fn apply(&mut self, op: MatrixOp)
        requires
            old(self).wf(),
        ensures
            final(self).wf(),
            final(self)@ == applied(old(self)@, op),
    {
        match op {
            MatrixOp::Reorder(r) => self.rearrange(r),
            MatrixOp::Entrywise(f) => self.map_entries(f),
        }
    }

    /// Multiplies every coefficient by the fixed-point factor `scale_factor`.
    pub fn scale_force_matrix(&mut self, scale_factor: i32)
        requires
            old(self).wf(),
        ensures
            final(self).wf(),
            final(self)@ == mapped(old(self)@, EntryMap::Scale(scale_factor)),
    {
        self.map_entries(EntryMap::Scale(scale_factor));
    }

    /// Reverses the order of the columns.
    pub fn flip_horizontal(&mut self)
        requires
            old(self).wf(),
        ensures
            final(self).wf(),
            final(self)@ == rearranged(old(self)@, Rearrangement::FlipHorizontal),
    {
        self.rearrange(Rearrangement::FlipHorizontal);
    }

    /// Reverses the order of the rows.
    pub fn flip_vertical(&mut self)
        requires
            old(self).wf(),
        ensures
            final(self).wf(),
            final(self)@ == rearranged(old(self)@, Rearrangement::FlipVertical),
    {
        self.rearrange(Rearrangement::FlipVertical);
    }

    /// Turns the grid a quarter turn clockwise.
    pub fn rotate_clockwise(&mut self)
        requires
            old(self).wf(),
        ensures
            final(self).wf(),
            final(self)@ == rearranged(old(self)@, Rearrangement::RotateClockwise),
    {
        self.rearrange(Rearrangement::RotateClockwise);
    }

    /// Turns the grid a quarter turn counterclockwise.
    pub fn rotate_counterclockwise(&mut self)
        requires
            old(self).wf(),
        ensures
            final(self).wf(),
            final(self)@ == rearranged(old(self)@, Rearrangement::RotateCounterClockwise),
    {
        self.rearrange(Rearrangement::RotateCounterClockwise);
    }

    /// Moves every column one place left; the first column wraps to the end.
    pub fn shift_left(&mut self)
        requires
            old(self).wf(),
        ensures
            final(self).wf(),
            final(self)@ == rearranged(old(self)@, Rearrangement::ShiftLeft),
    {
        self.rearrange(Rearrangement::ShiftLeft);
    }

    /// Moves every column one place right; the last column wraps to the front.
    pub fn shift_right(&mut self)
        requires
            old(self).wf(),
        ensures
            final(self).wf(),
            final(self)@ == rearranged(old(self)@, Rearrangement::ShiftRight),
    {
        self.rearrange(Rearrangement::ShiftRight);
    }

    /// Moves every row one place up; the top row wraps to the bottom.
    pub fn shift_up(&mut self)
        requires
            old(self).wf(),
        ensures
            final(self).wf(),
            final(self)@ == rearranged(old(self)@, Rearrangement::ShiftUp),
    {
        self.rearrange(Rearrangement::ShiftUp);
    }

    /// Moves every row one place down; the bottom row wraps to the top.
    pub fn shift_down(&mut self)
        requires
            old(self).wf(),
        ensures
            final(self).wf(),
            final(self)@ == rearranged(old(self)@, Rearrangement::ShiftDown),
    {
        self.rearrange(Rearrangement::ShiftDown);
    }

    /// Sets every coefficient to zero.
    pub fn zero_matrix(&mut self)
        requires
            old(self).wf(),
        ensures
            final(self).wf(),
            final(self)@ == mapped(old(self)@, EntryMap::Zero),
    {
        self.map_entries(EntryMap::Zero);
    }

    /// Negates every coefficient.
    pub fn flip_sign(&mut self)
        requires
            old(self).wf(),
        ensures
            final(self).wf(),
            final(self)@ == mapped(old(self)@, EntryMap::Negate),
    {
        self.map_entries(EntryMap::Negate);
    }
}

/// A copy of `v`.
fn vec_copy(v: &Vec<i32>) -> (r: Vec<i32>)
    ensures
        r@ == v@,
{
    let mut out: Vec<i32> = Vec::new();
    let mut j: usize = 0;
    while j < v.len()
        invariant
            j <= v@.len(),
            out@ == v@.take(j as int),
        decreases v@.len() - j,
    {
        out.push(v[j]);
        assert(v@.take(j as int + 1) =~= v@.take(j as int).push(v@[j as int]));
        j += 1;
    }
    assert(v@.take(v@.len() as int) =~= v@);
    out
}

} // verus!
