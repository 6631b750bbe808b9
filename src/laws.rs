//! Algebraic laws of the interaction-matrix operations.

use crate::matrix::{
    applied, applied_times, div_toward_zero, is_matrix, mapped, rearranged, source_cell,
    EntryMap, MatrixOp, Rearrangement, COEFFICIENT_UNIT, MAX_COEFFICIENT,
};
use vstd::arithmetic::div_mod::{
    lemma_div_multiples_vanish, lemma_fundamental_div_mod, lemma_mod_self_0, lemma_small_mod,
};
use vstd::prelude::*;

verus! {

proof fn lemma_wrap_down(a: int, n: int)
    requires
        0 <= a < n,
    ensures
        (a + n - 1) % n == if a == 0 { n - 1 } else { a - 1 },
{
    if a == 0 {
        lemma_small_mod((n - 1) as nat, n as nat);
    } else {
        vstd::arithmetic::div_mod::lemma_mod_add_multiples_vanish(a - 1, n);
        lemma_small_mod((a - 1) as nat, n as nat);
    }
}

proof fn lemma_wrap_up(a: int, n: int)
    requires
        0 <= a < n,
    ensures
        (a + 1) % n == if a + 1 == n { 0 } else { a + 1 },
{
    if a + 1 == n {
        lemma_mod_self_0(n);
    } else {
        lemma_small_mod((a + 1) as nat, n as nat);
    }
}

/// The cell a rearrangement reads lies inside the matrix.
proof fn lemma_source_in_range(op: Rearrangement, n: int, i: int, j: int)
    requires
        0 <= i < n,
        0 <= j < n,
    ensures
        0 <= source_cell(op, n, i, j).0 < n,
        0 <= source_cell(op, n, i, j).1 < n,
{
    lemma_wrap_up(i, n);
    lemma_wrap_up(j, n);
    lemma_wrap_down(i, n);
    lemma_wrap_down(j, n);
}

/// A rearranged matrix is again a matrix of the same size.
pub proof fn lemma_rearranged_is_matrix(m: Seq<Seq<i32>>, op: Rearrangement)
    requires
        is_matrix(m),
    ensures
        is_matrix(rearranged(m, op)),
        rearranged(m, op).len() == m.len(),
{
    let n = m.len() as int;
    let r = rearranged(m, op);
    assert forall|i: int, j: int| 0 <= i < r.len() && 0 <= j < r[i].len() implies (#[trigger] r[i][j])
        != i32::MIN by {
        lemma_source_in_range(op, n, i, j);
    }
}

/// An entrywise-mapped matrix is again a matrix of the same size.
pub proof fn lemma_mapped_is_matrix(m: Seq<Seq<i32>>, f: EntryMap)
    requires
        is_matrix(m),
    ensures
        is_matrix(mapped(m, f)),
        mapped(m, f).len() == m.len(),
{
    let r = mapped(m, f);
    assert forall|i: int, j: int| 0 <= i < r.len() && 0 <= j < r[i].len() implies (#[trigger] r[i][j])
        != i32::MIN by {
        if let EntryMap::Scale(k) = f {
            assert(r[i][j] == crate::matrix::scaled_entry(m[i][j] as int, k as int) as i32);
        }
    }
}

/// Every operation keeps a matrix a matrix of the same size.
pub proof fn lemma_applied_is_matrix(m: Seq<Seq<i32>>, op: MatrixOp)
    requires
        is_matrix(m),
    ensures
        is_matrix(applied(m, op)),
        applied(m, op).len() == m.len(),
{
    match op {
        MatrixOp::Reorder(r) => lemma_rearranged_is_matrix(m, r),
        MatrixOp::Entrywise(f) => lemma_mapped_is_matrix(m, f),
    }
}

/// Applying `first` and then `second` reads, at each cell, the input cell
/// found by following the two source maps back.
proof fn lemma_composed_entry(m: Seq<Seq<i32>>, first: Rearrangement, second: Rearrangement, i: int, j: int)
    requires
        is_matrix(m),
        0 <= i < m.len(),
        0 <= j < m.len(),
    ensures
        ({
            let n = m.len() as int;
            let s = source_cell(second, n, i, j);
            let t = source_cell(first, n, s.0, s.1);
            rearranged(rearranged(m, first), second)[i][j] == m[t.0][t.1]
        }),
{
    let n = m.len() as int;
    lemma_source_in_range(second, n, i, j);
}

/// Reversing the columns twice gives back the matrix.
pub proof fn lemma_flip_horizontal_involution(m: Seq<Seq<i32>>)
    requires
        is_matrix(m),
    ensures
        rearranged(rearranged(m, Rearrangement::FlipHorizontal), Rearrangement::FlipHorizontal) == m,
{
    lemma_undone_by(m, Rearrangement::FlipHorizontal, Rearrangement::FlipHorizontal);
}

/// Reversing the rows twice gives back the matrix.
pub proof fn lemma_flip_vertical_involution(m: Seq<Seq<i32>>)
    requires
        is_matrix(m),
    ensures
        rearranged(rearranged(m, Rearrangement::FlipVertical), Rearrangement::FlipVertical) == m,
{
    lemma_undone_by(m, Rearrangement::FlipVertical, Rearrangement::FlipVertical);
}

/// The pairs of rearrangements where the second undoes the first.
pub open spec fn undoes(first: Rearrangement, second: Rearrangement) -> bool {
    match (first, second) {
        (Rearrangement::FlipHorizontal, Rearrangement::FlipHorizontal) => true,
        (Rearrangement::FlipVertical, Rearrangement::FlipVertical) => true,
        (Rearrangement::RotateClockwise, Rearrangement::RotateCounterClockwise) => true,
        (Rearrangement::RotateCounterClockwise, Rearrangement::RotateClockwise) => true,
        (Rearrangement::ShiftLeft, Rearrangement::ShiftRight) => true,
        (Rearrangement::ShiftRight, Rearrangement::ShiftLeft) => true,
        (Rearrangement::ShiftUp, Rearrangement::ShiftDown) => true,
        (Rearrangement::ShiftDown, Rearrangement::ShiftUp) => true,
        _ => false,
    }
}

/// Each flip undoes itself, each rotation undoes the opposite rotation and
/// each shift undoes the opposite shift.
pub proof fn lemma_undone_by(m: Seq<Seq<i32>>, first: Rearrangement, second: Rearrangement)
    requires
        is_matrix(m),
        undoes(first, second),
    ensures
        rearranged(rearranged(m, first), second) == m,
{
    let n = m.len() as int;
    let rr = rearranged(rearranged(m, first), second);
    assert forall|i: int| 0 <= i < n implies #[trigger] rr[i] == m[i] by {
        assert forall|j: int| 0 <= j < n implies #[trigger] rr[i][j] == m[i][j] by {
            lemma_composed_entry(m, first, second, i, j);
            lemma_wrap_up(i, n);
            lemma_wrap_up(j, n);
            lemma_wrap_down(i, n);
            lemma_wrap_down(j, n);
            if i + 1 < n {
                lemma_wrap_down(i + 1, n);
            } else {
                lemma_wrap_down(0, n);
            }
            if j + 1 < n {
                lemma_wrap_down(j + 1, n);
            } else {
                lemma_wrap_down(0, n);
            }
            if i > 0 {
                lemma_wrap_up(i - 1, n);
            } else {
                lemma_wrap_up(n - 1, n);
            }
            if j > 0 {
                lemma_wrap_up(j - 1, n);
            } else {
                lemma_wrap_up(n - 1, n);
            }
        }
        assert(rr[i] =~= m[i]);
    }
    assert(rr =~= m);
}

/// Four quarter turns clockwise give back the matrix.
pub proof fn lemma_rotate_clockwise_four_times(m: Seq<Seq<i32>>)
    requires
        is_matrix(m),
    ensures
        applied_times(m, MatrixOp::Reorder(Rearrangement::RotateClockwise), 4) == m,
{
    let op = MatrixOp::Reorder(Rearrangement::RotateClockwise);
    let cw = Rearrangement::RotateClockwise;
    let n = m.len() as int;
    let r1 = rearranged(m, cw);
    let r2 = rearranged(r1, cw);
    let r3 = rearranged(r2, cw);
    let r4 = rearranged(r3, cw);
    assert(applied_times(m, op, 0) == m);
    assert(applied_times(m, op, 1) == r1);
    assert(applied_times(m, op, 2) == r2);
    assert(applied_times(m, op, 3) == r3);
    assert(applied_times(m, op, 4) == r4);
    lemma_rearranged_is_matrix(m, cw);
    lemma_rearranged_is_matrix(r1, cw);
    assert forall|i: int| 0 <= i < n implies #[trigger] r4[i] == m[i] by {
        assert forall|j: int| 0 <= j < n implies #[trigger] r4[i][j] == m[i][j] by {
            lemma_composed_entry(r2, cw, cw, i, j);
            lemma_composed_entry(m, cw, cw, n - 1 - i, n - 1 - j);
        }
        assert(r4[i] =~= m[i]);
    }
    assert(r4 =~= m);
}

/// `k` shifts to the left move every entry `k` columns left, wrapping around.
proof fn lemma_shift_left_times(m: Seq<Seq<i32>>, k: nat)
    requires
        is_matrix(m),
        m.len() > 0,
    ensures
        ({
            let r = applied_times(m, MatrixOp::Reorder(Rearrangement::ShiftLeft), k);
            &&& is_matrix(r)
            &&& r.len() == m.len()
            &&& forall|i: int, j: int|
                0 <= i < m.len() && 0 <= j < m.len() ==> #[trigger] r[i][j] == m[i][(j + k) % (
                m.len() as int)]
        }),
    decreases k,
{
    let n = m.len() as int;
    let op = MatrixOp::Reorder(Rearrangement::ShiftLeft);
    if k == 0 {
        assert forall|i: int, j: int| 0 <= i < n && 0 <= j < n implies #[trigger] m[i][j] == m[i][(j
            + k) % n] by {
            lemma_small_mod(j as nat, n as nat);
        }
    } else {
        lemma_shift_left_times(m, (k - 1) as nat);
        let prev = applied_times(m, op, (k - 1) as nat);
        lemma_rearranged_is_matrix(prev, Rearrangement::ShiftLeft);
        let r = applied_times(m, op, k);
        assert forall|i: int, j: int| 0 <= i < n && 0 <= j < n implies #[trigger] r[i][j] == m[i][(j
            + k) % n] by {
            lemma_wrap_up(j, n);
            let j1 = (j + 1) % n;
            assert(r[i][j] == prev[i][j1]);
            assert(prev[i][j1] == m[i][(j1 + (k - 1)) % n]);
            vstd::arithmetic::div_mod::lemma_add_mod_noop_right(k - 1, j + 1, n);
            assert((j1 + (k - 1)) % n == (j + k) % n);
        }
    }
}

/// Shifting an `n`-column matrix left `n` times gives back the matrix.
pub proof fn lemma_shift_left_cycle(m: Seq<Seq<i32>>)
    requires
        is_matrix(m),
    ensures
        applied_times(m, MatrixOp::Reorder(Rearrangement::ShiftLeft), m.len()) == m,
{
    let n = m.len() as int;
    let r = applied_times(m, MatrixOp::Reorder(Rearrangement::ShiftLeft), m.len());
    if n == 0 {
        lemma_applied_times_empty(m, MatrixOp::Reorder(Rearrangement::ShiftLeft), m.len());
        assert(r =~= m);
    } else {
        lemma_shift_left_times(m, m.len());
        assert forall|i: int| 0 <= i < n implies #[trigger] r[i] == m[i] by {
            assert forall|j: int| 0 <= j < n implies #[trigger] r[i][j] == m[i][j] by {
                vstd::arithmetic::div_mod::lemma_mod_add_multiples_vanish(j, n);
                lemma_small_mod(j as nat, n as nat);
            }
            assert(r[i] =~= m[i]);
        }
        assert(r =~= m);
    }
}

proof fn lemma_applied_times_empty(m: Seq<Seq<i32>>, op: MatrixOp, k: nat)
    requires
        m.len() == 0,
    ensures
        applied_times(m, op, k).len() == 0,
    decreases k,
{
    if k > 0 {
        lemma_applied_times_empty(m, op, (k - 1) as nat);
    }
}

/// `a / d` is exact when `d` divides `a`.
proof fn lemma_exact_division(a: int, d: int)
    requires
        d > 0,
        a % d == 0,
    ensures
        div_toward_zero(a, d) * d == a,
{
    lemma_fundamental_div_mod(a, d);
    let q = a / d;
    assert(a == d * q);
    if a < 0 {
        assert(-a == d * (-q)) by (nonlinear_arith)
            requires
                a == d * q,
        ;
        lemma_div_multiples_vanish(-q, d);
    }
    assert(div_toward_zero(a, d) == q);
    assert(q * d == d * q) by (nonlinear_arith);
}

/// Scaling by `k` is exact on `m`: no entry is rounded or limited.
pub open spec fn scales_exactly(m: Seq<Seq<i32>>, k: int) -> bool {
    forall|i: int, j: int|
        0 <= i < m.len() && 0 <= j < m[i].len() ==> {
            &&& (#[trigger] m[i][j] as int * k) % (COEFFICIENT_UNIT as int) == 0
            &&& -(MAX_COEFFICIENT as int) * COEFFICIENT_UNIT <= m[i][j] as int * k
                <= MAX_COEFFICIENT as int * COEFFICIENT_UNIT
        }
}

/// The fixed-point product of two factors, where it is exact and storable.
pub open spec fn exact_product(k1: int, k2: int) -> bool {
    &&& (k1 * k2) % (COEFFICIENT_UNIT as int) == 0
    &&& i32::MIN <= (k1 * k2) / (COEFFICIENT_UNIT as int) <= i32::MAX
}

/// Scaling by `k1` and then by `k2` is scaling by their product, wherever the
/// first scaling and the product are exact.
pub proof fn lemma_scale_composition(m: Seq<Seq<i32>>, k1: i32, k2: i32)
    requires
        is_matrix(m),
        scales_exactly(m, k1 as int),
        exact_product(k1 as int, k2 as int),
    ensures
        mapped(mapped(m, EntryMap::Scale(k1)), EntryMap::Scale(k2)) == mapped(
            m,
            EntryMap::Scale(((k1 * k2) / (COEFFICIENT_UNIT as int)) as i32),
        ),
{
    let u = COEFFICIENT_UNIT as int;
    let p = k1 as int * k2 as int;
    let c = p / u;
    lemma_fundamental_div_mod(p, u);
    assert(c * u == p) by (nonlinear_arith)
        requires
            p == u * c + p % u,
            p % u == 0,
    ;
    let once = mapped(m, EntryMap::Scale(k1));
    let twice = mapped(once, EntryMap::Scale(k2));
    let direct = mapped(m, EntryMap::Scale(c as i32));
    assert forall|i: int| 0 <= i < m.len() implies #[trigger] twice[i] == direct[i] by {
        assert forall|j: int| 0 <= j < m[i].len() implies #[trigger] twice[i][j] == direct[i][j] by {
            let v = m[i][j] as int;
            let a = v * k1;
            lemma_exact_division(a, u);
            let x = div_toward_zero(a, u);
            assert(-(MAX_COEFFICIENT as int) <= x <= MAX_COEFFICIENT as int) by (nonlinear_arith)
                requires
                    x * u == a,
                    u == 1_000_000,
                    -(MAX_COEFFICIENT as int) * u <= a <= MAX_COEFFICIENT as int * u,
            ;
            assert(once[i][j] == x);
            assert(x * k2 == v * c) by (nonlinear_arith)
                requires
                    x * u == v * k1,
                    c * u == k1 * k2,
                    u > 0,
            ;
        }
        assert(twice[i] =~= direct[i]);
    }
    assert(twice =~= direct);
}

/// Negating every entry twice gives back the matrix.
pub proof fn lemma_flip_sign_involution(m: Seq<Seq<i32>>)
    requires
        is_matrix(m),
    ensures
        mapped(mapped(m, EntryMap::Negate), EntryMap::Negate) == m,
{
    let rr = mapped(mapped(m, EntryMap::Negate), EntryMap::Negate);
    assert forall|i: int| 0 <= i < m.len() implies #[trigger] rr[i] == m[i] by {
        assert(rr[i] =~= m[i]);
    }
    assert(rr =~= m);
}

/// After zeroing, any further single operation leaves the all-zero matrix.
pub proof fn lemma_zero_absorbs(m: Seq<Seq<i32>>, op: MatrixOp)
    requires
        is_matrix(m),
    ensures
        applied(mapped(m, EntryMap::Zero), op) == mapped(m, EntryMap::Zero),
{
    let z = mapped(m, EntryMap::Zero);
    let r = applied(z, op);
    let n = m.len() as int;
    lemma_mapped_is_matrix(m, EntryMap::Zero);
    assert forall|i: int| 0 <= i < n implies #[trigger] r[i] == z[i] by {
        assert forall|j: int| 0 <= j < n implies #[trigger] r[i][j] == z[i][j] by {
            if let MatrixOp::Reorder(ro) = op {
                lemma_source_in_range(ro, n, i, j);
            }
            if let MatrixOp::Entrywise(EntryMap::Scale(k)) = op {
                assert(0 * (k as int) == 0);
            }
        }
        assert(r[i] =~= z[i]);
    }
    assert(r =~= z);
}

/// On a single species every rearrangement leaves the matrix as it is.
pub proof fn lemma_single_species_fixed(m: Seq<Seq<i32>>, op: Rearrangement)
    requires
        is_matrix(m),
        m.len() == 1,
    ensures
        rearranged(m, op) == m,
{
    let r = rearranged(m, op);
    lemma_source_in_range(op, 1, 0, 0);
    assert(r[0] =~= m[0]);
    assert(r =~= m);
}

} // verus!
