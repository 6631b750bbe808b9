use vizzy::matrix::{EntryMap, ForceMatrix, MatrixOp, Rearrangement, COEFFICIENT_UNIT};

const U: i32 = COEFFICIENT_UNIT as i32;

fn sample() -> ForceMatrix {
    ForceMatrix::from_rows(vec![
        vec![U, 0, -U],
        vec![U / 2, 0, U / 5],
        vec![-3 * U / 10, 7 * U / 10, 0],
    ])
    .unwrap()
}

fn four_by_four() -> ForceMatrix {
    let mut rows = Vec::new();
    for i in 0..4 {
        let mut row = Vec::new();
        for j in 0..4 {
            row.push((i * 4 + j) as i32 * 1000 - 7000);
        }
        rows.push(row);
    }
    ForceMatrix::from_rows(rows).unwrap()
}

#[test]
fn end_to_end_flip_then_rotate() {
    let mut m = sample();
    m.flip_horizontal();
    assert_eq!(
        m.to_rows(),
        vec![
            vec![-U, 0, U],
            vec![U / 5, 0, U / 2],
            vec![0, 7 * U / 10, -3 * U / 10],
        ]
    );
    m.rotate_clockwise();
    assert_eq!(
        m.flatten(),
        vec![0, U / 5, -U, 7 * U / 10, 0, 0, -3 * U / 10, U / 2, U]
    );
}

#[test]
fn rotation_matches_formula() {
    let original = four_by_four().to_rows();
    let mut m = four_by_four();
    m.rotate_clockwise();
    let rotated = m.to_rows();
    let n = 4;
    for i in 0..n {
        for j in 0..n {
            assert_eq!(rotated[i][j], original[n - 1 - j][i]);
        }
    }
    let mut c = four_by_four();
    c.rotate_counterclockwise();
    let ccw = c.to_rows();
    for i in 0..n {
        for j in 0..n {
            assert_eq!(ccw[i][j], original[j][n - 1 - i]);
        }
    }
}

#[test]
fn flips_are_involutions() {
    let mut m = four_by_four();
    m.flip_horizontal();
    assert_ne!(m.to_rows(), four_by_four().to_rows());
    m.flip_horizontal();
    assert_eq!(m.to_rows(), four_by_four().to_rows());
    m.flip_vertical();
    assert_ne!(m.to_rows(), four_by_four().to_rows());
    m.flip_vertical();
    assert_eq!(m.to_rows(), four_by_four().to_rows());
}

#[test]
fn four_rotations_restore() {
    let mut m = four_by_four();
    for _ in 0..4 {
        m.rotate_clockwise();
    }
    assert_eq!(m.to_rows(), four_by_four().to_rows());
    m.rotate_clockwise();
    m.rotate_counterclockwise();
    assert_eq!(m.to_rows(), four_by_four().to_rows());
}

#[test]
fn shifts_wrap_and_undo() {
    let mut m = four_by_four();
    m.shift_left();
    let rows = m.to_rows();
    let original = four_by_four().to_rows();
    assert_eq!(rows[0], vec![original[0][1], original[0][2], original[0][3], original[0][0]]);
    m.shift_right();
    assert_eq!(m.to_rows(), original);
    m.shift_up();
    assert_eq!(m.to_rows()[3], original[0]);
    m.shift_down();
    assert_eq!(m.to_rows(), original);
    for _ in 0..4 {
        m.shift_left();
    }
    assert_eq!(m.to_rows(), original);
}

#[test]
fn scale_composes() {
    let mut a = sample();
    a.scale_force_matrix(2 * U);
    a.scale_force_matrix(U / 2);
    assert_eq!(a.to_rows(), sample().to_rows());
    let mut b = sample();
    b.scale_force_matrix(3 * U);
    b.scale_force_matrix(-2 * U);
    let mut c = sample();
    c.scale_force_matrix(-6 * U);
    assert_eq!(b.to_rows(), c.to_rows());
    assert_eq!(c.to_rows()[0], vec![-6 * U, 0, 6 * U]);
}

#[test]
fn scale_rounds_toward_zero_and_saturates() {
    let mut m = ForceMatrix::from_rows(vec![vec![3, -3], vec![i32::MAX, -i32::MAX]]).unwrap();
    m.scale_force_matrix(U / 2);
    assert_eq!(m.to_rows(), vec![vec![1, -1], vec![i32::MAX / 2, -(i32::MAX / 2)]]);
    let mut big = ForceMatrix::from_rows(vec![vec![i32::MAX / 2, -(i32::MAX / 2)], vec![0, 1]]).unwrap();
    big.scale_force_matrix(4 * U);
    assert_eq!(big.to_rows(), vec![vec![i32::MAX, -i32::MAX], vec![0, 4]]);
}

#[test]
fn flip_sign_and_zero() {
    let mut m = sample();
    m.flip_sign();
    assert_eq!(m.to_rows()[0], vec![-U, 0, U]);
    m.flip_sign();
    assert_eq!(m.to_rows(), sample().to_rows());
    let ops = [
        MatrixOp::Reorder(Rearrangement::RotateClockwise),
        MatrixOp::Reorder(Rearrangement::ShiftDown),
        MatrixOp::Entrywise(EntryMap::Scale(5 * U)),
        MatrixOp::Entrywise(EntryMap::Negate),
    ];
    for op in ops {
        let mut z = sample();
        z.zero_matrix();
        z.apply(op);
        assert_eq!(z.to_rows(), vec![vec![0; 3]; 3]);
    }
}

#[test]
fn single_species_fixed_points() {
    let base = ForceMatrix::from_rows(vec![vec![U / 4]]).unwrap();
    let reorders = [
        Rearrangement::FlipHorizontal,
        Rearrangement::FlipVertical,
        Rearrangement::RotateClockwise,
        Rearrangement::RotateCounterClockwise,
        Rearrangement::ShiftLeft,
        Rearrangement::ShiftRight,
        Rearrangement::ShiftUp,
        Rearrangement::ShiftDown,
    ];
    for r in reorders {
        let mut m = base.duplicate();
        m.rearrange(r);
        assert_eq!(m.to_rows(), vec![vec![U / 4]]);
    }
    let mut s = base.duplicate();
    s.scale_force_matrix(2 * U);
    assert_eq!(s.to_rows(), vec![vec![U / 2]]);
    let mut n = base.duplicate();
    n.flip_sign();
    assert_eq!(n.to_rows(), vec![vec![-U / 4]]);
    let mut z = base.duplicate();
    z.zero_matrix();
    assert_eq!(z.to_rows(), vec![vec![0]]);
}

#[test]
fn from_rows_rejects_bad_shapes() {
    assert!(ForceMatrix::from_rows(vec![vec![1, 2], vec![3]]).is_none());
    assert!(ForceMatrix::from_rows(vec![vec![1, 2]]).is_none());
    assert!(ForceMatrix::from_rows(vec![vec![i32::MIN]]).is_none());
    let empty = ForceMatrix::from_rows(Vec::new()).unwrap();
    assert_eq!(empty.size(), 0);
    assert!(empty.flatten().is_empty());
}

#[test]
fn flatten_is_row_major_with_n_squared_entries() {
    let m = four_by_four();
    let flat = m.flatten();
    assert_eq!(flat.len(), 16);
    let rows = m.to_rows();
    for i in 0..4 {
        for j in 0..4 {
            assert_eq!(flat[i * 4 + j], rows[i][j]);
        }
    }
}

#[test]
fn randomized_matrix_stays_in_unit_range() {
    let mut m = ForceMatrix::zeros(5);
    let mut seen = std::collections::HashSet::new();
    for _ in 0..10 {
        m.randomize();
        assert_eq!(m.size(), 5);
        for row in m.to_rows() {
            assert_eq!(row.len(), 5);
            for v in row {
                assert!(-U <= v && v <= U);
                seen.insert(v);
            }
        }
    }
    assert!(seen.len() > 1);
}
