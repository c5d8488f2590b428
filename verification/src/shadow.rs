use vstd::prelude::*;

verus! {

// The shadow bias matrix maps clip space, where every coordinate of the
// visible cube runs over [-1, 1], to shadow-texture space, where it runs
// over [0, 1]: a uniform scale by one half and a translation by one half in
// x, y and z, with the homogeneous row unchanged. Every entry of the matrix
// is an integer multiple of one half, so the matrix is kept exactly, as
// integers scaled by two ("halves"). A vector in halves multiplied by a
// matrix in halves gives products scaled by four, so an applied result is
// returned scaled by four ("quarters") and stays exact integer arithmetic.
// An embedder divides the halves by two in its own floating-point type to
// recover the literal matrix; the shadow matrix it uploads per light is
// this matrix times the shadow camera's projection and view.

/// Entry at `row`, `col` of the bias matrix, scaled by two. The first three
/// rows hold one half on the diagonal and one half in the last column; the
/// homogeneous row is unchanged.
pub open spec fn bias_entry_halves(row: int, col: int) -> int {
    if row < 3 && col == row {
        1
    } else if row < 3 && col == 3 {
        1
    } else if row == 3 && col == 3 {
        2
    } else {
        0
    }
}

/// The bias matrix applied to the homogeneous vector `(x, y, z, w)` given
/// in halves; the result is in quarters. Each component is the inner
/// product of one matrix row with the vector.
pub open spec fn bias_apply_quarters(x2: int, y2: int, z2: int, w2: int) -> (int, int, int, int) {
    (
        bias_entry_halves(0, 0) * x2 + bias_entry_halves(0, 1) * y2 + bias_entry_halves(0, 2) * z2
            + bias_entry_halves(0, 3) * w2,
        bias_entry_halves(1, 0) * x2 + bias_entry_halves(1, 1) * y2 + bias_entry_halves(1, 2) * z2
            + bias_entry_halves(1, 3) * w2,
        bias_entry_halves(2, 0) * x2 + bias_entry_halves(2, 1) * y2 + bias_entry_halves(2, 2) * z2
            + bias_entry_halves(2, 3) * w2,
        bias_entry_halves(3, 0) * x2 + bias_entry_halves(3, 1) * y2 + bias_entry_halves(3, 2) * z2
            + bias_entry_halves(3, 3) * w2,
    )
}

/// The sixteen entries of the bias matrix in row-major order, scaled by
/// two so that each is an exact integer.
pub fn shadow_bias_matrix_halves() -> (m: Vec<i32>)
    ensures
        m@.len() == 16,
        forall|row: int, col: int|
            0 <= row < 4 && 0 <= col < 4 ==> m@[row * 4 + col] == bias_entry_halves(row, col),
{
    let m: Vec<i32> = vec![1, 0, 0, 1, 0, 1, 0, 1, 0, 0, 1, 1, 0, 0, 0, 2];
    proof {
        assert forall|row: int, col: int| 0 <= row < 4 && 0 <= col < 4 implies m@[row * 4 + col]
            == bias_entry_halves(row, col) by {
            assert(m@[row * 4 + col] == bias_entry_halves(row, col));
        }
    }
    m
}

/// Apply the bias matrix to a homogeneous vector given in halves; the
/// result is in quarters. Exact integer arithmetic, used to check corner
/// points of the clip-space cube; the bounds keep every sum inside the
/// machine range.
pub fn apply_shadow_bias(x2: i64, y2: i64, z2: i64, w2: i64) -> (r: (i64, i64, i64, i64))
    requires
        -0x1000_0000_0000_0000 <= x2 <= 0x1000_0000_0000_0000,
        -0x1000_0000_0000_0000 <= y2 <= 0x1000_0000_0000_0000,
        -0x1000_0000_0000_0000 <= z2 <= 0x1000_0000_0000_0000,
        -0x1000_0000_0000_0000 <= w2 <= 0x1000_0000_0000_0000,
    ensures
        (r.0 as int, r.1 as int, r.2 as int, r.3 as int) == bias_apply_quarters(
            x2 as int,
            y2 as int,
            z2 as int,
            w2 as int,
        ),
{
    (x2 + w2, y2 + w2, z2 + w2, 2 * w2)
}

/// Applying the bias matrix to any corner of the clip-space cube, with
/// homogeneous coordinate one, yields exactly the matching corner of the
/// unit cube, and the homogeneous coordinate stays one. Corners are given
/// in halves (so a clip coordinate of minus one or one is -2 or 2) and
/// results are in quarters (so a result coordinate of zero or one is 0 or
/// 4, and the homogeneous one is 4). A corner coordinate of one maps to
/// one, and of minus one to zero, so the eight cube corners map one-to-one
/// onto the eight unit-cube corners.
pub proof fn lemma_bias_maps_clip_corners_onto_unit_corners(x2: int, y2: int, z2: int)
    requires
        x2 == -2 || x2 == 2,
        y2 == -2 || y2 == 2,
        z2 == -2 || z2 == 2,
    ensures
        bias_apply_quarters(x2, y2, z2, 2).0 == if x2 == 2 { 4int } else { 0int },
        bias_apply_quarters(x2, y2, z2, 2).1 == if y2 == 2 { 4int } else { 0int },
        bias_apply_quarters(x2, y2, z2, 2).2 == if z2 == 2 { 4int } else { 0int },
        bias_apply_quarters(x2, y2, z2, 2).3 == 4,
{
}

/// Every corner of the unit cube is reached from some corner of the
/// clip-space cube: together with the lemma above, the bias matrix maps
/// the eight clip-space corners exactly onto the eight unit-cube corners.
pub proof fn lemma_every_unit_corner_is_reached(q0: int, q1: int, q2: int)
    requires
        q0 == 0 || q0 == 4,
        q1 == 0 || q1 == 4,
        q2 == 0 || q2 == 4,
    ensures
        exists|x2: int, y2: int, z2: int|
            (x2 == -2 || x2 == 2) && (y2 == -2 || y2 == 2) && (z2 == -2 || z2 == 2)
                && #[trigger] bias_apply_quarters(x2, y2, z2, 2) == (q0, q1, q2, 4int),
{
    let x2: int = if q0 == 4 { 2 } else { -2 };
    let y2: int = if q1 == 4 { 2 } else { -2 };
    let z2: int = if q2 == 4 { 2 } else { -2 };
    assert((x2 == -2 || x2 == 2) && (y2 == -2 || y2 == 2) && (z2 == -2 || z2 == 2)
        && bias_apply_quarters(x2, y2, z2, 2) == (q0, q1, q2, 4int));
}

} // verus!
