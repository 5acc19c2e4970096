use vstd::prelude::*;

use crate::error::OverlayError;

verus! {

/// Row-major 4x4 matrices are exchanged as 16 elements.
pub const MATRIX_ELEMENTS: usize = 16;

/// Element `k` (below 12) of a row-major 4x4 matrix read from the three
/// stored rows of an affine transform.
pub open spec fn affine_at<T>(rows: [[T; 4]; 3], k: int) -> T {
    rows@[k / 4]@[k % 4]
}

/// The three stored rows hold the first twelve elements of `matrix`.
pub open spec fn rows_of<T>(rows: [[T; 4]; 3], matrix: Seq<T>) -> bool {
    forall|k: int| 0 <= k < 12 ==> #[trigger] affine_at(rows, k) == matrix[k]
}

/// The 16 elements of the row-major 4x4 matrix of an affine transform:
/// its three stored rows, then the synthesized row `[0, 0, 0, 1]`.
pub open spec fn expanded<T>(rows: [[T; 4]; 3], zero: T, one: T) -> Seq<T> {
    Seq::new(
        16,
        |k: int|
            if k < 12 {
                affine_at(rows, k)
            } else if k < 15 {
                zero
            } else {
                one
            },
    )
}

/// Checks that a matrix from the host has sixteen elements.
pub fn validate_matrix<T>(matrix: &[T]) -> (r: Result<(), OverlayError>)
    ensures
        matrix@.len() == 16 ==> r == Ok::<(), OverlayError>(()),
        matrix@.len() != 16 ==> r == Err::<(), OverlayError>(
            OverlayError::MatrixLength { len: matrix@.len() as usize },
        ),
{
    let len = matrix.len();
    if len != MATRIX_ELEMENTS {
        return Err(OverlayError::MatrixLength { len });
    }
    Ok(())
}

/// Reads a three-element vector from the host.
pub fn vec3<T: Copy>(values: &[T]) -> (r: Result<[T; 3], OverlayError>)
    ensures
        values@.len() == 3 ==> (r matches Ok(v) && v@ == values@),
        values@.len() != 3 ==> r == Err::<[T; 3], OverlayError>(
            OverlayError::VectorLength { len: values@.len() as usize },
        ),
{
    let len = values.len();
    if len != 3 {
        return Err(OverlayError::VectorLength { len });
    }
    let v = [values[0], values[1], values[2]];
    assert(v@ =~= values@);
    Ok(v)
}

/// The three stored rows of the affine transform that a row-major 4x4
/// matrix describes; its bottom row is not kept.
pub fn affine_rows<T: Copy>(matrix: &[T]) -> (r: Result<[[T; 4]; 3], OverlayError>)
    ensures
        matrix@.len() == 16 ==> (r matches Ok(rows) && rows_of(rows, matrix@)),
        matrix@.len() != 16 ==> r == Err::<[[T; 4]; 3], OverlayError>(
            OverlayError::MatrixLength { len: matrix@.len() as usize },
        ),
{
    validate_matrix(matrix)?;
    let rows = [
        [matrix[0], matrix[1], matrix[2], matrix[3]],
        [matrix[4], matrix[5], matrix[6], matrix[7]],
        [matrix[8], matrix[9], matrix[10], matrix[11]],
    ];
    assert forall|k: int| 0 <= k < 12 implies #[trigger] affine_at(rows, k) == matrix@[k] by {
        assert(0 <= k / 4 < 3);
    }
    Ok(rows)
}

/// The row-major 4x4 matrix of an affine transform given by its three
/// stored rows, with `[zero, zero, zero, one]` as the bottom row.
pub fn hmd_matrix34_to_vec<T: Copy>(m: &[[T; 4]; 3], zero: T, one: T) -> (r: Vec<T>)
    ensures
        r@ == expanded(*m, zero, one),
{
    let r = vec![
        m[0][0],
        m[0][1],
        m[0][2],
        m[0][3],
        m[1][0],
        m[1][1],
        m[1][2],
        m[1][3],
        m[2][0],
        m[2][1],
        m[2][2],
        m[2][3],
        zero,
        zero,
        zero,
        one,
    ];
    assert(r@ =~= expanded(*m, zero, one));
    r
}

/// Storing a 16-element transform and reading it back gives the same
/// three affine rows; the bottom row read back is always `[0, 0, 0, 1]`.
pub proof fn lemma_transform_round_trip<T>(matrix: Seq<T>, rows: [[T; 4]; 3], zero: T, one: T)
    requires
        matrix.len() == 16,
        rows_of(rows, matrix),
    ensures
        expanded(rows, zero, one).subrange(0, 12) == matrix.subrange(0, 12),
        expanded(rows, zero, one).subrange(12, 16) == seq![zero, zero, zero, one],
{
    assert(expanded(rows, zero, one).subrange(0, 12) =~= matrix.subrange(0, 12));
    assert(expanded(rows, zero, one).subrange(12, 16) =~= seq![zero, zero, zero, one]);
}

} // verus!
