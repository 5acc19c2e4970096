use vstd::prelude::*;

use vstd::arithmetic::div_mod::lemma_fundamental_div_mod_converse;

use crate::buffers::{row_bytes, BYTES_PER_PIXEL};
use crate::error::OverlayError;
use crate::texture::ConverterState;

verus! {

/// A validated upload: `rows` rows of `row_bytes` bytes each, read from a
/// source whose rows start `src_row_pitch` bytes apart.
#[derive(Clone, Copy, Debug, PartialEq, Eq, Structural)]
pub struct UploadPlan {
    pub src_row_pitch: usize,
    pub row_bytes: usize,
    pub rows: usize,
}

/// Bytes that `height` source rows span, `src_row_pitch` bytes apart.
pub open spec fn source_bytes(height: u32, src_row_pitch: usize) -> int {
    height as int * src_row_pitch as int
}

/// Whether byte `i` of the mapped surface receives source data when the
/// first `rows` rows (each `dst_pitch` bytes apart) are filled with
/// `row_bytes` bytes.
pub open spec fn row_copied(i: int, dst_pitch: int, row_bytes: int, rows: int) -> bool {
    dst_pitch > 0 && 0 <= i < rows * dst_pitch && i % dst_pitch < row_bytes
}

/// The mapped surface after its first `rows` rows were filled from `src`:
/// byte `x` of row `y` is byte `y * src_pitch + x` of the source; every
/// other byte keeps its old value.
pub open spec fn uploaded_image(
    old_dst: Seq<u8>,
    src: Seq<u8>,
    src_pitch: int,
    dst_pitch: int,
    row_bytes: int,
    rows: int,
) -> Seq<u8> {
    Seq::new(
        old_dst.len(),
        |i: int|
            if row_copied(i, dst_pitch, row_bytes, rows) {
                src[(i / dst_pitch) * src_pitch + i % dst_pitch]
            } else {
                old_dst[i]
            },
    )
}

/// Checks an upload of a `width` x `height` frame whose rows are
/// `src_row_pitch` bytes apart, before the staging surface is mapped.
/// A source shorter than `height * src_row_pitch` is refused here, so the
/// surface is never mapped for it.
pub fn plan_upload(
    state: &ConverterState,
    src_len: usize,
    src_row_pitch: usize,
    width: u32,
    height: u32,
) -> (r: Result<UploadPlan, OverlayError>)
    ensures
        src_len < source_bytes(height, src_row_pitch) ==> (r matches Err(e) && (
        e is SourceBufferTooSmall || e is SourceSizeOverflow)),
        source_bytes(height, src_row_pitch) > usize::MAX ==> r == Err::<UploadPlan, OverlayError>(
            OverlayError::SourceSizeOverflow,
        ),
        source_bytes(height, src_row_pitch) <= usize::MAX && src_len < source_bytes(
            height,
            src_row_pitch,
        ) ==> r == Err::<UploadPlan, OverlayError>(
            OverlayError::SourceBufferTooSmall {
                required: source_bytes(height, src_row_pitch) as usize,
                actual: src_len,
            },
        ),
        src_len >= source_bytes(height, src_row_pitch) && !state.textures_ready ==> r == Err::<
            UploadPlan,
            OverlayError,
        >(OverlayError::TexturesNotReady),
        src_len >= source_bytes(height, src_row_pitch) && state.textures_ready && row_bytes(width)
            > usize::MAX ==> r == Err::<UploadPlan, OverlayError>(OverlayError::RowPitchTooLarge),
        src_len >= source_bytes(height, src_row_pitch) && state.textures_ready && row_bytes(width)
            <= usize::MAX && row_bytes(width) > src_row_pitch ==> r == Err::<
            UploadPlan,
            OverlayError,
        >(OverlayError::RowPitchTooSmall),
        src_len >= source_bytes(height, src_row_pitch) && state.textures_ready && row_bytes(width)
            <= src_row_pitch ==> r == Ok::<UploadPlan, OverlayError>(
            UploadPlan {
                src_row_pitch,
                row_bytes: row_bytes(width) as usize,
                rows: height as usize,
            },
        ),
{
    let required = match (height as usize).checked_mul(src_row_pitch) {
        Some(n) => n,
        None => {
            return Err(OverlayError::SourceSizeOverflow);
        },
    };
    if src_len < required {
        return Err(OverlayError::SourceBufferTooSmall { required, actual: src_len });
    }
    if !state.textures_ready {
        return Err(OverlayError::TexturesNotReady);
    }
    let row_len = match (width as usize).checked_mul(BYTES_PER_PIXEL as usize) {
        Some(n) => n,
        None => {
            return Err(OverlayError::RowPitchTooLarge);
        },
    };
    if row_len > src_row_pitch {
        return Err(OverlayError::RowPitchTooSmall);
    }
    Ok(UploadPlan { src_row_pitch, row_bytes: row_len, rows: height as usize })
}

/// Relies on `<[u8]>::copy_from_slice`: a memcpy of all of `src` into the
/// equally long range of `dst` that starts at `start`.
#[verifier::external_body]
fn copy_into(dst: &mut [u8], start: usize, src: &[u8])
    requires
        start + src@.len() <= old(dst)@.len(),
    ensures
        final(dst)@ == old(dst)@.subrange(0, start as int) + src@ + old(dst)@.subrange(
            start + src@.len(),
            old(dst)@.len() as int,
        ),
{
    dst[start..start + src.len()].copy_from_slice(src)
}

proof fn lemma_row_step(i: int, y: int, dst_pitch: int, row_bytes: int)
    requires
        dst_pitch > 0,
        0 <= y,
        0 <= row_bytes <= dst_pitch,
        0 <= i,
    ensures
        (y + 1) * dst_pitch == y * dst_pitch + dst_pitch,
        y * dst_pitch <= i < y * dst_pitch + dst_pitch ==> i / dst_pitch == y && i % dst_pitch
            == i - y * dst_pitch,
        row_copied(i, dst_pitch, row_bytes, y) ==> i < y * dst_pitch,
        i < y * dst_pitch ==> (row_copied(i, dst_pitch, row_bytes, y + 1) == row_copied(
            i,
            dst_pitch,
            row_bytes,
            y,
        )),
        i >= y * dst_pitch + dst_pitch ==> !row_copied(i, dst_pitch, row_bytes, y + 1),
        y * dst_pitch <= i < y * dst_pitch + dst_pitch ==> (row_copied(
            i,
            dst_pitch,
            row_bytes,
            y + 1,
        ) == (i < y * dst_pitch + row_bytes)),
{
    assert((y + 1) * dst_pitch == y * dst_pitch + dst_pitch) by (nonlinear_arith);
    if y * dst_pitch <= i < y * dst_pitch + dst_pitch {
        lemma_fundamental_div_mod_converse(i, dst_pitch, y, i - y * dst_pitch);
    }
}

/// Copies the planned rows from `src` into the mapped staging surface
/// `dst`, whose rows start `dst_pitch` bytes apart, one row at a time.
/// Every size is checked first; on an error `dst` is left untouched.
pub fn copy_rows(plan: &UploadPlan, src: &[u8], dst: &mut [u8], dst_pitch: usize) -> (r: Result<
    (),
    OverlayError,
>)
    ensures
        plan.row_bytes > plan.src_row_pitch ==> r == Err::<(), OverlayError>(
            OverlayError::RowPitchTooSmall,
        ),
        plan.row_bytes <= plan.src_row_pitch && plan.rows as int * plan.src_row_pitch as int
            > src@.len() ==> r is Err,
        plan.row_bytes <= plan.src_row_pitch && plan.rows as int * plan.src_row_pitch as int
            <= src@.len() && dst_pitch < plan.src_row_pitch ==> r == Err::<(), OverlayError>(
            OverlayError::MappedPitchTooSmall,
        ),
        plan.row_bytes <= plan.src_row_pitch && plan.rows as int * plan.src_row_pitch as int
            <= src@.len() && dst_pitch >= plan.src_row_pitch && plan.rows as int
            * dst_pitch as int > old(dst)@.len() ==> r == Err::<(), OverlayError>(
            OverlayError::MappedRegionTooSmall,
        ),
        plan.row_bytes <= plan.src_row_pitch && plan.rows as int * plan.src_row_pitch as int
            <= src@.len() && dst_pitch >= plan.src_row_pitch && plan.rows as int
            * dst_pitch as int <= old(dst)@.len() ==> r is Ok,
        r is Ok ==> final(dst)@ == uploaded_image(
            old(dst)@,
            src@,
            plan.src_row_pitch as int,
            dst_pitch as int,
            plan.row_bytes as int,
            plan.rows as int,
        ),
        r is Err ==> final(dst)@ == old(dst)@,
{
    let src_pitch = plan.src_row_pitch;
    let row_len = plan.row_bytes;
    let rows = plan.rows;
    let src_len = src.len();
    let dst_len = dst.len();
    if row_len > src_pitch {
        return Err(OverlayError::RowPitchTooSmall);
    }
    let required = match rows.checked_mul(src_pitch) {
        Some(n) => n,
        None => {
            return Err(OverlayError::SourceSizeOverflow);
        },
    };
    if src_len < required {
        return Err(OverlayError::SourceBufferTooSmall { required, actual: src_len });
    }
    if dst_pitch < src_pitch {
        return Err(OverlayError::MappedPitchTooSmall);
    }
    let dst_needed = match rows.checked_mul(dst_pitch) {
        Some(n) => n,
        None => {
            return Err(OverlayError::MappedRegionTooSmall);
        },
    };
    if dst_len < dst_needed {
        return Err(OverlayError::MappedRegionTooSmall);
    }
    let ghost old_dst = dst@;
    if dst_pitch == 0 {
        // Then no row holds a byte: nothing is copied.
        proof {
            assert(dst@ =~= uploaded_image(
                old_dst,
                src@,
                src_pitch as int,
                dst_pitch as int,
                row_len as int,
                rows as int,
            ));
        }
        return Ok(());
    }
    let mut y: usize = 0;
    while y < rows
        invariant
            0 < dst_pitch,
            src_pitch <= dst_pitch,
            row_len <= src_pitch,
            y <= rows,
            rows * src_pitch <= src_len,
            rows * dst_pitch <= dst_len,
            src_len == src@.len(),
            dst_len == old_dst.len(),
            dst@.len() == old_dst.len(),
            dst@ == uploaded_image(
                old_dst,
                src@,
                src_pitch as int,
                dst_pitch as int,
                row_len as int,
                y as int,
            ),
        decreases rows - y,
    {
        proof {
            assert((y + 1) * src_pitch <= rows * src_pitch) by (nonlinear_arith)
                requires
                    y < rows,
            ;
            assert((y + 1) * dst_pitch <= rows * dst_pitch) by (nonlinear_arith)
                requires
                    y < rows,
            ;
            assert((y + 1) * src_pitch == y * src_pitch + src_pitch) by (nonlinear_arith);
            assert((y + 1) * dst_pitch == y * dst_pitch + dst_pitch) by (nonlinear_arith);
        }
        let src_start: usize = y * src_pitch;
        let dst_start: usize = y * dst_pitch;
        let row = vstd::slice::slice_subrange(src, src_start, src_start + row_len);
        let ghost before = dst@;
        copy_into(dst, dst_start, row);
        proof {
            let next = uploaded_image(
                old_dst,
                src@,
                src_pitch as int,
                dst_pitch as int,
                row_len as int,
                y + 1,
            );
            assert forall|i: int| 0 <= i < dst@.len() implies dst@[i] == next[i] by {
                lemma_row_step(i, y as int, dst_pitch as int, row_len as int);
                if dst_start <= i < dst_start + row_len {
                    assert(dst@[i] == row@[i - dst_start]);
                }
            }
            assert(dst@ =~= next);
        }
        y = y + 1;
    }
    Ok(())
}

} // verus!
