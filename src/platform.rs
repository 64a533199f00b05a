//! What the library takes from wgpu.
use vstd::prelude::*;

verus! {

/// wgpu's error on acquiring the next surface image. Its variants carry no
/// data; the frame loop decides on them.
#[verifier::external_type_specification]
pub struct ExSurfaceError(wgpu::SurfaceError);

/// Relies on wgpu::COPY_BYTES_PER_ROW_ALIGNMENT, the alignment of
/// `bytes_per_row` in buffer-texture copies, which wgpu defines as 256.
#[verifier::external_body]
pub(crate) fn copy_bytes_per_row_alignment() -> (r: u32)
    ensures
        r == 256,
{
    wgpu::COPY_BYTES_PER_ROW_ALIGNMENT
}

} // verus!
