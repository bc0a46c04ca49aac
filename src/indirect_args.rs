//! The indexed indirect-draw argument block that the compute pass fills in
//! and the render pass consumes.

use vstd::prelude::*;

verus! {

/// Size in bytes of one argument block.
pub const INDIRECT_ARGS_SIZE: usize = 20;

/// The four bytes of `x`, least significant first.
pub open spec fn le_bytes(x: u32) -> Seq<u8> {
    seq![
        (x % 256) as u8,
        ((x / 256) % 256) as u8,
        ((x / 65536) % 256) as u8,
        (x / 16777216) as u8,
    ]
}

/// The four bytes of `x`, read back least significant first, give `x`.
pub proof fn lemma_le_bytes_value(x: u32)
    ensures
        le_bytes(x)[0] + 256 * le_bytes(x)[1] + 65536 * le_bytes(x)[2] + 16777216 * le_bytes(x)[3]
            == x,
{
    let b = le_bytes(x);
    assert(b[0] == x % 256);
    assert(b[1] == (x / 256) % 256);
    assert(b[2] == (x / 65536) % 256);
    assert(b[3] == x / 16777216);
    assert(x % 256 + 256 * ((x / 256) % 256) + 65536 * ((x / 65536) % 256) + 16777216 * (x
        / 16777216) == x) by (nonlinear_arith)
        requires
            x <= 0xffff_ffff,
    ;
}

/// Appends the four bytes of `x`, least significant first.
fn push_le_bytes(out: &mut Vec<u8>, x: u32)
    ensures
        final(out)@ == old(out)@ + le_bytes(x),
{
    out.push((x % 256) as u8);
    out.push(((x / 256) % 256) as u8);
    out.push(((x / 65536) % 256) as u8);
    out.push((x / 16777216) as u8);
    assert(final(out)@ =~= old(out)@ + le_bytes(x));
}

/// Indexed indirect-draw arguments, laid out as the GPU reads them:
/// five 32-bit words in field order.
#[derive(Clone, Copy, Debug, PartialEq, Eq, Structural)]
pub struct GpuIndirectArgs {
    pub index_count: u32,
    pub instance_count: u32,
    pub first_index: u32,
    pub vertex_offset: i32,
    pub first_instance: u32,
}

impl GpuIndirectArgs {
    /// A draw of `index_count` indices for `instance_count` instances, with
    /// every offset zero.
    pub fn new(index_count: u32, instance_count: u32) -> (r: Self)
        ensures
            r.index_count == index_count,
            r.instance_count == instance_count,
            r.first_index == 0,
            r.vertex_offset == 0,
            r.first_instance == 0,
    {
        GpuIndirectArgs {
            index_count,
            instance_count,
            first_index: 0,
            vertex_offset: 0,
            first_instance: 0,
        }
    }

    /// A draw of the whole mesh for zero instances.
    pub open spec fn zero_instances(index_count: u32) -> Self {
        GpuIndirectArgs {
            index_count,
            instance_count: 0,
            first_index: 0,
            vertex_offset: 0,
            first_instance: 0,
        }
    }

    /// The block as the GPU reads it: each field as a little-endian 32-bit
    /// word, the signed vertex offset in two's complement.
    pub open spec fn bytes_spec(&self) -> Seq<u8> {
        le_bytes(self.index_count) + le_bytes(self.instance_count) + le_bytes(self.first_index)
            + le_bytes(self.vertex_offset as u32) + le_bytes(self.first_instance)
    }

    /// The bytes to upload into an indirect buffer.
    pub fn to_bytes(&self) -> (r: Vec<u8>)
        ensures
            r@ == self.bytes_spec(),
            r@.len() == INDIRECT_ARGS_SIZE,
    {
        let mut out: Vec<u8> = Vec::with_capacity(INDIRECT_ARGS_SIZE);
        push_le_bytes(&mut out, self.index_count);
        push_le_bytes(&mut out, self.instance_count);
        push_le_bytes(&mut out, self.first_index);
        push_le_bytes(&mut out, self.vertex_offset as u32);
        push_le_bytes(&mut out, self.first_instance);
        out
    }
}

/// After a reset the block holds the mesh's index count in its first word
/// and zero in every other word, so the instance count the GPU reads is zero.
pub proof fn lemma_reset_block_bytes(index_count: u32)
    ensures
        GpuIndirectArgs::zero_instances(index_count).bytes_spec().subrange(0, 4) == le_bytes(
            index_count,
        ),
        GpuIndirectArgs::zero_instances(index_count).bytes_spec().subrange(4, 20) == Seq::<
            u8,
        >::new(16, |i: int| 0u8),
{
    let b = GpuIndirectArgs::zero_instances(index_count).bytes_spec();
    assert(b.subrange(0, 4) =~= le_bytes(index_count));
    assert(b.subrange(4, 20) =~= Seq::<u8>::new(16, |i: int| 0u8));
}

} // verus!
