//! Acceleration-structure instance records.
//!
//! A top-level acceleration structure is built from an array of fixed-size
//! instance records.  Each record carries a 3x4 row-major affine transform,
//! a 24-bit custom index packed with an 8-bit visibility mask, a 24-bit
//! shader-binding-table record offset packed with 8-bit geometry flags, and
//! the 64-bit device address of a bottom-level structure.  The GPU consumes
//! the records as raw bytes in a fixed little-endian layout, so the library
//! serialises them itself.

use vstd::arithmetic::div_mod::lemma_fundamental_div_mod_converse;
use vstd::prelude::*;

verus! {

/// The value of packing a 24-bit field and an 8-bit field into one word:
/// the low 24 bits hold `low24`, the high 8 bits hold `high8`.
pub open spec fn spec_pack_24_8(low24: u32, high8: u8) -> u32
    recommends
        low24 < 0x1000000,
{
    (low24 + (high8 as u32) * 0x1000000) as u32
}

/// Packs a 24-bit value and an 8-bit value into one 32-bit word, low bits
/// first, as the instance record layout demands.
pub fn pack_24_8(low24: u32, high8: u8) -> (r: u32)
    requires
        low24 < 0x1000000,
    ensures
        r == spec_pack_24_8(low24, high8),
        r & 0xffffff == low24,
        r >> 24 == high8 as u32,
{
    let r = low24 | ((high8 as u32) << 24u32);
    proof {
        let l = low24;
        let h = high8;
        assert(r == (l + (h as u32) * 0x1000000) as u32 && r & 0xffffff == l && r >> 24 == h
            as u32) by (bit_vector)
            requires
                l < 0x1000000,
                r == l | ((h as u32) << 24u32),
        ;
    }
    r
}

/// Byte `k` (little endian, `0 <= k < 4`) of a 32-bit word.
pub open spec fn le_byte_u32(x: u32, k: int) -> u8 {
    ((x >> ((8 * k) as u32)) & 0xff) as u8
}

/// Byte `k` (little endian, `0 <= k < 8`) of a 64-bit word.
pub open spec fn le_byte_u64(x: u64, k: int) -> u8 {
    ((x >> ((8 * k) as u64)) & 0xff) as u8
}

/// One instance of a bottom-level acceleration structure inside a scene.
///
/// The transform entries are kept as the bit patterns of the twelve 32-bit
/// floating-point values of the 3x4 row-major matrix; the layout logic never
/// interprets them, it only lays them out.
pub struct InstanceRecord {
    /// Bit patterns of the 3x4 row-major transform, row by row.
    pub transform_bits: Vec<u32>,
    /// 24-bit application-chosen index, visible to the hit shaders.
    pub custom_index: u32,
    /// 8-bit visibility mask tested against each ray's mask.
    pub mask: u8,
    /// 24-bit offset into the shader binding table's hit-group region.
    pub sbt_offset: u32,
    /// 8-bit geometry instance flags.
    pub flags: u8,
    /// Device address of the bottom-level structure this instance references.
    pub blas_address: u64,
}

impl InstanceRecord {
    /// A record is well formed when the transform has exactly twelve entries
    /// and the packed fields fit their 24 bits.
    pub open spec fn wf(self) -> bool {
        &&& self.transform_bits@.len() == 12
        &&& self.custom_index < 0x1000000
        &&& self.sbt_offset < 0x1000000
    }
}

/// The number of bytes of one serialised instance record.
pub const INSTANCE_RECORD_BYTES: usize = 64;

/// The serialised form of one record: 48 bytes of transform, 4 bytes of
/// packed custom index and mask, 4 bytes of packed table offset and flags,
/// 8 bytes of device address, every word little endian.
pub open spec fn spec_encode_instance(rec: InstanceRecord) -> Seq<u8>
    recommends
        rec.wf(),
{
    Seq::new(
        64,
        |i: int|
            if i < 48 {
                le_byte_u32(rec.transform_bits@[i / 4], i % 4)
            } else if i < 52 {
                le_byte_u32(spec_pack_24_8(rec.custom_index, rec.mask), i - 48)
            } else if i < 56 {
                le_byte_u32(spec_pack_24_8(rec.sbt_offset, rec.flags), i - 52)
            } else {
                le_byte_u64(rec.blas_address, i - 56)
            },
    )
}

/// Appends the four little-endian bytes of `x` to `out`.
fn push_u32_le(out: &mut Vec<u8>, x: u32)
    requires
        old(out)@.len() + 4 <= usize::MAX,
    ensures
        final(out)@ == old(out)@ + Seq::new(4, |k: int| le_byte_u32(x, k)),
{
    out.push(((x >> 0u32) & 0xff) as u8);
    out.push(((x >> 8u32) & 0xff) as u8);
    out.push(((x >> 16u32) & 0xff) as u8);
    out.push(((x >> 24u32) & 0xff) as u8);
    proof {
        assert(out@ =~= old(out)@ + Seq::new(4, |k: int| le_byte_u32(x, k)));
    }
}

/// Appends the eight little-endian bytes of `x` to `out`.
fn push_u64_le(out: &mut Vec<u8>, x: u64)
    requires
        old(out)@.len() + 8 <= usize::MAX,
    ensures
        final(out)@ == old(out)@ + Seq::new(8, |k: int| le_byte_u64(x, k)),
{
    out.push(((x >> 0u64) & 0xff) as u8);
    out.push(((x >> 8u64) & 0xff) as u8);
    out.push(((x >> 16u64) & 0xff) as u8);
    out.push(((x >> 24u64) & 0xff) as u8);
    out.push(((x >> 32u64) & 0xff) as u8);
    out.push(((x >> 40u64) & 0xff) as u8);
    out.push(((x >> 48u64) & 0xff) as u8);
    out.push(((x >> 56u64) & 0xff) as u8);
    proof {
        assert(out@ =~= old(out)@ + Seq::new(8, |k: int| le_byte_u64(x, k)));
    }
}

/// Serialises one instance record into its 64-byte device layout.
pub fn encode_instance(rec: &InstanceRecord) -> (r: Vec<u8>)
    requires
        rec.wf(),
    ensures
        r@ == spec_encode_instance(*rec),
        r@.len() == 64,
{
    let mut out: Vec<u8> = Vec::new();
    let mut t: usize = 0;
    while t < 12
        invariant
            t <= 12,
            rec.wf(),
            out@.len() == 4 * t,
            forall|i: int|
                0 <= i < out@.len() ==> out@[i] == le_byte_u32(rec.transform_bits@[i / 4], i % 4),
        decreases 12 - t,
    {
        let ghost prefix = out@;
        push_u32_le(&mut out, rec.transform_bits[t]);
        proof {
            assert forall|i: int| 0 <= i < out@.len() implies out@[i] == le_byte_u32(
                rec.transform_bits@[i / 4],
                i % 4,
            ) by {
                if i >= prefix.len() {
                    lemma_fundamental_div_mod_converse(i, 4, t as int, i - 4 * t);
                }
            }
        }
        t += 1;
    }
    let index_mask = pack_24_8(rec.custom_index, rec.mask);
    let offset_flags = pack_24_8(rec.sbt_offset, rec.flags);
    push_u32_le(&mut out, index_mask);
    push_u32_le(&mut out, offset_flags);
    push_u64_le(&mut out, rec.blas_address);
    proof {
        assert(out@ =~= spec_encode_instance(*rec));
    }
    out
}

/// Serialises a contiguous array of instance records, in order: the exact
/// bytes the top-level build reads from the instance buffer.
pub fn encode_instances(records: &Vec<InstanceRecord>) -> (r: Vec<u8>)
    requires
        forall|k: int| 0 <= k < records@.len() ==> records@[k].wf(),
        records@.len() * 64 <= usize::MAX,
    ensures
        r@.len() == records@.len() * 64,
        forall|k: int|
            0 <= k < records@.len() ==> r@.subrange(64 * k, 64 * k + 64) == spec_encode_instance(
                records@[k],
            ),
{
    let mut out: Vec<u8> = Vec::new();
    let n = records.len();
    let mut k: usize = 0;
    while k < n
        invariant
            k <= n,
            n == records@.len(),
            n * 64 <= usize::MAX,
            forall|j: int| 0 <= j < n ==> records@[j].wf(),
            out@.len() == k * 64,
            forall|j: int|
                0 <= j < k ==> out@.subrange(64 * j, 64 * j + 64) == spec_encode_instance(
                    records@[j],
                ),
        decreases n - k,
    {
        proof {
            assert((k + 1) * 64 <= n * 64) by (nonlinear_arith)
                requires
                    k < n,
            ;
        }
        let ghost prefix = out@;
        let enc = encode_instance(&records[k]);
        let mut enc = enc;
        out.append(&mut enc);
        proof {
            assert forall|j: int| 0 <= j < k + 1 implies out@.subrange(64 * j, 64 * j + 64)
                == spec_encode_instance(records@[j]) by {
                if j < k {
                    assert(out@.subrange(64 * j, 64 * j + 64) =~= prefix.subrange(
                        64 * j,
                        64 * j + 64,
                    ));
                } else {
                    assert(out@.subrange(64 * j, 64 * j + 64) =~= spec_encode_instance(
                        records@[j],
                    ));
                }
            }
        }
        k += 1;
    }
    out
}

} // verus!
