//! Shader binding table layout.
//!
//! The driver hands back shader-group handles tightly packed; the table the
//! GPU reads must place each handle in its own slot, padded to the device's
//! base alignment.  This module computes the aligned slot size, repacks the
//! handles, and derives the four strided regions (ray generation, hit, miss,
//! callable) from the table's base device address.

use vstd::arithmetic::div_mod::lemma_fundamental_div_mod_converse;
use vstd::prelude::*;

verus! {

/// Whether `a` is a power of two, in the form the alignment formula needs.
pub open spec fn is_power_of_two(a: u32) -> bool {
    a > 0 && a & ((a - 1) as u32) == 0
}

/// Rounds `value` up to the next multiple of `alignment`, the stride between
/// consecutive shader binding table slots.
///
/// The result is pinned exactly: it is the unique multiple of `alignment` in
/// the half-open interval `[value, value + alignment)`.
pub fn aligned_size(value: u32, alignment: u32) -> (r: u32)
    requires
        0 < value,
        is_power_of_two(alignment),
        value + alignment - 1 <= u32::MAX,
    ensures
        r % alignment == 0,
        value <= r,
        r < value + alignment,
{
    let r = (value - 1 + alignment) & !(alignment - 1);
    proof {
        let v = value;
        let a = alignment;
        assert(r % a == 0 && v <= r && r < v + a) by (bit_vector)
            requires
                a > 0,
                a & ((a - 1) as u32) == 0,
                1 <= v,
                v + a - 1 <= u32::MAX,
                r == ((v - 1 + a) as u32) & !((a - 1) as u32),
        ;
    }
    r
}

/// The shader binding table contents: each of the `group_count` handles of
/// `handle_size` bytes sits at the start of its own `aligned`-byte slot, and
/// the slack bytes of every slot are zero.
pub open spec fn spec_packed_table(
    handles: Seq<u8>,
    group_count: nat,
    handle_size: nat,
    aligned: nat,
) -> Seq<u8> {
    Seq::new(
        group_count * aligned,
        |i: int|
            if i % (aligned as int) < handle_size as int {
                handles[(i / (aligned as int)) * (handle_size as int) + i % (aligned as int)]
            } else {
                0u8
            },
    )
}

/// Copies each tightly packed `handle_size`-byte shader-group handle into its
/// own `aligned`-byte slot, zero-padding the slack: the repacking the table
/// needs because the driver returns handles back to back while the GPU reads
/// one independently aligned record per group.
pub fn pack_handles(handles: &Vec<u8>, group_count: usize, handle_size: usize, aligned: usize) -> (
    table: Vec<u8>)
    requires
        0 < handle_size <= aligned,
        handles@.len() == group_count * handle_size,
        group_count * aligned <= usize::MAX,
    ensures
        table@ == spec_packed_table(handles@, group_count as nat, handle_size as nat, aligned as nat),
{
    let ghost target = spec_packed_table(
        handles@,
        group_count as nat,
        handle_size as nat,
        aligned as nat,
    );
    let mut table: Vec<u8> = Vec::new();
    let mut g: usize = 0;
    while g < group_count
        invariant
            g <= group_count,
            0 < handle_size <= aligned,
            handles@.len() == group_count * handle_size,
            group_count * aligned <= usize::MAX,
            table@.len() == g * aligned,
            target == spec_packed_table(
                handles@,
                group_count as nat,
                handle_size as nat,
                aligned as nat,
            ),
            forall|i: int| 0 <= i < table@.len() ==> table@[i] == target[i],
        decreases group_count - g,
    {
        proof {
            assert((g + 1) * aligned <= group_count * aligned && (g + 1) * handle_size
                <= group_count * handle_size) by (nonlinear_arith)
                requires
                    g < group_count,
                    0 < handle_size <= aligned,
            ;
        }
        let mut b: usize = 0;
        while b < aligned
            invariant
                b <= aligned,
                g < group_count,
                0 < handle_size <= aligned,
                handles@.len() == group_count * handle_size,
                group_count * aligned <= usize::MAX,
                (g + 1) * aligned <= group_count * aligned,
                (g + 1) * handle_size <= group_count * handle_size,
                table@.len() == g * aligned + b,
                target == spec_packed_table(
                    handles@,
                    group_count as nat,
                    handle_size as nat,
                    aligned as nat,
                ),
                forall|i: int| 0 <= i < table@.len() ==> table@[i] == target[i],
            decreases aligned - b,
        {
            proof {
                assert(g * aligned + aligned == (g + 1) * aligned && g * handle_size + handle_size
                    == (g + 1) * handle_size) by (nonlinear_arith);
                lemma_fundamental_div_mod_converse(
                    g * aligned + b,
                    aligned as int,
                    g as int,
                    b as int,
                );
                assert(target.len() == group_count * aligned);
            }
            if b < handle_size {
                proof {
                    assert(g * handle_size + b < group_count * handle_size && group_count
                        * handle_size <= group_count * aligned) by (nonlinear_arith)
                        requires
                            g < group_count,
                            b < handle_size,
                            0 < handle_size <= aligned,
                    ;
                }
                table.push(handles[g * handle_size + b]);
            } else {
                table.push(0u8);
            }
            b += 1;
        }
        proof {
            assert(g * aligned + aligned == (g + 1) * aligned) by (nonlinear_arith);
        }
        g += 1;
    }
    proof {
        assert(table@ =~= target);
    }
    table
}

/// The kind of one shader group, in pipeline-creation order.
#[derive(Clone, Copy, Debug, PartialEq, Eq, Structural)]
pub enum ShaderGroupKind {
    /// The ray-generation group.
    Raygen,
    /// A hit group (closest-hit and, for procedural geometry, intersection).
    Hit,
    /// The miss group.
    Miss,
}

/// The group ordering the region arithmetic assumes: the ray-generation
/// group first, then at least one hit group, then the miss group last.
pub open spec fn spec_group_order_ok(groups: Seq<ShaderGroupKind>) -> bool {
    &&& groups.len() >= 3
    &&& groups[0] is Raygen
    &&& groups[groups.len() - 1] is Miss
    &&& forall|i: int| 0 < i < groups.len() - 1 ==> groups[i] is Hit
}

/// Checks a pipeline's shader-group ordering against the layout the region
/// arithmetic assumes, and returns the number of hit groups.  The offsets
/// are purely positional, so a pipeline created with any other ordering
/// must not be laid out by this module.
pub fn hit_group_count(groups: &Vec<ShaderGroupKind>) -> (r: Option<u32>)
    requires
        groups@.len() <= u32::MAX,
    ensures
        r is Some <==> spec_group_order_ok(groups@),
        r matches Some(n) ==> n == groups@.len() - 2,
{
    let len = groups.len();
    if len < 3 {
        return None;
    }
    if !matches!(groups[0], ShaderGroupKind::Raygen) {
        return None;
    }
    if !matches!(groups[len - 1], ShaderGroupKind::Miss) {
        return None;
    }
    let mut i: usize = 1;
    while i < len - 1
        invariant
            1 <= i <= len - 1,
            len == groups@.len(),
            3 <= len <= u32::MAX,
            forall|j: int| 0 < j < i ==> groups@[j] is Hit,
        decreases len - i,
    {
        if !matches!(groups[i], ShaderGroupKind::Hit) {
            return None;
        }
        i += 1;
    }
    Some((len - 2) as u32)
}

/// One addressable region of the shader binding table: a base device
/// address, the stride between records, and the region's total size.
#[derive(Clone, Copy, Debug, PartialEq, Eq, Structural)]
pub struct StridedRegion {
    pub device_address: u64,
    pub stride: u64,
    pub size: u64,
}

/// The four regions a ray-tracing dispatch consumes.
#[derive(Clone, Copy, Debug, PartialEq, Eq, Structural)]
pub struct SbtRegions {
    pub raygen: StridedRegion,
    pub hit: StridedRegion,
    pub miss: StridedRegion,
    pub callable: StridedRegion,
}

/// The positional layout of the regions over a table whose groups run
/// raygen first, then `hit_group_count` hit groups, then one miss group:
/// raygen at the base, the hit region right after it, the miss slot after
/// the hit region, and an empty callable region.
pub open spec fn regions_match_layout(
    r: SbtRegions,
    base: u64,
    aligned: u64,
    hit_group_count: u64,
) -> bool {
    &&& r.raygen.device_address == base
    &&& r.raygen.stride == aligned
    &&& r.raygen.size == aligned
    &&& r.hit.device_address == base + aligned
    &&& r.hit.stride == aligned
    &&& r.hit.size == hit_group_count * aligned
    &&& r.miss.device_address == base + (1 + hit_group_count) * aligned
    &&& r.miss.stride == aligned
    &&& r.miss.size == aligned
    &&& r.callable.device_address == 0
    &&& r.callable.stride == 0
    &&& r.callable.size == 0
}

/// Derives the four strided regions from the table's base device address,
/// by pure address arithmetic over the aligned slot size.  The callable
/// region is empty: the pipeline defines no callable shaders.
pub fn sbt_regions(base_address: u64, handle_size_aligned: u64, hit_group_count: u64) -> (r:
    SbtRegions)
    requires
        base_address + (1 + hit_group_count) * handle_size_aligned + handle_size_aligned
            <= u64::MAX,
    ensures
        regions_match_layout(r, base_address, handle_size_aligned, hit_group_count),
{
    proof {
        assert((1 + hit_group_count) * handle_size_aligned == handle_size_aligned + hit_group_count
            * handle_size_aligned && hit_group_count * handle_size_aligned <= (1 + hit_group_count)
            * handle_size_aligned) by (nonlinear_arith);
    }
    let hit_size = hit_group_count * handle_size_aligned;
    SbtRegions {
        raygen: StridedRegion {
            device_address: base_address,
            stride: handle_size_aligned,
            size: handle_size_aligned,
        },
        hit: StridedRegion {
            device_address: base_address + handle_size_aligned,
            stride: handle_size_aligned,
            size: hit_size,
        },
        miss: StridedRegion {
            device_address: base_address + handle_size_aligned + hit_size,
            stride: handle_size_aligned,
            size: handle_size_aligned,
        },
        callable: StridedRegion { device_address: 0, stride: 0, size: 0 },
    }
}

/// Builds the shader binding table's contents from the tightly packed
/// handles the driver returned: computes the aligned slot size from the
/// device's base alignment and repacks each handle into its own slot.
/// Returns the table bytes and the slot size, which is also every region's
/// stride.
pub fn build_sbt_table(
    handles: &Vec<u8>,
    group_count: usize,
    handle_size: u32,
    base_alignment: u32,
) -> (r: (Vec<u8>, u32))
    requires
        0 < handle_size,
        is_power_of_two(base_alignment),
        handle_size + base_alignment - 1 <= u32::MAX,
        handles@.len() == group_count * handle_size,
        group_count * (handle_size + base_alignment) <= usize::MAX,
    ensures
        r.1 % base_alignment == 0,
        handle_size <= r.1 < handle_size + base_alignment,
        r.0@ == spec_packed_table(handles@, group_count as nat, handle_size as nat, r.1 as nat),
        r.0@.len() == group_count * r.1,
{
    let aligned = aligned_size(handle_size, base_alignment);
    proof {
        assert(group_count * aligned <= group_count * (handle_size + base_alignment)
            && group_count * handle_size <= group_count * (handle_size + base_alignment))
            by (nonlinear_arith)
            requires
                aligned <= handle_size + base_alignment,
                handle_size <= handle_size + base_alignment,
                group_count >= 0,
        ;
    }
    let table = pack_handles(handles, group_count, handle_size as usize, aligned as usize);
    (table, aligned)
}

/// Region offsets are a function of the slot size and group ordering alone:
/// two tables laid out for the same pipeline, whatever their base addresses,
/// place every region at the same offset from the base and give every region
/// the same stride and size.
pub proof fn lemma_sbt_offsets_idempotent(
    r1: SbtRegions,
    base1: u64,
    r2: SbtRegions,
    base2: u64,
    aligned: u64,
    hit_group_count: u64,
)
    requires
        regions_match_layout(r1, base1, aligned, hit_group_count),
        regions_match_layout(r2, base2, aligned, hit_group_count),
    ensures
        r1.raygen.device_address - base1 == 0 && r2.raygen.device_address - base2 == 0,
        r1.hit.device_address - base1 == aligned && r2.hit.device_address - base2 == aligned,
        r1.miss.device_address - base1 == (1 + hit_group_count) * aligned
            && r2.miss.device_address - base2 == (1 + hit_group_count) * aligned,
        r1.raygen.stride == r2.raygen.stride && r1.raygen.size == r2.raygen.size,
        r1.hit.stride == r2.hit.stride && r1.hit.size == r2.hit.size,
        r1.miss.stride == r2.miss.stride && r1.miss.size == r2.miss.size,
        r1.callable == r2.callable,
{
}

} // verus!
