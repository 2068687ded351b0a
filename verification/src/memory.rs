//! Device memory type selection.
//!
//! A buffer or image reports which memory types it accepts as a bit mask,
//! and the caller further requires a set of property flags (host visible,
//! device local, ...).  The allocator picks the first memory type that
//! satisfies both.

use vstd::prelude::*;

verus! {

/// Whether memory type `i` is acceptable: bit `i` of the resource's
/// `memory_type_bits` mask is set, and the type's property flags contain
/// every requested flag.
pub open spec fn type_suitable(
    memory_type_bits: u32,
    required_flags: u32,
    property_flags: Seq<u32>,
    i: int,
) -> bool {
    &&& (memory_type_bits >> (i as u32)) & 1 == 1
    &&& property_flags[i] & required_flags == required_flags
}

/// Returns the index of the first memory type whose mask bit is set and
/// whose property flags contain all of `required_flags`, or 0 when no type
/// qualifies.
///
/// `property_flags` holds the property-flag word of each memory type the
/// device reports, in device order.
pub fn get_memory_type_index(
    memory_type_bits: u32,
    required_flags: u32,
    property_flags: &Vec<u32>,
) -> (r: u32)
    requires
        property_flags@.len() <= 32,
    ensures
        (exists|i: int|
            0 <= i < property_flags@.len() && type_suitable(
                memory_type_bits,
                required_flags,
                property_flags@,
                i,
            )) ==> {
            &&& r < property_flags@.len()
            &&& type_suitable(memory_type_bits, required_flags, property_flags@, r as int)
            &&& forall|j: int|
                0 <= j < r ==> !type_suitable(memory_type_bits, required_flags, property_flags@, j)
        },
        (forall|i: int|
            0 <= i < property_flags@.len() ==> !type_suitable(
                memory_type_bits,
                required_flags,
                property_flags@,
                i,
            )) ==> r == 0,
{
    let count = property_flags.len();
    let mut i: usize = 0;
    while i < count
        invariant
            i <= count,
            count == property_flags@.len() <= 32,
            forall|j: int|
                0 <= j < i ==> !type_suitable(memory_type_bits, required_flags, property_flags@, j),
        decreases count - i,
    {
        if (memory_type_bits >> (i as u32)) & 1 == 1 && property_flags[i] & required_flags
            == required_flags {
            return i as u32;
        }
        i += 1;
    }
    0
}

} // verus!
