//! Choosing a Vulkan memory type for an allocation.

use vstd::prelude::*;

verus! {

/// Memory type `i` is allowed by the requirement bitmask `memory_type_bits`
/// (bit `i` is set) and has every property flag in `required_flags`.
pub open spec fn memory_type_fits(
    type_flags: Seq<u32>,
    memory_type_bits: u32,
    required_flags: u32,
    i: int,
) -> bool {
    &&& memory_type_bits & (1u32 << (i as u32)) != 0
    &&& type_flags[i] & required_flags == required_flags
}

/// Find the first memory type index satisfying both `memory_type_bits` (a
/// requirements bitmask) and `required_flags` (the property flags wanted).
///
/// `type_flags[i]` holds the property flags of memory type `i` of the
/// physical device (at most 32 types, as Vulkan defines).
pub fn find_memory_type(type_flags: &[u32], memory_type_bits: u32, required_flags: u32) -> (r:
    Option<u32>)
    requires
        type_flags@.len() <= 32,
    ensures
        match r {
            Some(i) => {
                &&& i < type_flags@.len()
                &&& memory_type_fits(type_flags@, memory_type_bits, required_flags, i as int)
                &&& forall|j: int|
                    0 <= j < i ==> !memory_type_fits(type_flags@, memory_type_bits, required_flags, j)
            },
            None => forall|j: int|
                0 <= j < type_flags@.len() ==> !memory_type_fits(
                    type_flags@,
                    memory_type_bits,
                    required_flags,
                    j,
                ),
        },
{
    let count = type_flags.len();
    let mut i: usize = 0;
    while i < count
        invariant
            count == type_flags@.len(),
            count <= 32,
            i <= count,
            forall|j: int|
                0 <= j < i ==> !memory_type_fits(type_flags@, memory_type_bits, required_flags, j),
        decreases count - i,
    {
        let bit = 1u32 << (i as u32);
        if (memory_type_bits & bit) != 0 && (type_flags[i] & required_flags) == required_flags {
            return Some(i as u32);
        }
        i = i + 1;
    }
    None
}

/// A memory type qualifies exactly when bit `i` of the requirement mask is
/// set and its property flags include every required flag: flags beyond the
/// required ones never disqualify it.
pub proof fn lemma_memory_type_fits_iff(
    type_flags: Seq<u32>,
    memory_type_bits: u32,
    required_flags: u32,
    i: int,
)
    requires
        0 <= i < 32,
        i < type_flags.len(),
    ensures
        memory_type_fits(type_flags, memory_type_bits, required_flags, i) <==> ((memory_type_bits
            >> (i as u32)) & 1 == 1 && type_flags[i] | required_flags == type_flags[i]),
{
    let s = i as u32;
    let f = type_flags[i];
    let b = memory_type_bits;
    let r = required_flags;
    assert((b & (1u32 << s) != 0) == ((b >> s) & 1 == 1)) by (bit_vector)
        requires
            s < 32,
    ;
    assert((f & r == r) == (f | r == f)) by (bit_vector);
}

/// Adding property flags to an eligible memory type keeps it eligible.
pub proof fn lemma_memory_type_extra_flags_keep_fit(
    type_flags: Seq<u32>,
    memory_type_bits: u32,
    required_flags: u32,
    i: int,
    extra: u32,
)
    requires
        0 <= i < 32,
        i < type_flags.len(),
        memory_type_fits(type_flags, memory_type_bits, required_flags, i),
    ensures
        memory_type_fits(
            type_flags.update(i, type_flags[i] | extra),
            memory_type_bits,
            required_flags,
            i,
        ),
{
    let f = type_flags[i];
    let r = required_flags;
    assert(f & r == r ==> (f | extra) & r == r) by (bit_vector);
}

} // verus!
