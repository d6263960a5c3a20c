//! Shared helpers for graphics pipeline construction: SPIR-V words.

use vstd::prelude::*;

verus! {

/// The little-endian 32-bit word made of bytes `4 * i .. 4 * i + 4` of `spv`.
pub open spec fn le_word(spv: Seq<u8>, i: int) -> int {
    spv[4 * i] + 256 * spv[4 * i + 1] + 65536 * spv[4 * i + 2] + 16777216 * spv[4 * i + 3]
}

/// The SPIR-V words of a shader binary: each 4-byte chunk read in
/// little-endian order (the SPIR-V on-disk format), copied into an aligned
/// word buffer.
pub fn spirv_words(spv: &[u8]) -> (code: Vec<u32>)
    requires
        spv@.len() % 4 == 0,
    ensures
        code@.len() == spv@.len() / 4,
        forall|i: int| 0 <= i < code@.len() ==> #[trigger] code@[i] == le_word(spv@, i),
{
    let len = spv.len();
    let words = len / 4;
    let mut code: Vec<u32> = Vec::with_capacity(words);
    let mut i: usize = 0;
    while i < words
        invariant
            len == spv@.len(),
            words == len / 4,
            spv@.len() % 4 == 0,
            i <= words,
            code@.len() == i,
            forall|j: int| 0 <= j < i ==> #[trigger] code@[j] == le_word(spv@, j),
        decreases words - i,
    {
        proof {
            assert(4 * words == spv@.len());
            assert(4 * i + 3 < spv@.len());
        }
        let b = 4 * i;
        let w: u32 = (spv[b] as u32) + (spv[b + 1] as u32) * 256 + (spv[b + 2] as u32) * 65536 + (
        spv[b + 3] as u32) * 16777216;
        code.push(w);
        i = i + 1;
    }
    code
}

} // verus!
