//! Marshalling for origin codes: the numeric identifiers of the physical
//! controls (buttons, sticks, triggers) the native SDK reports as bound to
//! an action. The native side deals in 32-bit codes; the host side in wide
//! integers. The two conversions between them — widening an enumerated
//! list outward and narrowing one code inward for a glyph lookup — are
//! verified here; reading the codes out of the native enumeration itself
//! stays with the embedding.

use vstd::prelude::*;

verus! {

/// Widens a list of native origin codes to the wide integers that cross
/// the host boundary, keeping the native enumeration order and the
/// cardinality, the empty list included: the value at each position is
/// exactly the code at that position, unchanged.
pub fn origin_codes_widened(codes: &Vec<u32>) -> (out: Vec<u64>)
    ensures
        out@.len() == codes@.len(),
        forall|i: int| 0 <= i < codes@.len() ==> out@[i] == codes@[i] as u64,
{
    let mut out: Vec<u64> = Vec::new();
    let mut k: usize = 0;
    while k < codes.len()
        invariant
            k <= codes@.len(),
            out@.len() == k,
            forall|i: int| 0 <= i < k ==> out@[i] == codes@[i] as u64,
        decreases codes@.len() - k,
    {
        out.push(codes[k] as u64);
        k = k + 1;
    }
    out
}

/// Narrows a host origin code to the 32 bits the native glyph lookup
/// takes: exactly the low 32 bits of the wide value, the one lossy
/// conversion on the origin path, stated here so it cannot hide in a bare
/// cast.
pub fn origin_code_narrowed(code: u64) -> (r: u32)
    ensures
        r == code % 0x1_0000_0000,
{
    let low: u64 = code % 0x1_0000_0000;
    low as u32
}

} // verus!
