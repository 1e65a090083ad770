//! The genetic crossover that derives a child's DNA from its two parents.

use vstd::prelude::*;

verus! {

/// One byte of child DNA: every bit comes from `a` where the selector has a
/// one, and from `b` where it has a zero.
pub open spec fn crossover_byte(a: u8, b: u8, selector: u8) -> u8 {
    (selector & a) | (!selector & b)
}

/// The child DNA of two parents under a selector mask, byte by byte.
pub open spec fn crossover_spec(dna_a: Seq<u8>, dna_b: Seq<u8>, selector: Seq<u8>) -> Seq<u8> {
    Seq::new(16, |i: int| crossover_byte(dna_a[i], dna_b[i], selector[i]))
}

/// Combines two parents' DNA under a selector mask.
pub fn crossover(dna_a: &[u8; 16], dna_b: &[u8; 16], selector: &[u8; 16]) -> (child: [u8; 16])
    ensures
        child@ == crossover_spec(dna_a@, dna_b@, selector@),
{
    let mut child: [u8; 16] = [0u8; 16];
    let mut i: usize = 0;
    while i < 16
        invariant
            i <= 16,
            forall|j: int| 0 <= j < i ==> child@[j] == crossover_byte(dna_a@[j], dna_b@[j], selector@[j]),
        decreases 16 - i,
    {
        child[i] = selector[i] & dna_a[i] | !selector[i] & dna_b[i];
        i += 1;
    }
    assert(child@ =~= crossover_spec(dna_a@, dna_b@, selector@));
    child
}

} // verus!
