//! The byte-to-printable-ASCII transform applied by the generator stage.

use vstd::prelude::*;

verus! {

/// The printable ASCII code that one raw byte is mapped to: `(v % 93) + 32`,
/// always inside the closed range `[32, 124]` (space through `'}'`).
pub open spec fn ascii_of(v: u8) -> u8 {
    (v % 93 + 32) as u8
}

/// A byte inside the output alphabet of the transform.
pub open spec fn printable(b: u8) -> bool {
    32 <= b <= 124
}

/// Every byte of the sequence lies inside the output alphabet.
pub open spec fn all_printable(s: Seq<u8>) -> bool {
    forall|i: int| 0 <= i < s.len() ==> printable(s[i])
}

/// The transform applied to a whole byte sequence, element by element.
pub open spec fn transform_seq(s: Seq<u8>) -> Seq<u8> {
    s.map(|i: int, v: u8| ascii_of(v))
}

/// The transform maps every byte into the closed range `[32, 124]`.
pub proof fn lemma_ascii_of_range(v: u8)
    ensures
        printable(ascii_of(v)),
{
}

/// The transform of a sequence keeps its length, touches every element exactly
/// once, and leaves every element inside the output alphabet.
pub proof fn lemma_transform_printable(s: Seq<u8>)
    ensures
        transform_seq(s).len() == s.len(),
        forall|i: int| 0 <= i < s.len() ==> transform_seq(s)[i] == ascii_of(s[i]),
        all_printable(transform_seq(s)),
{
    assert forall|i: int| 0 <= i < transform_seq(s).len() implies printable(transform_seq(s)[i]) by {
        lemma_ascii_of_range(s[i]);
    }
}

/// Maps every byte of the buffer into the printable range, in place. The
/// mapping is deliberately biased: the first 69 codes of the 93-wide output
/// band arise from one more input byte than the rest.
pub fn u8_to_ascii(buffer: &mut Vec<u8>)
    ensures
        final(buffer)@ == transform_seq(old(buffer)@),
{
    let n = buffer.len();
    let mut i: usize = 0;
    while i < n
        invariant
            i <= n,
            n == buffer@.len(),
            n == old(buffer)@.len(),
            forall|j: int| 0 <= j < i ==> buffer@[j] == ascii_of(old(buffer)@[j]),
            forall|j: int| i <= j < n ==> buffer@[j] == old(buffer)@[j],
        decreases n - i,
    {
        let v = buffer[i];
        buffer.set(i, v % 93 + 32);
        i = i + 1;
    }
    assert(buffer@ =~= transform_seq(old(buffer)@));
}

} // verus!
