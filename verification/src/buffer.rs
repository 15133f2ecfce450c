//! Creation and defensive sizing of the pool's reusable byte buffers.

use vstd::prelude::*;

verus! {

/// Every byte of the sequence is the default byte value.
pub open spec fn all_zero(s: Seq<u8>) -> bool {
    forall|i: int| 0 <= i < s.len() ==> s[i] == 0u8
}

/// A fresh pool buffer: `size` bytes, all default-initialized.
pub fn create_buffer(size: usize) -> (buf: Vec<u8>)
    ensures
        buf@.len() == size,
        all_zero(buf@),
{
    let mut buf: Vec<u8> = Vec::new();
    let mut i: usize = 0;
    while i < size
        invariant
            i <= size,
            buf@.len() == i,
            all_zero(buf@),
        decreases size - i,
    {
        buf.push(0);
        i = i + 1;
    }
    buf
}

/// Overwrites the buffer, byte for byte, with the given raw bytes: a
/// generator's refill of a pool buffer from its pseudo-random stream, taken
/// here as an argument so the operation is specified for every possible draw.
pub fn fill_from(vec: &mut Vec<u8>, raw: &Vec<u8>)
    requires
        old(vec)@.len() == raw@.len(),
    ensures
        final(vec)@ == raw@,
{
    let n = vec.len();
    let mut i: usize = 0;
    while i < n
        invariant
            i <= n,
            n == vec@.len(),
            n == raw@.len(),
            forall|j: int| 0 <= j < i ==> vec@[j] == raw@[j],
        decreases n - i,
    {
        let b = raw[i];
        vec.set(i, b);
        i = i + 1;
    }
    assert(vec@ =~= raw@);
}

/// Grows the vector with default bytes until it is at least `len` long; a
/// vector that is already long enough is left untouched. This is the
/// defensive resize that guards the generator against a short buffer ever
/// entering the pool.
pub fn make_vec_len(vec: &mut Vec<u8>, len: usize)
    ensures
        old(vec)@.len() >= len ==> final(vec)@ == old(vec)@,
        old(vec)@.len() < len ==> {
            &&& final(vec)@.len() == len
            &&& final(vec)@.subrange(0, old(vec)@.len() as int) == old(vec)@
            &&& forall|i: int| old(vec)@.len() <= i < len ==> final(vec)@[i] == 0u8
        },
{
    if vec.len() >= len {
        return ;
    }
    while vec.len() < len
        invariant
            vec@.len() >= old(vec)@.len(),
            vec@.len() <= len,
            vec@.subrange(0, old(vec)@.len() as int) == old(vec)@,
            forall|i: int| old(vec)@.len() <= i < vec@.len() ==> vec@[i] == 0u8,
        decreases len - vec@.len(),
    {
        vec.push(0);
        assert(vec@.subrange(0, old(vec)@.len() as int) =~= old(vec)@);
    }
}

} // verus!
