//! Byte-buffer helpers.

use vstd::prelude::*;

verus! {

/// `s` without its run of trailing zero bytes.
pub open spec fn without_trailing_zeros(s: Seq<u8>) -> Seq<u8>
    decreases s.len(),
{
    if s.len() == 0 || s.last() != 0 {
        s
    } else {
        without_trailing_zeros(s.drop_last())
    }
}

/// Removes the trailing zero bytes of `data` in place and returns a copy of
/// what is left.
pub fn remove_trailing_zeros(data: &mut Vec<u8>) -> (r: Vec<u8>)
    ensures
        final(data)@ == without_trailing_zeros(old(data)@),
        r@ == final(data)@,
{
    let mut n: usize = data.len();
    assert(data@.subrange(0, n as int) == data@);
    while n > 0 && data[n - 1] == 0
        invariant
            n <= data@.len(),
            data@ == old(data)@,
            without_trailing_zeros(data@) == without_trailing_zeros(data@.subrange(0, n as int)),
        decreases n,
    {
        assert(data@.subrange(0, n as int).drop_last() == data@.subrange(0, n - 1));
        n = n - 1;
    }
    assert(without_trailing_zeros(data@.subrange(0, n as int)) == data@.subrange(0, n as int));
    data.truncate(n);
    data.clone()
}

} // verus!
