//! Null termination of byte strings.
//!
//! The kernel reads an `open` path until the first null byte; passing an
//! unterminated buffer is undefined behaviour.  The vectored-write demo
//! likewise carries a terminator in every segment.  These helpers make the
//! termination obligation explicit and checkable before any address is
//! handed out.

use vstd::prelude::*;

verus! {

/// The byte string ends in a null terminator.
pub open spec fn is_terminated(s: Seq<u8>) -> bool {
    s.len() > 0 && s.last() == 0u8
}

/// Whether `s` already ends in a null terminator.
pub fn check_terminated(s: &Vec<u8>) -> (b: bool)
    ensures
        b == is_terminated(s@),
{
    s.len() > 0 && s[s.len() - 1] == 0u8
}

/// Appends a null terminator, turning an arbitrary byte string into one
/// the kernel may safely scan.
pub fn terminate(s: Vec<u8>) -> (r: Vec<u8>)
    ensures
        r@ == s@.push(0u8),
        is_terminated(r@),
{
    let mut r = s;
    r.push(0u8);
    r
}

/// Whether every segment in a vectored-write batch carries its terminator.
pub fn all_terminated(segs: &Vec<Vec<u8>>) -> (b: bool)
    ensures
        b == (forall|i: int| 0 <= i < segs@.len() ==> is_terminated(segs@[i]@)),
{
    let mut i: usize = 0;
    while i < segs.len()
        invariant
            i <= segs.len(),
            forall|j: int| 0 <= j < i ==> is_terminated(segs@[j]@),
        decreases segs.len() - i,
    {
        if !check_terminated(&segs[i]) {
            return false;
        }
        i = i + 1;
    }
    true
}

} // verus!
