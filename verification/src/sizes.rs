//! Size guards: the checkable precondition of a reinterpretation.
//!
//! The one property of a bit-level reinterpretation that can be verified
//! mechanically is that the two types occupy the same number of bytes. The
//! guards here decide that question and, in the fail-soft form, hand the
//! input back untouched together with a structured reason when the sizes
//! disagree.

use vstd::prelude::*;

verus! {

use crate::err::TransmuteErr;
use crate::err::TransmuteErrKind;
use vstd::layout::size_of;

/// Whether `A` and `B` occupy the same number of bytes.
pub fn sizes_match<A, B>() -> (r: bool)
    ensures
        r <==> size_of::<A>() == size_of::<B>(),
{
    core::mem::size_of::<A>() == core::mem::size_of::<B>()
}

/// The fail-soft size guard of a reinterpretation of `data` from `A` to `B`:
/// `data` comes back untouched in `Ok` exactly when the two byte sizes agree,
/// and otherwise inside an error naming both sizes.
pub fn size_guard<A, B>(data: A) -> (r: Result<A, TransmuteErr<A>>)
    ensures
        size_of::<A>() == size_of::<B>() ==> r == Ok::<A, TransmuteErr<A>>(data),
        size_of::<A>() != size_of::<B>() ==> (r matches Err(e)
            && e.spec_data() == data
            && e.spec_kind() == (TransmuteErrKind::SizeMismatch {
                atype: size_of::<A>() as usize,
                btype: size_of::<B>() as usize,
            })
            && size_of::<A>() as usize == size_of::<A>()
            && size_of::<B>() as usize == size_of::<B>()),
{
    let size_a = core::mem::size_of::<A>();
    let size_b = core::mem::size_of::<B>();
    if size_a != size_b {
        Err(TransmuteErr::size_mismatch(size_a, size_b, data))
    } else {
        Ok(data)
    }
}

} // verus!
