//! The deferred reinterpretation contract.
//!
//! A [`DataTransmutContract`] owns exactly one value of type `T`, tagged at
//! the type level with a target type `To` that the value has been promised
//! to become. The promise is only meaningful when both types occupy the same
//! number of bytes, and that invariant is enforced for the whole lifetime of
//! the contract: statically by the precondition of the unchecked
//! constructors, at run time by the checked one. The payload can be read and
//! written as `T` without touching the promise, and the contract ends in
//! exactly one of two ways: the payload is released back as `T`, abandoning
//! the promise, or the caller commits the reinterpretation to `To` outside
//! of this crate.

use vstd::prelude::*;

verus! {

use core::marker::PhantomData;
use crate::err::TransmuteErr;
use crate::err::TransmuteErrKind;
use crate::sizes::size_guard;
use crate::sizes::sizes_match;
use vstd::layout::size_of;
use vstd::pervasive::runtime_assert;

/// A value of type `T` held under the promise that it will later be read
/// back as a value of type `To` of equal byte size.
pub struct DataTransmutContract<T, To> {
    data: T,
    _pp: PhantomData<To>,
}

impl<T, To> DataTransmutContract<T, To> {
    /// The contract a constructor returns for a given payload.
    pub closed spec fn spec_new(data: T) -> Self {
        DataTransmutContract { data, _pp: PhantomData }
    }

    /// The payload the contract holds.
    pub closed spec fn spec_data(self) -> T {
        self.data
    }

    /// The invariant of every contract: `T` and `To` occupy the same number
    /// of bytes.
    pub open spec fn sizes_compatible() -> bool {
        size_of::<T>() == size_of::<To>()
    }

    /// Record the promise without a run-time check: the equality of the two
    /// byte sizes is demanded statically instead.
    pub fn force_new(data: T) -> (r: Self)
        requires
            Self::sizes_compatible(),
        ensures
            r == Self::spec_new(data),
            r.spec_data() == data,
    {
        DataTransmutContract { data, _pp: PhantomData }
    }

    /// Equivalent of [`Self::force_new`], under the name the constructor
    /// first carried.
    pub fn new(data: T) -> (r: Self)
        requires
            Self::sizes_compatible(),
        ensures
            r == Self::spec_new(data),
            r.spec_data() == data,
    {
        Self::force_new(data)
    }

    /// Record the promise after checking the two byte sizes at run time:
    /// the contract comes back exactly when they agree, and otherwise the
    /// payload returns untouched inside an error naming both sizes.
    pub fn checksize_new(data: T) -> (r: Result<Self, TransmuteErr<T>>)
        ensures
            Self::sizes_compatible() ==> r == Ok::<Self, TransmuteErr<T>>(Self::spec_new(data))
                && (r matches Ok(c) && c.spec_data() == data),
            !Self::sizes_compatible() ==> (r matches Err(e)
                && e.spec_data() == data
                && e.spec_kind() == (TransmuteErrKind::SizeMismatch {
                    atype: size_of::<T>() as usize,
                    btype: size_of::<To>() as usize,
                })),
    {
        match size_guard::<T, To>(data) {
            Ok(d) => Ok(Self::force_new(d)),
            Err(e) => Err(e),
        }
    }

    /// As [`Self::checksize_new`], but a mismatch of the two byte sizes is a
    /// programming bug, not a recoverable condition: verified callers rule
    /// it out statically, and the run-time check stays in place as a fatal
    /// stop for callers outside the proof.
    pub fn checksize_new_or_panic(data: T) -> (r: Self)
        requires
            Self::sizes_compatible(),
        ensures
            r == Self::spec_new(data),
            r.spec_data() == data,
    {
        let ok = sizes_match::<T, To>();
        runtime_assert(ok);
        Self::force_new(data)
    }

    /// A reference to the payload as its original type.
    pub fn as_data(&self) -> (r: &T)
        ensures
            *r == self.spec_data(),
    {
        &self.data
    }

    /// A mutable reference to the payload as its original type. Writing
    /// through it changes the payload and nothing else.
    pub fn as_mut_data(&mut self) -> (r: &mut T)
        ensures
            *r == old(self).spec_data(),
            final(self).spec_data() == *final(r),
    {
        &mut self.data
    }

    /// Equivalent of [`Self::ignore_into`], under the name the accessor
    /// first carried.
    pub fn data(self) -> (r: T)
        ensures
            r == self.spec_data(),
    {
        self.ignore_into()
    }

    /// End the contract, abandoning the promise: the payload comes back as
    /// `T`, exactly as it was held, with no reinterpretation.
    pub fn ignore_into(self) -> (r: T)
        ensures
            r == self.spec_data(),
    {
        self.data
    }
}

/// Law: for types of equal byte size, a contract built from a payload and
/// then released gives that payload back unchanged.
pub proof fn lemma_contract_round_trip<T, To>(data: T)
    requires
        size_of::<T>() == size_of::<To>(),
    ensures
        DataTransmutContract::<T, To>::spec_new(data).spec_data() == data,
{
}

} // verus!
