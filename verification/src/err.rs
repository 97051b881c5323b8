//! The structured error of a refused reinterpretation.
//!
//! The only way a size-checked reinterpretation can fail is a mismatch of
//! the two byte sizes, so the error taxonomy has exactly one kind,
//! [`TransmuteErrKind::SizeMismatch`]. The full error [`TransmuteErr`]
//! additionally carries the input value back to the caller unmodified, so
//! that nothing is lost on failure.

use vstd::prelude::*;

verus! {

use crate::decimal::decimal_string;
use crate::decimal::spec_decimal;
use vstd::string::StringExecFns;

/// The reason a size-checked reinterpretation was refused.
#[derive(Clone, Copy, Debug, PartialEq, Eq)]
pub enum TransmuteErrKind {
    /// The two types differ in byte size: `atype` bytes at the input type,
    /// `btype` bytes at the requested output type.
    SizeMismatch { atype: usize, btype: usize },
}

/// The character sequence of the human-readable account of a size mismatch
/// of `atype` bytes against `btype` bytes.
pub open spec fn spec_size_mismatch_description(atype: nat, btype: nat) -> Seq<char> {
    "Invalid transmute: attempted to reinterpret type A ("@ + spec_decimal(atype)
        + " bytes) as incompatible type B ("@ + spec_decimal(btype)
        + " bytes). Sizes must match exactly."@
}

impl TransmuteErrKind {
    /// The byte size of the input type recorded in the reason.
    pub open spec fn spec_atype(self) -> usize {
        match self {
            TransmuteErrKind::SizeMismatch { atype, .. } => atype,
        }
    }

    /// The byte size of the output type recorded in the reason.
    pub open spec fn spec_btype(self) -> usize {
        match self {
            TransmuteErrKind::SizeMismatch { btype, .. } => btype,
        }
    }

    /// Build the mismatch reason from the two byte sizes.
    pub fn size_mismatch(atype: usize, btype: usize) -> (r: Self)
        ensures
            r == (TransmuteErrKind::SizeMismatch { atype, btype }),
    {
        TransmuteErrKind::SizeMismatch { atype, btype }
    }

    /// Whether the reason reports a mismatch of the two byte sizes.
    pub fn is_size_mismatch(&self) -> (r: bool)
        ensures
            r == (self matches TransmuteErrKind::SizeMismatch { .. }),
    {
        matches!(self, TransmuteErrKind::SizeMismatch { .. })
    }

    /// The human-readable account of the refusal, naming both sizes in bytes.
    pub fn as_description(&self) -> (s: String)
        ensures
            s@ == spec_size_mismatch_description(
                self.spec_atype() as nat,
                self.spec_btype() as nat,
            ),
    {
        let (atype, btype) = match *self {
            TransmuteErrKind::SizeMismatch { atype, btype } => (atype, btype),
        };
        let mut s = String::from_str("Invalid transmute: attempted to reinterpret type A (");
        let high = decimal_string(atype);
        s.append(high.as_str());
        s.append(" bytes) as incompatible type B (");
        let low = decimal_string(btype);
        s.append(low.as_str());
        s.append(" bytes). Sizes must match exactly.");
        proof {
            assert(s@ =~= spec_size_mismatch_description(
                self.spec_atype() as nat,
                self.spec_btype() as nat,
            ));
        }
        s
    }
}

/// A refused reinterpretation: the reason, together with the input value,
/// handed back unmodified so that no data is lost on failure.
#[derive(Debug, PartialEq, Eq)]
pub struct TransmuteErr<T> {
    data: T,
    kind: TransmuteErrKind,
}

impl<T> TransmuteErr<T> {
    /// The input value the error carries back.
    pub closed spec fn spec_data(self) -> T {
        self.data
    }

    /// The reason for the refusal.
    pub closed spec fn spec_kind(self) -> TransmuteErrKind {
        self.kind
    }

    /// Build an error from a reason and the value involved.
    pub fn new(kind: TransmuteErrKind, data: T) -> (r: Self)
        ensures
            r.spec_kind() == kind,
            r.spec_data() == data,
    {
        TransmuteErr { data, kind }
    }

    /// Build a size-mismatch error directly from the two byte sizes.
    pub fn size_mismatch(sizea: usize, sizeb: usize, data: T) -> (r: Self)
        ensures
            r.spec_kind() == (TransmuteErrKind::SizeMismatch { atype: sizea, btype: sizeb }),
            r.spec_data() == data,
    {
        TransmuteErr { data, kind: TransmuteErrKind::SizeMismatch { atype: sizea, btype: sizeb } }
    }

    /// The reason for the refusal.
    pub fn kind(&self) -> (r: TransmuteErrKind)
        ensures
            r == self.spec_kind(),
    {
        self.kind
    }

    /// Consume the error, keeping only the reason.
    pub fn into_kind(self) -> (r: TransmuteErrKind)
        ensures
            r == self.spec_kind(),
    {
        self.kind
    }

    /// Consume the error, handing the input value back.
    pub fn into_data(self) -> (r: T)
        ensures
            r == self.spec_data(),
    {
        self.data
    }

    /// A reference to the input value.
    pub fn as_data(&self) -> (r: &T)
        ensures
            *r == self.spec_data(),
    {
        &self.data
    }

    /// A mutable reference to the input value.
    pub fn as_mut_data(&mut self) -> (r: &mut T)
        ensures
            *r == old(self).spec_data(),
            final(self).spec_data() == *final(r),
            final(self).spec_kind() == old(self).spec_kind(),
    {
        &mut self.data
    }

    /// The human-readable account of the refusal, naming both sizes in bytes.
    pub fn as_description(&self) -> (s: String)
        ensures
            s@ == spec_size_mismatch_description(
                self.spec_kind().spec_atype() as nat,
                self.spec_kind().spec_btype() as nat,
            ),
    {
        self.kind.as_description()
    }
}

} // verus!
