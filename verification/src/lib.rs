//! Size-checked building blocks for bit-level type reinterpretation.
//!
//! Reinterpreting the bits of a value of one type as a value of another type
//! is only meaningful when both types occupy the same number of bytes. This
//! crate provides the checkable half of such an operation: guards that compare
//! the byte sizes of two types, a structured error that reports both sizes
//! together with the untouched input value, and a contract type that holds a
//! value of one type under the statically enforced promise that it may later
//! be read back as a second type of equal size.
//!
//! The reinterpretation itself is memory-layout-as-is: no byte-order
//! normalisation is performed anywhere, so what integer a byte array becomes,
//! for example, depends on the native endianness of the platform.

pub mod contract;
pub mod decimal;
pub mod err;
pub mod sizes;

pub use contract::DataTransmutContract;
pub use err::TransmuteErr;
pub use err::TransmuteErrKind;
pub use sizes::size_guard;
pub use sizes::sizes_match;
