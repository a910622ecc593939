//! A read-only value that is either borrowed from its owner or shared through
//! an atomically reference-counted handle.
//!
//! [`ArcCow`] lets an interface hand out a plain reference when it has one and
//! a shared handle when it had to build the value, without the caller having
//! to tell the two apart: reading, comparing, hashing and formatting all go by
//! the content alone.

pub mod arc_cow;
pub mod compare;
pub mod convert;
pub mod format;
pub mod hashing;

pub use arc_cow::ArcCow;
