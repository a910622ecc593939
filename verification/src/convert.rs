//! The ways to make a value. Each names the variant it gives and what the
//! content is.

use crate::arc_cow::ArcCow;
use std::borrow::Cow;
use std::sync::Arc;
use vstd::prelude::*;
use vstd::string::StringSliceAdditionalSpecFns;

verus! {

/// `Arc<str>::from(String)`: the text moves into a reference-counted
/// allocation. The contract claims that the new handle leads to the same
/// characters.
#[verifier::external_body]
fn arc_from_string(text: String) -> (handle: Arc<str>)
    ensures
        (*handle)@ == text@,
{
    Arc::from(text)
}

/// `Arc<[T]>::from(Vec<T>)`: the items move into a reference-counted
/// allocation. The contract claims that the new handle leads to the same
/// items in the same order.
#[verifier::external_body]
fn arc_from_vec<T>(items: Vec<T>) -> (handle: Arc<[T]>)
    ensures
        (*handle)@ == items@,
{
    Arc::from(items)
}

impl<'a, T: ?Sized> From<&'a T> for ArcCow<'a, T> {
    /// A reference becomes a borrowed value; nothing is allocated.
    fn from(s: &'a T) -> (made: Self) {
        ArcCow::Borrowed(s)
    }
}

impl<'a, T: ?Sized> vstd::std_specs::convert::FromSpecImpl<&'a T> for ArcCow<'a, T> {
    open spec fn obeys_from_spec() -> bool {
        true
    }

    open spec fn from_spec(s: &'a T) -> Self {
        ArcCow::Borrowed(s)
    }
}

impl<T: ?Sized> From<Arc<T>> for ArcCow<'_, T> {
    /// A handle becomes an owned value that holds that very handle.
    fn from(s: Arc<T>) -> (made: Self) {
        ArcCow::Owned(s)
    }
}

impl<T: ?Sized> vstd::std_specs::convert::FromSpecImpl<Arc<T>> for ArcCow<'_, T> {
    open spec fn obeys_from_spec() -> bool {
        true
    }

    open spec fn from_spec(s: Arc<T>) -> Self {
        ArcCow::Owned(s)
    }
}

impl<T: ?Sized> From<&'_ Arc<T>> for ArcCow<'_, T> {
    /// A reference to a handle becomes an owned value with a handle of its
    /// own to the same allocation.
    fn from(s: &'_ Arc<T>) -> (made: Self) {
        ArcCow::Owned(Arc::clone(s))
    }
}

impl<T: ?Sized> vstd::std_specs::convert::FromSpecImpl<&'_ Arc<T>> for ArcCow<'_, T> {
    open spec fn obeys_from_spec() -> bool {
        true
    }

    open spec fn from_spec(s: &'_ Arc<T>) -> Self {
        ArcCow::Owned(*s)
    }
}

impl From<String> for ArcCow<'_, str> {
    /// An owned string becomes an owned value with the same characters.
    fn from(value: String) -> (made: Self)
        ensures
            made is Owned,
            made@ == value@,
    {
        ArcCow::Owned(arc_from_string(value))
    }
}

/// The handle that holds the text is made by the allocator, so the result is
/// described by the contract of `from` and not by a spec function.
impl vstd::std_specs::convert::FromSpecImpl<String> for ArcCow<'_, str> {
    open spec fn obeys_from_spec() -> bool {
        false
    }

    open spec fn from_spec(value: String) -> Self {
        arbitrary()
    }
}

impl From<&String> for ArcCow<'_, str> {
    /// A reference to an owned string becomes an owned value with a copy of
    /// its characters; the string itself is left as it was.
    fn from(value: &String) -> (made: Self)
        ensures
            made is Owned,
            made@ == value@,
    {
        ArcCow::Owned(arc_from_string(value.clone()))
    }
}

/// See the impl for `String`.
impl vstd::std_specs::convert::FromSpecImpl<&String> for ArcCow<'_, str> {
    open spec fn obeys_from_spec() -> bool {
        false
    }

    open spec fn from_spec(value: &String) -> Self {
        arbitrary()
    }
}

impl<'a> From<Cow<'a, str>> for ArcCow<'a, str> {
    /// A copy-on-write string keeps its variant: a borrowed one becomes a
    /// borrowed value over the same reference, an owned one becomes an owned
    /// value with the same characters.
    fn from(value: Cow<'a, str>) -> (made: Self)
        ensures
            match value {
                Cow::Borrowed(borrowed) => made == ArcCow::Borrowed(borrowed),
                Cow::Owned(owned) => made is Owned && made@ == owned@,
            },
    {
        match value {
            Cow::Borrowed(borrowed) => ArcCow::Borrowed(borrowed),
            Cow::Owned(owned) => ArcCow::Owned(arc_from_string(owned)),
        }
    }
}

/// See the impl for `String`.
impl<'a> vstd::std_specs::convert::FromSpecImpl<Cow<'a, str>> for ArcCow<'a, str> {
    open spec fn obeys_from_spec() -> bool {
        false
    }

    open spec fn from_spec(value: Cow<'a, str>) -> Self {
        arbitrary()
    }
}

impl<T> From<Vec<T>> for ArcCow<'_, [T]> {
    /// An owned sequence becomes an owned slice with the same items.
    fn from(vec: Vec<T>) -> (made: Self)
        ensures
            made is Owned,
            made@ == vec@,
    {
        ArcCow::Owned(arc_from_vec(vec))
    }
}

/// See the impl for `String`.
impl<T> vstd::std_specs::convert::FromSpecImpl<Vec<T>> for ArcCow<'_, [T]> {
    open spec fn obeys_from_spec() -> bool {
        false
    }

    open spec fn from_spec(vec: Vec<T>) -> Self {
        arbitrary()
    }
}

impl<'a> From<&'a str> for ArcCow<'a, [u8]> {
    /// A string slice becomes a borrowed byte slice over its UTF-8 bytes;
    /// nothing is copied.
    fn from(s: &'a str) -> (made: Self)
        ensures
            made is Borrowed,
            made@ == s.spec_bytes(),
    {
        ArcCow::Borrowed(s.as_bytes())
    }
}

/// The byte slice is known by its view only, so the result is described by
/// the contract of `from` and not by a spec function.
impl<'a> vstd::std_specs::convert::FromSpecImpl<&'a str> for ArcCow<'a, [u8]> {
    open spec fn obeys_from_spec() -> bool {
        false
    }

    open spec fn from_spec(s: &'a str) -> Self {
        arbitrary()
    }
}

} // verus!
