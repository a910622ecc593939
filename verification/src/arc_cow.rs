//! The two-variant value, its model, and the read path.

use std::borrow::Borrow;
use std::ops::Deref;
use std::sync::Arc;
use vstd::prelude::*;

verus! {

/// A value that is either a plain reference or a shared, reference-counted
/// handle. Both variants give read-only access to the same kind of content,
/// and the variant never changes once the value is made.
pub enum ArcCow<'a, T: ?Sized> {
    /// A reference whose owner outlives this value. Nothing is allocated and
    /// nothing is counted.
    Borrowed(&'a T),
    /// A shared handle that keeps its allocation alive.
    Owned(Arc<T>),
}

impl<'a, T: ?Sized> ArcCow<'a, T> {
    /// The content that this value gives access to, whichever variant holds
    /// it. Every contract of this crate that speaks of what a value means
    /// speaks of its content.
    pub open spec fn content(&self) -> &T {
        match self {
            ArcCow::Borrowed(borrowed) => *borrowed,
            ArcCow::Owned(owned) => &**owned,
        }
    }
}

/// The view of a value is the view of its content: the variant is not part
/// of it.
impl<'a, T: ?Sized + View> View for ArcCow<'a, T> {
    type V = T::V;

    open spec fn view(&self) -> T::V {
        self.content().view()
    }
}

impl<T: ?Sized> AsRef<T> for ArcCow<'_, T> {
    /// A reference to the content.
    fn as_ref(&self) -> (content: &T)
        ensures
            content == self.content(),
    {
        match self {
            ArcCow::Borrowed(borrowed) => borrowed,
            ArcCow::Owned(owned) => &**owned,
        }
    }
}

impl<T: ?Sized> Deref for ArcCow<'_, T> {
    type Target = T;

    /// A reference to the content.
    fn deref(&self) -> (content: &T)
        ensures
            content == self.content(),
    {
        match self {
            ArcCow::Borrowed(borrowed) => borrowed,
            ArcCow::Owned(owned) => &**owned,
        }
    }
}

impl<T: ?Sized + ToOwned> Borrow<T> for ArcCow<'_, T> {
    /// A reference to the content, so that a value can stand as the key when
    /// a collection keyed by `T` is searched.
    fn borrow(&self) -> &T
        returns
            self.content(),
    {
        match self {
            ArcCow::Borrowed(borrowed) => borrowed,
            ArcCow::Owned(owned) => &**owned,
        }
    }
}

impl<T: ?Sized> Clone for ArcCow<'_, T> {
    /// A copy of the same variant with the same content. A borrowed value
    /// copies its reference; an owned value takes one more handle to its
    /// allocation. The content itself is never copied.
    fn clone(&self) -> (copy: Self)
        ensures
            copy == *self,
    {
        match self {
            ArcCow::Borrowed(borrowed) => ArcCow::Borrowed(borrowed),
            ArcCow::Owned(owned) => ArcCow::Owned(Arc::clone(owned)),
        }
    }
}

} // verus!
