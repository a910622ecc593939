//! Equality and order, both taken from the content.

use crate::arc_cow::ArcCow;
use std::cmp::Ordering;
use std::sync::Arc;
use vstd::prelude::*;
use vstd::std_specs::cmp::OrdSpec;
use vstd::std_specs::cmp::PartialEqSpec;
use vstd::std_specs::cmp::PartialOrdSpec;

verus! {

impl<T: ?Sized + PartialEq> PartialEq for ArcCow<'_, T> {
    /// Whether the two contents are equal under `T`'s equality: the result
    /// is one that `T`'s `eq` gives on the two contents, and where `T`
    /// follows its `eq_spec`, it is that.
    fn eq(&self, other: &Self) -> (equal: bool)
        ensures
            call_ensures(T::eq, (self.content(), other.content()), equal),
            T::obeys_eq_spec() ==> equal == self.content().eq_spec(other.content()),
    {
        let a = self.as_ref();
        let b = other.as_ref();
        a.eq(b)
    }
}

/// Two values are equal exactly when `T` holds their contents equal.
impl<T: ?Sized + PartialEq> vstd::std_specs::cmp::PartialEqSpecImpl for ArcCow<'_, T> {
    open spec fn obeys_eq_spec() -> bool {
        T::obeys_eq_spec()
    }

    open spec fn eq_spec(&self, other: &Self) -> bool {
        self.content().eq_spec(other.content())
    }
}

impl<T: ?Sized + Eq> Eq for ArcCow<'_, T> {

}

impl<T: ?Sized + PartialOrd> PartialOrd for ArcCow<'_, T> {
    /// How `T` orders the two contents: the result is one that `T`'s
    /// `partial_cmp` gives on them, and where `T` follows its
    /// `partial_cmp_spec`, it is that.
    fn partial_cmp(&self, other: &Self) -> (order: Option<Ordering>)
        ensures
            call_ensures(T::partial_cmp, (self.content(), other.content()), order),
            T::obeys_partial_cmp_spec() ==> order == self.content().partial_cmp_spec(
                other.content(),
            ),
    {
        self.as_ref().partial_cmp(other.as_ref())
    }
}

/// Two values are ordered as `T` orders their contents.
impl<T: ?Sized + PartialOrd> vstd::std_specs::cmp::PartialOrdSpecImpl for ArcCow<'_, T> {
    open spec fn obeys_partial_cmp_spec() -> bool {
        T::obeys_partial_cmp_spec()
    }

    open spec fn partial_cmp_spec(&self, other: &Self) -> Option<Ordering> {
        self.content().partial_cmp_spec(other.content())
    }
}

impl<T: ?Sized + Ord> ArcCow<'_, T> {
    /// How `T`'s total order places the two contents: the result is one
    /// that `T`'s `cmp` gives on them, and where `T` follows its `cmp_spec`,
    /// it is that. Method calls reach this function directly; the `Ord` impl
    /// below hands every call on to it.
    pub fn cmp(&self, other: &Self) -> (order: Ordering)
        ensures
            call_ensures(T::cmp, (self.content(), other.content()), order),
            T::obeys_cmp_spec() ==> order == self.content().cmp_spec(other.content()),
    {
        self.as_ref().cmp(other.as_ref())
    }
}

impl<T: ?Sized + Ord> Ord for ArcCow<'_, T> {
    /// The entry that sorts and ordered collections of the standard library
    /// call. Its body is one call of the verified `cmp` above and holds
    /// nothing of its own. The body is not verified, because this type
    /// defines no `cmp_spec` to hold it to; what is believed is that the
    /// call gives what that function's contract states.
    #[verifier::external_body]
    fn cmp(&self, other: &Self) -> (order: Ordering)
        ensures
            call_ensures(T::cmp, (self.content(), other.content()), order),
            T::obeys_cmp_spec() ==> order == self.content().cmp_spec(other.content()),
    {
        ArcCow::cmp(self, other)
    }
}

/// Equality depends on the content only: replacing either side by a value
/// with the same content, in whatever variant, leaves the answer unchanged.
pub proof fn lemma_eq_depends_on_content<T: ?Sized + PartialEq>(
    a: ArcCow<'_, T>,
    b: ArcCow<'_, T>,
    c: ArcCow<'_, T>,
)
    requires
        a.content() == b.content(),
    ensures
        a.eq_spec(&c) == b.eq_spec(&c),
        c.eq_spec(&a) == c.eq_spec(&b),
{
}

/// A borrowed value and an owned value with the same content are equal, in
/// both directions, provided `T` holds that content equal to itself.
pub proof fn lemma_borrowed_equals_owned<T: ?Sized + PartialEq>(x: &T, handle: Arc<T>)
    requires
        &*handle == x,
        x.eq_spec(x),
    ensures
        ArcCow::Borrowed(x).eq_spec(&ArcCow::Owned(handle)),
        ArcCow::Owned(handle).eq_spec(&ArcCow::Borrowed(x)),
{
}

/// Comparing two values gives what comparing their contents gives. The
/// content is what `borrow` returns, so a collection keyed by values can be
/// searched with plain content, and one keyed by content with a value,
/// without the two sides ever disagreeing on equality or order.
pub proof fn lemma_comparisons_agree_with_borrowed_form<T: ?Sized + PartialOrd>(
    a: ArcCow<'_, T>,
    b: ArcCow<'_, T>,
)
    ensures
        a.eq_spec(&b) == a.content().eq_spec(b.content()),
        a.partial_cmp_spec(&b) == a.content().partial_cmp_spec(b.content()),
{
}

/// A clone is equal to the value it was made from, in both directions,
/// provided `T` holds the content equal to itself.
pub proof fn lemma_clone_equals_source<T: ?Sized + PartialEq>(
    source: ArcCow<'_, T>,
    copy: ArcCow<'_, T>,
)
    requires
        copy == source,
        source.content().eq_spec(source.content()),
    ensures
        copy.eq_spec(&source),
        source.eq_spec(&copy),
{
}

/// Order is taken from the content only: where `T` puts `x` before `y`, a
/// value holding `x` comes before a value holding `y`, in every combination
/// of variants.
pub proof fn lemma_order_depends_on_content<T: ?Sized + PartialOrd>(
    x: &T,
    y: &T,
    a: ArcCow<'_, T>,
    b: ArcCow<'_, T>,
)
    requires
        a.content() == x,
        b.content() == y,
        x.partial_cmp_spec(y) == Some(Ordering::Less),
    ensures
        a.partial_cmp_spec(&b) == Some(Ordering::Less),
{
}

} // verus!
