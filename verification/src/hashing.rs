//! Hashing, which hands the content to the hasher and nothing else.

use crate::arc_cow::ArcCow;
use std::collections::hash_map::DefaultHasher;
use std::hash::Hash;
use std::hash::Hasher;
use std::sync::Arc;
use vstd::prelude::*;

verus! {

/// What a `DefaultHasher` that has taken the writes `before` holds after
/// `str`'s `Hash` impl has fed it a text with the characters `content`.
pub uninterp spec fn text_fed(before: Seq<Seq<u8>>, content: Seq<char>) -> Seq<Seq<u8>>;

/// `Hash::hash` of `T`: feeds `content` to `state`. What that does to the
/// hasher depends on `T` and on the hasher, so nothing is claimed of it.
#[verifier::external_body]
fn feed<T: ?Sized + Hash, H: Hasher>(content: &T, state: &mut H) {
    content.hash(state)
}

/// `Hash::hash` of `str` into a `DefaultHasher`. The contract claims that
/// the hasher ends as `text_fed` says, which is to say that its new state
/// depends on its old state and on the characters alone.
#[verifier::external_body]
fn feed_text(content: &str, state: &mut DefaultHasher)
    ensures
        final(state)@ == text_fed(old(state)@, content@),
{
    content.hash(state)
}

impl<T: ?Sized + Hash> Hash for ArcCow<'_, T> {
    /// Hands the content, as `as_ref` gives it, to `T`'s `hash`. For a
    /// content type and a hasher that are not known, no clause can say what
    /// that leaves in the hasher; for text and a `DefaultHasher`,
    /// `hash_text` says it.
    fn hash<H: Hasher>(&self, state: &mut H) {
        feed(self.as_ref(), state)
    }
}

impl ArcCow<'_, str> {
    /// Feeds a text value to a `DefaultHasher`: the hasher ends as it would
    /// after the characters themselves, with no mark of the variant.
    pub fn hash_text(&self, state: &mut DefaultHasher)
        ensures
            final(state)@ == text_fed(old(state)@, self@),
    {
        feed_text(self.as_ref(), state)
    }
}

/// A borrowed text and an owned text with the same content leave a hasher
/// in the same state, whatever it had taken before.
pub proof fn lemma_text_fed_ignores_representation(
    before: Seq<Seq<u8>>,
    x: &str,
    handle: Arc<str>,
)
    requires
        &*handle == x,
    ensures
        text_fed(before, ArcCow::Borrowed(x)@) == text_fed(before, ArcCow::Owned(handle)@),
{
}

} // verus!
