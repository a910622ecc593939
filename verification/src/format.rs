//! Debug formatting, which prints the content as `T` prints it.

use crate::arc_cow::ArcCow;
use std::fmt::Debug;
use std::fmt::Formatter;
use std::sync::Arc;
use vstd::prelude::*;

verus! {

/// `std::fmt::Formatter`, which is carried through and never looked into.
#[verifier::external_type_specification]
#[verifier::external_body]
pub struct ExFormatter<'a>(std::fmt::Formatter<'a>);

/// `std::fmt::Error`, which is carried through and never looked into.
#[verifier::external_type_specification]
#[verifier::external_body]
pub struct ExFmtError(std::fmt::Error);

/// What `str`'s `Debug` impl writes, under the default settings, for a text
/// with the characters `content`: the text in double quotes, with the
/// characters escaped that the standard library escapes.
pub uninterp spec fn debug_text(content: Seq<char>) -> Seq<char>;

/// `Debug::fmt` of `T`: writes `content` to `f`. What is written depends on
/// `T` and on the formatter's settings, so nothing is claimed of it.
#[verifier::external_body]
fn write_debug<T: ?Sized + Debug>(content: &T, f: &mut Formatter<'_>) -> Result<
    (),
    std::fmt::Error,
> {
    Debug::fmt(content, f)
}

/// `Debug::fmt` of `str`, run by `format!` under the default settings. The
/// contract claims that the result is `debug_text` of the characters, which
/// is to say that it depends on the characters alone.
#[verifier::external_body]
fn debug_of_text(content: &str) -> (text: String)
    ensures
        text@ == debug_text(content@),
{
    format!("{:?}", content)
}

impl<T: ?Sized + Debug> Debug for ArcCow<'_, T> {
    /// Writes the content as `T` writes it, with no mark of the variant.
    fn fmt(&self, f: &mut Formatter<'_>) -> Result<(), std::fmt::Error> {
        write_debug(self.as_ref(), f)
    }
}

impl ArcCow<'_, str> {
    /// The debug output of a text value as a string: that of its characters,
    /// with no mark of the variant.
    pub fn debug_string(&self) -> (text: String)
        ensures
            text@ == debug_text(self@),
    {
        debug_of_text(self.as_ref())
    }
}

/// A borrowed text and an owned text with the same content have the same
/// debug output.
pub proof fn lemma_debug_text_ignores_representation(x: &str, handle: Arc<str>)
    requires
        &*handle == x,
    ensures
        debug_text(ArcCow::Borrowed(x)@) == debug_text(ArcCow::Owned(handle)@),
{
}

} // verus!
