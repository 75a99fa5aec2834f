//! What a field's type tells the library about its values.

use crate::capability::Capability;
use vstd::prelude::*;

verus! {

/// A value could not be written out.
#[derive(Clone, Copy, PartialEq, Eq, Debug)]
pub struct FormatError;

/// How a sink changes when `text` is written to it: the text is appended, or,
/// where there is none, the write fails and the sink keeps what it held.
pub open spec fn wrote(
    before: Seq<char>,
    after: Seq<char>,
    text: Option<Seq<char>>,
    result: Result<(), FormatError>,
) -> bool {
    match text {
        Some(s) => result is Ok && after == before + s,
        None => result is Err && after == before,
    }
}

/// A type whose values can stand in a field of a container.
///
/// The type states which representations its values have, writes a value out
/// in one of them, and states whether it is the platform's index type.
/// Unless a type says otherwise it has no representation and is no index.
pub trait FormatValue {
    /// Whether values of this type have the representation `cap`.
    open spec fn supports(cap: Capability) -> bool {
        false
    }

    /// The text of `self` in the representation `cap`, or `None` where
    /// writing it fails. Meaningful only where `supports(cap)`.
    open spec fn text(&self, cap: Capability) -> Option<Seq<char>> {
        None
    }

    /// Whether this type is the platform's unsigned index type.
    open spec fn narrows() -> bool {
        false
    }

    /// The value of `self` as an index. Meaningful only where `narrows()`.
    open spec fn index(&self) -> usize {
        0
    }

    /// Whether values of this type have the representation `cap`.
    fn allowed(cap: Capability) -> (b: bool)
        ensures
            b == Self::supports(cap),
    ;

    /// Appends `self` in the representation `cap` to `sink`.
    fn perform(&self, cap: Capability, sink: &mut String) -> (r: Result<(), FormatError>)
        requires
            Self::supports(cap),
        ensures
            wrote(old(sink)@, final(sink)@, self.text(cap), r),
    ;

    /// Whether this type is the platform's unsigned index type.
    fn is_index() -> (b: bool)
        ensures
            b == Self::narrows(),
    ;

    /// `self` as an index: the value itself where the type is the index
    /// type, nothing for any other type.
    fn as_index(&self) -> (r: Option<&usize>)
        ensures
            r is Some <==> Self::narrows(),
            r matches Some(i) ==> *i == self.index(),
    ;
}

} // verus!
