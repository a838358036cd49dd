//! Case conversion of identifiers, done by the `convert_case` crate.
use vstd::prelude::*;
use convert_case::{Case, Casing};

verus! {

/// The cases into which sylvia converts identifiers.
#[derive(Clone, Copy, PartialEq, Eq, Structural, Debug)]
pub enum TextCase {
    /// `FooBar`
    UpperCamel,
    /// `FOO_BAR`
    UpperSnake,
    /// `foo_bar`
    Snake,
}

/// What `convert_case` makes of a text in the given case.
pub uninterp spec fn converted(s: Seq<char>, case: TextCase) -> Seq<char>;

/// Calls `Casing::to_case` of the `convert_case` crate on `s`, with the
/// `Case` variant of the same name. The contract claims only that the
/// result depends on the text and the case alone.
#[verifier::external_body]
pub(crate) fn to_case(s: &str, case: TextCase) -> (r: String)
    ensures
        r@ == converted(s@, case),
{
    let case = match case {
        TextCase::UpperCamel => Case::UpperCamel,
        TextCase::UpperSnake => Case::UpperSnake,
        TextCase::Snake => Case::Snake,
    };
    s.to_case(case)
}

} // verus!
