use vstd::prelude::*;

verus! {

/// Whether `s` reads exactly `literal`.
pub(crate) fn text_is(s: &String, literal: &str) -> (same: bool)
    ensures
        same == (s@ == literal@),
{
    let expected = String::from_str(literal);
    *s == expected
}

} // verus!
