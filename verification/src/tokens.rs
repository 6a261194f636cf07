use vstd::prelude::*;

verus! {

/// A lowercase hexadecimal digit.
pub open spec fn is_lower_hex(c: char) -> bool {
    ('0' <= c && c <= '9') || ('a' <= c && c <= 'f')
}

/// `s` is the hyphenated, lowercase text form of a random (version 4, RFC 4122
/// variant) UUID: `xxxxxxxx-xxxx-4xxx-Nxxx-xxxxxxxxxxxx` with `N` one of `8 9 a b`.
pub open spec fn is_v4_token(s: Seq<char>) -> bool {
    &&& s.len() == 36
    &&& forall|i: int|
        0 <= i < 36 ==> if i == 8 || i == 13 || i == 18 || i == 23 {
            s[i] == '-'
        } else {
            is_lower_hex(#[trigger] s[i])
        }
    &&& s[14] == '4'
    &&& (s[19] == '8' || s[19] == '9' || s[19] == 'a' || s[19] == 'b')
}

/// Draws a fresh random UUID with `uuid::Uuid::new_v4` and renders it with its
/// `Display` impl (`to_string`). Trusted: the result is random, so the contract
/// only states its shape, which `new_v4` (version and variant bits masked in)
/// and the hyphenated lowercase formatter of the `uuid` crate guarantee.
#[verifier::external_body]
pub(crate) fn random_uuid_string() -> (s: String)
    ensures
        is_v4_token(s@),
{
    uuid::Uuid::new_v4().to_string()
}

} // verus!
