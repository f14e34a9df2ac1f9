use vstd::prelude::*;

verus! {

/// A lower-case hexadecimal digit.
pub open spec fn is_hex_digit(c: char) -> bool {
    ('0' <= c && c <= '9') || ('a' <= c && c <= 'f')
}

/// The shape of a generated key: 36 characters, hyphens after the groups of
/// 8, 4, 4 and 4, and lower-case hexadecimal digits elsewhere; the third
/// group starts with the version, `4`, and the fourth with the variant, one
/// of `8`, `9`, `a` and `b`.
pub open spec fn is_key(s: Seq<char>) -> bool {
    &&& s.len() == 36
    &&& s[14] == '4'
    &&& (s[19] == '8' || s[19] == '9' || s[19] == 'a' || s[19] == 'b')
    &&& forall|i: int|
        0 <= i < 36 ==> if i == 8 || i == 13 || i == 18 || i == 23 {
            #[trigger] s[i] == '-'
        } else {
            is_hex_digit(s[i])
        }
}

/// `uuid::Uuid::new_v4` followed by the identifier's `Display`, which writes
/// the hyphenated lower-case form. Which identifier comes out is random: only
/// its shape is stated, with the version and variant digits that `new_v4`
/// sets.
#[verifier::external_body]
pub(crate) fn fresh_key() -> (key: String)
    ensures
        is_key(key@),
{
    uuid::Uuid::new_v4().to_string()
}

} // verus!
