use vstd::prelude::*;

verus! {

/// Relies on uuid's Uuid::new_v4: a freshly drawn random identifier.
/// Nothing is promised of the value.
#[verifier::external_body]
pub(crate) fn fresh_uuid() -> (r: u128)
{
    uuid::Uuid::new_v4().as_u128()
}

/// A lowercase hexadecimal digit.
pub open spec fn is_lower_hex_digit(c: char) -> bool {
    ('0' <= c && c <= '9') || ('a' <= c && c <= 'f')
}

/// Relies on uuid's Uuid::new_v4 and its hyphenated text form: a freshly
/// drawn connection identifier in the canonical shape, 36 characters with
/// hyphens at positions 8, 13, 18 and 23 and lowercase hexadecimal digits
/// everywhere else. Distinctness of separate draws is a matter of chance
/// and is not promised.
#[verifier::external_body]
pub fn generate_client_id() -> (r: String)
    ensures
        r@.len() == 36,
        r@[8] == '-' && r@[13] == '-' && r@[18] == '-' && r@[23] == '-',
        forall|i: int|
            0 <= i < 36 && i != 8 && i != 13 && i != 18 && i != 23 ==> is_lower_hex_digit(
                #[trigger] r@[i],
            ),
{
    uuid::Uuid::new_v4().to_string()
}

} // verus!
