use vstd::prelude::*;

verus! {

/// Bits that mark a random (version 4, RFC 4122 variant) identifier.
pub const UUID_V4_MASK: u128 = 0x0000_0000_0000_F000_C000_0000_0000_0000;

/// Values of those bits in every random identifier.
pub const UUID_V4_BITS: u128 = 0x0000_0000_0000_4000_8000_0000_0000_0000;

/// Relies on uuid::Uuid::new_v4 and Uuid::as_u128: a fresh random identifier,
/// whose version and variant bits are always set as for a version 4 UUID.
#[verifier::external_body]
pub(crate) fn fresh_uuid() -> (r: u128)
    ensures
        r & UUID_V4_MASK == UUID_V4_BITS,
{
    uuid::Uuid::new_v4().as_u128()
}

/// Whether a counter value is zero; a `read_ok` reply leaves such a value out.
pub fn is_zero(value: &usize) -> (r: bool)
    ensures
        r == (*value == 0),
{
    *value == 0
}

} // verus!
