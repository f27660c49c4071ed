//! The 128-bit identifiers under which sessions are kept, how they are drawn
//! and how they are written in transport.

use crate::challenge::hex_text;
use vstd::prelude::*;

verus! {

/// A 128-bit identifier. The entity draws one for every session; the key-share
/// linkage of the session is kept under the same value.
#[derive(Debug, Clone, Copy, PartialEq, Eq, Hash, Structural)]
pub struct Identifier(pub u128);

/// Whether `bits` are laid out as a random (version 4) UUID: the version field
/// holds 4 and the variant field starts with the bits 1 and 0. The other 122
/// bits are free.
pub open spec fn is_random_layout(bits: u128) -> bool {
    bits & 0x0000_0000_0000_f000_c000_0000_0000_0000 == 0x0000_0000_0000_4000_8000_0000_0000_0000
}

/// `bits` in the hyphenated form of a UUID: its 32 hexadecimal digits in
/// groups of 8, 4, 4, 4 and 12, with a hyphen between the groups.
pub open spec fn hyphenated_text(bits: u128) -> Seq<char> {
    let digits = hex_text(bits);
    digits.subrange(0, 8) + seq!['-'] + digits.subrange(8, 12) + seq!['-'] + digits.subrange(
        12,
        16,
    ) + seq!['-'] + digits.subrange(16, 20) + seq!['-'] + digits.subrange(20, 32)
}

/// Draws 128 bits with `uuid::Uuid::new_v4` and reads them with
/// `uuid::Uuid::as_u128`. The bits come from the operating system's random
/// source, so nothing is claimed of them but the layout that `new_v4` forces on
/// every value it returns. The call panics if the operating system refuses to
/// give random bytes; no argument could prevent that.
#[verifier::external_body]
pub(crate) fn random_uuid_bits() -> (bits: u128)
    ensures
        is_random_layout(bits),
{
    uuid::Uuid::new_v4().as_u128()
}

/// Writes `bits` as `uuid::Uuid::from_u128` followed by
/// `uuid::Uuid::hyphenated` and `to_string` does: the big-endian bytes of
/// `bits` as lower-case hexadecimal digits, with hyphens after the digits 8,
/// 12, 16 and 20.
#[verifier::external_body]
pub(crate) fn uuid_hyphenated(bits: u128) -> (text: String)
    ensures
        text@ == hyphenated_text(bits),
{
    uuid::Uuid::from_u128(bits).hyphenated().to_string()
}

impl Identifier {
    /// The identifier that stands for "none": all bits zero.
    pub open spec fn spec_nil() -> Identifier {
        Identifier(0)
    }

    pub fn nil() -> (id: Identifier)
        ensures
            id == Identifier::spec_nil(),
    {
        Identifier(0)
    }

    /// Draws an identifier at random.
    pub fn generate() -> (id: Identifier)
        ensures
            is_random_layout(id.0),
    {
        Identifier(random_uuid_bits())
    }
}

} // verus!
