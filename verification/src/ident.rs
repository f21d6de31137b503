//! Identifiers as text.

use vstd::prelude::*;
use crate::ID;
use crate::hash::{hash_hex, hashed, hex_lower};

verus! {

/// The sixteen bytes of `id`, the most significant first.
pub open spec fn be_bytes(id: u128) -> Seq<u8> {
    Seq::new(16, |i: int| ((id >> ((8 * (15 - i)) as u128)) & 0xff) as u8)
}

/// The hyphenated text of `id`: its 32 lower-case hexadecimal digits in groups of
/// 8, 4, 4, 4 and 12, with a hyphen between the groups.
pub open spec fn id_text(id: u128) -> Seq<char> {
    let digits = hex_lower(be_bytes(id));
    digits.subrange(0, 8) + seq!['-'] + digits.subrange(8, 12) + seq!['-'] + digits.subrange(
        12,
        16,
    ) + seq!['-'] + digits.subrange(16, 20) + seq!['-'] + digits.subrange(20, 32)
}

/// What stands for a hub in the public form of an account: the hash of the hub's
/// hyphenated identifier.
pub open spec fn hub_hash(hub: u128) -> Seq<char> {
    hashed(vstd::utf8::encode_utf8(id_text(hub)))
}

/// `Uuid::to_string` of the `uuid` crate, on the identifier made by `Uuid::from_u128`.
/// Not proved: that the text is the lower-case hyphenated form of the 128 bits read as
/// sixteen bytes, the most significant first.
#[verifier::external_body]
fn id_to_text(id: ID) -> (text: String)
    ensures
        text@ == id_text(id),
{
    uuid::Uuid::from_u128(id).to_string()
}

/// The hash that stands for `hub` in the public form of an account.
pub fn hash_hub(hub: ID) -> (text: String)
    ensures
        text@ == hub_hash(hub),
{
    let name = id_to_text(hub);
    hash_hex(name.as_str().as_bytes())
}

} // verus!
