//! Domain model and access-control rules of a hub-based chat platform.

use vstd::prelude::*;
use std::time::{SystemTime, UNIX_EPOCH};
use crate::decimal::{parse_decimal, parse_u128};
use crate::hash::{hash_hex, hashed};
use crate::text::chars_of;

pub mod api_types;
pub mod codec;
pub mod decimal;
pub mod escape;
pub mod hash;
pub mod ident;
pub mod permissions;
pub mod resolver;
pub mod text;
pub mod types;

verus! {

/// What identifies an account, a hub, a channel, a rank or a message: 128 bits.
pub type ID = u128;

/// Every character that may occur in a username.
pub const NAME_ALLOWED_CHARS: &'static str =
    " .,_-0123456789abcdefghijklmnopqrstuvwxyzABCDEFGHIJKLMNOPQRSTUVWXYZ";

/// Whether `c` may occur in a username: an ASCII letter or digit, a space, a full stop, a
/// comma, an underscore or a hyphen.
pub open spec fn allowed_in_name(c: char) -> bool {
    ||| c == ' '
    ||| c == '.'
    ||| c == ','
    ||| c == '_'
    ||| c == '-'
    ||| ('0' <= c && c <= '9')
    ||| ('a' <= c && c <= 'z')
    ||| ('A' <= c && c <= 'Z')
}

/// Whether `name` can be a username: between 1 and 31 characters, each of them allowed.
pub open spec fn valid_username(name: Seq<char>) -> bool {
    &&& 0 < name.len() < 32
    &&& forall|i: int| 0 <= i < name.len() ==> allowed_in_name(#[trigger] name[i])
}

/// The characters that may occur in a username are those of [`NAME_ALLOWED_CHARS`].
pub proof fn lemma_allowed_chars_listed(c: char)
    ensures
        allowed_in_name(c) == NAME_ALLOWED_CHARS@.contains(c),
{
    reveal_strlit(" .,_-0123456789abcdefghijklmnopqrstuvwxyzABCDEFGHIJKLMNOPQRSTUVWXYZ");
    let list = NAME_ALLOWED_CHARS@;
    assert(list.len() == 67);
    if allowed_in_name(c) {
        let i: int = if c == ' ' {
            0
        } else if c == '.' {
            1
        } else if c == ',' {
            2
        } else if c == '_' {
            3
        } else if c == '-' {
            4
        } else if '0' <= c && c <= '9' {
            5 + (c as int - '0' as int)
        } else if 'a' <= c && c <= 'z' {
            15 + (c as int - 'a' as int)
        } else {
            41 + (c as int - 'A' as int)
        };
        assert(0 <= i < 67);
        assert(list[i] == c);
    } else {
        assert forall|i: int| 0 <= i < list.len() implies list[i] != c by {
            assert(allowed_in_name(list[i]));
        }
    }
}

/// `Uuid::new_v4` of the `uuid` crate. Not proved: that the identifier, which is random,
/// always carries the marks of a version 4 identifier, the version 4 and the variant `10`.
#[verifier::external_body]
pub fn new_id() -> (id: ID)
    ensures
        id & 0x0000_0000_0000_f000_c000_0000_0000_0000 == 0x0000_0000_0000_4000_8000_0000_0000_0000,
{
    uuid::Uuid::new_v4().as_u128()
}

fn is_allowed_in_name(c: char) -> (allowed: bool)
    ensures
        allowed == allowed_in_name(c),
{
    c == ' ' || c == '.' || c == ',' || c == '_' || c == '-' || ('0' <= c && c <= '9') || ('a' <= c
        && c <= 'z') || ('A' <= c && c <= 'Z')
}

/// Whether `name` can be the username of an account.
pub fn is_valid_username(name: &str) -> (valid: bool)
    ensures
        valid == valid_username(name@),
{
    let mut count: usize = 0;
    for c in it: name.chars()
        invariant
            it.seq() == name@,
            count == it.index(),
            count < 32,
            forall|i: int| 0 <= i < it.index() ==> allowed_in_name(#[trigger] name@[i]),
    {
        if count >= 31 || !is_allowed_in_name(c) {
            return false;
        }
        count += 1;
    }
    count > 0
}

/// `SystemTime::now` of std, as milliseconds since the epoch; nothing where the clock is
/// set before the epoch. Not proved: anything about the time that is read.
#[verifier::external_body]
fn millis_since_epoch() -> (millis: Option<u128>) {
    match SystemTime::now().duration_since(UNIX_EPOCH) {
        Ok(elapsed) => Some(elapsed.as_millis()),
        Err(_) => None,
    }
}

/// The time that a reading of the clock stands for: the milliseconds that were read, or
/// the epoch itself where the clock gave none.
pub fn millis_or_epoch(reading: Option<u128>) -> (millis: u128)
    ensures
        millis == match reading {
            Some(read) => read,
            None => 0,
        },
{
    match reading {
        Some(read) => read,
        None => 0,
    }
}

/// The time in milliseconds since the epoch. A clock that is set before the epoch reads
/// as the epoch itself.
pub fn get_system_millis() -> u128 {
    millis_or_epoch(millis_since_epoch())
}

/// Reads an identifier that is written as a decimal number: an optional plus sign and at
/// least one digit, with a value that fits 128 bits. Anything else is an error.
pub fn uuid_from_num_string(string: &str) -> (r: Result<ID, ()>)
    ensures
        match parse_u128(string@) {
            Some(id) => r == Ok::<ID, ()>(id),
            None => r is Err,
        },
{
    let chars = chars_of(string);
    assert(chars@.subrange(0, chars@.len() as int) == chars@);
    match parse_decimal(&chars, 0, chars.len()) {
        Some(id) => Ok(id),
        None => Err(()),
    }
}

fn push_bytes(data: &mut Vec<u8>, bytes: &[u8])
    ensures
        final(data)@ == old(data)@ + bytes@,
{
    let mut i: usize = 0;
    while i < bytes.len()
        invariant
            i <= bytes.len(),
            data@ == old(data)@ + bytes@.take(i as int),
        decreases bytes.len() - i,
    {
        data.push(bytes[i]);
        i += 1;
    }
    assert(bytes@.take(i as int) == bytes@);
}

/// The identifier of the user that the service `service` knows as `id`: the hash of the
/// two texts, one after the other.
pub fn get_id(id: &str, service: &str) -> (hash: String)
    ensures
        hash@ == hashed(vstd::utf8::encode_utf8(id@) + vstd::utf8::encode_utf8(service@)),
{
    let mut data: Vec<u8> = Vec::new();
    push_bytes(&mut data, id.as_bytes());
    push_bytes(&mut data, service.as_bytes());
    assert(data@ == vstd::utf8::encode_utf8(id@) + vstd::utf8::encode_utf8(service@));
    hash_hex(data.as_slice())
}

} // verus!
