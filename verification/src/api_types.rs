//! What requests carry and what answers hold.

use vstd::prelude::*;
use crate::ID;
use crate::text::chars_of;

verus! {

/// Goes with every request that needs a signed-in user.
#[derive(Clone, Debug, PartialEq)]
pub struct UserToken {
    pub user: String,
    pub token: String,
}

/// What it takes to add an account to a user.
#[derive(Clone, Debug, PartialEq)]
pub struct CreateAccountQuery {
    pub name: String,
    pub is_bot: bool,
}

/// What it takes to create a hub.
#[derive(Clone, Debug, PartialEq)]
pub struct HubCreateQuery {
    pub account: ID,
    pub name: String,
}

/// What it takes to create a channel in a hub.
#[derive(Clone, Debug, PartialEq)]
pub struct ChannelCreateQuery {
    pub account: ID,
    pub hub: ID,
    pub name: String,
}

/// What it takes to send a message to a channel.
#[derive(Clone, Debug, PartialEq)]
pub struct MessageSendQuery {
    pub account: ID,
    pub hub: ID,
    pub channel: ID,
    pub message: String,
}

/// What it takes to list the channels of a hub.
#[derive(Clone, Debug, PartialEq)]
pub struct ChannelsQuery {
    pub account: ID,
    pub hub: ID,
}

/// What it takes to read the last messages of a channel.
#[derive(Clone, Debug, PartialEq)]
pub struct LastMessagesQuery {
    pub account: ID,
    pub hub: ID,
    pub channel: ID,
    pub count: u128,
}

/// What a sign-in service hands back to the platform.
#[derive(Clone, Debug, PartialEq)]
pub struct AuthQuery {
    pub state: String,
    pub code: String,
    pub expires: Option<u128>,
}

/// The answer to a sign-in that went well.
#[derive(Clone, Debug, PartialEq)]
pub struct AccountTokenResponse {
    pub id: String,
    pub token: String,
}

/// A service that users can sign in with.
pub enum Service {
    GitHub,
}

/// `c` in lower case where it is an ASCII capital letter, else `c` itself.
pub open spec fn ascii_lower(c: char) -> char {
    if 'A' <= c && c <= 'Z' {
        ((c as u8) + 32) as char
    } else {
        c
    }
}

/// `s` with its ASCII capital letters in lower case.
pub open spec fn to_ascii_lower(s: Seq<char>) -> Seq<char> {
    s.map_values(|c: char| ascii_lower(c))
}

impl Service {
    /// The name of this service, in lower case.
    pub open spec fn name(self) -> Seq<char> {
        match self {
            Service::GitHub => seq!['g', 'i', 't', 'h', 'u', 'b'],
        }
    }

    /// The service that `s` names, if any. Upper and lower case of ASCII letters count
    /// as the same.
    pub open spec fn named(s: Seq<char>) -> Option<Service> {
        if to_ascii_lower(s) == Service::GitHub.name() {
            Some(Service::GitHub)
        } else {
            None
        }
    }

    /// The name of this service, in lower case.
    pub fn to_string(&self) -> (name: String)
        ensures
            name@ == self.name(),
    {
        match self {
            Service::GitHub => {
                proof {
                    reveal_strlit("github");
                }
                let name = "github".to_owned();
                assert(name@ =~= Service::GitHub.name());
                name
            },
        }
    }

    /// The service that `s` names. A text that names no service is an error.
    pub fn from_str(s: &str) -> (r: Result<Service, ()>)
        ensures
            match Service::named(s@) {
                Some(service) => r == Ok::<Service, ()>(service),
                None => r is Err,
            },
    {
        let chars = chars_of(s);
        let ghost lower = to_ascii_lower(s@);
        if chars.len() != 6 {
            assert(lower.len() != 6);
            return Err(());
        }
        let matches = is_letter(chars[0], 'g', 'G') && is_letter(chars[1], 'i', 'I') && is_letter(
            chars[2],
            't',
            'T',
        ) && is_letter(chars[3], 'h', 'H') && is_letter(chars[4], 'u', 'U') && is_letter(
            chars[5],
            'b',
            'B',
        );
        if matches {
            assert(lower =~= Service::GitHub.name());
            Ok(Service::GitHub)
        } else {
            assert(lower[0] == ascii_lower(s@[0]));
            assert(lower[1] == ascii_lower(s@[1]));
            assert(lower[2] == ascii_lower(s@[2]));
            assert(lower[3] == ascii_lower(s@[3]));
            assert(lower[4] == ascii_lower(s@[4]));
            assert(lower[5] == ascii_lower(s@[5]));
            Err(())
        }
    }
}

/// Whether `c` is the lower-case letter `lower` or its capital `upper`.
fn is_letter(c: char, lower: char, upper: char) -> (same: bool)
    requires
        'a' <= lower <= 'z',
        upper as int + 32 == lower as int,
    ensures
        same == (ascii_lower(c) == lower),
{
    c == lower || c == upper
}

impl std::str::FromStr for Service {
    type Err = ();

    /// The service that `s` names. A text that names no service is an error.
    fn from_str(s: &str) -> (r: Result<Service, ()>)
        ensures
            match Service::named(s@) {
                Some(service) => r == Ok::<Service, ()>(service),
                None => r is Err,
            },
    {
        Service::from_str(s)
    }
}

} // verus!
