//! The entities of the platform: accounts, users, hubs, channels and messages.

use vstd::prelude::*;
use std::collections::{HashMap, HashSet};
use crate::ID;
use crate::permissions::{
    ChannelPermission, ChannelPermissions, HubPermission, HubPermissions, PermissionSetting,
};
use crate::ident::{hash_hub, hub_hash};
use crate::codec::{decode, encode, find_fields};
use crate::decimal::{parse_decimal, push_decimal};
use crate::escape::{push_escaped, unescape_from};
use crate::text::chars_of;

verus! {

/// An account: one identity of a user. A user may hold several, so that a bot can be kept
/// apart from the person who runs it.
#[derive(Debug, Clone, PartialEq)]
pub struct Account {
    pub id: ID,
    pub username: String,
    pub created: u128,
    /// The user that owns this account.
    pub parent_id: String,
    pub is_bot: bool,
    /// The hubs that this account has joined.
    pub in_hubs: Vec<ID>,
}

/// What an [`Account`] holds.
pub struct AccountView {
    pub id: u128,
    pub username: Seq<char>,
    pub created: u128,
    pub parent_id: Seq<char>,
    pub is_bot: bool,
    pub in_hubs: Seq<u128>,
}

impl View for Account {
    type V = AccountView;

    open spec fn view(&self) -> AccountView {
        AccountView {
            id: self.id,
            username: self.username@,
            created: self.created,
            parent_id: self.parent_id@,
            is_bot: self.is_bot,
            in_hubs: self.in_hubs@,
        }
    }
}

/// The public form of an account: the hubs that it has joined are not named, a hash stands
/// for each of them.
#[derive(Debug, Clone, PartialEq)]
pub struct GenericAccount {
    pub id: ID,
    pub username: String,
    pub created: u128,
    pub parent_id: String,
    pub is_bot: bool,
    pub hubs_hashed: Vec<String>,
}

/// What a [`GenericAccount`] holds.
pub struct GenericAccountView {
    pub id: u128,
    pub username: Seq<char>,
    pub created: u128,
    pub parent_id: Seq<char>,
    pub is_bot: bool,
    pub hubs_hashed: Seq<Seq<char>>,
}

impl View for GenericAccount {
    type V = GenericAccountView;

    open spec fn view(&self) -> GenericAccountView {
        GenericAccountView {
            id: self.id,
            username: self.username@,
            created: self.created,
            parent_id: self.parent_id@,
            is_bot: self.is_bot,
            hubs_hashed: self.hubs_hashed@.map_values(|hash: String| hash@),
        }
    }
}

impl AccountView {
    /// The public form of this account: every field as it is, but for the hubs, each of
    /// which gives way to its hash, in the same order.
    pub open spec fn generic(self) -> GenericAccountView {
        GenericAccountView {
            id: self.id,
            username: self.username,
            created: self.created,
            parent_id: self.parent_id,
            is_bot: self.is_bot,
            hubs_hashed: self.in_hubs.map_values(|hub: u128| hub_hash(hub)),
        }
    }
}

impl Account {
    /// The public form of this account.
    pub fn to_generic(&self) -> (generic: GenericAccount)
        ensures
            generic@ == self@.generic(),
    {
        let mut hubs_hashed: Vec<String> = Vec::new();
        let mut i: usize = 0;
        while i < self.in_hubs.len()
            invariant
                i <= self.in_hubs.len(),
                hubs_hashed@.len() == i,
                forall|j: int| 0 <= j < i ==> (#[trigger] hubs_hashed@[j])@ == hub_hash(self.in_hubs@[j]),
            decreases self.in_hubs.len() - i,
        {
            hubs_hashed.push(hash_hub(self.in_hubs[i]));
            i += 1;
        }
        let generic = GenericAccount {
            id: self.id,
            username: self.username.clone(),
            created: self.created,
            parent_id: self.parent_id.clone(),
            is_bot: self.is_bot,
            hubs_hashed,
        };
        assert(generic@.hubs_hashed =~= self@.generic().hubs_hashed);
        generic
    }
}

/// A user: who signed up, and the accounts that they own.
#[derive(Debug, Clone, PartialEq)]
pub struct User {
    /// Given by the service that the user signed up with.
    pub id: String,
    pub email: String,
    pub created: u128,
    /// The name of the service that the user signed up with.
    pub service: String,
    pub accounts: HashMap<ID, Account>,
}

/// What a [`User`] holds.
pub struct UserView {
    pub id: Seq<char>,
    pub email: Seq<char>,
    pub created: u128,
    pub service: Seq<char>,
    pub accounts: Map<u128, AccountView>,
}

impl View for User {
    type V = UserView;

    open spec fn view(&self) -> UserView {
        UserView {
            id: self.id@,
            email: self.email@,
            created: self.created,
            service: self.service@,
            accounts: account_views(self.accounts@),
        }
    }
}

/// The public form of a user: neither the email address nor the service is in it, and the
/// accounts are in their public form.
#[derive(Debug, Clone, PartialEq)]
pub struct GenericUser {
    pub id: String,
    pub created: u128,
    pub users: HashMap<ID, GenericAccount>,
}

/// What a [`GenericUser`] holds.
pub struct GenericUserView {
    pub id: Seq<char>,
    pub created: u128,
    pub users: Map<u128, GenericAccountView>,
}

impl View for GenericUser {
    type V = GenericUserView;

    open spec fn view(&self) -> GenericUserView {
        GenericUserView {
            id: self.id@,
            created: self.created,
            users: generic_account_views(self.users@),
        }
    }
}

/// What the accounts of a map hold, account by account.
pub open spec fn account_views(accounts: Map<u128, Account>) -> Map<u128, AccountView> {
    accounts.map_values(|account: Account| account@)
}

/// What the public accounts of a map hold, account by account.
pub open spec fn generic_account_views(accounts: Map<u128, GenericAccount>) -> Map<
    u128,
    GenericAccountView,
> {
    accounts.map_values(|account: GenericAccount| account@)
}

/// The public form of every account of a map, under the same key.
pub open spec fn generic_accounts(accounts: Map<u128, AccountView>) -> Map<
    u128,
    GenericAccountView,
> {
    accounts.map_values(|account: AccountView| account.generic())
}

impl UserView {
    /// The public form of this user: identifier, creation time and the public form of
    /// each account.
    pub open spec fn generic(self) -> GenericUserView {
        GenericUserView {
            id: self.id,
            created: self.created,
            users: generic_accounts(self.accounts),
        }
    }
}

impl User {
    /// The public form of every account of `users`, under the same key.
    pub fn accounts_generic(users: &HashMap<ID, Account>) -> (generic: HashMap<
        ID,
        GenericAccount,
    >)
        ensures
            generic_account_views(generic@) == generic_accounts(account_views(users@)),
    {
        let mut generic: HashMap<ID, GenericAccount> = HashMap::new();
        for entry in it: users.iter()
            invariant
                forall|k: u128| #[trigger]
                    generic@.contains_key(k) ==> users@.contains_key(k) && generic@[k]@
                        == users@[k]@.generic(),
                forall|j: int|
                    0 <= j < it.index() ==> generic@.contains_key(*(#[trigger] it.seq()[j]).0),
        {
            let (id, account) = entry;
            generic.insert(*id, account.to_generic());
        }
        assert(generic_account_views(generic@) =~= generic_accounts(account_views(users@)));
        generic
    }

    /// The public form of this user.
    pub fn to_generic(&self) -> (generic: GenericUser)
        ensures
            generic@ == self@.generic(),
    {
        GenericUser {
            id: self.id.clone(),
            created: self.created,
            users: User::accounts_generic(&self.accounts),
        }
    }
}

/// The public form of an account holds one hash for each hub that the account has joined,
/// in the same order.
pub proof fn lemma_hub_hashes_in_order(account: AccountView)
    ensures
        account.generic().hubs_hashed.len() == account.in_hubs.len(),
        forall|i: int|
            0 <= i < account.in_hubs.len() ==> #[trigger] account.generic().hubs_hashed[i]
                == hub_hash(account.in_hubs[i]),
{
}

/// The hashes of the public form are fixed by the hubs alone: whenever it is derived, and
/// from whichever account that has joined the same hubs in the same order, they are the
/// same.
pub proof fn lemma_hub_hashes_determined(first: AccountView, second: AccountView)
    requires
        first.in_hubs == second.in_hubs,
    ensures
        first.generic().hubs_hashed == second.generic().hubs_hashed,
{
}

/// The public form of a user tells nothing of the email address or of the service: users
/// that differ in nothing else have the same public form.
pub proof fn lemma_generic_user_hides_email(first: UserView, second: UserView)
    requires
        first.id == second.id,
        first.created == second.created,
        first.accounts == second.accounts,
    ensures
        first.generic() == second.generic(),
{
}

/// The settings of a member or a rank for single channels, by channel.
pub open spec fn channel_settings(channels: Map<u128, ChannelPermissions>) -> Map<
    u128,
    Map<ChannelPermission, PermissionSetting>,
> {
    channels.map_values(|permissions: ChannelPermissions| permissions@)
}

/// The membership of one account in one hub.
#[derive(Debug, Clone, PartialEq)]
pub struct HubMember {
    pub account: ID,
    pub joined: u128,
    pub hub: ID,
    pub nickname: String,
    /// The ranks that the member holds, the one that counts most first.
    pub ranks: Vec<ID>,
    /// The member's own settings for the hub as a whole.
    pub hub_permissions: HubPermissions,
    /// The member's own settings for single channels, by channel.
    pub channel_permissions: HashMap<ID, ChannelPermissions>,
}

/// What a [`HubMember`] holds.
pub struct HubMemberView {
    pub account: u128,
    pub joined: u128,
    pub hub: u128,
    pub nickname: Seq<char>,
    pub ranks: Seq<u128>,
    pub hub_permissions: Map<HubPermission, PermissionSetting>,
    pub channel_permissions: Map<u128, Map<ChannelPermission, PermissionSetting>>,
}

impl View for HubMember {
    type V = HubMemberView;

    open spec fn view(&self) -> HubMemberView {
        HubMemberView {
            account: self.account,
            joined: self.joined,
            hub: self.hub,
            nickname: self.nickname@,
            ranks: self.ranks@,
            hub_permissions: self.hub_permissions@,
            channel_permissions: channel_settings(self.channel_permissions@),
        }
    }
}

/// A rank: a named bundle of settings that members can hold.
#[derive(Debug, Clone, PartialEq)]
pub struct PermissionGroup {
    pub id: ID,
    pub name: String,
    /// The accounts that hold this rank.
    pub members: Vec<ID>,
    pub hub_permissions: HubPermissions,
    pub channel_permissions: HashMap<ID, ChannelPermissions>,
    pub created: u128,
}

/// What a [`PermissionGroup`] holds.
pub struct PermissionGroupView {
    pub id: u128,
    pub name: Seq<char>,
    pub members: Seq<u128>,
    pub hub_permissions: Map<HubPermission, PermissionSetting>,
    pub channel_permissions: Map<u128, Map<ChannelPermission, PermissionSetting>>,
    pub created: u128,
}

impl View for PermissionGroup {
    type V = PermissionGroupView;

    open spec fn view(&self) -> PermissionGroupView {
        PermissionGroupView {
            id: self.id,
            name: self.name@,
            members: self.members@,
            hub_permissions: self.hub_permissions@,
            channel_permissions: channel_settings(self.channel_permissions@),
            created: self.created,
        }
    }
}

/// A channel of a hub: a stream of messages, oldest first.
#[derive(Debug, Clone, PartialEq)]
pub struct Channel {
    pub messages: Vec<Message>,
    pub id: ID,
    pub hub_id: ID,
    pub name: String,
    pub created: u128,
}

/// What a [`Channel`] holds.
pub struct ChannelView {
    pub messages: Seq<MessageView>,
    pub id: u128,
    pub hub_id: u128,
    pub name: Seq<char>,
    pub created: u128,
}

impl View for Channel {
    type V = ChannelView;

    open spec fn view(&self) -> ChannelView {
        ChannelView {
            messages: self.messages@.map_values(|message: Message| message@),
            id: self.id,
            hub_id: self.hub_id,
            name: self.name@,
            created: self.created,
        }
    }
}

/// A hub: a community with its channels, members and ranks.
#[derive(Debug, PartialEq)]
pub struct Hub {
    pub channels: HashMap<ID, Channel>,
    pub members: HashMap<ID, HubMember>,
    /// The accounts that are banned from the hub.
    pub bans: HashSet<ID>,
    pub owner: ID,
    pub ranks: HashMap<ID, PermissionGroup>,
    /// The rank that every member holds below the ranks of their own.
    pub default_rank: ID,
    pub name: String,
    pub id: ID,
    pub created: u128,
}

/// What a [`Hub`] holds.
pub struct HubView {
    pub channels: Map<u128, ChannelView>,
    pub members: Map<u128, HubMemberView>,
    pub bans: Set<u128>,
    pub owner: u128,
    pub ranks: Map<u128, PermissionGroupView>,
    pub default_rank: u128,
    pub name: Seq<char>,
    pub id: u128,
    pub created: u128,
}

impl View for Hub {
    type V = HubView;

    open spec fn view(&self) -> HubView {
        HubView {
            channels: self.channels@.map_values(|channel: Channel| channel@),
            members: self.members@.map_values(|member: HubMember| member@),
            bans: self.bans@,
            owner: self.owner,
            ranks: self.ranks@.map_values(|rank: PermissionGroup| rank@),
            default_rank: self.default_rank,
            name: self.name@,
            id: self.id,
            created: self.created,
        }
    }
}

/// `HashSet::clone` of std: the copy holds the same identifiers.
#[verifier::external_body]
fn clone_ids(ids: &HashSet<ID>) -> (copy: HashSet<ID>)
    ensures
        copy@ == ids@,
{
    ids.clone()
}

impl Clone for Hub {
    fn clone(&self) -> (copy: Hub) {
        Hub {
            channels: self.channels.clone(),
            members: self.members.clone(),
            bans: clone_ids(&self.bans),
            owner: self.owner,
            ranks: self.ranks.clone(),
            default_rank: self.default_rank,
            name: self.name.clone(),
            id: self.id,
            created: self.created,
        }
    }
}

impl HubMemberView {
    /// Whether every rank that the member holds is one of `ranks`.
    pub open spec fn ranks_known(self, ranks: Map<u128, PermissionGroupView>) -> bool {
        forall|i: int| 0 <= i < self.ranks.len() ==> ranks.contains_key(#[trigger] self.ranks[i])
    }
}

impl HubView {
    /// Whether the hub is sound: its default rank is one of its ranks, every rank that a
    /// member holds is one of its ranks, and its owner is not banned.
    pub open spec fn well_formed(self) -> bool {
        &&& self.ranks.contains_key(self.default_rank)
        &&& forall|account: u128| #[trigger]
            self.members.contains_key(account) ==> self.members[account].ranks_known(self.ranks)
        &&& !self.bans.contains(self.owner)
    }
}

impl HubMember {
    /// Whether every rank that the member holds is a rank of `hub`.
    pub fn ranks_known_in(&self, hub: &Hub) -> (known: bool)
        ensures
            known == self@.ranks_known(hub@.ranks),
    {
        let mut i: usize = 0;
        while i < self.ranks.len()
            invariant
                i <= self.ranks.len(),
                forall|j: int| 0 <= j < i ==> hub@.ranks.contains_key(#[trigger] self.ranks@[j]),
            decreases self.ranks.len() - i,
        {
            if !hub.ranks.contains_key(&self.ranks[i]) {
                assert(!hub@.ranks.contains_key(self@.ranks[i as int]));
                return false;
            }
            i += 1;
        }
        true
    }
}

impl Hub {
    /// Whether this hub is sound: its default rank is one of its ranks, every rank that a
    /// member holds is one of its ranks, and its owner is not banned.
    pub fn is_well_formed(&self) -> (sound: bool)
        ensures
            sound == self@.well_formed(),
    {
        if !self.ranks.contains_key(&self.default_rank) {
            return false;
        }
        if self.bans.contains(&self.owner) {
            return false;
        }
        for entry in it: self.members.iter()
            invariant
                forall|j: int|
                    0 <= j < it.index() ==> (#[trigger] it.seq()[j]).1@.ranks_known(self@.ranks),
        {
            let (account, member) = entry;
            if !member.ranks_known_in(self) {
                assert(self.members@.contains_key(*account) && self.members@[*account] == *member);
                assert(self@.members.contains_key(*account));
                return false;
            }
        }
        true
    }
}

/// A message of a channel. It does not change once it is created.
#[derive(Debug, Clone, PartialEq)]
pub struct Message {
    pub id: ID,
    pub sender: ID,
    /// Milliseconds since the epoch.
    pub created: u128,
    pub content: String,
}

/// What a [`Message`] holds.
pub struct MessageView {
    pub id: u128,
    pub sender: u128,
    pub created: u128,
    pub content: Seq<char>,
}

impl View for Message {
    type V = MessageView;

    open spec fn view(&self) -> MessageView {
        MessageView {
            id: self.id,
            sender: self.sender,
            created: self.created,
            content: self.content@,
        }
    }
}

impl Message {
    /// The line that stands for this message in a channel's log.
    pub fn to_string(&self) -> (line: String)
        ensures
            line@ == encode(self@),
    {
        let mut line = String::new();
        push_decimal(&mut line, self.id);
        line.push(',');
        push_decimal(&mut line, self.sender);
        line.push(',');
        push_decimal(&mut line, self.created);
        line.push(',');
        push_escaped(&mut line, self.content.as_str());
        line
    }

    /// Reads a message back from a line of a channel's log. A line that stands for no
    /// message is an error.
    pub fn from_str(s: &str) -> (r: Result<Message, ()>)
        ensures
            match decode(s@) {
                Some(m) => r is Ok && r->Ok_0@ == m,
                None => r is Err,
            },
    {
        let chars = chars_of(s);
        let (first, second, third) = match find_fields(&chars) {
            Some(places) => places,
            None => {
                return Err(());
            },
        };
        let id = match parse_decimal(&chars, 0, first) {
            Some(n) => n,
            None => {
                return Err(());
            },
        };
        let sender = match parse_decimal(&chars, first + 1, second) {
            Some(n) => n,
            None => {
                return Err(());
            },
        };
        let created = match parse_decimal(&chars, second + 1, third) {
            Some(n) => n,
            None => {
                return Err(());
            },
        };
        let content = unescape_from(&chars, third + 1);
        Ok(Message { id, sender, created, content })
    }
}

impl std::str::FromStr for Message {
    type Err = ();

    /// Reads a message back from a line of a channel's log. A line that stands for no
    /// message is an error.
    fn from_str(s: &str) -> (r: Result<Message, ()>)
        ensures
            match decode(s@) {
                Some(m) => r is Ok && r->Ok_0@ == m,
                None => r is Err,
            },
    {
        Message::from_str(s)
    }
}

} // verus!
