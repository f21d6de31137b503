//! The effective permission of a member: the member's own settings first, then the
//! settings of the ranks that the member holds, then refusal.

use vstd::prelude::*;
use std::collections::HashMap;
use crate::ID;
use crate::permissions::{
    setting_of, ChannelPermission, ChannelPermissions, HubPermission, HubPermissions,
    PermissionSetting,
};
use crate::types::{channel_settings, Hub, HubMember, HubMemberView, HubView, PermissionGroupView};

verus! {

/// What is asked for: a permission in the hub as a whole, or a permission in one channel.
#[derive(PartialEq, Eq, Structural, Clone, Copy, Debug)]
pub enum PermissionRequest {
    Hub(HubPermission),
    Channel(ID, ChannelPermission),
}

impl PermissionRequest {
    /// The hub permission that decides where no channel setting does.
    pub open spec fn hub_permission(self) -> HubPermission {
        match self {
            PermissionRequest::Hub(permission) => permission,
            PermissionRequest::Channel(_, permission) => permission.hub_equivalent_of(),
        }
    }
}

/// What the channel settings of one member or rank say of `permission` in `channel`: the
/// setting of the permission itself where it decides, else the setting of the channel's
/// `All`. A channel without settings says nothing.
pub open spec fn channel_override(
    channels: Map<u128, Map<ChannelPermission, PermissionSetting>>,
    channel: u128,
    permission: ChannelPermission,
) -> PermissionSetting {
    if channels.contains_key(channel) {
        let exact = setting_of(channels[channel], permission);
        if exact.decides() {
            exact
        } else {
            setting_of(channels[channel], ChannelPermission::All)
        }
    } else {
        PermissionSetting::NONE
    }
}

/// What the settings of one member or rank say of `request`, in this order: the hub's
/// `All`; for a request in a channel, the settings for that channel; the hub permission
/// that is asked for, or that stands in for the channel permission.
pub open spec fn own_decision(
    hub_permissions: Map<HubPermission, PermissionSetting>,
    channel_permissions: Map<u128, Map<ChannelPermission, PermissionSetting>>,
    request: PermissionRequest,
) -> PermissionSetting {
    let all = setting_of(hub_permissions, HubPermission::All);
    let scoped = match request {
        PermissionRequest::Hub(_) => PermissionSetting::NONE,
        PermissionRequest::Channel(channel, permission) => channel_override(
            channel_permissions,
            channel,
            permission,
        ),
    };
    if all.decides() {
        all
    } else if scoped.decides() {
        scoped
    } else {
        setting_of(hub_permissions, request.hub_permission())
    }
}

/// What the rank named `id` says of `request`. A name that is not one of `ranks` says
/// nothing.
pub open spec fn rank_decision(
    ranks: Map<u128, PermissionGroupView>,
    id: u128,
    request: PermissionRequest,
) -> PermissionSetting {
    if ranks.contains_key(id) {
        own_decision(ranks[id].hub_permissions, ranks[id].channel_permissions, request)
    } else {
        PermissionSetting::NONE
    }
}

/// What the ranks named by `ids` say of `request`: the first of them that decides, decides.
pub open spec fn ranks_decision(
    ranks: Map<u128, PermissionGroupView>,
    ids: Seq<u128>,
    request: PermissionRequest,
) -> PermissionSetting
    decreases ids.len(),
{
    if ids.len() == 0 {
        PermissionSetting::NONE
    } else {
        let first = rank_decision(ranks, ids[0], request);
        if first.decides() {
            first
        } else {
            ranks_decision(ranks, ids.skip(1), request)
        }
    }
}

/// The ranks that count for `member` in `hub`, the one that counts most first: the ranks
/// of the member as listed, then the default rank of the hub.
pub open spec fn effective_ranks(member: HubMemberView, hub: HubView) -> Seq<u128> {
    member.ranks.push(hub.default_rank)
}

/// The decision on `request` for `member` in `hub`, before refusal by default: what the
/// member's own settings say, else what the member's ranks say.
pub open spec fn decision(member: HubMemberView, hub: HubView, request: PermissionRequest)
    -> PermissionSetting {
    let own = own_decision(member.hub_permissions, member.channel_permissions, request);
    if own.decides() {
        own
    } else {
        ranks_decision(hub.ranks, effective_ranks(member, hub), request)
    }
}

/// Whether `member` is allowed `request` in `hub`: only if the decision is a grant.
pub open spec fn allowed(member: HubMemberView, hub: HubView, request: PermissionRequest)
    -> bool {
    decision(member, hub, request) == PermissionSetting::TRUE
}

/// A rank that is added at the end of a list is asked only where no rank of the list
/// decides.
pub proof fn lemma_last_rank_counts_least(
    ranks: Map<u128, PermissionGroupView>,
    ids: Seq<u128>,
    last: u128,
    request: PermissionRequest,
)
    ensures
        ranks_decision(ranks, ids.push(last), request) == if ranks_decision(
            ranks,
            ids,
            request,
        ).decides() {
            ranks_decision(ranks, ids, request)
        } else {
            rank_decision(ranks, last, request)
        },
    decreases ids.len(),
{
    if ids.len() == 0 {
        assert(ids.push(last).skip(1) == Seq::<u128>::empty());
        assert(ranks_decision(ranks, ids.push(last).skip(1), request) == PermissionSetting::NONE);
    } else {
        lemma_last_rank_counts_least(ranks, ids.skip(1), last, request);
        assert(ids.push(last).skip(1) == ids.skip(1).push(last));
    }
}

/// The default rank of the hub counts least: it decides only where neither the member's
/// own settings nor any rank that the member lists does.
pub proof fn lemma_default_rank_last(member: HubMemberView, hub: HubView, request: PermissionRequest)
    ensures
        decision(member, hub, request) == if own_decision(
            member.hub_permissions,
            member.channel_permissions,
            request,
        ).decides() {
            own_decision(member.hub_permissions, member.channel_permissions, request)
        } else if ranks_decision(hub.ranks, member.ranks, request).decides() {
            ranks_decision(hub.ranks, member.ranks, request)
        } else {
            rank_decision(hub.ranks, hub.default_rank, request)
        },
{
    lemma_last_rank_counts_least(hub.ranks, member.ranks, hub.default_rank, request);
}

/// In a sound hub every rank that is asked for one of its members is a rank of the hub.
pub proof fn lemma_ranks_of_members_exist(hub: HubView, account: u128, i: int)
    requires
        hub.well_formed(),
        hub.members.contains_key(account),
        0 <= i < effective_ranks(hub.members[account], hub).len(),
    ensures
        hub.ranks.contains_key(effective_ranks(hub.members[account], hub)[i]),
{
    let member = hub.members[account];
    assert(member.ranks_known(hub.ranks));
    if i < member.ranks.len() {
        assert(hub.ranks.contains_key(member.ranks[i]));
    }
}

/// A member whose own settings grant `All` for the hub is allowed every request, hub-wide
/// or in a channel, whatever the ranks say.
pub proof fn lemma_all_granted(member: HubMemberView, hub: HubView, request: PermissionRequest)
    requires
        setting_of(member.hub_permissions, HubPermission::All) == PermissionSetting::TRUE,
    ensures
        allowed(member, hub, request),
{
}

/// A member whose own settings refuse `All` for the hub is refused every request, whatever
/// the ranks say.
pub proof fn lemma_all_refused(member: HubMemberView, hub: HubView, request: PermissionRequest)
    requires
        setting_of(member.hub_permissions, HubPermission::All) == PermissionSetting::FALSE,
    ensures
        !allowed(member, hub, request),
{
}

/// The member's own settings override the ranks: where they decide, the ranks of the hub
/// change nothing.
pub proof fn lemma_own_settings_override(
    member: HubMemberView,
    hub: HubView,
    request: PermissionRequest,
)
    requires
        own_decision(member.hub_permissions, member.channel_permissions, request).decides(),
    ensures
        decision(member, hub, request) == own_decision(
            member.hub_permissions,
            member.channel_permissions,
            request,
        ),
{
}

/// Among ranks, the first one that decides wins: ranks listed before it that say nothing
/// are passed over, and ranks listed after it are not asked.
pub proof fn lemma_first_deciding_rank(
    ranks: Map<u128, PermissionGroupView>,
    ids: Seq<u128>,
    i: int,
    request: PermissionRequest,
)
    requires
        0 <= i < ids.len(),
        forall|j: int| 0 <= j < i ==> !rank_decision(ranks, #[trigger] ids[j], request).decides(),
        rank_decision(ranks, ids[i], request).decides(),
    ensures
        ranks_decision(ranks, ids, request) == rank_decision(ranks, ids[i], request),
    decreases i,
{
    if i > 0 {
        let rest = ids.skip(1);
        assert(!rank_decision(ranks, ids[0], request).decides());
        assert forall|j: int| 0 <= j < i - 1 implies !rank_decision(
            ranks,
            #[trigger] rest[j],
            request,
        ).decides() by {
            assert(rest[j] == ids[j + 1]);
        }
        assert(rest[i - 1] == ids[i]);
        lemma_first_deciding_rank(ranks, rest, i - 1, request);
    }
}

/// Rank order matters: where the member's own settings say nothing, the decision is that
/// of the first of the member's ranks, the default rank last, that decides.
pub proof fn lemma_rank_order(
    member: HubMemberView,
    hub: HubView,
    i: int,
    request: PermissionRequest,
)
    requires
        !own_decision(member.hub_permissions, member.channel_permissions, request).decides(),
        0 <= i < effective_ranks(member, hub).len(),
        forall|j: int|
            0 <= j < i ==> !rank_decision(
                hub.ranks,
                #[trigger] effective_ranks(member, hub)[j],
                request,
            ).decides(),
        rank_decision(hub.ranks, effective_ranks(member, hub)[i], request).decides(),
    ensures
        decision(member, hub, request) == rank_decision(
            hub.ranks,
            effective_ranks(member, hub)[i],
            request,
        ),
{
    lemma_first_deciding_rank(hub.ranks, effective_ranks(member, hub), i, request);
}

/// Where no rank decides, the ranks say nothing.
pub proof fn lemma_no_deciding_rank(
    ranks: Map<u128, PermissionGroupView>,
    ids: Seq<u128>,
    request: PermissionRequest,
)
    requires
        forall|j: int|
            0 <= j < ids.len() ==> !rank_decision(ranks, #[trigger] ids[j], request).decides(),
    ensures
        !ranks_decision(ranks, ids, request).decides(),
    decreases ids.len(),
{
    if ids.len() > 0 {
        let rest = ids.skip(1);
        assert(!rank_decision(ranks, ids[0], request).decides());
        assert forall|j: int| 0 <= j < rest.len() implies !rank_decision(
            ranks,
            #[trigger] rest[j],
            request,
        ).decides() by {
            assert(rest[j] == ids[j + 1]);
        }
        lemma_no_deciding_rank(ranks, rest, request);
    }
}

/// Refusal by default: where neither the member's own settings nor any of the member's
/// ranks decide, the request is refused.
pub proof fn lemma_default_refusal(member: HubMemberView, hub: HubView, request: PermissionRequest)
    requires
        !own_decision(member.hub_permissions, member.channel_permissions, request).decides(),
        forall|j: int|
            0 <= j < effective_ranks(member, hub).len() ==> !rank_decision(
                hub.ranks,
                #[trigger] effective_ranks(member, hub)[j],
                request,
            ).decides(),
    ensures
        !allowed(member, hub, request),
{
    lemma_no_deciding_rank(hub.ranks, effective_ranks(member, hub), request);
}

/// Settings for a channel that is not the one asked about change nothing.
pub proof fn lemma_other_channels_inert(
    hub_permissions: Map<HubPermission, PermissionSetting>,
    channel_permissions: Map<u128, Map<ChannelPermission, PermissionSetting>>,
    other: u128,
    settings: Map<ChannelPermission, PermissionSetting>,
    channel: u128,
    permission: ChannelPermission,
)
    requires
        other != channel,
    ensures
        own_decision(
            hub_permissions,
            channel_permissions.insert(other, settings),
            PermissionRequest::Channel(channel, permission),
        ) == own_decision(
            hub_permissions,
            channel_permissions,
            PermissionRequest::Channel(channel, permission),
        ),
{
}

fn channel_override_of(
    channels: &HashMap<ID, ChannelPermissions>,
    channel: ID,
    permission: ChannelPermission,
) -> (setting: PermissionSetting)
    ensures
        setting == channel_override(channel_settings(channels@), channel, permission),
{
    match channels.get(&channel) {
        Some(settings) => {
            let exact = settings.setting(permission);
            match exact {
                PermissionSetting::NONE => settings.setting(ChannelPermission::All),
                _ => exact,
            }
        },
        None => PermissionSetting::NONE,
    }
}

fn own_decision_of(
    hub_permissions: &HubPermissions,
    channel_permissions: &HashMap<ID, ChannelPermissions>,
    request: PermissionRequest,
) -> (setting: PermissionSetting)
    ensures
        setting == own_decision(hub_permissions@, channel_settings(channel_permissions@), request),
{
    let all = hub_permissions.setting(HubPermission::All);
    match all {
        PermissionSetting::NONE => {},
        _ => {
            return all;
        },
    }
    match request {
        PermissionRequest::Hub(permission) => hub_permissions.setting(permission),
        PermissionRequest::Channel(channel, permission) => {
            let scoped = channel_override_of(channel_permissions, channel, permission);
            match scoped {
                PermissionSetting::NONE => hub_permissions.setting(permission.hub_equivalent()),
                _ => scoped,
            }
        },
    }
}

fn rank_decision_of(hub: &Hub, id: ID, request: PermissionRequest) -> (setting: PermissionSetting)
    ensures
        setting == rank_decision(hub@.ranks, id, request),
{
    match hub.ranks.get(&id) {
        Some(rank) => own_decision_of(&rank.hub_permissions, &rank.channel_permissions, request),
        None => PermissionSetting::NONE,
    }
}

/// Decides whether `member` is allowed `request` in `hub`.
///
/// The member's own settings come first: the hub's `All`, then, for a request in a
/// channel, the member's settings for that channel (the permission itself, then the
/// channel's `All`), then the hub permission that is asked for or that stands in for the
/// channel permission. Where they say nothing, the member's ranks are asked in the same
/// way, in the order in which the member lists them, and the hub's default rank last.
/// Where nobody decides, the request is refused.
pub fn resolve_permission(member: &HubMember, hub: &Hub, request: PermissionRequest) -> (granted:
    bool)
    ensures
        granted == allowed(member@, hub@, request),
{
    let own = own_decision_of(&member.hub_permissions, &member.channel_permissions, request);
    match own {
        PermissionSetting::TRUE => {
            return true;
        },
        PermissionSetting::FALSE => {
            return false;
        },
        PermissionSetting::NONE => {},
    }
    let ghost ranks = hub@.ranks;
    let ghost ids = effective_ranks(member@, hub@);
    assert(ids.skip(0) == ids);
    let mut i: usize = 0;
    while i < member.ranks.len()
        invariant
            i <= member.ranks.len(),
            ranks == hub@.ranks,
            ids == effective_ranks(member@, hub@),
            decision(member@, hub@, request) == ranks_decision(ranks, ids, request),
            ranks_decision(ranks, ids, request) == ranks_decision(ranks, ids.skip(i as int), request),
        decreases member.ranks.len() - i,
    {
        let ghost rest = ids.skip(i as int);
        assert(rest[0] == member.ranks@[i as int]);
        assert(rest.skip(1) == ids.skip(i + 1));
        match rank_decision_of(hub, member.ranks[i], request) {
            PermissionSetting::TRUE => {
                return true;
            },
            PermissionSetting::FALSE => {
                return false;
            },
            PermissionSetting::NONE => {},
        }
        i += 1;
    }
    proof {
        let rest = ids.skip(i as int);
        assert(rest[0] == hub.default_rank);
        assert(rest.skip(1) == Seq::<u128>::empty());
        assert(ranks_decision(ranks, rest.skip(1), request) == PermissionSetting::NONE);
    }
    match rank_decision_of(hub, hub.default_rank, request) {
        PermissionSetting::TRUE => true,
        _ => false,
    }
}

} // verus!
