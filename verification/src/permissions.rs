//! Permission vocabularies and tri-state permission settings.

use vstd::prelude::*;

verus! {

/// What a member or a rank says about one permission.
#[derive(PartialEq, Eq, Structural, Hash, Clone, Copy, Debug)]
pub enum PermissionSetting {
    /// Granted.
    TRUE,
    /// Refused.
    FALSE,
    /// No opinion: whoever comes next in precedence decides.
    NONE,
}

/// What can be permitted in a hub as a whole.
#[derive(PartialEq, Eq, Structural, Hash, Clone, Copy, Debug)]
pub enum HubPermission {
    /// Stands for every permission at once.
    All,
    ViewChannels,
    ConfigureChannels,
    Administrate,
    CreateChannel,
    DeleteChannel,
    CreateCategory,
    DeleteCategory,
    ArrangeChannels,
    SendMessage,
    ReadMessage,
    Invite,
    Unmute,
    Mute,
    Kick,
    Ban,
    Unban,
    AddBot,
}

/// What can be permitted in a single channel.
#[derive(PartialEq, Eq, Structural, Hash, Clone, Copy, Debug)]
pub enum ChannelPermission {
    SendMessage,
    ReadMessage,
    ViewChannel,
    Configure,
    MuteUser,
    /// Stands for every channel permission at once.
    All,
}

/// The setting that `settings` holds for `key`; a missing key counts as no opinion.
pub open spec fn setting_of<K>(settings: Map<K, PermissionSetting>, key: K) -> PermissionSetting {
    if settings.contains_key(key) {
        settings[key]
    } else {
        PermissionSetting::NONE
    }
}

impl PermissionSetting {
    /// Whether this setting decides anything.
    pub open spec fn decides(self) -> bool {
        self != PermissionSetting::NONE
    }
}

impl HubPermission {
    /// The position of this permission in the list of hub permissions.
    pub open spec fn slot(self) -> int {
        match self {
            HubPermission::All => 0,
            HubPermission::ViewChannels => 1,
            HubPermission::ConfigureChannels => 2,
            HubPermission::Administrate => 3,
            HubPermission::CreateChannel => 4,
            HubPermission::DeleteChannel => 5,
            HubPermission::CreateCategory => 6,
            HubPermission::DeleteCategory => 7,
            HubPermission::ArrangeChannels => 8,
            HubPermission::SendMessage => 9,
            HubPermission::ReadMessage => 10,
            HubPermission::Invite => 11,
            HubPermission::Unmute => 12,
            HubPermission::Mute => 13,
            HubPermission::Kick => 14,
            HubPermission::Ban => 15,
            HubPermission::Unban => 16,
            HubPermission::AddBot => 17,
        }
    }

    fn index(self) -> (i: usize)
        ensures
            i == self.slot(),
            i < 18,
    {
        match self {
            HubPermission::All => 0,
            HubPermission::ViewChannels => 1,
            HubPermission::ConfigureChannels => 2,
            HubPermission::Administrate => 3,
            HubPermission::CreateChannel => 4,
            HubPermission::DeleteChannel => 5,
            HubPermission::CreateCategory => 6,
            HubPermission::DeleteCategory => 7,
            HubPermission::ArrangeChannels => 8,
            HubPermission::SendMessage => 9,
            HubPermission::ReadMessage => 10,
            HubPermission::Invite => 11,
            HubPermission::Unmute => 12,
            HubPermission::Mute => 13,
            HubPermission::Kick => 14,
            HubPermission::Ban => 15,
            HubPermission::Unban => 16,
            HubPermission::AddBot => 17,
        }
    }
}

impl ChannelPermission {
    /// The hub permission that stands in for this channel permission where a channel
    /// says nothing of its own.
    pub open spec fn hub_equivalent_of(&self) -> HubPermission {
        match self {
            ChannelPermission::SendMessage => HubPermission::SendMessage,
            ChannelPermission::ReadMessage => HubPermission::ReadMessage,
            ChannelPermission::ViewChannel => HubPermission::ViewChannels,
            ChannelPermission::Configure => HubPermission::ConfigureChannels,
            ChannelPermission::MuteUser => HubPermission::Mute,
            ChannelPermission::All => HubPermission::All,
        }
    }

    /// The hub permission that stands in for this channel permission.
    #[verifier::when_used_as_spec(hub_equivalent_of)]
    pub fn hub_equivalent(&self) -> (r: HubPermission)
        ensures
            r == self.hub_equivalent_of(),
    {
        match self {
            ChannelPermission::SendMessage => HubPermission::SendMessage,
            ChannelPermission::ReadMessage => HubPermission::ReadMessage,
            ChannelPermission::ViewChannel => HubPermission::ViewChannels,
            ChannelPermission::Configure => HubPermission::ConfigureChannels,
            ChannelPermission::MuteUser => HubPermission::Mute,
            ChannelPermission::All => HubPermission::All,
        }
    }

    /// The position of this permission in the list of channel permissions.
    pub open spec fn slot(self) -> int {
        match self {
            ChannelPermission::SendMessage => 0,
            ChannelPermission::ReadMessage => 1,
            ChannelPermission::ViewChannel => 2,
            ChannelPermission::Configure => 3,
            ChannelPermission::MuteUser => 4,
            ChannelPermission::All => 5,
        }
    }

    fn index(self) -> (i: usize)
        ensures
            i == self.slot(),
            i < 6,
    {
        match self {
            ChannelPermission::SendMessage => 0,
            ChannelPermission::ReadMessage => 1,
            ChannelPermission::ViewChannel => 2,
            ChannelPermission::Configure => 3,
            ChannelPermission::MuteUser => 4,
            ChannelPermission::All => 5,
        }
    }
}

/// The settings of one member or rank for the hub as a whole: at most one setting for
/// each hub permission.
#[derive(PartialEq, Clone, Debug)]
pub struct HubPermissions {
    slots: [Option<PermissionSetting>; 18],
}

impl View for HubPermissions {
    type V = Map<HubPermission, PermissionSetting>;

    closed spec fn view(&self) -> Map<HubPermission, PermissionSetting> {
        Map::new(
            |p: HubPermission| self.slots@[p.slot()] is Some,
            |p: HubPermission| self.slots@[p.slot()]->0,
        )
    }
}

impl HubPermissions {
    /// No setting at all.
    pub fn new() -> (permissions: HubPermissions)
        ensures
            permissions@ == Map::<HubPermission, PermissionSetting>::empty(),
    {
        let permissions = HubPermissions { slots: [None; 18] };
        assert(permissions@ =~= Map::<HubPermission, PermissionSetting>::empty());
        permissions
    }

    /// Sets `permission` to `setting` and returns the setting that it replaces.
    pub fn insert(&mut self, permission: HubPermission, setting: PermissionSetting) -> (previous:
        Option<PermissionSetting>)
        ensures
            final(self)@ == old(self)@.insert(permission, setting),
            previous == if old(self)@.contains_key(permission) {
                Some(old(self)@[permission])
            } else {
                None
            },
    {
        let i = permission.index();
        let previous = self.slots[i];
        self.slots[i] = Some(setting);
        assert(self@ =~= old(self)@.insert(permission, setting));
        previous
    }

    /// Takes the setting of `permission` away and returns it.
    pub fn remove(&mut self, permission: HubPermission) -> (previous: Option<PermissionSetting>)
        ensures
            final(self)@ == old(self)@.remove(permission),
            previous == if old(self)@.contains_key(permission) {
                Some(old(self)@[permission])
            } else {
                None
            },
    {
        let i = permission.index();
        let previous = self.slots[i];
        self.slots[i] = None;
        assert(self@ =~= old(self)@.remove(permission));
        previous
    }

    /// The setting stored for `permission`, if there is one.
    pub fn get(&self, permission: HubPermission) -> (found: Option<PermissionSetting>)
        ensures
            found == if self@.contains_key(permission) {
                Some(self@[permission])
            } else {
                None
            },
    {
        self.slots[permission.index()]
    }

    /// The setting that holds for `permission`: the stored one, or no opinion.
    pub fn setting(&self, permission: HubPermission) -> (setting: PermissionSetting)
        ensures
            setting == setting_of(self@, permission),
    {
        match self.slots[permission.index()] {
            Some(setting) => setting,
            None => PermissionSetting::NONE,
        }
    }
}

/// The settings of one member or rank for a single channel: at most one setting for each
/// channel permission.
#[derive(PartialEq, Clone, Debug)]
pub struct ChannelPermissions {
    slots: [Option<PermissionSetting>; 6],
}

impl View for ChannelPermissions {
    type V = Map<ChannelPermission, PermissionSetting>;

    closed spec fn view(&self) -> Map<ChannelPermission, PermissionSetting> {
        Map::new(
            |p: ChannelPermission| self.slots@[p.slot()] is Some,
            |p: ChannelPermission| self.slots@[p.slot()]->0,
        )
    }
}

impl ChannelPermissions {
    /// No setting at all.
    pub fn new() -> (permissions: ChannelPermissions)
        ensures
            permissions@ == Map::<ChannelPermission, PermissionSetting>::empty(),
    {
        let permissions = ChannelPermissions { slots: [None; 6] };
        assert(permissions@ =~= Map::<ChannelPermission, PermissionSetting>::empty());
        permissions
    }

    /// Sets `permission` to `setting` and returns the setting that it replaces.
    pub fn insert(&mut self, permission: ChannelPermission, setting: PermissionSetting) -> (previous:
        Option<PermissionSetting>)
        ensures
            final(self)@ == old(self)@.insert(permission, setting),
            previous == if old(self)@.contains_key(permission) {
                Some(old(self)@[permission])
            } else {
                None
            },
    {
        let i = permission.index();
        let previous = self.slots[i];
        self.slots[i] = Some(setting);
        assert(self@ =~= old(self)@.insert(permission, setting));
        previous
    }

    /// Takes the setting of `permission` away and returns it.
    pub fn remove(&mut self, permission: ChannelPermission) -> (previous: Option<PermissionSetting>)
        ensures
            final(self)@ == old(self)@.remove(permission),
            previous == if old(self)@.contains_key(permission) {
                Some(old(self)@[permission])
            } else {
                None
            },
    {
        let i = permission.index();
        let previous = self.slots[i];
        self.slots[i] = None;
        assert(self@ =~= old(self)@.remove(permission));
        previous
    }

    /// The setting stored for `permission`, if there is one.
    pub fn get(&self, permission: ChannelPermission) -> (found: Option<PermissionSetting>)
        ensures
            found == if self@.contains_key(permission) {
                Some(self@[permission])
            } else {
                None
            },
    {
        self.slots[permission.index()]
    }

    /// The setting that holds for `permission`: the stored one, or no opinion.
    pub fn setting(&self, permission: ChannelPermission) -> (setting: PermissionSetting)
        ensures
            setting == setting_of(self@, permission),
    {
        match self.slots[permission.index()] {
            Some(setting) => setting,
            None => PermissionSetting::NONE,
        }
    }
}

} // verus!
