//! Accounts, friends and group members as the client knows them.

use vstd::prelude::*;

verus! {

/// A friend list group the friend is filed under.
pub struct BotFriendGroup {
    pub group_id: u32,
    pub group_name: String,
}

/// A friend of the bot.
pub struct BotFriend {
    pub uin: u32,
    pub uid: String,
    pub nickname: String,
    pub remarks: String,
    pub personal_sign: String,
    pub qid: String,
    pub group: Option<BotFriendGroup>,
}

/// A member's role in a group.
#[derive(Clone, Copy, Debug, PartialEq, Eq, Structural)]
pub enum GroupMemberPermission {
    Member,
    Owner,
    Admin,
}

/// The role the server's code `code` stands for: 0 a member, 1 the owner, 2 an admin.
pub open spec fn spec_permission_from(code: u32) -> Option<GroupMemberPermission> {
    if code == 0 {
        Some(GroupMemberPermission::Member)
    } else if code == 1 {
        Some(GroupMemberPermission::Owner)
    } else if code == 2 {
        Some(GroupMemberPermission::Admin)
    } else {
        None
    }
}

impl GroupMemberPermission {
    /// The role the server's code `code` stands for, if any.
    pub fn from_code(code: u32) -> (r: Option<GroupMemberPermission>)
        ensures
            r == spec_permission_from(code),
    {
        if code == 0 {
            Some(GroupMemberPermission::Member)
        } else if code == 1 {
            Some(GroupMemberPermission::Owner)
        } else if code == 2 {
            Some(GroupMemberPermission::Admin)
        } else {
            None
        }
    }
}

/// A member of a group the bot is in. Times are Unix timestamps in seconds.
pub struct BotGroupMember {
    pub uin: u32,
    pub uid: String,
    pub permission: GroupMemberPermission,
    pub group_level: u32,
    pub member_card: Option<String>,
    pub member_name: String,
    pub special_title: Option<String>,
    pub join_time: i64,
    pub last_msg_time: i64,
    pub shut_up_timestamp: i64,
}

} // verus!

verus! {

/// A request about a group (join, invitation) as the server lists it, with accounts by uid.
pub struct FetchGroupRequests {
    pub group_uin: u32,
    pub invitor_member_uid: Option<String>,
    pub invitor_member_card: Option<String>,
    pub target_member_uid: String,
    pub target_member_card: String,
    pub operator_uid: Option<String>,
    pub operator_name: Option<String>,
    pub sequence: u64,
    pub state: u32,
    pub event_type: u32,
    pub comment: Option<String>,
    pub is_filtered: bool,
}

/// A request about a group, with accounts by number.
pub struct BotGroupRequest {
    pub group_uin: u32,
    pub invitor_member_uin: Option<u32>,
    pub invitor_member_card: Option<String>,
    pub target_member_uin: u32,
    pub target_member_card: String,
    pub operator_uin: Option<u32>,
    pub operator_name: Option<String>,
    pub sequence: u64,
    pub state: u32,
    pub event_type: u32,
    pub comment: Option<String>,
    pub is_filtered: bool,
}

} // verus!

verus! {

/// A user's gender, as the profile states it.
#[derive(Clone, Copy, Debug, PartialEq, Eq, Structural)]
pub enum GenderInfo {
    Unset,
    Male,
    Female,
}

/// A user's online status.
pub struct BotStatus {
    pub status_id: u32,
    pub face_id: Option<u32>,
    pub msg: Option<String>,
}

/// A paid service a user has.
pub struct BusinessCustom {
    pub bus_type: u32,
    pub level: u32,
    pub icon: Option<String>,
    pub is_pro: u32,
    pub is_year: u32,
}

/// A user's profile. Times are Unix timestamps in seconds.
pub struct BotUserInfo {
    pub uin: u32,
    pub nickname: String,
    pub avatar: String,
    pub birthday: i64,
    pub city: String,
    pub country: String,
    pub school: String,
    pub age: u32,
    pub register_time: u64,
    pub gender: GenderInfo,
    pub qid: Option<String>,
    pub level: u32,
    pub sign: String,
    pub status: BotStatus,
    pub business: Vec<BusinessCustom>,
}

} // verus!

verus! {

/// How a member joined a group, by the server's code: 130 approved, 131 invited. Any other code
/// reads as the default, `Unknown`.
#[derive(Clone, Copy, Debug, PartialEq, Eq, Structural)]
pub enum GroupMemberIncreaseEventType {
    Approve,
    Invite,
    Unknown,
}

/// The kind of join the server's code stands for.
pub open spec fn spec_increase_type(code: u32) -> GroupMemberIncreaseEventType {
    if code == 130 {
        GroupMemberIncreaseEventType::Approve
    } else if code == 131 {
        GroupMemberIncreaseEventType::Invite
    } else {
        GroupMemberIncreaseEventType::Unknown
    }
}

impl GroupMemberIncreaseEventType {
    /// The kind of join the server's code stands for (see `spec_increase_type`).
    pub fn from_code(code: u32) -> (r: GroupMemberIncreaseEventType)
        ensures
            r == spec_increase_type(code),
    {
        if code == 130 {
            GroupMemberIncreaseEventType::Approve
        } else if code == 131 {
            GroupMemberIncreaseEventType::Invite
        } else {
            GroupMemberIncreaseEventType::Unknown
        }
    }
}

/// How a member left a group, by the server's code: 3 the bot itself was removed, 130 the member
/// left, 131 the member was removed. Any other code reads as the default, `Unknown`.
#[derive(Clone, Copy, Debug, PartialEq, Eq, Structural)]
pub enum GroupMemberDecreaseEventType {
    KickMe,
    Leave,
    Kick,
    Unknown,
}

/// The kind of leave the server's code stands for.
pub open spec fn spec_decrease_type(code: u32) -> GroupMemberDecreaseEventType {
    if code == 3 {
        GroupMemberDecreaseEventType::KickMe
    } else if code == 130 {
        GroupMemberDecreaseEventType::Leave
    } else if code == 131 {
        GroupMemberDecreaseEventType::Kick
    } else {
        GroupMemberDecreaseEventType::Unknown
    }
}

impl GroupMemberDecreaseEventType {
    /// The kind of leave the server's code stands for (see `spec_decrease_type`).
    pub fn from_code(code: u32) -> (r: GroupMemberDecreaseEventType)
        ensures
            r == spec_decrease_type(code),
    {
        if code == 3 {
            GroupMemberDecreaseEventType::KickMe
        } else if code == 130 {
            GroupMemberDecreaseEventType::Leave
        } else if code == 131 {
            GroupMemberDecreaseEventType::Kick
        } else {
            GroupMemberDecreaseEventType::Unknown
        }
    }
}

} // verus!
