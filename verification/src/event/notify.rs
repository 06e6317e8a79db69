//! Notices the server pushes about friends and groups.

use vstd::prelude::*;
use crate::entity::{GroupMemberDecreaseEventType, GroupMemberIncreaseEventType};

verus! {

/// The bot's own nickname changed.
pub struct BotSysRenameEvent {
    pub nickname: String,
}

/// A new friend was added.
pub struct FriendSysNewEvent {
    pub from_uid: String,
    pub from_nickname: String,
    pub msg: String,
}

/// A friend recalled a message.
pub struct FriendSysRecallEvent {
    pub from_uid: String,
    pub client_sequence: u32,
    pub time: u32,
    pub random: u32,
    pub tip: String,
}

/// A friend changed their nickname.
pub struct FriendSysRenameEvent {
    pub uid: String,
    pub nickname: String,
}

/// Someone asked to become a friend.
pub struct FriendSysRequestEvent {
    pub source_uin: u32,
    pub source_uid: String,
    pub message: String,
    pub source: String,
}

/// A friend poked someone.
pub struct FriendSysPokeEvent {
    pub operator_uin: u32,
    pub target_uin: u32,
    pub action: String,
    pub suffix: String,
    pub action_img_url: String,
}

/// A group admin was promoted or demoted.
pub struct GroupSysAdminEvent {
    pub group_uin: u32,
    pub uid: String,
    pub is_promoted: bool,
}

/// A group member was muted.
pub struct GroupSysMemberMuteEvent {
    pub group_uin: u32,
    pub operator_uid: Option<String>,
    pub target_uid: String,
    pub duration: u32,
}

/// A group was renamed.
pub struct GroupSysNameChangeEvent {
    pub group_uin: u32,
    pub name: String,
}

/// A chat was pinned or unpinned.
pub struct GroupSysPinChangeEvent {
    pub uid: String,
    pub group_uin: Option<u32>,
    pub is_pin: bool,
}

/// A member invited someone into a group.
pub struct GroupSysRequestInvitationEvent {
    pub group_uin: u32,
    pub target_uid: String,
    pub invitor_uid: String,
}

/// Someone asked to join a group.
pub struct GroupSysRequestJoinEvent {
    pub target_uid: String,
    pub group_uin: u32,
}

/// A member got a special title.
pub struct GroupSysSpecialTitleEvent {
    pub target_uin: u32,
    pub target_nickname: String,
    pub special_title: String,
    pub special_title_detail_url: String,
    pub group_uin: u32,
}

/// A member joined a group.
pub struct GroupSysIncreaseEvent {
    pub group_uin: u32,
    pub member_uid: String,
    pub invitor_uid: Option<String>,
    /// How the member joined.
    pub event_type: GroupMemberIncreaseEventType,
}

/// A member left a group.
pub struct GroupSysDecreaseEvent {
    pub group_uin: u32,
    pub member_uid: String,
    pub operator_uid: Option<String>,
    /// How the member left.
    pub event_type: GroupMemberDecreaseEventType,
}

/// A member reacted to a group message.
pub struct GroupSysReactionEvent {
    pub target_group_uin: u32,
    pub target_sequence: u32,
    pub operator_uid: String,
    pub is_add: bool,
    pub code: String,
    pub count: u32,
}

/// A group message was recalled.
pub struct GroupSysRecallEvent {
    pub group_uin: u32,
    pub author_uid: String,
    pub operator_uid: Option<String>,
    pub sequence: u32,
    pub time: u32,
    pub random: u32,
    pub tip: String,
}

/// A member poked someone in a group.
pub struct GroupSysPokeEvent {
    pub group_uin: u32,
    pub operator_uin: u32,
    pub target_uin: u32,
    pub action: String,
    pub suffix: String,
    pub action_img_url: String,
}

/// An event that a push carries besides (or instead of) a message.
pub enum NoticeEvent {
    GroupSysRequestJoin(GroupSysRequestJoinEvent),
    GroupSysIncrease(GroupSysIncreaseEvent),
    GroupSysDecrease(GroupSysDecreaseEvent),
    GroupSysReaction(GroupSysReactionEvent),
    GroupSysRecall(GroupSysRecallEvent),
    GroupSysPoke(GroupSysPokeEvent),
    FriendSysRecall(FriendSysRecallEvent),
    FriendSysPoke(FriendSysPokeEvent),
}

} // verus!
