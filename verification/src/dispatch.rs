//! Events handed to the client's listeners.

use vstd::prelude::*;
use crate::message::MessageChain;
use crate::entity::{GroupMemberDecreaseEventType, GroupMemberIncreaseEventType};

verus! {

/// Someone asked to join a group.
pub struct GroupJoinRequestEvent {
    pub group_uin: u32,
    pub target_uin: u32,
    pub target_nickname: String,
    pub invitor_uin: u32,
    pub answer: String,
    pub request_seq: u64,
}

/// A member poked someone in a group.
pub struct GroupPokeEvent {
    pub group_uin: u32,
    pub operator_uin: u32,
    pub target_uin: u32,
    pub action: String,
    pub suffix: String,
    pub action_img_url: String,
}

/// A member joined a group.
pub struct GroupMemberIncreaseEvent {
    pub group_uin: u32,
    pub member_uin: u32,
    pub invitor_uin: Option<u32>,
    pub event_type: GroupMemberIncreaseEventType,
}

/// A member left a group.
pub struct GroupMemberDecreaseEvent {
    pub group_uin: u32,
    pub member_uin: u32,
    pub operator_uin: Option<u32>,
    pub event_type: GroupMemberDecreaseEventType,
}

/// A member reacted to a group message.
pub struct GroupReactionEvent {
    pub target_group_uin: u32,
    pub target_sequence: u32,
    pub operator_uin: u32,
    pub is_add: bool,
    pub code: String,
    pub count: u32,
}

/// A group message was recalled.
pub struct GroupRecallEvent {
    pub group_uin: u32,
    pub author_uin: u32,
    pub operator_uin: u32,
    pub sequence: u32,
    pub time: u32,
    pub random: u32,
    pub tip: String,
}

/// A friend poked someone.
pub struct FriendPokeEvent {
    pub operator_uin: u32,
    pub target_uin: u32,
    pub action: String,
    pub suffix: String,
    pub action_url: String,
}

/// A friend recalled a message.
pub struct FriendRecallEvent {
    pub friend_uin: u32,
    pub client_sequence: u32,
    pub time: u32,
    pub random: u32,
    pub tip: String,
}

/// Events about groups.
pub enum GroupEvent {
    GroupMessage(MessageChain),
    GroupJoinRequest(GroupJoinRequestEvent),
    GroupPoke(GroupPokeEvent),
    GroupMemberIncrease(GroupMemberIncreaseEvent),
    GroupMemberDecrease(GroupMemberDecreaseEvent),
    GroupReaction(GroupReactionEvent),
    GroupRecall(GroupRecallEvent),
}

/// Events about friends.
pub enum FriendEvent {
    FriendMessageEvent(MessageChain),
    FriendPokeEvent(FriendPokeEvent),
    FriendRecallEvent(FriendRecallEvent),
}

/// Events about the bot itself.
pub enum SystemEvent {
    TempMessageEvent(MessageChain),
    BotOfflineEvent(Option<String>),
}

/// An event for one of the listeners.
pub enum Dispatch {
    Group(GroupEvent),
    Friend(FriendEvent),
    System(SystemEvent),
}

} // verus!
