//! Decoded protocol records: the fields of the server's protobuf messages that the
//! library's logic reads, held as plain values.

use vstd::prelude::*;

verus! {

/// Head of a pushed message: its package type and, for system notices, its sub type.
pub struct ContentHead {
    pub typ: u32,
    pub sub_type: Option<u32>,
}

/// Routing head of a pushed message.
pub struct ResponseHead {
    pub from_uid: Option<String>,
}

/// Body of a pushed message: the raw content, itself an encoded message.
pub struct MessageBody {
    pub msg_content: Option<Vec<u8>>,
}

/// The message carried by a push.
pub struct PushMsgBody {
    pub response_head: Option<ResponseHead>,
    pub content_head: Option<ContentHead>,
    pub body: Option<MessageBody>,
}

/// A message pushed by the server (`trpc.msg.olpush.OlPushService.MsgPush`).
pub struct PushMsg {
    pub message: Option<PushMsgBody>,
}

/// Someone asked to join a group.
pub struct GroupJoin {
    pub group_uin: u32,
    pub target_uid: String,
}

/// A member joined or left a group.
pub struct GroupChange {
    pub group_uin: u32,
    pub member_uid: String,
    pub decrease_type: u32,
    pub operator: Option<Vec<u8>>,
}

/// First field of an operator record.
pub struct OperatorField1 {
    pub operator_uid: String,
}

/// Who removed a member, when the bot itself was removed.
pub struct OperatorInfo {
    pub operator_field1: Option<OperatorField1>,
}

/// Message a reaction points at.
pub struct ReactionTarget {
    pub sequence: u32,
}

/// Who reacted, and how.
pub struct ReactionDetail {
    pub operator_uid: String,
    pub typ: u32,
    pub code: String,
    pub count: u32,
}

/// Inner layer of a reaction notice.
pub struct ReactionData {
    pub target: Option<ReactionTarget>,
    pub data: Option<ReactionDetail>,
}

/// Outer layer of a reaction notice.
pub struct ReactionOuter {
    pub data: Option<ReactionData>,
}

/// A reaction notice.
pub struct GroupReaction {
    pub data: Option<ReactionOuter>,
}

/// One recalled message.
pub struct RecallMessage {
    pub sequence: u64,
    pub time: u32,
    pub random: u32,
    pub author_uid: String,
}

/// Tip shown for a recall.
pub struct RecallTipInfo {
    pub tip: String,
}

/// A group recall notice.
pub struct GroupRecall {
    pub operator_uid: Option<String>,
    pub recall_messages: Vec<RecallMessage>,
    pub tip_info: Option<RecallTipInfo>,
}

/// One key/value parameter of a gray tip template.
pub struct TemplParam {
    pub key: String,
    pub value: String,
}

/// A gray tip (a poke when its business type is 12).
pub struct GeneralGrayTipInfo {
    pub busi_type: u64,
    pub msg_templ_param: Vec<TemplParam>,
}

/// Body of a group notice (`0x2dc` events).
pub struct NotifyMessageBody {
    pub group_uin: u32,
    pub field13: Option<u32>,
    pub reaction: Option<GroupReaction>,
    pub recall: Option<GroupRecall>,
    pub gray_tip_info: Option<GeneralGrayTipInfo>,
}

/// Tip of a friend recall.
pub struct FriendRecallTipInfo {
    pub tip: Option<String>,
}

/// What a friend recalled.
pub struct FriendRecallInfo {
    pub sequence: u32,
    pub time: u32,
    pub random: u32,
    pub tip_info: Option<FriendRecallTipInfo>,
}

/// A friend recall notice (`0x210` sub type 138).
pub struct FriendRecall {
    pub info: Option<FriendRecallInfo>,
}

/// A property of a friend: its code and text.
pub struct FriendProperty {
    pub code: u32,
    pub value: String,
}

/// The properties of a friend.
pub struct FriendLayer1 {
    pub properties: Vec<FriendProperty>,
}

/// A block of additional information about a friend, by type.
pub struct FriendAdditional {
    pub typ: u32,
    pub layer1: Option<FriendLayer1>,
}

/// A friend as the friend list lists it.
pub struct FriendRecord {
    pub uid: String,
    pub custom_group: u32,
    pub uin: u32,
    pub additional: Vec<FriendAdditional>,
}

/// A friend list group: its code and name.
pub struct FriendGroupRecord {
    pub code: u32,
    pub value: String,
}

/// One page of the friend list (`OidbSvcTrpcTcp.0xfd4_1` response): the friends, the friend
/// list groups, and the account to ask from for the next page.
pub struct FriendsResponse {
    pub next: Option<u32>,
    pub friends: Vec<FriendRecord>,
    pub groups: Vec<FriendGroupRecord>,
}

/// A member's account number and uid.
pub struct MemberUin {
    pub uid: String,
    pub uin: u32,
}

/// A member's card.
pub struct MemberCardRecord {
    pub member_card: Option<String>,
}

/// A member as the member list lists it; times are Unix seconds.
pub struct MemberRecord {
    pub uin: Option<MemberUin>,
    pub member_name: String,
    pub special_title: Option<String>,
    pub member_card: Option<MemberCardRecord>,
    pub level: Option<u32>,
    pub join_timestamp: u32,
    pub last_msg_timestamp: u32,
    pub shut_up_timestamp: Option<u32>,
    pub permission: u32,
}

/// One page of a group's member list (`OidbSvcTrpcTcp.0xfe7_3` response).
pub struct MembersResponse {
    pub group_uin: u32,
    pub members: Vec<MemberRecord>,
    pub token: Option<String>,
}

/// A profile property held as bytes.
pub struct BytesProperty {
    pub code: u32,
    pub value: Vec<u8>,
}

/// A profile property held as a number: `number1` is its code, `number2` its value.
pub struct NumberProperty {
    pub number1: u32,
    pub number2: u32,
}

/// The properties of a profile.
pub struct UserInfoProperties {
    pub number_properties: Vec<NumberProperty>,
    pub bytes_properties: Vec<BytesProperty>,
}

/// The body of a profile response.
pub struct UserInfoBody {
    pub properties: Option<UserInfoProperties>,
    pub uin: u32,
}

/// A profile (`OidbSvcTrpcTcp.0xfe1_2` response).
pub struct UserInfoResponse {
    pub body: Option<UserInfoBody>,
}

/// A custom online status, decoded from profile property 27406.
pub struct CustomStatus {
    pub face_id: u32,
    pub msg: Option<String>,
}

/// An avatar, decoded from profile property 101.
pub struct Avatar {
    pub url: Option<String>,
}

/// The icon of a paid service.
pub enum BusinessIcon {
    Icon1(String),
    Icon2(String),
}

/// A paid service as the profile lists it (`is_pro` and `is_year` as numbers).
pub struct BusinessListRecord {
    pub typ: u32,
    pub level: u32,
    pub icon: Option<BusinessIcon>,
    pub is_pro: u32,
    pub is_year: u32,
}

/// The list of paid services.
pub struct BusinessBody {
    pub lists: Vec<BusinessListRecord>,
}

/// Paid services, decoded from profile property 107.
pub struct BusinessRecord {
    pub body: Option<BusinessBody>,
}

} // verus!
