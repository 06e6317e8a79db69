//! Pushed messages (`trpc.msg.olpush.OlPushService.MsgPush`): what kind of push arrived,
//! what must be decoded next, and the notices built from the decoded parts.

use vstd::prelude::*;
use crate::error::{EventError, other_error};
use crate::proto::{
    FriendRecall, GeneralGrayTipInfo, GroupChange, GroupJoin, NotifyMessageBody, OperatorInfo,
    PushMsg, PushMsgBody, TemplParam,
};
use crate::message::MessageChain;
use crate::entity::{
    spec_decrease_type, spec_increase_type, GroupMemberDecreaseEventType,
    GroupMemberIncreaseEventType,
};
use crate::event::notify::{
    FriendSysPokeEvent, FriendSysRecallEvent, GroupSysDecreaseEvent, GroupSysIncreaseEvent,
    GroupSysPokeEvent, GroupSysReactionEvent, GroupSysRecallEvent, GroupSysRequestJoinEvent,
    NoticeEvent,
};
use crate::text::{
    decimal, decode_utf8_text, join2, parse_u32, same_text, spec_parse_u32, u32_to_string,
    utf8_error_message,
};
use vstd::utf8::{decode_utf8, valid_utf8};

verus! {

/// The package type of a push.
#[derive(Clone, Copy, Debug, PartialEq, Eq, Structural)]
pub enum PkgType {
    PrivateMessage,
    GroupMessage,
    TempMessage,
    Event0x210,
    Event0x2DC,
    PrivateRecordMessage,
    PrivateFileMessage,
    GroupRequestInvitationNotice,
    GroupRequestJoinNotice,
    GroupInviteNotice,
    GroupAdminChangedNotice,
    GroupMemberIncreaseNotice,
    GroupMemberDecreaseNotice,
}

/// The wire code of each package type.
pub open spec fn pkg_type_code(p: PkgType) -> u32 {
    match p {
        PkgType::PrivateMessage => 166,
        PkgType::GroupMessage => 82,
        PkgType::TempMessage => 141,
        PkgType::Event0x210 => 0x210,
        PkgType::Event0x2DC => 0x2DC,
        PkgType::PrivateRecordMessage => 208,
        PkgType::PrivateFileMessage => 529,
        PkgType::GroupRequestInvitationNotice => 525,
        PkgType::GroupRequestJoinNotice => 84,
        PkgType::GroupInviteNotice => 87,
        PkgType::GroupAdminChangedNotice => 44,
        PkgType::GroupMemberIncreaseNotice => 33,
        PkgType::GroupMemberDecreaseNotice => 34,
    }
}

/// Sub types of a group notice (`0x2dc`).
#[derive(Clone, Copy, Debug, PartialEq, Eq, Structural)]
pub enum Event0x2DCSubType {
    GroupMuteNotice,
    SubType16,
    GroupRecallNotice,
    GroupEssenceNotice,
    GroupGreyTipNotice,
}

/// The wire code of each group notice sub type.
pub open spec fn sub_type_0x2dc_code(s: Event0x2DCSubType) -> u32 {
    match s {
        Event0x2DCSubType::GroupMuteNotice => 12,
        Event0x2DCSubType::SubType16 => 16,
        Event0x2DCSubType::GroupRecallNotice => 17,
        Event0x2DCSubType::GroupEssenceNotice => 21,
        Event0x2DCSubType::GroupGreyTipNotice => 20,
    }
}

/// Kinds of a group notice of sub type 16, told apart by its field 13.
#[derive(Clone, Copy, Debug, PartialEq, Eq, Structural)]
pub enum Event0x2DCSubType16Field13 {
    GroupMemberSpecialTitleNotice,
    GroupNameChangeNotice,
    GroupTodoNotice,
    GroupReactionNotice,
}

/// The wire code of each kind of sub type 16 notice.
pub open spec fn field13_code(f: Event0x2DCSubType16Field13) -> u32 {
    match f {
        Event0x2DCSubType16Field13::GroupMemberSpecialTitleNotice => 6,
        Event0x2DCSubType16Field13::GroupNameChangeNotice => 12,
        Event0x2DCSubType16Field13::GroupTodoNotice => 23,
        Event0x2DCSubType16Field13::GroupReactionNotice => 35,
    }
}

/// Sub types of a friend notice (`0x210`).
#[derive(Clone, Copy, Debug, PartialEq, Eq, Structural)]
pub enum Event0x210SubType {
    FriendRequestNotice,
    GroupMemberEnterNotice,
    FriendDeleteOrPinChangedNotice,
    FriendRecallNotice,
    ServicePinChanged,
    FriendPokeNotice,
    GroupKickNotice,
}

/// The wire code of each friend notice sub type.
pub open spec fn sub_type_0x210_code(s: Event0x210SubType) -> u32 {
    match s {
        Event0x210SubType::FriendRequestNotice => 35,
        Event0x210SubType::GroupMemberEnterNotice => 38,
        Event0x210SubType::FriendDeleteOrPinChangedNotice => 39,
        Event0x210SubType::FriendRecallNotice => 138,
        Event0x210SubType::ServicePinChanged => 199,
        Event0x210SubType::FriendPokeNotice => 290,
        Event0x210SubType::GroupKickNotice => 212,
    }
}

/// The PkgType whose wire code is `code`, if any.
pub open spec fn spec_pkg_type(code: u32) -> Option<PkgType> {
    if code == 166 { Some(PkgType::PrivateMessage) }
    else if code == 82 { Some(PkgType::GroupMessage) }
    else if code == 141 { Some(PkgType::TempMessage) }
    else if code == 0x210 { Some(PkgType::Event0x210) }
    else if code == 0x2DC { Some(PkgType::Event0x2DC) }
    else if code == 208 { Some(PkgType::PrivateRecordMessage) }
    else if code == 529 { Some(PkgType::PrivateFileMessage) }
    else if code == 525 { Some(PkgType::GroupRequestInvitationNotice) }
    else if code == 84 { Some(PkgType::GroupRequestJoinNotice) }
    else if code == 87 { Some(PkgType::GroupInviteNotice) }
    else if code == 44 { Some(PkgType::GroupAdminChangedNotice) }
    else if code == 33 { Some(PkgType::GroupMemberIncreaseNotice) }
    else if code == 34 { Some(PkgType::GroupMemberDecreaseNotice) }
    else { None }
}

/// Reads a package type from its wire code.
pub fn pkg_type_from(code: u32) -> (r: Option<PkgType>)
    ensures
        r == spec_pkg_type(code),
{
    if code == 166 { Some(PkgType::PrivateMessage) }
    else if code == 82 { Some(PkgType::GroupMessage) }
    else if code == 141 { Some(PkgType::TempMessage) }
    else if code == 0x210 { Some(PkgType::Event0x210) }
    else if code == 0x2DC { Some(PkgType::Event0x2DC) }
    else if code == 208 { Some(PkgType::PrivateRecordMessage) }
    else if code == 529 { Some(PkgType::PrivateFileMessage) }
    else if code == 525 { Some(PkgType::GroupRequestInvitationNotice) }
    else if code == 84 { Some(PkgType::GroupRequestJoinNotice) }
    else if code == 87 { Some(PkgType::GroupInviteNotice) }
    else if code == 44 { Some(PkgType::GroupAdminChangedNotice) }
    else if code == 33 { Some(PkgType::GroupMemberIncreaseNotice) }
    else if code == 34 { Some(PkgType::GroupMemberDecreaseNotice) }
    else { None }
}

/// The Event0x2DCSubType whose wire code is `code`, if any.
pub open spec fn spec_sub_type_0x2dc(code: u32) -> Option<Event0x2DCSubType> {
    if code == 12 { Some(Event0x2DCSubType::GroupMuteNotice) }
    else if code == 16 { Some(Event0x2DCSubType::SubType16) }
    else if code == 17 { Some(Event0x2DCSubType::GroupRecallNotice) }
    else if code == 21 { Some(Event0x2DCSubType::GroupEssenceNotice) }
    else if code == 20 { Some(Event0x2DCSubType::GroupGreyTipNotice) }
    else { None }
}

/// Reads a group notice sub type from its wire code.
pub fn sub_type_0x2dc_from(code: u32) -> (r: Option<Event0x2DCSubType>)
    ensures
        r == spec_sub_type_0x2dc(code),
{
    if code == 12 { Some(Event0x2DCSubType::GroupMuteNotice) }
    else if code == 16 { Some(Event0x2DCSubType::SubType16) }
    else if code == 17 { Some(Event0x2DCSubType::GroupRecallNotice) }
    else if code == 21 { Some(Event0x2DCSubType::GroupEssenceNotice) }
    else if code == 20 { Some(Event0x2DCSubType::GroupGreyTipNotice) }
    else { None }
}

/// The Event0x2DCSubType16Field13 whose wire code is `code`, if any.
pub open spec fn spec_field13(code: u32) -> Option<Event0x2DCSubType16Field13> {
    if code == 6 { Some(Event0x2DCSubType16Field13::GroupMemberSpecialTitleNotice) }
    else if code == 12 { Some(Event0x2DCSubType16Field13::GroupNameChangeNotice) }
    else if code == 23 { Some(Event0x2DCSubType16Field13::GroupTodoNotice) }
    else if code == 35 { Some(Event0x2DCSubType16Field13::GroupReactionNotice) }
    else { None }
}

/// Reads the kind of a sub type 16 notice from its wire code.
pub fn field13_from(code: u32) -> (r: Option<Event0x2DCSubType16Field13>)
    ensures
        r == spec_field13(code),
{
    if code == 6 { Some(Event0x2DCSubType16Field13::GroupMemberSpecialTitleNotice) }
    else if code == 12 { Some(Event0x2DCSubType16Field13::GroupNameChangeNotice) }
    else if code == 23 { Some(Event0x2DCSubType16Field13::GroupTodoNotice) }
    else if code == 35 { Some(Event0x2DCSubType16Field13::GroupReactionNotice) }
    else { None }
}

/// The Event0x210SubType whose wire code is `code`, if any.
pub open spec fn spec_sub_type_0x210(code: u32) -> Option<Event0x210SubType> {
    if code == 35 { Some(Event0x210SubType::FriendRequestNotice) }
    else if code == 38 { Some(Event0x210SubType::GroupMemberEnterNotice) }
    else if code == 39 { Some(Event0x210SubType::FriendDeleteOrPinChangedNotice) }
    else if code == 138 { Some(Event0x210SubType::FriendRecallNotice) }
    else if code == 199 { Some(Event0x210SubType::ServicePinChanged) }
    else if code == 290 { Some(Event0x210SubType::FriendPokeNotice) }
    else if code == 212 { Some(Event0x210SubType::GroupKickNotice) }
    else { None }
}

/// Reads a friend notice sub type from its wire code.
pub fn sub_type_0x210_from(code: u32) -> (r: Option<Event0x210SubType>)
    ensures
        r == spec_sub_type_0x210(code),
{
    if code == 35 { Some(Event0x210SubType::FriendRequestNotice) }
    else if code == 38 { Some(Event0x210SubType::GroupMemberEnterNotice) }
    else if code == 39 { Some(Event0x210SubType::FriendDeleteOrPinChangedNotice) }
    else if code == 138 { Some(Event0x210SubType::FriendRecallNotice) }
    else if code == 199 { Some(Event0x210SubType::ServicePinChanged) }
    else if code == 290 { Some(Event0x210SubType::FriendPokeNotice) }
    else if code == 212 { Some(Event0x210SubType::GroupKickNotice) }
    else { None }
}

/// A wire code reads as a package type exactly when it is that type's code.
pub proof fn law_pkg_type_codes(code: u32, p: PkgType)
    ensures
        spec_pkg_type(code) == Some(p) <==> pkg_type_code(p) == code,
{
}

/// A wire code reads as a group notice sub type exactly when it is that sub type's code.
pub proof fn law_sub_type_0x2dc_codes(code: u32, s: Event0x2DCSubType)
    ensures
        spec_sub_type_0x2dc(code) == Some(s) <==> sub_type_0x2dc_code(s) == code,
{
}

/// A wire code reads as a kind of sub type 16 notice exactly when it is that kind's code.
pub proof fn law_field13_codes(code: u32, f: Event0x2DCSubType16Field13)
    ensures
        spec_field13(code) == Some(f) <==> field13_code(f) == code,
{
}

/// A wire code reads as a friend notice sub type exactly when it is that sub type's code.
pub proof fn law_sub_type_0x210_codes(code: u32, s: Event0x210SubType)
    ensures
        spec_sub_type_0x210(code) == Some(s) <==> sub_type_0x210_code(s) == code,
{
}

/// The package type of a push, if its head carries one.
pub open spec fn push_typ(p: PushMsg) -> Option<u32> {
    match p.message {
        Some(m) => match m.content_head {
            Some(h) => Some(h.typ),
            None => None,
        },
        None => None,
    }
}

/// The sub type of a push, if its head carries one.
pub open spec fn push_sub_type(p: PushMsg) -> Option<u32> {
    match p.message {
        Some(m) => match m.content_head {
            Some(h) => h.sub_type,
            None => None,
        },
        None => None,
    }
}

/// The raw content of a push, if its body carries one.
pub open spec fn push_content(p: PushMsg) -> Option<Seq<u8>> {
    match p.message {
        Some(m) => match m.body {
            Some(b) => match b.msg_content {
                Some(c) => Some(c@),
                None => None,
            },
            None => None,
        },
        None => None,
    }
}

/// The routing head of a push (as the sender's uid, when it names one), if it has one.
pub open spec fn push_from_uid(p: PushMsg) -> Option<Option<Seq<char>>> {
    match p.message {
        Some(m) => match m.response_head {
            Some(h) => Some(match h.from_uid {
                Some(u) => Some(u@),
                None => None,
            }),
            None => None,
        },
        None => None,
    }
}

/// What the handling of a push asks for next.
pub enum PushStep {
    /// A chat message of the given kind: its message chain is parsed from the body.
    ParseChain(PkgType, PushMsgBody),
    /// A private file: its file chain is parsed from the body.
    ParsePrivateFile(PushMsgBody),
    /// A join request: the content is a `GroupJoin`.
    DecodeGroupJoin(Vec<u8>),
    /// A member joined: the content is a `GroupChange`.
    DecodeGroupIncrease(Vec<u8>),
    /// A member left: the content is a `GroupChange`.
    DecodeGroupDecrease(Vec<u8>),
    /// A group notice: the content starts with the group head (see `extract_0x2dc_head`).
    SplitGroupNotice(Event0x2DCSubType, Vec<u8>),
    /// A friend recall: the content is a `FriendRecall`; the sender's uid comes from the head.
    DecodeFriendRecall(Vec<u8>, Option<String>),
    /// A friend poke: the content is a `GeneralGrayTipInfo`.
    DecodeFriendPoke(Vec<u8>),
    /// A notice that carries no event the library handles.
    Unhandled,
}

/// The view of a step, or of the failure that stopped the handling.
pub ghost enum PushPlan {
    ParseChain(PkgType),
    ParsePrivateFile,
    DecodeGroupJoin(Seq<u8>),
    DecodeGroupIncrease(Seq<u8>),
    DecodeGroupDecrease(Seq<u8>),
    SplitGroupNotice(Event0x2DCSubType, Seq<u8>),
    DecodeFriendRecall(Seq<u8>, Option<Seq<char>>),
    DecodeFriendPoke(Seq<u8>),
    Unhandled,
    /// An `OtherError` with this text.
    Fail(Seq<char>),
    /// An error of another kind with this text (no handling step gives one).
    FailOther(Seq<char>),
}

/// The view of what a handling step returned.
pub open spec fn plan_of(r: Result<PushStep, EventError>) -> PushPlan {
    match r {
        Ok(PushStep::ParseChain(k, _)) => PushPlan::ParseChain(k),
        Ok(PushStep::ParsePrivateFile(_)) => PushPlan::ParsePrivateFile,
        Ok(PushStep::DecodeGroupJoin(c)) => PushPlan::DecodeGroupJoin(c@),
        Ok(PushStep::DecodeGroupIncrease(c)) => PushPlan::DecodeGroupIncrease(c@),
        Ok(PushStep::DecodeGroupDecrease(c)) => PushPlan::DecodeGroupDecrease(c@),
        Ok(PushStep::SplitGroupNotice(t, c)) => PushPlan::SplitGroupNotice(t, c@),
        Ok(PushStep::DecodeFriendRecall(c, u)) => PushPlan::DecodeFriendRecall(
            c@,
            match u {
                Some(u) => Some(u@),
                None => None,
            },
        ),
        Ok(PushStep::DecodeFriendPoke(c)) => PushPlan::DecodeFriendPoke(c@),
        Ok(PushStep::Unhandled) => PushPlan::Unhandled,
        Err(EventError::OtherError(m)) => PushPlan::Fail(m@),
        Err(EventError::UnsupportedEvent(m)) => PushPlan::FailOther(m@),
        Err(EventError::InternalWarning(m)) => PushPlan::FailOther(m@),
    }
}

/// The content of a push, or a failure with message `err_tip` when it has none.
pub open spec fn content_or_fail(p: PushMsg, err_tip: Seq<char>) -> Result<Seq<u8>, Seq<char>> {
    match push_content(p) {
        Some(c) => Ok(c),
        None => Err(err_tip),
    }
}

/// How `TryFromPrimitiveError` shows an unknown code.
pub open spec fn unknown_code_text(code: u32) -> Seq<char> {
    "TryFromPrimitiveError { number: "@ + decimal(code as nat) + " }"@
}

/// What handling a group notice (`0x2dc`) asks for next.
pub open spec fn plan_0x2dc(p: PushMsg) -> PushPlan {
    match push_sub_type(p) {
        None => PushPlan::Fail("Cannot get sub_type in PushMsg"@),
        Some(code) => match spec_sub_type_0x2dc(code) {
            None => PushPlan::Fail(
                "receive unknown olpush message 0x2dc sub type: "@ + unknown_code_text(code),
            ),
            Some(t) => {
                let tip = match t {
                    Event0x2DCSubType::SubType16 => "0x2dc SubType16 missing msg_content"@,
                    Event0x2DCSubType::GroupRecallNotice => "0x2dc GroupRecallNotice missing msg_content"@,
                    _ => "0x2dc sub type 20 missing msg_content"@,
                };
                match t {
                    Event0x2DCSubType::SubType16 | Event0x2DCSubType::GroupRecallNotice
                    | Event0x2DCSubType::GroupGreyTipNotice => match content_or_fail(p, tip) {
                        Ok(c) => PushPlan::SplitGroupNotice(t, c),
                        Err(m) => PushPlan::Fail(m),
                    },
                    _ => PushPlan::Unhandled,
                }
            },
        },
    }
}

/// What handling a friend notice (`0x210`) asks for next.
pub open spec fn plan_0x210(p: PushMsg) -> PushPlan {
    match push_sub_type(p) {
        None => PushPlan::Fail("Cannot get sub_type in PushMsg"@),
        Some(code) => match spec_sub_type_0x210(code) {
            None => PushPlan::Fail(
                "receive unknown olpush message 0x210 sub type: "@ + unknown_code_text(code),
            ),
            Some(Event0x210SubType::FriendRecallNotice) => match push_content(p) {
                None => PushPlan::Fail(
                    "Missing msg_content in Event0x210SubType::FriendRecallNotice"@,
                ),
                Some(c) => match push_from_uid(p) {
                    None => PushPlan::Fail(
                        "Missing response_head in Event0x210SubType::FriendRecallNotice"@,
                    ),
                    Some(u) => PushPlan::DecodeFriendRecall(c, u),
                },
            },
            Some(Event0x210SubType::FriendPokeNotice) => match content_or_fail(
                p,
                "0x210 FriendPokeNotice missing msg_content"@,
            ) {
                Ok(c) => PushPlan::DecodeFriendPoke(c),
                Err(m) => PushPlan::Fail(m),
            },
            Some(_) => PushPlan::Unhandled,
        },
    }
}

/// What handling a push asks for next.
pub open spec fn plan_push(p: PushMsg) -> PushPlan {
    match push_typ(p) {
        None => PushPlan::Fail("Cannot get typ in PushMsg"@),
        Some(code) => match spec_pkg_type(code) {
            None => PushPlan::Fail("receive unknown olpush message type: "@ + decimal(code as nat)),
            Some(k) => match k {
                PkgType::PrivateMessage | PkgType::GroupMessage | PkgType::TempMessage
                | PkgType::PrivateRecordMessage => PushPlan::ParseChain(k),
                PkgType::PrivateFileMessage => PushPlan::ParsePrivateFile,
                PkgType::GroupRequestJoinNotice => match content_or_fail(
                    p,
                    "GroupRequestJoinNotice missing msg_content"@,
                ) {
                    Ok(c) => PushPlan::DecodeGroupJoin(c),
                    Err(m) => PushPlan::Fail(m),
                },
                PkgType::GroupMemberIncreaseNotice => match content_or_fail(
                    p,
                    "GroupMemberIncreaseNotice missing msg_content"@,
                ) {
                    Ok(c) => PushPlan::DecodeGroupIncrease(c),
                    Err(m) => PushPlan::Fail(m),
                },
                PkgType::GroupMemberDecreaseNotice => match content_or_fail(
                    p,
                    "GroupMemberDecreaseNotice missing msg_content"@,
                ) {
                    Ok(c) => PushPlan::DecodeGroupDecrease(c),
                    Err(m) => PushPlan::Fail(m),
                },
                PkgType::Event0x2DC => plan_0x2dc(p),
                PkgType::Event0x210 => plan_0x210(p),
                _ => PushPlan::Unhandled,
            },
        },
    }
}

/// Takes the raw content out of a push; fails with `err_tip` when it has none.
pub fn extract_msg_content(packet: PushMsg, err_tip: &str) -> (r: Result<Vec<u8>, EventError>)
    ensures
        match r {
            Ok(c) => push_content(packet) == Some(c@),
            Err(e) => push_content(packet) is None && other_error(e, err_tip@),
        },
{
    match packet.message {
        Some(m) => match m.body {
            Some(b) => match b.msg_content {
                Some(c) => Ok(c),
                None => Err(EventError::OtherError(err_tip.to_string())),
            },
            None => Err(EventError::OtherError(err_tip.to_string())),
        },
        None => Err(EventError::OtherError(err_tip.to_string())),
    }
}

/// The sub type of a push; fails when its head carries none.
pub fn extract_0x_sub_type(packet: &PushMsg) -> (r: Result<u32, EventError>)
    ensures
        match r {
            Ok(t) => push_sub_type(*packet) == Some(t),
            Err(e) => push_sub_type(*packet) is None
                && other_error(e, "Cannot get sub_type in PushMsg"@),
        },
{
    match &packet.message {
        Some(m) => match &m.content_head {
            Some(h) => match h.sub_type {
                Some(t) => Ok(t),
                None => Err(EventError::OtherError("Cannot get sub_type in PushMsg".to_string())),
            },
            None => Err(EventError::OtherError("Cannot get sub_type in PushMsg".to_string())),
        },
        None => Err(EventError::OtherError("Cannot get sub_type in PushMsg".to_string())),
    }
}

fn unknown_code_error(prefix: &str, code: u32) -> (e: EventError)
    ensures
        other_error(e, prefix@ + unknown_code_text(code)),
{
    let head = join2(prefix, "TryFromPrimitiveError { number: ");
    let digits = u32_to_string(code);
    let body = join2(head.as_str(), digits.as_str());
    let text = join2(body.as_str(), " }");
    assert(text@ =~= prefix@ + unknown_code_text(code));
    EventError::OtherError(text)
}

/// Handles a group notice (`0x2dc`): reads its sub type and takes the content that the
/// notice's body is decoded from.
pub fn process_event_0x2dc(packet: PushMsg) -> (r: Result<PushStep, EventError>)
    ensures
        plan_of(r) == plan_0x2dc(packet),
        r matches Err(e) ==> e is OtherError,
{
    let code = match extract_0x_sub_type(&packet) {
        Ok(t) => t,
        Err(e) => return Err(e),
    };
    let sub = match sub_type_0x2dc_from(code) {
        Some(t) => t,
        None => return Err(unknown_code_error("receive unknown olpush message 0x2dc sub type: ", code)),
    };
    match sub {
        Event0x2DCSubType::SubType16 => match extract_msg_content(packet, "0x2dc SubType16 missing msg_content") {
            Ok(c) => Ok(PushStep::SplitGroupNotice(sub, c)),
            Err(e) => Err(e),
        },
        Event0x2DCSubType::GroupRecallNotice => match extract_msg_content(packet, "0x2dc GroupRecallNotice missing msg_content") {
            Ok(c) => Ok(PushStep::SplitGroupNotice(sub, c)),
            Err(e) => Err(e),
        },
        Event0x2DCSubType::GroupGreyTipNotice => match extract_msg_content(packet, "0x2dc sub type 20 missing msg_content") {
            Ok(c) => Ok(PushStep::SplitGroupNotice(sub, c)),
            Err(e) => Err(e),
        },
        _ => Ok(PushStep::Unhandled),
    }
}

/// Handles a friend notice (`0x210`): reads its sub type and takes what the notice's body is
/// decoded from (and, for a recall, the sender's uid from the routing head).
pub fn process_event_0x210(packet: PushMsg) -> (r: Result<PushStep, EventError>)
    ensures
        plan_of(r) == plan_0x210(packet),
        r matches Err(e) ==> e is OtherError,
{
    let code = match extract_0x_sub_type(&packet) {
        Ok(t) => t,
        Err(e) => return Err(e),
    };
    let sub = match sub_type_0x210_from(code) {
        Some(t) => t,
        None => return Err(unknown_code_error("receive unknown olpush message 0x210 sub type: ", code)),
    };
    match sub {
        Event0x210SubType::FriendRecallNotice => {
            let PushMsg { message } = packet;
            let m = match message {
                Some(m) => m,
                None => return Err(EventError::OtherError(
                    "Missing msg_content in Event0x210SubType::FriendRecallNotice".to_string(),
                )),
            };
            let PushMsgBody { response_head, content_head: _, body } = m;
            let content = match body {
                Some(b) => match b.msg_content {
                    Some(c) => c,
                    None => return Err(EventError::OtherError(
                        "Missing msg_content in Event0x210SubType::FriendRecallNotice".to_string(),
                    )),
                },
                None => return Err(EventError::OtherError(
                    "Missing msg_content in Event0x210SubType::FriendRecallNotice".to_string(),
                )),
            };
            match response_head {
                Some(h) => Ok(PushStep::DecodeFriendRecall(content, h.from_uid)),
                None => Err(EventError::OtherError(
                    "Missing response_head in Event0x210SubType::FriendRecallNotice".to_string(),
                )),
            }
        },
        Event0x210SubType::FriendPokeNotice => match extract_msg_content(packet, "0x210 FriendPokeNotice missing msg_content") {
            Ok(c) => Ok(PushStep::DecodeFriendPoke(c)),
            Err(e) => Err(e),
        },
        _ => Ok(PushStep::Unhandled),
    }
}

/// A message pushed by the server: the chat message it carries, if it carries one.
pub struct PushMessageEvent {
    pub chain: Option<MessageChain>,
}

/// Whether a package type carries a chat message (parsed as a message chain).
pub open spec fn is_chat_kind(k: PkgType) -> bool {
    k is PrivateMessage || k is GroupMessage || k is TempMessage || k is PrivateRecordMessage
}

impl PushMessageEvent {
    /// First stage of parsing a push: reads its package type and says what is to be decoded
    /// next. A chat message (`ParseChain`) yields a message chain and no notices; every other
    /// step yields notices and no chain.
    pub fn parse(packet: PushMsg) -> (r: Result<PushStep, EventError>)
        ensures
            plan_of(r) == plan_push(packet),
            r matches Err(e) ==> e is OtherError,
            r matches Ok(PushStep::ParseChain(_, b)) ==> packet.message == Some(b),
            r matches Ok(PushStep::ParsePrivateFile(b)) ==> packet.message == Some(b),
    {
        let code = match &packet.message {
            Some(m) => match &m.content_head {
                Some(h) => h.typ,
                None => return Err(EventError::OtherError("Cannot get typ in PushMsg".to_string())),
            },
            None => return Err(EventError::OtherError("Cannot get typ in PushMsg".to_string())),
        };
        let kind = match pkg_type_from(code) {
            Some(k) => k,
            None => {
                let digits = u32_to_string(code);
                let text = join2("receive unknown olpush message type: ", digits.as_str());
                return Err(EventError::OtherError(text));
            },
        };
        match kind {
            PkgType::PrivateMessage | PkgType::GroupMessage | PkgType::TempMessage
            | PkgType::PrivateRecordMessage => match packet.message {
                Some(b) => Ok(PushStep::ParseChain(kind, b)),
                None => Err(EventError::OtherError("PushMsgBody is None".to_string())),
            },
            PkgType::PrivateFileMessage => match packet.message {
                Some(b) => Ok(PushStep::ParsePrivateFile(b)),
                None => Err(EventError::OtherError("PushMsgBody is None".to_string())),
            },
            PkgType::GroupRequestJoinNotice => match extract_msg_content(packet, "GroupRequestJoinNotice missing msg_content") {
                Ok(c) => Ok(PushStep::DecodeGroupJoin(c)),
                Err(e) => Err(e),
            },
            PkgType::GroupMemberIncreaseNotice => match extract_msg_content(packet, "GroupMemberIncreaseNotice missing msg_content") {
                Ok(c) => Ok(PushStep::DecodeGroupIncrease(c)),
                Err(e) => Err(e),
            },
            PkgType::GroupMemberDecreaseNotice => match extract_msg_content(packet, "GroupMemberDecreaseNotice missing msg_content") {
                Ok(c) => Ok(PushStep::DecodeGroupDecrease(c)),
                Err(e) => Err(e),
            },
            PkgType::Event0x2DC => process_event_0x2dc(packet),
            PkgType::Event0x210 => process_event_0x210(packet),
            _ => Ok(PushStep::Unhandled),
        }
    }
}

impl PushMessageEvent {
    /// Last stage of a chat message or a private file (`ParseChain`, `ParsePrivateFile`): given
    /// what parsing its body gave, the push carries that chain; a chat message has no notices,
    /// a private file an empty list of them. A body that did not parse fails the push with an
    /// `OtherError` saying which parse failed and why.
    pub fn with_chain(kind: PkgType, parsed: Result<MessageChain, String>) -> (r: Result<
        (PushMessageEvent, Option<Vec<NoticeEvent>>),
        EventError,
    >)
        requires
            is_chat_kind(kind) || kind is PrivateFileMessage,
        ensures
            match parsed {
                Ok(c) => r matches Ok((ev, extra)) && ev.chain == Some(c) && (if is_chat_kind(kind) {
                    extra is None
                } else {
                    extra matches Some(v) && v@.len() == 0
                }),
                Err(m) => r matches Err(e) && other_error(
                    e,
                    (if is_chat_kind(kind) {
                        "parse_chain failed: "@
                    } else {
                        "parse_file_chain failed: "@
                    }) + m@,
                ),
            },
    {
        let chat = match kind {
            PkgType::PrivateFileMessage => false,
            _ => true,
        };
        match parsed {
            Ok(c) => {
                let extra = if chat {
                    None
                } else {
                    Some(Vec::new())
                };
                Ok((PushMessageEvent { chain: Some(c) }, extra))
            },
            Err(m) => {
                let head = if chat {
                    "parse_chain failed: "
                } else {
                    "parse_file_chain failed: "
                };
                Err(EventError::OtherError(join2(head, m.as_str())))
            },
        }
    }

    /// Last stage of any other push: it carries no chain, and the notice it gave, if any.
    pub fn with_notice(notice: Option<NoticeEvent>) -> (r: (PushMessageEvent, Option<Vec<NoticeEvent>>))
        ensures
            r.0.chain is None,
            r.1 matches Some(v) && match notice {
                Some(n) => v@ == seq![n],
                None => v@.len() == 0,
            },
    {
        let mut v: Vec<NoticeEvent> = Vec::new();
        match notice {
            Some(n) => v.push(n),
            None => {},
        }
        (PushMessageEvent { chain: None }, Some(v))
    }
}

/// The value of the last template parameter named `key`, if any (later parameters of the same
/// name replace earlier ones, as when they are collected into a map).
pub open spec fn templ_lookup(ps: Seq<TemplParam>, key: Seq<char>) -> Option<Seq<char>>
    decreases ps.len(),
{
    if ps.len() == 0 {
        None
    } else if ps.last().key@ == key {
        Some(ps.last().value@)
    } else {
        templ_lookup(ps.drop_last(), key)
    }
}

/// The text held, or the empty text.
pub open spec fn text_or_empty(o: Option<Seq<char>>) -> Seq<char> {
    match o {
        Some(t) => t,
        None => Seq::empty(),
    }
}

/// The account number that the text held spells, or 0.
pub open spec fn uin_or_zero(o: Option<Seq<char>>) -> u32 {
    match spec_parse_u32(text_or_empty(o)) {
        Some(n) => n,
        None => 0,
    }
}

/// What a poke notice says: who poked whom, and how.
pub struct PokeArgs {
    pub action: String,
    pub operator_uin: u32,
    pub target_uin: u32,
    pub suffix: String,
    pub action_img_url: String,
}

fn find_param(ps: &Vec<TemplParam>, key: &str) -> (r: Option<String>)
    ensures
        match r {
            Some(v) => templ_lookup(ps@, key@) == Some(v@),
            None => templ_lookup(ps@, key@) is None,
        },
{
    let mut i: usize = ps.len();
    assert(ps@.take(i as int) =~= ps@);
    while i > 0
        invariant
            i <= ps.len(),
            templ_lookup(ps@, key@) == templ_lookup(ps@.take(i as int), key@),
        decreases i,
    {
        let ghost before = ps@.take(i as int);
        assert(before.drop_last() =~= ps@.take(i - 1));
        assert(before.last() == ps@[i - 1]);
        if same_text(ps[i - 1].key.as_str(), key) {
            return Some(ps[i - 1].value.clone());
        }
        i = i - 1;
    }
    assert(ps@.take(0) =~= Seq::<TemplParam>::empty());
    None
}

fn text_param(ps: &Vec<TemplParam>, key: &str) -> (r: String)
    ensures
        r@ == text_or_empty(templ_lookup(ps@, key@)),
{
    match find_param(ps, key) {
        Some(v) => v,
        None => String::new(),
    }
}

fn uin_param(ps: &Vec<TemplParam>, key: &str) -> (r: u32)
    ensures
        r == uin_or_zero(templ_lookup(ps@, key@)),
{
    let text = text_param(ps, key);
    match parse_u32(text.as_str()) {
        Some(n) => n,
        None => 0,
    }
}

/// Reads a poke out of a gray tip's template parameters: the action (`action_str`, else
/// `alt_str1`), the poker (`uin_str1`) and the poked (`uin_str2`) as account numbers (0 when
/// missing or not a number), the suffix and the action image.
pub fn extract_poke_info(gt: &GeneralGrayTipInfo) -> (r: PokeArgs)
    ensures
        r.action@ == (match templ_lookup(gt.msg_templ_param@, "action_str"@) {
            Some(a) => a,
            None => text_or_empty(templ_lookup(gt.msg_templ_param@, "alt_str1"@)),
        }),
        r.operator_uin == uin_or_zero(templ_lookup(gt.msg_templ_param@, "uin_str1"@)),
        r.target_uin == uin_or_zero(templ_lookup(gt.msg_templ_param@, "uin_str2"@)),
        r.suffix@ == text_or_empty(templ_lookup(gt.msg_templ_param@, "suffix"@)),
        r.action_img_url@ == text_or_empty(templ_lookup(gt.msg_templ_param@, "action_img_url"@)),
{
    let ps = &gt.msg_templ_param;
    let action = match find_param(ps, "action_str") {
        Some(a) => a,
        None => text_param(ps, "alt_str1"),
    };
    PokeArgs {
        action,
        operator_uin: uin_param(ps, "uin_str1"),
        target_uin: uin_param(ps, "uin_str2"),
        suffix: text_param(ps, "suffix"),
        action_img_url: text_param(ps, "action_img_url"),
    }
}

/// The notice for a join request.
pub fn group_join_event(join: GroupJoin) -> (r: GroupSysRequestJoinEvent)
    ensures
        r.target_uid == join.target_uid,
        r.group_uin == join.group_uin,
{
    GroupSysRequestJoinEvent { target_uid: join.target_uid, group_uin: join.group_uin }
}

/// The notice for a member who joined. The operator field, when present, is the inviter's uid in
/// UTF-8; bytes that are not UTF-8 are an error.
pub fn group_increase_event(change: GroupChange) -> (r: Result<GroupSysIncreaseEvent, EventError>)
    ensures
        match change.operator {
            None => r matches Ok(ev) && ev.invitor_uid is None,
            Some(op) => if valid_utf8(op@) {
                r matches Ok(ev) && ev.invitor_uid matches Some(u) && u@ == decode_utf8(op@)
            } else {
                r matches Err(e) && other_error(
                    e,
                    "Failed to parse invitor_uid in GroupChange: "@ + utf8_error_message(op@),
                )
            },
        },
        r matches Ok(ev) ==> ev.group_uin == change.group_uin && ev.member_uid == change.member_uid
            && ev.event_type == spec_increase_type(change.decrease_type),
{
    let GroupChange { group_uin, member_uid, decrease_type, operator } = change;
    let invitor_uid = match operator {
        None => None,
        Some(op) => match decode_utf8_text(op) {
            Ok(u) => Some(u),
            Err(m) => {
                let text = join2("Failed to parse invitor_uid in GroupChange: ", m.as_str());
                return Err(EventError::OtherError(text));
            },
        },
    };
    Ok(
        GroupSysIncreaseEvent {
            group_uin,
            member_uid,
            invitor_uid,
            event_type: GroupMemberIncreaseEventType::from_code(decrease_type),
        },
    )
}

/// What a member-left notice asks for next.
pub enum DecreaseStep {
    /// The notice is complete.
    Event(GroupSysDecreaseEvent),
    /// The bot itself was removed: the operator field (first) is an `OperatorInfo` to decode;
    /// the group and the member follow.
    DecodeOperator(Vec<u8>, u32, String),
}

/// Handles a member who left. When the bot itself was removed (type 3) the operator is an
/// encoded record that must be present; otherwise it is the operator's uid in UTF-8, dropped
/// when it is not UTF-8.
pub fn group_decrease_step(change: GroupChange) -> (r: Result<DecreaseStep, EventError>)
    ensures
        change.decrease_type == 3 ==> match change.operator {
            None => r matches Err(e) && other_error(e, "Cannot get operator in GroupChange"@),
            Some(op) => r matches Ok(DecreaseStep::DecodeOperator(b, g, m))
                && b@ == op@ && g == change.group_uin && m == change.member_uid,
        },
        change.decrease_type != 3 ==> (r matches Ok(DecreaseStep::Event(ev))
            && ev.group_uin == change.group_uin && ev.member_uid == change.member_uid
            && ev.event_type == spec_decrease_type(change.decrease_type)
            && match change.operator {
                Some(op) => if valid_utf8(op@) {
                    ev.operator_uid matches Some(u) && u@ == decode_utf8(op@)
                } else {
                    ev.operator_uid is None
                },
                None => ev.operator_uid is None,
            }),
{
    let GroupChange { group_uin, member_uid, decrease_type, operator } = change;
    if decrease_type == 3 {
        match operator {
            None => Err(EventError::OtherError("Cannot get operator in GroupChange".to_string())),
            Some(op) => Ok(DecreaseStep::DecodeOperator(op, group_uin, member_uid)),
        }
    } else {
        let operator_uid = match operator {
            None => None,
            Some(op) => match decode_utf8_text(op) {
                Ok(u) => Some(u),
                Err(_) => None,
            },
        };
        Ok(
            DecreaseStep::Event(
                GroupSysDecreaseEvent {
                    group_uin,
                    member_uid,
                    operator_uid,
                    event_type: GroupMemberDecreaseEventType::from_code(decrease_type),
                },
            ),
        )
    }
}

/// The notice for the bot itself being removed from a group, once its operator record is decoded.
pub fn group_decrease_kicked_event(group_uin: u32, member_uid: String, op: OperatorInfo) -> (r: GroupSysDecreaseEvent)
    ensures
        r.group_uin == group_uin,
        r.member_uid == member_uid,
        r.event_type == GroupMemberDecreaseEventType::KickMe,
        match op.operator_field1 {
            Some(f) => r.operator_uid == Some(f.operator_uid),
            None => r.operator_uid is None,
        },
{
    let operator_uid = match op.operator_field1 {
        Some(f) => Some(f.operator_uid),
        None => None,
    };
    GroupSysDecreaseEvent {
        group_uin,
        member_uid,
        operator_uid,
        event_type: GroupMemberDecreaseEventType::KickMe,
    }
}

/// The big-endian number held by four bytes.
pub open spec fn be_u32(b0: u8, b1: u8, b2: u8, b3: u8) -> int {
    b0 * 0x100_0000 + b1 * 0x1_0000 + b2 * 0x100 + b3
}

/// The length that a group notice head announces for its body.
pub open spec fn notice_body_len(c: Seq<u8>) -> int {
    c[5] * 0x100 + c[6]
}

/// A group notice head is complete: the group (4 bytes), one byte, and a two-byte length that
/// the rest of the content covers.
pub open spec fn notice_head_complete(c: Seq<u8>) -> bool {
    c.len() >= 7 && 7 + notice_body_len(c) <= c.len()
}

/// Whether a group notice head is complete (see `notice_head_complete`); splitting an
/// incomplete one stops the program.
pub fn notice_head_ok(content: &Vec<u8>) -> (r: bool)
    ensures
        r == notice_head_complete(content@),
{
    if content.len() < 7 {
        return false;
    }
    let len: usize = (content[5] as usize) * 0x100 + (content[6] as usize);
    len <= content.len() - 7
}

/// Splits the content of a group notice into its group (big-endian, first four bytes) and its
/// body: after one more byte, a body whose length the next two bytes give (big-endian).
pub fn extract_0x2dc_head(content: &Vec<u8>) -> (r: (u32, Vec<u8>))
    requires
        notice_head_complete(content@),
    ensures
        r.0 == be_u32(content@[0], content@[1], content@[2], content@[3]),
        r.1@ == content@.subrange(7, 7 + notice_body_len(content@)),
{
    let group_uin: u32 = (content[0] as u32) * 0x100_0000 + (content[1] as u32) * 0x1_0000
        + (content[2] as u32) * 0x100 + (content[3] as u32);
    let len: usize = (content[5] as usize) * 0x100 + (content[6] as usize);
    let mut body: Vec<u8> = Vec::new();
    let mut i: usize = 0;
    while i < len
        invariant
            notice_head_complete(content@),
            len == notice_body_len(content@),
            i <= len,
            body@ == content@.subrange(7, 7 + i),
        decreases len - i,
    {
        body.push(content[7 + i]);
        assert(body@ =~= content@.subrange(7, 7 + i + 1));
        i = i + 1;
    }
    (group_uin, body)
}

/// How `TryFromPrimitiveError` describes a field 13 code that names no kind of notice.
pub open spec fn no_field13_text(code: u32) -> Seq<char> {
    "No discriminant in enum `Event0x2DCSubType16Field13` matches the value `"@
        + decimal(code as nat) + "`"@
}

/// The code in field 13 of a notice body (0 when absent).
pub open spec fn field13_or_zero(body: NotifyMessageBody) -> u32 {
    match body.field13 {
        Some(c) => c,
        None => 0,
    }
}

/// The notice that a decoded sub type 16 body (a reaction, when its field 13 says so) gives.
pub open spec fn reaction_outcome_ok(group_uin: u32, body: NotifyMessageBody, r: Result<Option<NoticeEvent>, EventError>) -> bool {
    match spec_field13(field13_or_zero(body)) {
        None => r matches Err(e) && other_error(
            e,
            "Failed to parse 0x2dc sub type 16 field 13: "@ + no_field13_text(field13_or_zero(body)),
        ),
        Some(Event0x2DCSubType16Field13::GroupReactionNotice) => {
            let data2 = match body.reaction {
                Some(re) => match re.data {
                    Some(outer) => outer.data,
                    None => None,
                },
                None => None,
            };
            match data2 {
                None => r matches Err(e) && other_error(
                    e,
                    "Missing reaction data_2 in 0x2dc sub type 16 field 13"@,
                ),
                Some(d2) => match d2.data {
                    None => r matches Err(e) && other_error(
                        e,
                        "Missing reaction data_3 in 0x2dc sub type 16 field 13"@,
                    ),
                    Some(d3) => match d2.target {
                        None => r matches Err(e) && other_error(
                            e,
                            "Missing target_sequence in reaction in 0x2dc sub type 16 field 13"@,
                        ),
                        Some(t) => r matches Ok(Some(NoticeEvent::GroupSysReaction(ev)))
                            && ev.target_group_uin == group_uin && ev.target_sequence == t.sequence
                            && ev.operator_uid == d3.operator_uid && ev.is_add == (d3.typ == 1)
                            && ev.code == d3.code && ev.count == d3.count,
                    },
                },
            }
        },
        Some(_) => r matches Ok(None),
    }
}

/// The notice that a decoded recall body gives.
pub open spec fn recall_outcome_ok(body: NotifyMessageBody, r: Result<Option<NoticeEvent>, EventError>) -> bool {
    match body.recall {
        None => r matches Err(e) && other_error(e, "Missing recall meta in 0x2dc sub type 17"@),
        Some(recall) => if recall.recall_messages@.len() == 0 {
            r matches Err(e) && other_error(e, "Missing recall message in 0x2dc sub type 17"@)
        } else {
            let meta = recall.recall_messages@[0];
            r matches Ok(Some(NoticeEvent::GroupSysRecall(ev)))
                && ev.group_uin == body.group_uin && ev.author_uid == meta.author_uid
                && ev.operator_uid == recall.operator_uid && ev.sequence == meta.sequence as u32
                && ev.time == meta.time && ev.random == meta.random
                && ev.tip@ == match recall.tip_info {
                    Some(t) => t.tip@,
                    None => Seq::<char>::empty(),
                }
        },
    }
}

/// A gray tip is a poke.
pub open spec fn is_poke(gt: GeneralGrayTipInfo) -> bool {
    gt.busi_type == 12
}

/// The notice that a decoded gray tip body gives: a poke, or nothing.
pub open spec fn grey_tip_outcome_ok(group_uin: u32, body: NotifyMessageBody, r: Result<Option<NoticeEvent>, EventError>) -> bool {
    match body.gray_tip_info {
        Some(gt) => if is_poke(gt) {
            r matches Ok(Some(NoticeEvent::GroupSysPoke(ev))) && ev.group_uin == group_uin
                && poke_fields(gt, ev.operator_uin, ev.target_uin, ev.action@, ev.suffix@, ev.action_img_url@)
        } else {
            r matches Ok(None)
        },
        None => r matches Ok(None),
    }
}

/// The fields of a poke are those `extract_poke_info` reads from the gray tip.
pub open spec fn poke_fields(gt: GeneralGrayTipInfo, operator_uin: u32, target_uin: u32, action: Seq<char>, suffix: Seq<char>, img: Seq<char>) -> bool {
    let ps = gt.msg_templ_param@;
    &&& action == match templ_lookup(ps, "action_str"@) {
        Some(a) => a,
        None => text_or_empty(templ_lookup(ps, "alt_str1"@)),
    }
    &&& operator_uin == uin_or_zero(templ_lookup(ps, "uin_str1"@))
    &&& target_uin == uin_or_zero(templ_lookup(ps, "uin_str2"@))
    &&& suffix == text_or_empty(templ_lookup(ps, "suffix"@))
    &&& img == text_or_empty(templ_lookup(ps, "action_img_url"@))
}

fn reaction_event(group_uin: u32, body: NotifyMessageBody) -> (r: Result<Option<NoticeEvent>, EventError>)
    ensures
        reaction_outcome_ok(group_uin, body, r),
{
    let code = match body.field13 {
        Some(c) => c,
        None => 0,
    };
    let kind = match field13_from(code) {
        Some(k) => k,
        None => {
            let head = join2("Failed to parse 0x2dc sub type 16 field 13: ", "No discriminant in enum `Event0x2DCSubType16Field13` matches the value `");
            let digits = u32_to_string(code);
            let mid = join2(head.as_str(), digits.as_str());
            let text = join2(mid.as_str(), "`");
            assert(text@ =~= "Failed to parse 0x2dc sub type 16 field 13: "@ + no_field13_text(code));
            return Err(EventError::OtherError(text));
        },
    };
    match kind {
        Event0x2DCSubType16Field13::GroupReactionNotice => {
            let data2 = match body.reaction {
                Some(re) => match re.data {
                    Some(outer) => outer.data,
                    None => None,
                },
                None => None,
            };
            let d2 = match data2 {
                Some(d) => d,
                None => return Err(EventError::OtherError(
                    "Missing reaction data_2 in 0x2dc sub type 16 field 13".to_string(),
                )),
            };
            let d3 = match d2.data {
                Some(d) => d,
                None => return Err(EventError::OtherError(
                    "Missing reaction data_3 in 0x2dc sub type 16 field 13".to_string(),
                )),
            };
            let t = match d2.target {
                Some(t) => t,
                None => return Err(EventError::OtherError(
                    "Missing target_sequence in reaction in 0x2dc sub type 16 field 13".to_string(),
                )),
            };
            Ok(Some(NoticeEvent::GroupSysReaction(GroupSysReactionEvent {
                target_group_uin: group_uin,
                target_sequence: t.sequence,
                operator_uid: d3.operator_uid,
                is_add: d3.typ == 1,
                code: d3.code,
                count: d3.count,
            })))
        },
        _ => Ok(None),
    }
}

fn recall_event(body: NotifyMessageBody) -> (r: Result<Option<NoticeEvent>, EventError>)
    ensures
        recall_outcome_ok(body, r),
{
    let NotifyMessageBody { group_uin, field13: _, reaction: _, recall, gray_tip_info: _ } = body;
    let recall = match recall {
        Some(rc) => rc,
        None => return Err(EventError::OtherError("Missing recall meta in 0x2dc sub type 17".to_string())),
    };
    let tip = match recall.tip_info {
        Some(t) => t.tip,
        None => String::new(),
    };
    if recall.recall_messages.len() == 0 {
        return Err(EventError::OtherError("Missing recall message in 0x2dc sub type 17".to_string()));
    }
    let meta = &recall.recall_messages[0];
    Ok(Some(NoticeEvent::GroupSysRecall(GroupSysRecallEvent {
        group_uin,
        author_uid: meta.author_uid.clone(),
        operator_uid: recall.operator_uid,
        sequence: meta.sequence as u32,
        time: meta.time,
        random: meta.random,
        tip,
    })))
}

fn grey_tip_event(group_uin: u32, body: NotifyMessageBody) -> (r: Result<Option<NoticeEvent>, EventError>)
    ensures
        grey_tip_outcome_ok(group_uin, body, r),
{
    match body.gray_tip_info {
        Some(gt) => if gt.busi_type == 12 {
            let poke = extract_poke_info(&gt);
            Ok(Some(NoticeEvent::GroupSysPoke(GroupSysPokeEvent {
                group_uin,
                operator_uin: poke.operator_uin,
                target_uin: poke.target_uin,
                action: poke.action,
                suffix: poke.suffix,
                action_img_url: poke.action_img_url,
            })))
        } else {
            Ok(None)
        },
        None => Ok(None),
    }
}

/// Second stage of a group notice: the notice that its decoded body gives. A sub type 16 body is
/// a reaction when its field 13 says so; a recall body names the recalled message; a gray tip is
/// a poke when its business type is 12. The group comes from the notice head, except for a
/// recall, which names its own group.
pub fn group_notice_event(sub: Event0x2DCSubType, group_uin: u32, body: NotifyMessageBody) -> (r: Result<Option<NoticeEvent>, EventError>)
    ensures
        match sub {
            Event0x2DCSubType::SubType16 => reaction_outcome_ok(group_uin, body, r),
            Event0x2DCSubType::GroupRecallNotice => recall_outcome_ok(body, r),
            Event0x2DCSubType::GroupGreyTipNotice => grey_tip_outcome_ok(group_uin, body, r),
            _ => r matches Ok(None),
        },
{
    match sub {
        Event0x2DCSubType::SubType16 => reaction_event(group_uin, body),
        Event0x2DCSubType::GroupRecallNotice => recall_event(body),
        Event0x2DCSubType::GroupGreyTipNotice => grey_tip_event(group_uin, body),
        _ => Ok(None),
    }
}

/// Second stage of a friend recall: the notice its decoded body gives, with the sender's uid
/// from the routing head (empty when it names none).
pub fn friend_recall_event(from_uid: Option<String>, recall: FriendRecall) -> (r: Result<FriendSysRecallEvent, EventError>)
    ensures
        match recall.info {
            None => r matches Err(e) && other_error(e, "Missing friend request info in 0x210 sub type 138"@),
            Some(info) => r matches Ok(ev)
                && ev.from_uid@ == text_or_empty(match from_uid {
                    Some(u) => Some(u@),
                    None => None,
                })
                && ev.client_sequence == info.sequence && ev.time == info.time
                && ev.random == info.random
                && ev.tip@ == match info.tip_info {
                    Some(t) => match t.tip {
                        Some(tip) => tip@,
                        None => Seq::<char>::empty(),
                    },
                    None => Seq::<char>::empty(),
                },
        },
{
    let info = match recall.info {
        Some(i) => i,
        None => return Err(EventError::OtherError("Missing friend request info in 0x210 sub type 138".to_string())),
    };
    let tip = match info.tip_info {
        Some(t) => match t.tip {
            Some(tip) => tip,
            None => String::new(),
        },
        None => String::new(),
    };
    let from = match from_uid {
        Some(u) => u,
        None => String::new(),
    };
    Ok(FriendSysRecallEvent {
        from_uid: from,
        client_sequence: info.sequence,
        time: info.time,
        random: info.random,
        tip,
    })
}

/// Second stage of a friend poke: the notice its decoded gray tip gives, when it is a poke.
pub fn friend_poke_event(gt: GeneralGrayTipInfo) -> (r: Option<FriendSysPokeEvent>)
    ensures
        is_poke(gt) <==> r is Some,
        r matches Some(ev) ==> poke_fields(gt, ev.operator_uin, ev.target_uin, ev.action@, ev.suffix@, ev.action_img_url@),
{
    if gt.busi_type != 12 {
        return None;
    }
    let poke = extract_poke_info(&gt);
    Some(FriendSysPokeEvent {
        operator_uin: poke.operator_uin,
        target_uin: poke.target_uin,
        action: poke.action,
        suffix: poke.suffix,
        action_img_url: poke.action_img_url,
    })
}

/// A reaction notice (sub type 16, field 13 = 35) whose decoded body names the reacted message
/// and the reaction reports an added reaction exactly when the reaction's type is 1, in the
/// notice's group, for the named message, by the reaction's operator.
pub proof fn law_reaction_added_iff_type_one(
    group_uin: u32,
    body: NotifyMessageBody,
    r: Result<Option<NoticeEvent>, EventError>,
)
    requires
        body.field13 == Some(35u32),
        body.reaction matches Some(re) && re.data matches Some(outer) && outer.data matches Some(d)
            && d.data is Some && d.target is Some,
        reaction_outcome_ok(group_uin, body, r),
    ensures
        r matches Ok(Some(NoticeEvent::GroupSysReaction(ev))) && ({
            let d = body.reaction.unwrap().data.unwrap().data.unwrap();
            &&& ev.is_add <==> d.data.unwrap().typ == 1
            &&& ev.target_group_uin == group_uin
            &&& ev.target_sequence == d.target.unwrap().sequence
            &&& ev.operator_uid == d.data.unwrap().operator_uid
        }),
{
}

proof fn lemma_templ_lookup_at(ps: Seq<TemplParam>, key: Seq<char>, k: int)
    requires
        0 <= k < ps.len(),
        ps[k].key@ == key,
        forall|j: int| k < j < ps.len() ==> ps[j].key@ != key,
    ensures
        templ_lookup(ps, key) == Some(ps[k].value@),
    decreases ps.len(),
{
    if k < ps.len() - 1 {
        assert(ps.last() == ps[ps.len() - 1]);
        lemma_templ_lookup_at(ps.drop_last(), key, k);
    }
}

/// In a poke (of a group or of a friend), the one who poked is the number in the gray tip's
/// last `uin_str1` parameter and the one poked the number in its last `uin_str2` parameter.
pub proof fn law_poke_sides_from_template(
    gt: GeneralGrayTipInfo,
    operator_uin: u32,
    target_uin: u32,
    action: Seq<char>,
    suffix: Seq<char>,
    img: Seq<char>,
    k1: int,
    k2: int,
)
    requires
        poke_fields(gt, operator_uin, target_uin, action, suffix, img),
    ensures
        ({
            let ps = gt.msg_templ_param@;
            &&& (0 <= k1 < ps.len() && ps[k1].key@ == "uin_str1"@ && (forall|j: int|
                k1 < j < ps.len() ==> ps[j].key@ != "uin_str1"@) && spec_parse_u32(ps[k1].value@) is Some)
                ==> Some(operator_uin) == spec_parse_u32(ps[k1].value@)
            &&& (0 <= k2 < ps.len() && ps[k2].key@ == "uin_str2"@ && (forall|j: int|
                k2 < j < ps.len() ==> ps[j].key@ != "uin_str2"@) && spec_parse_u32(ps[k2].value@) is Some)
                ==> Some(target_uin) == spec_parse_u32(ps[k2].value@)
        }),
{
    let ps = gt.msg_templ_param@;
    if 0 <= k1 < ps.len() && ps[k1].key@ == "uin_str1"@ && (forall|j: int| k1 < j < ps.len() ==> ps[j].key@ != "uin_str1"@) {
        lemma_templ_lookup_at(ps, "uin_str1"@, k1);
    }
    if 0 <= k2 < ps.len() && ps[k2].key@ == "uin_str2"@ && (forall|j: int| k2 < j < ps.len() ==> ps[j].key@ != "uin_str2"@) {
        lemma_templ_lookup_at(ps, "uin_str2"@, k2);
    }
}

/// A group recall notice names the recalled message by the first message its body lists: its
/// author, sequence and time, in the body's group, with the recall's operator.
pub proof fn law_recall_names_first_message(body: NotifyMessageBody, r: Result<Option<NoticeEvent>, EventError>)
    requires
        recall_outcome_ok(body, r),
        body.recall matches Some(rc) && rc.recall_messages@.len() > 0,
    ensures
        r matches Ok(Some(NoticeEvent::GroupSysRecall(ev))) && ({
            let rc = body.recall.unwrap();
            &&& ev.group_uin == body.group_uin
            &&& ev.author_uid == rc.recall_messages@[0].author_uid
            &&& ev.operator_uid == rc.operator_uid
            &&& ev.sequence == rc.recall_messages@[0].sequence as u32
            &&& ev.time == rc.recall_messages@[0].time
        }),
{
}

} // verus!
