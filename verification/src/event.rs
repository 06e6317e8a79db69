//! Events exchanged with the server.

use vstd::prelude::*;

pub mod notify;
pub mod push_msg;
pub mod system;
pub mod user_info;
pub mod login;
pub mod media;
pub mod group_requests;
pub mod chat;

use crate::event::chat::{MultiMsgDownloadEvent, SendMessageEvent};
use crate::event::group_requests::{FetchFilteredGroupRequestsEvent, FetchGroupRequestsEvent};
use crate::event::login::WtLogin;
use crate::event::media::{
    FileC2CDownloadEvent, ImageC2CDownloadEvent, RecordC2CDownloadEvent, RecordGroupDownloadEvent,
};
use crate::event::push_msg::PushMessageEvent;
use crate::event::system::{
    AliveEvent, FetchFriendsEvent, FetchHighwayTicketEvent, FetchMembersEvent, FetchRKeyEvent,
    KickNTEvent, NtSsoAliveEvent,
};
use crate::event::user_info::FetchUserInfoEvent;
use crate::error::ParseEventError;
use crate::text::same_text;

verus! {

/// The service command an event is sent or received under.
pub trait CECommandMarker {
    /// The command's name.
    fn command(&self) -> &'static str;
}

impl CECommandMarker for WtLogin {
    fn command(&self) -> (r: &'static str)
        ensures
            r@ == "wtlogin.login"@,
    {
        "wtlogin.login"
    }
}

impl CECommandMarker for KickNTEvent {
    fn command(&self) -> (r: &'static str)
        ensures
            r@ == "trpc.qq_new_tech.status_svc.StatusService.KickNT"@,
    {
        "trpc.qq_new_tech.status_svc.StatusService.KickNT"
    }
}

impl CECommandMarker for PushMessageEvent {
    fn command(&self) -> (r: &'static str)
        ensures
            r@ == "trpc.msg.olpush.OlPushService.MsgPush"@,
    {
        "trpc.msg.olpush.OlPushService.MsgPush"
    }
}

impl CECommandMarker for AliveEvent {
    fn command(&self) -> (r: &'static str)
        ensures
            r@ == "Heartbeat.Alive"@,
    {
        "Heartbeat.Alive"
    }
}

impl CECommandMarker for NtSsoAliveEvent {
    fn command(&self) -> (r: &'static str)
        ensures
            r@ == "trpc.qq_new_tech.status_svc.StatusService.SsoHeartBeat"@,
    {
        "trpc.qq_new_tech.status_svc.StatusService.SsoHeartBeat"
    }
}

impl CECommandMarker for FetchHighwayTicketEvent {
    fn command(&self) -> (r: &'static str)
        ensures
            r@ == "HttpConn.0x6ff_501"@,
    {
        "HttpConn.0x6ff_501"
    }
}

impl CECommandMarker for FetchRKeyEvent {
    fn command(&self) -> (r: &'static str)
        ensures
            r@ == "OidbSvcTrpcTcp.0x9067_202"@,
    {
        "OidbSvcTrpcTcp.0x9067_202"
    }
}

impl CECommandMarker for SendMessageEvent {
    fn command(&self) -> (r: &'static str)
        ensures
            r@ == "MessageSvc.PbSendMsg"@,
    {
        "MessageSvc.PbSendMsg"
    }
}

impl CECommandMarker for MultiMsgDownloadEvent {
    fn command(&self) -> (r: &'static str)
        ensures
            r@ == "trpc.group.long_msg_interface.MsgService.SsoRecvLongMsg"@,
    {
        "trpc.group.long_msg_interface.MsgService.SsoRecvLongMsg"
    }
}

impl CECommandMarker for ImageC2CDownloadEvent {
    fn command(&self) -> (r: &'static str)
        ensures
            r@ == "OidbSvcTrpcTcp.0x11c5_200"@,
    {
        "OidbSvcTrpcTcp.0x11c5_200"
    }
}

impl CECommandMarker for RecordC2CDownloadEvent {
    fn command(&self) -> (r: &'static str)
        ensures
            r@ == "OidbSvcTrpcTcp.0x126d_200"@,
    {
        "OidbSvcTrpcTcp.0x126d_200"
    }
}

impl CECommandMarker for RecordGroupDownloadEvent {
    fn command(&self) -> (r: &'static str)
        ensures
            r@ == "OidbSvcTrpcTcp.0x126e_200"@,
    {
        "OidbSvcTrpcTcp.0x126e_200"
    }
}

impl CECommandMarker for FileC2CDownloadEvent {
    fn command(&self) -> (r: &'static str)
        ensures
            r@ == "OidbSvcTrpcTcp.0xe37_1200"@,
    {
        "OidbSvcTrpcTcp.0xe37_1200"
    }
}

impl CECommandMarker for FetchFriendsEvent {
    fn command(&self) -> (r: &'static str)
        ensures
            r@ == "OidbSvcTrpcTcp.0xfd4_1"@,
    {
        "OidbSvcTrpcTcp.0xfd4_1"
    }
}

impl CECommandMarker for FetchMembersEvent {
    fn command(&self) -> (r: &'static str)
        ensures
            r@ == "OidbSvcTrpcTcp.0xfe7_3"@,
    {
        "OidbSvcTrpcTcp.0xfe7_3"
    }
}

impl CECommandMarker for FetchUserInfoEvent {
    fn command(&self) -> (r: &'static str)
        ensures
            r@ == "OidbSvcTrpcTcp.0xfe1_2"@,
    {
        "OidbSvcTrpcTcp.0xfe1_2"
    }
}

impl CECommandMarker for FetchGroupRequestsEvent {
    fn command(&self) -> (r: &'static str)
        ensures
            r@ == "OidbSvcTrpcTcp.0x10c0_1"@,
    {
        "OidbSvcTrpcTcp.0x10c0_1"
    }
}

impl CECommandMarker for FetchFilteredGroupRequestsEvent {
    fn command(&self) -> (r: &'static str)
        ensures
            r@ == "OidbSvcTrpcTcp.0x10c0_2"@,
    {
        "OidbSvcTrpcTcp.0x10c0_2"
    }
}

/// The position of the last registration of `command` among the registered commands (a
/// later registration of a command replaces an earlier one).
pub open spec fn registered_at(commands: Seq<String>, command: Seq<char>) -> Option<int>
    decreases commands.len(),
{
    if commands.len() == 0 {
        None
    } else if commands.last()@ == command {
        Some(commands.len() - 1)
    } else {
        registered_at(commands.drop_last(), command)
    }
}

/// Which registered parser reads a packet of service command `command`: the last registration
/// of that command; a command nobody registered is `UnsupportedEvent` naming it.
pub fn resolve_command(commands: &Vec<String>, command: &str) -> (r: Result<usize, ParseEventError>)
    ensures
        match registered_at(commands@, command@) {
            Some(i) => r == Ok::<usize, ParseEventError>(i as usize),
            None => r matches Err(ParseEventError::UnsupportedEvent(c)) && c@ == command@,
        },
{
    let mut i: usize = commands.len();
    assert(commands@.take(i as int) =~= commands@);
    while i > 0
        invariant
            i <= commands.len(),
            registered_at(commands@, command@) == registered_at(commands@.take(i as int), command@),
        decreases i,
    {
        let ghost before = commands@.take(i as int);
        assert(before.drop_last() =~= commands@.take(i - 1));
        assert(before.last() == commands@[i - 1]);
        if same_text(commands[i - 1].as_str(), command) {
            return Ok(i - 1);
        }
        i = i - 1;
    }
    assert(commands@.take(0) =~= Seq::<String>::empty());
    Err(ParseEventError::UnsupportedEvent(command.to_string()))
}

} // verus!
