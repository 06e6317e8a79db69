//! Sending a message (`MessageSvc.PbSendMsg`) and downloading forwarded messages
//! (`trpc.group.long_msg_interface.MsgService.SsoRecvLongMsg`).

use vstd::prelude::*;
use crate::error::{other_error, EventError};
use crate::message::MessageChain;
use crate::proto::PushMsgBody;
use crate::text::same_text;

verus! {

/// What the server answered to a sent message.
pub struct MessageResult {
    pub message_id: u64,
    pub sequence: Option<u32>,
    pub result: u32,
    pub timestamp: u32,
    pub client_sequence: u32,
}

/// The server's answer to a sent message (`SendMessageResponse`).
pub struct SendMessageResponse {
    pub result: i32,
    pub group_sequence: Option<u32>,
    pub private_sequence: u32,
    pub timestamp1: u32,
}

/// A message to send, and what the server answered.
pub struct SendMessageEvent {
    pub chain: MessageChain,
    pub result: MessageResult,
}

impl SendMessageEvent {
    /// What the answer says: its result code (as unsigned), the message's sequence (the
    /// group's when given, else the private one) and its time; the other fields are 0.
    pub fn parse(res: SendMessageResponse) -> (r: MessageResult)
        ensures
            r.result == res.result as u32,
            r.sequence == Some(
                match res.group_sequence {
                    Some(s) => s,
                    None => res.private_sequence,
                },
            ),
            r.timestamp == res.timestamp1,
            r.message_id == 0 && r.client_sequence == 0,
    {
        MessageResult {
            message_id: 0,
            sequence: Some(
                match res.group_sequence {
                    Some(s) => s,
                    None => res.private_sequence,
                },
            ),
            result: res.result as u32,
            timestamp: res.timestamp1,
            client_sequence: 0,
        }
    }
}

/// An action of a downloaded long message: its command and, for forwarded messages, their
/// bodies.
pub struct LongMsgAction {
    pub action_command: String,
    pub action_data: Option<Vec<PushMsgBody>>,
}

/// A request for the messages forwarded under a resource id, and what they were.
pub struct MultiMsgDownloadEvent {
    pub uid: Option<String>,
    pub res_id: Option<String>,
    pub chains: Option<Vec<MessageChain>>,
}

/// The first action with command "MultiMsg".
pub open spec fn first_multi_msg(actions: Seq<LongMsgAction>) -> Option<LongMsgAction>
    decreases actions.len(),
{
    if actions.len() == 0 {
        None
    } else if actions[0].action_command@ == "MultiMsg"@ {
        Some(actions[0])
    } else {
        first_multi_msg(actions.drop_first())
    }
}

impl MultiMsgDownloadEvent {
    /// The bodies of the forwarded messages in a downloaded long message: those of its first
    /// "MultiMsg" action. Without such an action, or without data in it, the download is an
    /// `OtherError` saying which.
    pub fn forwarded_bodies(actions: Vec<LongMsgAction>) -> (r: Result<Vec<PushMsgBody>, EventError>)
        ensures
            match first_multi_msg(actions@) {
                None => r matches Err(e) && other_error(e, "Failed to find MultiMsg command"@),
                Some(a) => match a.action_data {
                    None => r matches Err(e) && other_error(e, "Failed to find action_data"@),
                    Some(d) => r matches Ok(bodies) && bodies == d,
                },
            },
    {
        let ghost all = actions@;
        let mut rest = actions;
        assert(rest@ =~= all.subrange(0, all.len() as int));
        let n = rest.len();
        let mut i: usize = 0;
        while i < n
            invariant
                all == actions@,
                n == all.len(),
                i <= n,
                rest@ =~= all.subrange(i as int, n as int),
                first_multi_msg(all) == first_multi_msg(all.subrange(i as int, n as int)),
            decreases n - i,
        {
            let ghost before = rest@;
            let a = rest.remove(0);
            assert(before[0] == a);
            assert(before.drop_first() =~= all.subrange(i + 1, n as int));
            if same_text(a.action_command.as_str(), "MultiMsg") {
                return match a.action_data {
                    Some(d) => Ok(d),
                    None => Err(EventError::OtherError("Failed to find action_data".to_string())),
                };
            }
            i = i + 1;
        }
        Err(EventError::OtherError("Failed to find MultiMsg command".to_string()))
    }
}

/// A request for the messages forwarded under a resource id, to be acquired, with the
/// settings 2, 0, 0, 0.
pub struct LongMsgRequest {
    pub uid: Option<String>,
    pub res_id: Option<String>,
    pub acquire: bool,
    pub settings: (u32, u32, u32, u32),
}

impl MultiMsgDownloadEvent {
    /// The request for the event's resource id, as seen by its uid.
    pub fn build(&self) -> (r: LongMsgRequest)
        ensures
            r.uid == self.uid,
            r.res_id == self.res_id,
            r.acquire,
            r.settings == (2u32, 0u32, 0u32, 0u32),
    {
        LongMsgRequest {
            uid: match &self.uid {
                Some(u) => Some(u.clone()),
                None => None,
            },
            res_id: match &self.res_id {
                Some(u) => Some(u.clone()),
                None => None,
            },
            acquire: true,
            settings: (2, 0, 0, 0),
        }
    }
}

/// The error of the first body that did not parse as a chain, if one did not.
pub open spec fn first_chain_error(parsed: Seq<Result<MessageChain, String>>) -> Option<String>
    decreases parsed.len(),
{
    if parsed.len() == 0 {
        None
    } else {
        match parsed[0] {
            Err(m) => Some(m),
            Ok(_) => first_chain_error(parsed.drop_first()),
        }
    }
}

impl MultiMsgDownloadEvent {
    /// The downloaded forward, given what parsing each of its bodies (from `forwarded_bodies`,
    /// in order) gave: their chains, in the same order, and no uid or resource id. The first
    /// body that did not parse fails the download with an `OtherError` carrying its error.
    pub fn with_chains(parsed: Vec<Result<MessageChain, String>>) -> (r: Result<
        MultiMsgDownloadEvent,
        EventError,
    >)
        ensures
            match first_chain_error(parsed@) {
                Some(m) => r matches Err(EventError::OtherError(e)) && e == m,
                None => r matches Ok(ev) && ev.uid is None && ev.res_id is None && (
                ev.chains matches Some(cs) && cs@.len() == parsed@.len() && (forall|i: int|
                    0 <= i < cs@.len() ==> parsed@[i] == Ok::<MessageChain, String>(
                        #[trigger] cs@[i],
                    ))),
            },
    {
        let ghost all = parsed@;
        let n = parsed.len();
        let mut rest = parsed;
        let mut chains: Vec<MessageChain> = Vec::new();
        let mut i: usize = 0;
        assert(rest@ =~= all.subrange(0, n as int));
        while i < n
            invariant
                all == parsed@,
                n == all.len(),
                i <= n,
                rest@ =~= all.subrange(i as int, n as int),
                chains@.len() == i,
                forall|j: int| 0 <= j < i ==> all[j] == Ok::<MessageChain, String>(#[trigger] chains@[j]),
                first_chain_error(all) == first_chain_error(all.subrange(i as int, n as int)),
            decreases n - i,
        {
            let ghost before = rest@;
            let p = rest.remove(0);
            assert(before[0] == p);
            assert(before.drop_first() =~= all.subrange(i + 1, n as int));
            match p {
                Ok(c) => chains.push(c),
                Err(m) => return Err(EventError::OtherError(m)),
            }
            i = i + 1;
        }
        assert(all.subrange(n as int, n as int).len() == 0);
        Ok(MultiMsgDownloadEvent { uid: None, res_id: None, chains: Some(chains) })
    }
}

} // verus!
