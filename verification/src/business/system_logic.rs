//! The logic for the client's own state: keeping the member cache fresh, going offline when the
//! server ends the session, and waiting between attempts to reconnect.

use vstd::prelude::*;
use crate::dispatch::{Dispatch, SystemEvent};
use crate::event::notify::NoticeEvent;
use crate::event::system::KickNTEvent;
use crate::error::{BusinessError, EventError};
use crate::text::{join2, same_text};

verus! {

/// The group whose member cache an incoming notice makes stale: the group someone joined, or
/// the group someone other than the bot (uid `self_uid`) left.
pub open spec fn spec_stale_group(notice: NoticeEvent, self_uid: Seq<char>) -> Option<u32> {
    match notice {
        NoticeEvent::GroupSysIncrease(join) => Some(join.group_uin),
        NoticeEvent::GroupSysDecrease(leave) => if leave.member_uid@ != self_uid {
            Some(leave.group_uin)
        } else {
            None
        },
        _ => None,
    }
}

/// The group whose member cache to refresh after an incoming notice, if any (see
/// `spec_stale_group`).
pub fn caching_stale_group(notice: &NoticeEvent, self_uid: &str) -> (r: Option<u32>)
    ensures
        r == spec_stale_group(*notice, self_uid@),
{
    match notice {
        NoticeEvent::GroupSysIncrease(join) => Some(join.group_uin),
        NoticeEvent::GroupSysDecrease(leave) => if !same_text(leave.member_uid.as_str(), self_uid) {
            Some(leave.group_uin)
        } else {
            None
        },
        _ => None,
    }
}

/// The event the listeners are told when the server ends the session: the bot is offline, for
/// the reason "title: tips".
pub fn kick_offline_event(kick: &KickNTEvent) -> (r: Dispatch)
    ensures
        r matches Dispatch::System(SystemEvent::BotOfflineEvent(Some(reason))) && reason@
            == kick.title@ + ": "@ + kick.tips@,
{
    let head = join2(kick.title.as_str(), ": ");
    Dispatch::System(SystemEvent::BotOfflineEvent(Some(join2(head.as_str(), kick.tips.as_str()))))
}

/// The first wait before retrying to reconnect, in seconds.
pub const FIRST_RETRY_SECS: u64 = 1;

/// The wait before the next attempt to reconnect, after waiting `secs`: doubled while under 30
/// seconds, then kept.
pub open spec fn spec_next_retry(secs: u64) -> u64 {
    if secs < 30 {
        (secs * 2) as u64
    } else {
        secs
    }
}

/// The wait before the next attempt to reconnect (see `spec_next_retry`).
pub fn next_retry_secs(secs: u64) -> (r: u64)
    requires
        secs < 30 ==> secs * 2 <= u64::MAX,
    ensures
        r == spec_next_retry(secs),
{
    if secs < 30 {
        secs * 2
    } else {
        secs
    }
}

/// The wait before attempt `n + 1` to reconnect (the first after the first failure being
/// attempt 1).
pub open spec fn retry_wait(n: nat) -> u64
    decreases n,
{
    if n == 0 {
        FIRST_RETRY_SECS
    } else {
        spec_next_retry(retry_wait((n - 1) as nat))
    }
}

/// Every wait between attempts to reconnect is one of 1, 2, 4, 8, 16 or 32 seconds.
proof fn lemma_retry_wait_power_of_two(n: nat)
    ensures
        retry_wait(n) == 1 || retry_wait(n) == 2 || retry_wait(n) == 4 || retry_wait(n) == 8
            || retry_wait(n) == 16 || retry_wait(n) == 32,
    decreases n,
{
    if n > 0 {
        lemma_retry_wait_power_of_two((n - 1) as nat);
    }
}

/// The waits between attempts to reconnect never shrink, start at one second and never exceed
/// 32 seconds.
pub proof fn law_retry_wait_bounded(n: nat)
    ensures
        retry_wait(0) == 1,
        1 <= retry_wait(n) <= 32,
        retry_wait(n) <= retry_wait(n + 1),
{
    lemma_retry_wait_power_of_two(n);
}

/// What becomes of the events read from an incoming packet.
pub enum IncomingDisposal {
    /// A request is waiting for them: hand it the result.
    Deliver,
    /// Nobody waits and reading them went well: nothing more to do.
    Done,
    /// Nobody waits and the packet was of a kind the client does not read, or read with a
    /// warning: worth a warning.
    Warn,
    /// Nobody waits and reading them failed: worth an error.
    Report,
}

/// What becomes of the events read from an incoming packet: handed to the request waiting for
/// its sequence, else reported by how reading it went.
pub open spec fn spec_incoming_disposal<T>(waiting: bool, read: Result<T, BusinessError>) -> IncomingDisposal {
    if waiting {
        IncomingDisposal::Deliver
    } else {
        match read {
            Ok(_) => IncomingDisposal::Done,
            Err(BusinessError::InternalEventError(EventError::UnsupportedEvent(_))) => IncomingDisposal::Warn,
            Err(BusinessError::InternalEventError(EventError::InternalWarning(_))) => IncomingDisposal::Warn,
            Err(_) => IncomingDisposal::Report,
        }
    }
}

/// What becomes of the events read from an incoming packet (see `spec_incoming_disposal`).
pub fn incoming_disposal<T>(waiting: bool, read: &Result<T, BusinessError>) -> (r: IncomingDisposal)
    ensures
        r == spec_incoming_disposal(waiting, *read),
{
    if waiting {
        IncomingDisposal::Deliver
    } else {
        match read {
            Ok(_) => IncomingDisposal::Done,
            Err(BusinessError::InternalEventError(EventError::UnsupportedEvent(_))) => IncomingDisposal::Warn,
            Err(BusinessError::InternalEventError(EventError::InternalWarning(_))) => IncomingDisposal::Warn,
            Err(_) => IncomingDisposal::Report,
        }
    }
}

/// How waiting for the answer to a sent request ended.
pub enum WaitOutcome<T> {
    /// The answer came, read well or not.
    Answered(Result<T, BusinessError>),
    /// The channel the answer would come on was dropped.
    ChannelDropped,
    /// Fifteen seconds passed without an answer.
    TimedOut,
}

/// The result of a sent request, by how waiting for it ended: the answer itself, or a
/// `GenericError` saying the channel was dropped or the request timed out. In the two latter
/// cases the request stops being waited for.
pub fn request_result<T>(outcome: WaitOutcome<T>) -> (r: (Result<T, BusinessError>, bool))
    ensures
        match outcome {
            WaitOutcome::Answered(res) => r.0 == res && !r.1,
            WaitOutcome::ChannelDropped => (r.0 matches Err(BusinessError::GenericError(m)) && m@
                == "response channel dropped"@) && r.1,
            WaitOutcome::TimedOut => (r.0 matches Err(BusinessError::GenericError(m)) && m@
                == "request timed out"@) && r.1,
        },
{
    match outcome {
        WaitOutcome::Answered(res) => (res, false),
        WaitOutcome::ChannelDropped => (
            Err(BusinessError::GenericError("response channel dropped".to_string())),
            true,
        ),
        WaitOutcome::TimedOut => (Err(BusinessError::GenericError("request timed out".to_string())), true),
    }
}

} // verus!
