//! Pending requests to join groups (`OidbSvcTrpcTcp.0x10c0_1`, and `_2` for the filtered ones),
//! and the list the client offers: both lists in turn, with accounts resolved to numbers.

use vstd::prelude::*;
use crate::entity::{BotGroupRequest, FetchGroupRequests};

verus! {

/// A member a request names: uid and name.
pub struct RequestMember {
    pub uid: String,
    pub name: String,
}

/// A request as the server lists it.
pub struct GroupRequestRecord {
    pub group_uin: Option<u32>,
    pub invitor: Option<RequestMember>,
    pub target: Option<RequestMember>,
    pub operator: Option<RequestMember>,
    pub sequence: u64,
    pub state: u32,
    pub event_type: u32,
    pub comment: String,
}

/// A list of requests (`OidbSvcTrpcTcp.0x10c0` response).
pub struct GroupRequestsResponse {
    pub requests: Vec<GroupRequestRecord>,
}

/// The uid of a named member.
pub open spec fn member_uid(m: Option<RequestMember>) -> Option<String> {
    match m {
        Some(x) => Some(x.uid),
        None => None,
    }
}

/// The name of a named member.
pub open spec fn member_name(m: Option<RequestMember>) -> Option<String> {
    match m {
        Some(x) => Some(x.name),
        None => None,
    }
}

/// The text held, or the empty text.
pub open spec fn view_or_empty(o: Option<String>) -> Seq<char> {
    match o {
        Some(s) => s@,
        None => Seq::empty(),
    }
}

/// `f` is request `r` as read from a list; `filtered` tells which list. The filtered list
/// keeps the names of the invitor, target and operator; the other list reads each member once
/// for its uid, so its names come out missing (the target's as the empty text).
pub open spec fn is_fetched_request(f: FetchGroupRequests, r: GroupRequestRecord, filtered: bool) -> bool {
    &&& f.group_uin == (match r.group_uin {
        Some(g) => g,
        None => 0,
    })
    &&& f.invitor_member_uid == member_uid(r.invitor)
    &&& f.target_member_uid@ == view_or_empty(member_uid(r.target))
    &&& f.operator_uid == member_uid(r.operator)
    &&& (if filtered {
        &&& f.invitor_member_card == member_name(r.invitor)
        &&& f.target_member_card@ == view_or_empty(member_name(r.target))
        &&& f.operator_name == member_name(r.operator)
    } else {
        &&& f.invitor_member_card is None
        &&& f.target_member_card@ == Seq::<char>::empty()
        &&& f.operator_name is None
    })
    &&& f.sequence == r.sequence
    &&& f.state == r.state
    &&& f.event_type == r.event_type
    &&& f.comment == Some(r.comment)
    &&& f.is_filtered == filtered
}

fn opt_uid(m: &Option<RequestMember>) -> (r: Option<String>)
    ensures
        r == member_uid(*m),
{
    match m {
        Some(x) => Some(x.uid.clone()),
        None => None,
    }
}

fn opt_name(m: &Option<RequestMember>) -> (r: Option<String>)
    ensures
        r == member_name(*m),
{
    match m {
        Some(x) => Some(x.name.clone()),
        None => None,
    }
}

fn text_or_empty(o: Option<String>) -> (r: String)
    ensures
        r@ == view_or_empty(o),
{
    match o {
        Some(s) => s,
        None => String::new(),
    }
}

fn read_request(r: &GroupRequestRecord, filtered: bool) -> (f: FetchGroupRequests)
    ensures
        is_fetched_request(f, *r, filtered),
{
    FetchGroupRequests {
        group_uin: match r.group_uin {
            Some(g) => g,
            None => 0,
        },
        invitor_member_uid: opt_uid(&r.invitor),
        invitor_member_card: if filtered {
            opt_name(&r.invitor)
        } else {
            None
        },
        target_member_uid: text_or_empty(opt_uid(&r.target)),
        target_member_card: if filtered {
            text_or_empty(opt_name(&r.target))
        } else {
            String::new()
        },
        operator_uid: opt_uid(&r.operator),
        operator_name: if filtered {
            opt_name(&r.operator)
        } else {
            None
        },
        sequence: r.sequence,
        state: r.state,
        event_type: r.event_type,
        comment: Some(r.comment.clone()),
        is_filtered: filtered,
    }
}

fn read_requests(resp: &GroupRequestsResponse, filtered: bool) -> (out: Vec<FetchGroupRequests>)
    ensures
        out@.len() == resp.requests@.len(),
        forall|i: int|
            0 <= i < out@.len() ==> is_fetched_request(#[trigger] out@[i], resp.requests@[i], filtered),
{
    let mut out: Vec<FetchGroupRequests> = Vec::new();
    let mut i: usize = 0;
    while i < resp.requests.len()
        invariant
            i <= resp.requests@.len(),
            out@.len() == i,
            forall|j: int|
                0 <= j < i ==> is_fetched_request(#[trigger] out@[j], resp.requests@[j], filtered),
        decreases resp.requests.len() - i,
    {
        out.push(read_request(&resp.requests[i], filtered));
        i = i + 1;
    }
    out
}

/// A request for a list of group requests: how many, and from where.
pub struct GroupRequestsRequest {
    pub count: u32,
    pub field2: u32,
}

/// The pending group requests (`OidbSvcTrpcTcp.0x10c0_1`).
pub struct FetchGroupRequestsEvent {
    pub results: Vec<FetchGroupRequests>,
}

impl FetchGroupRequestsEvent {
    /// The request for the first 20 pending requests.
    pub fn build(&self) -> (r: GroupRequestsRequest)
        ensures
            r.count == 20 && r.field2 == 0,
    {
        GroupRequestsRequest { count: 20, field2: 0 }
    }

    /// Reads the list, in order, as unfiltered requests (see `is_fetched_request`).
    pub fn parse(resp: GroupRequestsResponse) -> (r: FetchGroupRequestsEvent)
        ensures
            r.results@.len() == resp.requests@.len(),
            forall|i: int|
                0 <= i < r.results@.len() ==> is_fetched_request(
                    #[trigger] r.results@[i],
                    resp.requests@[i],
                    false,
                ),
    {
        FetchGroupRequestsEvent { results: read_requests(&resp, false) }
    }
}

/// The filtered group requests (`OidbSvcTrpcTcp.0x10c0_2`).
pub struct FetchFilteredGroupRequestsEvent {
    pub results: Vec<FetchGroupRequests>,
}

impl FetchFilteredGroupRequestsEvent {
    /// The request for the first 20 filtered requests.
    pub fn build(&self) -> (r: GroupRequestsRequest)
        ensures
            r.count == 20 && r.field2 == 0,
    {
        GroupRequestsRequest { count: 20, field2: 0 }
    }

    /// Reads the list, in order, as filtered requests (see `is_fetched_request`).
    pub fn parse(resp: GroupRequestsResponse) -> (r: FetchFilteredGroupRequestsEvent)
        ensures
            r.results@.len() == resp.requests@.len(),
            forall|i: int|
                0 <= i < r.results@.len() ==> is_fetched_request(
                    #[trigger] r.results@[i],
                    resp.requests@[i],
                    true,
                ),
    {
        FetchFilteredGroupRequestsEvent { results: read_requests(&resp, true) }
    }
}

/// The accounts of a request as looked up: invitor, target and operator, each `None` when the
/// lookup failed.
pub struct RequestAccounts {
    pub invitor: Option<u32>,
    pub target: Option<u32>,
    pub operator: Option<u32>,
}

/// The uids to look up for a request: its invitor's, its target's and its operator's (the
/// empty uid where it names none).
pub fn request_uids(f: &FetchGroupRequests) -> (r: (String, String, String))
    ensures
        r.0@ == view_or_empty(f.invitor_member_uid),
        r.1@ == f.target_member_uid@,
        r.2@ == view_or_empty(f.operator_uid),
{
    (
        text_or_empty(match &f.invitor_member_uid {
            Some(u) => Some(u.clone()),
            None => None,
        }),
        f.target_member_uid.clone(),
        text_or_empty(match &f.operator_uid {
            Some(u) => Some(u.clone()),
            None => None,
        }),
    )
}

/// `b` is request `f` with its accounts `a`: a target that could not be looked up is 0.
pub open spec fn is_resolved_request(b: BotGroupRequest, f: FetchGroupRequests, a: RequestAccounts) -> bool {
    &&& b.group_uin == f.group_uin
    &&& b.invitor_member_uin == a.invitor
    &&& b.invitor_member_card == f.invitor_member_card
    &&& b.target_member_uin == (match a.target {
        Some(t) => t,
        None => 0,
    })
    &&& b.target_member_card == f.target_member_card
    &&& b.operator_uin == a.operator
    &&& b.operator_name == f.operator_name
    &&& b.sequence == f.sequence
    &&& b.state == f.state
    &&& b.event_type == f.event_type
    &&& b.comment == f.comment
    &&& b.is_filtered == f.is_filtered
}

/// The requests the client offers: the pending ones then the filtered ones, each with its
/// accounts, `accounts[i]` belonging to the `i`-th of them.
pub fn group_requests_with_accounts(
    pending: Vec<FetchGroupRequests>,
    filtered: Vec<FetchGroupRequests>,
    accounts: Vec<RequestAccounts>,
) -> (r: Vec<BotGroupRequest>)
    requires
        accounts@.len() == pending@.len() + filtered@.len(),
    ensures
        r@.len() == accounts@.len(),
        forall|i: int|
            0 <= i < r@.len() ==> is_resolved_request(
                #[trigger] r@[i],
                (pending@ + filtered@)[i],
                accounts@[i],
            ),
{
    let ghost all = pending@ + filtered@;
    let ghost accs = accounts@;
    let mut fs = pending;
    let mut rest = filtered;
    fs.append(&mut rest);
    let mut accounts = accounts;
    let mut out: Vec<BotGroupRequest> = Vec::new();
    let n = fs.len();
    let mut i: usize = 0;
    while i < n
        invariant
            fs@ == all,
            accounts@ == accs,
            n == all.len(),
            accs.len() == all.len(),
            i <= n,
            out@.len() == i,
            forall|j: int| 0 <= j < i ==> is_resolved_request(#[trigger] out@[j], all[j], accs[j]),
        decreases n - i,
    {
        let f = &fs[i];
        let a = &accounts[i];
        out.push(
            BotGroupRequest {
                group_uin: f.group_uin,
                invitor_member_uin: a.invitor,
                invitor_member_card: match &f.invitor_member_card {
                    Some(c) => Some(c.clone()),
                    None => None,
                },
                target_member_uin: match a.target {
                    Some(t) => t,
                    None => 0,
                },
                target_member_card: f.target_member_card.clone(),
                operator_uin: a.operator,
                operator_name: match &f.operator_name {
                    Some(c) => Some(c.clone()),
                    None => None,
                },
                sequence: f.sequence,
                state: f.state,
                event_type: f.event_type,
                comment: match &f.comment {
                    Some(c) => Some(c.clone()),
                    None => None,
                },
                is_filtered: f.is_filtered,
            },
        );
        i = i + 1;
    }
    out
}

} // verus!
