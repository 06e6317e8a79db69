//! System requests: friend lists, group members, user information and the like.

use vstd::prelude::*;
use crate::entity::{
    spec_permission_from, BotFriend, BotFriendGroup, BotGroupMember, GroupMemberPermission,
};
use crate::error::{other_error, EventError};
use crate::proto::{
    FriendAdditional, FriendProperty, FriendRecord, FriendsResponse, MemberRecord,
    MembersResponse,
};
use crate::text::{decimal, u32_to_string};
use crate::time::utc_from_timestamp;

verus! {

/// One page of the friend list (`OidbSvcTrpcTcp.0xfd4_1`). `friend_groups` lists the friend
/// list groups as the server sends them: each code with its name, a later pair for the same
/// code replacing an earlier one. `next_uin` asks for the following page.
pub struct FetchFriendsEvent {
    pub friends: Vec<BotFriend>,
    pub friend_groups: Vec<(u32, String)>,
    pub next_uin: Option<u32>,
}

/// The server ended this session (`trpc.qq_new_tech.status_svc.StatusService.KickNT`).
pub struct KickNTEvent {
    pub tips: String,
    pub title: String,
}

impl KickNTEvent {
    /// The event the server's decoded answer (its tips and title) describes.
    pub fn parse(tips: String, title: String) -> (r: KickNTEvent)
        ensures
            r.tips == tips,
            r.title == title,
    {
        KickNTEvent { tips, title }
    }
}

/// One page of a group's member list (`OidbSvcTrpcTcp.0xfe7_3`). `token` asks for the
/// following page.
pub struct FetchMembersEvent {
    pub group_uin: u32,
    pub group_members: Vec<BotGroupMember>,
    pub token: Option<String>,
}

/// The first block of additional information of type 1.
pub open spec fn first_additional(adds: Seq<FriendAdditional>) -> Option<FriendAdditional>
    decreases adds.len(),
{
    if adds.len() == 0 {
        None
    } else if adds[0].typ == 1 {
        Some(adds[0])
    } else {
        first_additional(adds.drop_first())
    }
}

/// Why friend `f` cannot be read, if it cannot.
pub open spec fn friend_error(f: FriendRecord) -> Option<Seq<char>> {
    match first_additional(f.additional@) {
        None => Some("Missing additional with type 1"@),
        Some(a) => if a.layer1 is None {
            Some("Missing layer1 in additional"@)
        } else {
            None
        },
    }
}

/// The properties of a readable friend.
pub open spec fn friend_properties(f: FriendRecord) -> Seq<FriendProperty> {
    first_additional(f.additional@).unwrap().layer1.unwrap().properties@
}

/// The text of the last property with code `code`.
pub open spec fn last_property(ps: Seq<FriendProperty>, code: u32) -> Option<Seq<char>>
    decreases ps.len(),
{
    if ps.len() == 0 {
        None
    } else if ps.last().code == code {
        Some(ps.last().value@)
    } else {
        last_property(ps.drop_last(), code)
    }
}

/// The text held, or the empty text.
pub open spec fn or_empty(o: Option<Seq<char>>) -> Seq<char> {
    match o {
        Some(t) => t,
        None => Seq::empty(),
    }
}

/// `b` is friend `f` as the library holds it: its nickname is property 20002 (its number
/// written in decimal without one), its remarks 103, its signature 102 and its qid 27394 (each
/// empty without one), and it is filed under its custom group, unnamed.
pub open spec fn is_bot_friend(b: BotFriend, f: FriendRecord) -> bool {
    let ps = friend_properties(f);
    &&& b.uin == f.uin
    &&& b.uid@ == f.uid@
    &&& b.nickname@ == (match last_property(ps, 20002) {
        Some(v) => v,
        None => decimal(f.uin as nat),
    })
    &&& b.remarks@ == or_empty(last_property(ps, 103))
    &&& b.personal_sign@ == or_empty(last_property(ps, 102))
    &&& b.qid@ == or_empty(last_property(ps, 27394))
    &&& b.group matches Some(g) && g.group_id == f.custom_group && g.group_name@ == Seq::<char>::empty()
}

/// Why the first unreadable friend of `fs` cannot be read, if one cannot.
pub open spec fn first_friend_error(fs: Seq<FriendRecord>) -> Option<Seq<char>>
    decreases fs.len(),
{
    if fs.len() == 0 {
        None
    } else {
        match friend_error(fs[0]) {
            Some(m) => Some(m),
            None => first_friend_error(fs.drop_first()),
        }
    }
}

fn find_additional(adds: &Vec<FriendAdditional>) -> (r: Option<usize>)
    ensures
        match r {
            Some(i) => i < adds.len() && first_additional(adds@) == Some(adds@[i as int]),
            None => first_additional(adds@) is None,
        },
{
    let mut i: usize = 0;
    assert(adds@.subrange(0, adds.len() as int) =~= adds@);
    while i < adds.len()
        invariant
            i <= adds.len(),
            first_additional(adds@) == first_additional(adds@.subrange(i as int, adds.len() as int)),
        decreases adds.len() - i,
    {
        let ghost rest = adds@.subrange(i as int, adds.len() as int);
        assert(rest[0] == adds@[i as int]);
        if adds[i].typ == 1 {
            return Some(i);
        }
        assert(rest.drop_first() =~= adds@.subrange(i + 1, adds.len() as int));
        i = i + 1;
    }
    assert(adds@.subrange(i as int, adds.len() as int).len() == 0);
    None
}

fn find_property(ps: &Vec<FriendProperty>, code: u32) -> (r: Option<String>)
    ensures
        match r {
            Some(v) => last_property(ps@, code) == Some(v@),
            None => last_property(ps@, code) is None,
        },
{
    let mut i: usize = ps.len();
    assert(ps@.take(i as int) =~= ps@);
    while i > 0
        invariant
            i <= ps.len(),
            last_property(ps@, code) == last_property(ps@.take(i as int), code),
        decreases i,
    {
        let ghost before = ps@.take(i as int);
        assert(before.drop_last() =~= ps@.take(i - 1));
        assert(before.last() == ps@[i - 1]);
        if ps[i - 1].code == code {
            return Some(ps[i - 1].value.clone());
        }
        i = i - 1;
    }
    assert(ps@.take(0) =~= Seq::<FriendProperty>::empty());
    None
}

fn property_or_empty(ps: &Vec<FriendProperty>, code: u32) -> (r: String)
    ensures
        r@ == or_empty(last_property(ps@, code)),
{
    match find_property(ps, code) {
        Some(v) => v,
        None => String::new(),
    }
}

fn read_friend(f: &FriendRecord) -> (r: Result<BotFriend, String>)
    ensures
        match r {
            Ok(b) => friend_error(*f) is None && is_bot_friend(b, *f),
            Err(m) => friend_error(*f) == Some(m@),
        },
{
    let i = match find_additional(&f.additional) {
        Some(i) => i,
        None => return Err("Missing additional with type 1".to_string()),
    };
    let layer1 = match &f.additional[i].layer1 {
        Some(l) => l,
        None => return Err("Missing layer1 in additional".to_string()),
    };
    let ps = &layer1.properties;
    let nickname = match find_property(ps, 20002) {
        Some(v) => v,
        None => u32_to_string(f.uin),
    };
    Ok(
        BotFriend {
            uin: f.uin,
            uid: f.uid.clone(),
            nickname,
            remarks: property_or_empty(ps, 103),
            personal_sign: property_or_empty(ps, 102),
            qid: property_or_empty(ps, 27394),
            group: Some(BotFriendGroup { group_id: f.custom_group, group_name: String::new() }),
        },
    )
}

impl FetchFriendsEvent {
    /// Reads one page of the friend list. Each friend is read from its first block of
    /// additional information of type 1 (see `is_bot_friend`); the first friend without one,
    /// or whose block has no properties, fails the page with an `OtherError` naming what is
    /// missing. The friend list groups are kept in order.
    pub fn parse(response: FriendsResponse) -> (r: Result<FetchFriendsEvent, EventError>)
        ensures
            match r {
                Ok(ev) => {
                    &&& first_friend_error(response.friends@) is None
                    &&& ev.friends@.len() == response.friends@.len()
                    &&& forall|i: int|
                        0 <= i < ev.friends@.len() ==> is_bot_friend(
                            #[trigger] ev.friends@[i],
                            response.friends@[i],
                        )
                    &&& ev.friend_groups@.len() == response.groups@.len()
                    &&& forall|i: int|
                        0 <= i < ev.friend_groups@.len() ==> (#[trigger] ev.friend_groups@[i]).0
                            == response.groups@[i].code && ev.friend_groups@[i].1@
                            == response.groups@[i].value@
                    &&& ev.next_uin == response.next
                },
                Err(e) => first_friend_error(response.friends@) matches Some(m) && other_error(e, m),
            },
    {
        let mut friends: Vec<BotFriend> = Vec::new();
        let mut i: usize = 0;
        let n = response.friends.len();
        assert(response.friends@.subrange(0, n as int) =~= response.friends@);
        while i < n
            invariant
                n == response.friends@.len(),
                i <= n,
                friends@.len() == i,
                forall|j: int| 0 <= j < i ==> is_bot_friend(#[trigger] friends@[j], response.friends@[j]),
                first_friend_error(response.friends@) == first_friend_error(
                    response.friends@.subrange(i as int, n as int),
                ),
            decreases n - i,
        {
            let ghost rest = response.friends@.subrange(i as int, n as int);
            assert(rest[0] == response.friends@[i as int]);
            match read_friend(&response.friends[i]) {
                Ok(b) => friends.push(b),
                Err(m) => return Err(EventError::OtherError(m)),
            }
            assert(rest.drop_first() =~= response.friends@.subrange(i + 1, n as int));
            i = i + 1;
        }
        assert(response.friends@.subrange(n as int, n as int).len() == 0);
        let mut friend_groups: Vec<(u32, String)> = Vec::new();
        let mut k: usize = 0;
        while k < response.groups.len()
            invariant
                k <= response.groups@.len(),
                friend_groups@.len() == k,
                forall|j: int|
                    0 <= j < k ==> (#[trigger] friend_groups@[j]).0 == response.groups@[j].code
                        && friend_groups@[j].1@ == response.groups@[j].value@,
            decreases response.groups.len() - k,
        {
            friend_groups.push((response.groups[k].code, response.groups[k].value.clone()));
            k = k + 1;
        }
        Ok(FetchFriendsEvent { friends, friend_groups, next_uin: response.next })
    }
}

/// Why member `m` cannot be read, if it cannot: no account, or a role code the library does
/// not know.
pub open spec fn member_error(m: MemberRecord) -> Option<Seq<char>> {
    if m.uin is None {
        Some("Missing uin"@)
    } else if spec_permission_from(m.permission) is None {
        Some("Invalid permission"@)
    } else {
        None
    }
}

/// The card of member `m`, if it has one.
pub open spec fn member_card(m: MemberRecord) -> Option<String> {
    match m.member_card {
        Some(c) => c.member_card,
        None => None,
    }
}

/// `b` is the readable member `m`: its account, role, level (0 without one), card, name,
/// title, and its times as Unix seconds (never muted without a mute time).
pub open spec fn is_group_member(b: BotGroupMember, m: MemberRecord) -> bool {
    &&& b.uin == m.uin.unwrap().uin
    &&& b.uid == m.uin.unwrap().uid
    &&& Some(b.permission) == spec_permission_from(m.permission)
    &&& b.group_level == (match m.level {
        Some(l) => l,
        None => 0,
    })
    &&& b.member_card == member_card(m)
    &&& b.member_name == m.member_name
    &&& b.special_title == m.special_title
    &&& b.join_time == m.join_timestamp as i64
    &&& b.last_msg_time == m.last_msg_timestamp as i64
    &&& b.shut_up_timestamp == (match m.shut_up_timestamp {
        Some(t) => t as i64,
        None => 0,
    })
}

/// Why the first unreadable member of `ms` cannot be read, if one cannot.
pub open spec fn first_member_error(ms: Seq<MemberRecord>) -> Option<Seq<char>>
    decreases ms.len(),
{
    if ms.len() == 0 {
        None
    } else {
        match member_error(ms[0]) {
            Some(e) => Some(e),
            None => first_member_error(ms.drop_first()),
        }
    }
}

fn member_time(ts: u32, what: &str) -> (r: Result<i64, String>)
    ensures
        r == Ok::<i64, String>(ts as i64),
{
    match utc_from_timestamp(ts as i64) {
        Some(t) => Ok(t),
        None => Err(what.to_string()),
    }
}

fn read_member(m: MemberRecord) -> (r: Result<BotGroupMember, String>)
    ensures
        match r {
            Ok(b) => member_error(m) is None && is_group_member(b, m),
            Err(e) => member_error(m) == Some(e@),
        },
{
    let uin_data = match m.uin {
        Some(u) => u,
        None => return Err("Missing uin".to_string()),
    };
    let permission = match GroupMemberPermission::from_code(m.permission) {
        Some(p) => p,
        None => return Err("Invalid permission".to_string()),
    };
    let card = match m.member_card {
        Some(c) => c.member_card,
        None => None,
    };
    let join_time = match member_time(m.join_timestamp, "Invalid join timestamp") {
        Ok(t) => t,
        Err(e) => return Err(e),
    };
    let last_msg_time = match member_time(m.last_msg_timestamp, "Invalid last message timestamp") {
        Ok(t) => t,
        Err(e) => return Err(e),
    };
    let shut_up = match m.shut_up_timestamp {
        Some(t) => t,
        None => 0,
    };
    let shut_up_timestamp = match member_time(shut_up, "Invalid shut up timestamp") {
        Ok(t) => t,
        Err(e) => return Err(e),
    };
    Ok(
        BotGroupMember {
            uin: uin_data.uin,
            uid: uin_data.uid,
            permission,
            group_level: match m.level {
                Some(l) => l,
                None => 0,
            },
            member_card: card,
            member_name: m.member_name,
            special_title: m.special_title,
            join_time,
            last_msg_time,
            shut_up_timestamp,
        },
    )
}

impl FetchMembersEvent {
    /// Reads one page of a group's member list (see `is_group_member`); the first member that
    /// cannot be read fails the page with an `OtherError` saying why.
    pub fn parse(response: MembersResponse) -> (r: Result<FetchMembersEvent, EventError>)
        ensures
            match r {
                Ok(ev) => {
                    &&& first_member_error(response.members@) is None
                    &&& ev.group_uin == response.group_uin
                    &&& ev.token == response.token
                    &&& ev.group_members@.len() == response.members@.len()
                    &&& forall|i: int|
                        0 <= i < ev.group_members@.len() ==> is_group_member(
                            #[trigger] ev.group_members@[i],
                            response.members@[i],
                        )
                },
                Err(e) => first_member_error(response.members@) matches Some(m) && other_error(e, m),
            },
    {
        let ghost all = response.members@;
        let MembersResponse { group_uin, members, token } = response;
        let mut rest = members;
        let mut group_members: Vec<BotGroupMember> = Vec::new();
        let n = rest.len();
        let mut i: usize = 0;
        assert(all.subrange(0, n as int) =~= all);
        while i < n
            invariant
                all == response.members@,
                n == all.len(),
                i <= n,
                rest@ =~= all.subrange(i as int, n as int),
                group_members@.len() == i,
                forall|j: int| 0 <= j < i ==> is_group_member(#[trigger] group_members@[j], all[j]),
                first_member_error(all) == first_member_error(all.subrange(i as int, n as int)),
            decreases n - i,
        {
            let ghost before = rest@;
            let m = rest.remove(0);
            assert(before[0] == all[i as int]);
            assert(before.drop_first() =~= all.subrange(i + 1, n as int));
            assert(m == all[i as int]);
            match read_member(m) {
                Ok(b) => group_members.push(b),
                Err(e) => {
                    assert(first_member_error(all.subrange(i as int, n as int)) == Some(e@));
                    return Err(EventError::OtherError(e));
                },
            }
            i = i + 1;
        }
        Ok(FetchMembersEvent { group_uin, group_members, token })
    }
}

/// A heartbeat (`Heartbeat.Alive`).
pub struct AliveEvent;

impl AliveEvent {
    /// The heartbeat's body: the number 4 as four bytes, high byte first.
    pub fn build(&self) -> (r: Vec<u8>)
        ensures
            r@ == seq![0u8, 0u8, 0u8, 4u8],
    {
        let mut v: Vec<u8> = Vec::new();
        v.push(0);
        v.push(0);
        v.push(0);
        v.push(4);
        v
    }
}

/// A heartbeat of the status service (`trpc.qq_new_tech.status_svc.StatusService.SsoHeartBeat`).
pub struct NtSsoAliveEvent;

/// A request for the keys that sign media links (`OidbSvcTrpcTcp.0x9067_202`).
pub struct FetchRKeyEvent;

/// A request for the ticket of the highway that carries uploads (`HttpConn.0x6ff_501`).
pub struct FetchHighwayTicketEvent {
    pub sig_session: Vec<u8>,
}

/// The highway part of the ticket answer.
pub struct HttpConnResponse {
    pub sig_session: Vec<u8>,
}

impl FetchHighwayTicketEvent {
    /// The ticket the answer grants; an answer without its highway part is an `OtherError`.
    pub fn parse(http_conn: Option<HttpConnResponse>) -> (r: Result<FetchHighwayTicketEvent, EventError>)
        ensures
            match http_conn {
                Some(h) => r matches Ok(ev) && ev.sig_session == h.sig_session,
                None => r matches Err(e) && other_error(e, "No http_conn in response"@),
            },
    {
        match http_conn {
            Some(h) => Ok(FetchHighwayTicketEvent { sig_session: h.sig_session }),
            None => Err(EventError::OtherError("No http_conn in response".to_string())),
        }
    }
}

/// A request for one page of the friend list: the page after `next_uin` (the first page
/// without one), asking for 300 friends with the properties of each block type (type 1:
/// remarks 103, signature 102, nickname 20002 and qid 27394; type 4: 100, 101, 102).
pub struct FriendsRequest {
    pub field2: u32,
    pub field4: u32,
    pub next_uin: Option<u32>,
    pub field6: u32,
    pub body: Vec<(u32, Vec<u32>)>,
    pub field10002: Vec<u32>,
    pub field10003: u32,
}

impl FetchFriendsEvent {
    /// The request for the page after the event's `next_uin`.
    pub fn build(&self) -> (r: FriendsRequest)
        ensures
            r.next_uin == self.next_uin,
            r.field2 == 300 && r.field4 == 0 && r.field6 == 1 && r.field10003 == 4051,
            r.body@.len() == 2,
            r.body@[0].0 == 1 && r.body@[0].1@ == seq![103u32, 102, 20002, 27394],
            r.body@[1].0 == 4 && r.body@[1].1@ == seq![100u32, 101, 102],
            r.field10002@ == seq![13578u32, 13579, 13573, 13572, 13568],
    {
        let b1: Vec<u32> = vec![103, 102, 20002, 27394];
        let b4: Vec<u32> = vec![100, 101, 102];
        let f: Vec<u32> = vec![13578, 13579, 13573, 13572, 13568];
        assert(b1@ =~= seq![103u32, 102, 20002, 27394]);
        assert(b4@ =~= seq![100u32, 101, 102]);
        assert(f@ =~= seq![13578u32, 13579, 13573, 13572, 13568]);
        let mut body: Vec<(u32, Vec<u32>)> = Vec::new();
        body.push((1, b1));
        body.push((4, b4));
        FriendsRequest {
            field2: 300,
            field4: 0,
            next_uin: self.next_uin,
            field6: 1,
            body,
            field10002: f,
            field10003: 4051,
        }
    }
}

/// A request for one page of a group's member list: the group, the page after `token` (the
/// first page without one), and which facts to give of each member (all of them: name, card,
/// level, title, join, last message and mute times, role).
pub struct MembersRequest {
    pub group_uin: u32,
    pub field2: u32,
    pub field3: u32,
    pub token: Option<String>,
    pub member_name: bool,
    pub member_card: bool,
    pub level: bool,
    pub special_title: bool,
    pub join_timestamp: bool,
    pub last_msg_timestamp: bool,
    pub shut_up_timestamp: bool,
    pub permission: bool,
}

impl FetchMembersEvent {
    /// The request for the page of the event's group after its `token`.
    pub fn build(&self) -> (r: MembersRequest)
        ensures
            r.group_uin == self.group_uin,
            r.token == self.token,
            r.field2 == 5 && r.field3 == 2,
            r.member_name && r.member_card && r.level && r.special_title,
            r.join_timestamp && r.last_msg_timestamp && r.shut_up_timestamp && r.permission,
    {
        MembersRequest {
            group_uin: self.group_uin,
            field2: 5,
            field3: 2,
            token: match &self.token {
                Some(t) => Some(t.clone()),
                None => None,
            },
            member_name: true,
            member_card: true,
            level: true,
            special_title: true,
            join_timestamp: true,
            last_msg_timestamp: true,
            shut_up_timestamp: true,
            permission: true,
        }
    }
}

/// A request for the keys that sign media links: scene 2/1/0, for key types 10 and 20.
pub struct RKeyRequest {
    pub request_id: u32,
    pub command: u32,
    pub request_type: u32,
    pub business_type: u32,
    pub scene_type: u32,
    pub types: Vec<u32>,
}

impl FetchRKeyEvent {
    /// The request for the signing keys.
    pub fn build(&self) -> (r: RKeyRequest)
        ensures
            r.request_id == 1 && r.command == 202,
            r.request_type == 2 && r.business_type == 1 && r.scene_type == 0,
            r.types@ == seq![10u32, 20],
    {
        let types: Vec<u32> = vec![10, 20];
        assert(types@ =~= seq![10u32, 20]);
        RKeyRequest { request_id: 1, command: 202, request_type: 2, business_type: 1, scene_type: 0, types }
    }
}

/// A request for the highway ticket, for the highway's services 1, 5, 10 and 21.
pub struct HttpConnRequest {
    pub field1: u32,
    pub field2: u32,
    pub field3: u32,
    pub field4: u32,
    pub field6: u32,
    pub service_types: Vec<u32>,
    pub field9: u32,
    pub field10: u32,
    pub field11: u32,
    pub ver: String,
}

impl FetchHighwayTicketEvent {
    /// The request for the highway ticket.
    pub fn build(&self) -> (r: HttpConnRequest)
        ensures
            r.field1 == 0 && r.field2 == 0 && r.field3 == 16 && r.field4 == 1 && r.field6 == 3,
            r.service_types@ == seq![1u32, 5, 10, 21],
            r.field9 == 2 && r.field10 == 9 && r.field11 == 8,
            r.ver@ == "1.0.1"@,
    {
        let service_types: Vec<u32> = vec![1, 5, 10, 21];
        assert(service_types@ =~= seq![1u32, 5, 10, 21]);
        HttpConnRequest {
            field1: 0,
            field2: 0,
            field3: 16,
            field4: 1,
            field6: 3,
            service_types,
            field9: 2,
            field10: 9,
            field11: 8,
            ver: "1.0.1".to_string(),
        }
    }
}

/// The last property with code `code` decides `last_property`: its text when one is at index `k`
/// with none after it, nothing when no property has the code.
proof fn lemma_last_property_at(ps: Seq<FriendProperty>, code: u32, k: int)
    requires
        0 <= k < ps.len(),
        ps[k].code == code,
        forall|j: int| k < j < ps.len() ==> ps[j].code != code,
    ensures
        last_property(ps, code) == Some(ps[k].value@),
    decreases ps.len(),
{
    if k < ps.len() - 1 {
        assert(ps.last() == ps[ps.len() - 1]);
        lemma_last_property_at(ps.drop_last(), code, k);
    }
}

proof fn lemma_last_property_absent(ps: Seq<FriendProperty>, code: u32)
    requires
        forall|j: int| 0 <= j < ps.len() ==> ps[j].code != code,
    ensures
        last_property(ps, code) is None,
    decreases ps.len(),
{
    if ps.len() > 0 {
        assert(ps.last() == ps[ps.len() - 1]);
        lemma_last_property_absent(ps.drop_last(), code);
    }
}

/// A friend's signature is the text of its last property with code 102, and empty when it has
/// none, whatever its other properties (its remarks, code 103, among them) say.
pub proof fn law_friend_signature_is_property_102(b: BotFriend, f: FriendRecord, k: int)
    requires
        is_bot_friend(b, f),
    ensures
        0 <= k < friend_properties(f).len() && friend_properties(f)[k].code == 102 && (forall|j: int|
            k < j < friend_properties(f).len() ==> friend_properties(f)[j].code != 102)
            ==> b.personal_sign@ == friend_properties(f)[k].value@,
        (forall|j: int|
            0 <= j < friend_properties(f).len() ==> friend_properties(f)[j].code != 102)
            ==> b.personal_sign@ == Seq::<char>::empty(),
{
    let ps = friend_properties(f);
    if 0 <= k < ps.len() && ps[k].code == 102 && (forall|j: int| k < j < ps.len() ==> ps[j].code != 102) {
        lemma_last_property_at(ps, 102, k);
    }
    if forall|j: int| 0 <= j < ps.len() ==> ps[j].code != 102 {
        lemma_last_property_absent(ps, 102);
    }
}

/// A friend's remarks are the text of its last property 103 and its qid that of its last
/// property 27394 (each empty without one); its nickname is the text of its last property 20002,
/// or its number in decimal without one.
pub proof fn law_friend_texts_by_code(b: BotFriend, f: FriendRecord, code: u32, k: int)
    requires
        is_bot_friend(b, f),
        code == 103 || code == 27394 || code == 20002,
    ensures
        ({
            let ps = friend_properties(f);
            let field = if code == 103 {
                b.remarks@
            } else if code == 27394 {
                b.qid@
            } else {
                b.nickname@
            };
            &&& (0 <= k < ps.len() && ps[k].code == code && (forall|j: int|
                k < j < ps.len() ==> ps[j].code != code)) ==> field == ps[k].value@
            &&& (forall|j: int| 0 <= j < ps.len() ==> ps[j].code != code) ==> field == (if code
                == 20002 {
                decimal(f.uin as nat)
            } else {
                Seq::<char>::empty()
            })
        }),
{
    let ps = friend_properties(f);
    if 0 <= k < ps.len() && ps[k].code == code && (forall|j: int| k < j < ps.len() ==> ps[j].code != code) {
        lemma_last_property_at(ps, code, k);
    }
    if forall|j: int| 0 <= j < ps.len() ==> ps[j].code != code {
        lemma_last_property_absent(ps, code);
    }
}

/// A member is read with its own account number and uid, its level (0 when the record has
/// none), its join and last message times, and its mute time (0, never muted, when the record
/// has none).
pub proof fn law_member_fields(b: BotGroupMember, m: MemberRecord)
    requires
        is_group_member(b, m),
    ensures
        m.uin matches Some(u) ==> b.uin == u.uin && b.uid == u.uid,
        m.level is None ==> b.group_level == 0,
        m.level matches Some(l) ==> b.group_level == l,
        b.join_time == m.join_timestamp,
        b.last_msg_time == m.last_msg_timestamp,
        m.shut_up_timestamp is None ==> b.shut_up_timestamp == 0,
        m.shut_up_timestamp matches Some(t) ==> b.shut_up_timestamp == t,
{
}

} // verus!
