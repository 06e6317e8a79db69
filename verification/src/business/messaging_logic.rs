//! Incoming messages and notices turned into events for the listeners. Resolving accounts
//! and fetching requests are outside work: the logic asks for them one at a time (`next_query`)
//! and, once answered, builds the event (`incoming_dispatch`).

use vstd::prelude::*;
use crate::dispatch::{
    Dispatch, FriendEvent, FriendPokeEvent, FriendRecallEvent, GroupEvent, GroupJoinRequestEvent,
    GroupMemberDecreaseEvent, GroupMemberIncreaseEvent, GroupPokeEvent, GroupReactionEvent,
    GroupRecallEvent, SystemEvent,
};
use crate::entity::BotGroupRequest;
use crate::event::notify::{
    FriendSysPokeEvent, GroupSysDecreaseEvent, GroupSysIncreaseEvent, GroupSysPokeEvent,
    GroupSysReactionEvent, GroupSysRecallEvent, NoticeEvent,
};
use crate::message::{MessageChain, MessageType};

verus! {

/// An incoming event handled by the messaging logic.
pub enum IncomingEvent {
    /// A pushed chat message (its chain, when it has one).
    PushMessage(Option<MessageChain>),
    /// A notice.
    Notice(NoticeEvent),
}

/// Outside work the messaging logic asks for.
pub enum Query {
    /// The account number of a stranger, by uid.
    StrangerUid2Uin(String),
    /// The account number of a uid, among the members of the group when one is given, else
    /// among the friends.
    Uid2Uin(String, Option<u32>),
    /// The pending group requests.
    FetchGroupRequests,
}

/// The answer to a query: `None` when the work failed.
pub enum Answer {
    Uin(Option<u32>),
    Requests(Option<Vec<BotGroupRequest>>),
}

/// The account number an answer gives, if it gives one.
pub open spec fn answered_uin(a: Answer) -> Option<u32> {
    match a {
        Answer::Uin(o) => o,
        _ => None,
    }
}

/// The account number an answer gives, or 0.
pub open spec fn answered_uin_or_zero(a: Answer) -> u32 {
    match answered_uin(a) {
        Some(n) => n,
        None => 0,
    }
}

/// The text of an optional uid, or the empty uid.
pub open spec fn uid_or_empty(u: Option<String>) -> Seq<char> {
    match u {
        Some(s) => s@,
        None => Seq::empty(),
    }
}

/// What the messaging logic asks for once it has the answers `answers`.
pub open spec fn spec_next_query(ev: IncomingEvent, answers: Seq<Answer>) -> Option<QueryView> {
    match ev {
        IncomingEvent::PushMessage(_) => None,
        IncomingEvent::Notice(n) => match n {
            NoticeEvent::GroupSysRequestJoin(req) => if answers.len() == 0 {
                Some(QueryView::StrangerUid2Uin(req.target_uid@))
            } else if answers.len() == 1 && answered_uin(answers[0]) is Some {
                Some(QueryView::FetchGroupRequests)
            } else {
                None
            },
            NoticeEvent::GroupSysIncrease(join) => if answers.len() == 0 {
                Some(QueryView::StrangerUid2Uin(join.member_uid@))
            } else if answers.len() == 1 {
                Some(QueryView::Uid2Uin(uid_or_empty(join.invitor_uid), Some(join.group_uin)))
            } else {
                None
            },
            NoticeEvent::GroupSysDecrease(leave) => if answers.len() == 0 {
                Some(QueryView::StrangerUid2Uin(leave.member_uid@))
            } else if answers.len() == 1 {
                Some(QueryView::Uid2Uin(uid_or_empty(leave.operator_uid), Some(leave.group_uin)))
            } else {
                None
            },
            NoticeEvent::GroupSysReaction(re) => if answers.len() == 0 {
                Some(QueryView::Uid2Uin(re.operator_uid@, Some(re.target_group_uin)))
            } else {
                None
            },
            NoticeEvent::GroupSysRecall(rc) => if answers.len() == 0 {
                Some(QueryView::Uid2Uin(rc.author_uid@, Some(rc.group_uin)))
            } else if answers.len() == 1 && rc.operator_uid is Some {
                Some(QueryView::Uid2Uin(rc.operator_uid.unwrap()@, Some(rc.group_uin)))
            } else {
                None
            },
            NoticeEvent::FriendSysRecall(rc) => if answers.len() == 0 {
                Some(QueryView::Uid2Uin(rc.from_uid@, None))
            } else {
                None
            },
            NoticeEvent::GroupSysPoke(_) => None,
            NoticeEvent::FriendSysPoke(_) => None,
        },
    }
}

/// The view of a query.
pub ghost enum QueryView {
    StrangerUid2Uin(Seq<char>),
    Uid2Uin(Seq<char>, Option<u32>),
    FetchGroupRequests,
}

/// The view of a query.
pub open spec fn query_view(q: Query) -> QueryView {
    match q {
        Query::StrangerUid2Uin(u) => QueryView::StrangerUid2Uin(u@),
        Query::Uid2Uin(u, g) => QueryView::Uid2Uin(u@, g),
        Query::FetchGroupRequests => QueryView::FetchGroupRequests,
    }
}

fn text_of(u: &Option<String>) -> (r: String)
    ensures
        r@ == uid_or_empty(*u),
{
    match u {
        Some(s) => s.clone(),
        None => String::new(),
    }
}

fn uin_of(a: &Answer) -> (r: Option<u32>)
    ensures
        r == answered_uin(*a),
{
    match a {
        Answer::Uin(o) => *o,
        _ => None,
    }
}

/// The next outside work the messaging logic needs for `ev`, given the answers so far; `None`
/// when it has what it needs (see `spec_next_query`). A join request asks who the requester is
/// and then for the pending requests (not when the first lookup failed); a member who joined or
/// left asks who they are and who invited or removed them; a reaction asks who reacted; a group
/// recall asks who wrote the message and who recalled it (when named); a friend recall asks who
/// the friend is.
pub fn next_query(ev: &IncomingEvent, answers: &Vec<Answer>) -> (r: Option<Query>)
    ensures
        match r {
            Some(q) => spec_next_query(*ev, answers@) == Some(query_view(q)),
            None => spec_next_query(*ev, answers@) is None,
        },
{
    let n = answers.len();
    match ev {
        IncomingEvent::PushMessage(_) => None,
        IncomingEvent::Notice(notice) => match notice {
            NoticeEvent::GroupSysRequestJoin(req) => if n == 0 {
                Some(Query::StrangerUid2Uin(req.target_uid.clone()))
            } else if n == 1 && uin_of(&answers[0]).is_some() {
                Some(Query::FetchGroupRequests)
            } else {
                None
            },
            NoticeEvent::GroupSysIncrease(join) => if n == 0 {
                Some(Query::StrangerUid2Uin(join.member_uid.clone()))
            } else if n == 1 {
                Some(Query::Uid2Uin(text_of(&join.invitor_uid), Some(join.group_uin)))
            } else {
                None
            },
            NoticeEvent::GroupSysDecrease(leave) => if n == 0 {
                Some(Query::StrangerUid2Uin(leave.member_uid.clone()))
            } else if n == 1 {
                Some(Query::Uid2Uin(text_of(&leave.operator_uid), Some(leave.group_uin)))
            } else {
                None
            },
            NoticeEvent::GroupSysReaction(re) => if n == 0 {
                Some(Query::Uid2Uin(re.operator_uid.clone(), Some(re.target_group_uin)))
            } else {
                None
            },
            NoticeEvent::GroupSysRecall(rc) => if n == 0 {
                Some(Query::Uid2Uin(rc.author_uid.clone(), Some(rc.group_uin)))
            } else if n == 1 {
                match &rc.operator_uid {
                    Some(op) => Some(Query::Uid2Uin(op.clone(), Some(rc.group_uin))),
                    None => None,
                }
            } else {
                None
            },
            NoticeEvent::FriendSysRecall(rc) => if n == 0 {
                Some(Query::Uid2Uin(rc.from_uid.clone(), None))
            } else {
                None
            },
            NoticeEvent::GroupSysPoke(_) => None,
            NoticeEvent::FriendSysPoke(_) => None,
        },
    }
}


/// The account number the `i`-th answer gives, if there is one and it gives one.
pub open spec fn answer_at(answers: Seq<Answer>, i: int) -> Option<u32> {
    if 0 <= i < answers.len() {
        answered_uin(answers[i])
    } else {
        None
    }
}

/// A number, or 0 for none.
pub open spec fn or_zero(o: Option<u32>) -> u32 {
    match o {
        Some(n) => n,
        None => 0,
    }
}

/// The requests the `i`-th answer lists, if there is one and it lists them.
pub open spec fn requests_at(answers: Seq<Answer>, i: int) -> Option<Seq<BotGroupRequest>> {
    if 0 <= i < answers.len() {
        match answers[i] {
            Answer::Requests(Some(v)) => Some(v@),
            _ => None,
        }
    } else {
        None
    }
}

/// The first request in `reqs` to join group `group_uin` by account `target_uin`.
pub open spec fn find_request(reqs: Seq<BotGroupRequest>, group_uin: u32, target_uin: u32) -> Option<
    BotGroupRequest,
>
    decreases reqs.len(),
{
    if reqs.len() == 0 {
        None
    } else if reqs[0].group_uin == group_uin && reqs[0].target_member_uin == target_uin {
        Some(reqs[0])
    } else {
        find_request(reqs.drop_first(), group_uin, target_uin)
    }
}

/// `e` announces the join request `b` of account `target_uin` to group `group_uin`.
pub open spec fn is_join_request_event(
    e: GroupJoinRequestEvent,
    group_uin: u32,
    target_uin: u32,
    b: BotGroupRequest,
) -> bool {
    &&& e.group_uin == group_uin
    &&& e.target_uin == target_uin
    &&& e.target_nickname@ == b.target_member_card@
    &&& e.invitor_uin == or_zero(b.invitor_member_uin)
    &&& e.answer@ == uid_or_empty(b.comment)
    &&& e.request_seq == b.sequence
}

/// `r` is what the listeners are told of `ev` once the queries were answered by `answers`.
/// A message goes to the listener of its kind (none for other kinds); a join request is told
/// only when the requester was resolved, the requests fetched, and one of them matches; a
/// number that could not be resolved is 0, an optional one `None`.
pub open spec fn dispatched(ev: IncomingEvent, answers: Seq<Answer>, r: Option<Dispatch>) -> bool {
    match ev {
        IncomingEvent::PushMessage(None) => r is None,
        IncomingEvent::PushMessage(Some(chain)) => match chain.typ {
            MessageType::Group(_) => r == Some(Dispatch::Group(GroupEvent::GroupMessage(chain))),
            MessageType::Friend(_) => r == Some(
                Dispatch::Friend(FriendEvent::FriendMessageEvent(chain)),
            ),
            MessageType::Temp => r == Some(Dispatch::System(SystemEvent::TempMessageEvent(chain))),
            MessageType::Other => r is None,
        },
        IncomingEvent::Notice(n) => match n {
            NoticeEvent::GroupSysRequestJoin(req) => match (answer_at(answers, 0), requests_at(answers, 1)) {
                (Some(t), Some(reqs)) => match find_request(reqs, req.group_uin, t) {
                    Some(b) => (r matches Some(Dispatch::Group(GroupEvent::GroupJoinRequest(e)))
                        && is_join_request_event(e, req.group_uin, t, b)),
                    None => r is None,
                },
                _ => r is None,
            },
            NoticeEvent::GroupSysPoke(p) => r == Some(
                Dispatch::Group(
                    GroupEvent::GroupPoke(
                        GroupPokeEvent {
                            group_uin: p.group_uin,
                            operator_uin: p.operator_uin,
                            target_uin: p.target_uin,
                            action: p.action,
                            suffix: p.suffix,
                            action_img_url: p.action_img_url,
                        },
                    ),
                ),
            ),
            NoticeEvent::GroupSysIncrease(join) => r == Some(
                Dispatch::Group(
                    GroupEvent::GroupMemberIncrease(
                        GroupMemberIncreaseEvent {
                            group_uin: join.group_uin,
                            member_uin: or_zero(answer_at(answers, 0)),
                            invitor_uin: answer_at(answers, 1),
                            event_type: join.event_type,
                        },
                    ),
                ),
            ),
            NoticeEvent::GroupSysDecrease(leave) => r == Some(
                Dispatch::Group(
                    GroupEvent::GroupMemberDecrease(
                        GroupMemberDecreaseEvent {
                            group_uin: leave.group_uin,
                            member_uin: or_zero(answer_at(answers, 0)),
                            operator_uin: answer_at(answers, 1),
                            event_type: leave.event_type,
                        },
                    ),
                ),
            ),
            NoticeEvent::FriendSysPoke(p) => r == Some(
                Dispatch::Friend(
                    FriendEvent::FriendPokeEvent(
                        FriendPokeEvent {
                            operator_uin: p.operator_uin,
                            target_uin: p.target_uin,
                            action: p.action,
                            suffix: p.suffix,
                            action_url: p.action_img_url,
                        },
                    ),
                ),
            ),
            NoticeEvent::GroupSysReaction(re) => r == Some(
                Dispatch::Group(
                    GroupEvent::GroupReaction(
                        GroupReactionEvent {
                            target_group_uin: re.target_group_uin,
                            target_sequence: re.target_sequence,
                            operator_uin: or_zero(answer_at(answers, 0)),
                            is_add: re.is_add,
                            code: re.code,
                            count: re.count,
                        },
                    ),
                ),
            ),
            NoticeEvent::GroupSysRecall(rc) => r == Some(
                Dispatch::Group(
                    GroupEvent::GroupRecall(
                        GroupRecallEvent {
                            group_uin: rc.group_uin,
                            author_uin: or_zero(answer_at(answers, 0)),
                            operator_uin: if rc.operator_uid is Some {
                                or_zero(answer_at(answers, 1))
                            } else {
                                0
                            },
                            sequence: rc.sequence,
                            time: rc.time,
                            random: rc.random,
                            tip: rc.tip,
                        },
                    ),
                ),
            ),
            NoticeEvent::FriendSysRecall(rc) => r == Some(
                Dispatch::Friend(
                    FriendEvent::FriendRecallEvent(
                        FriendRecallEvent {
                            friend_uin: or_zero(answer_at(answers, 0)),
                            client_sequence: rc.client_sequence,
                            time: rc.time,
                            random: rc.random,
                            tip: rc.tip,
                        },
                    ),
                ),
            ),
        },
    }
}

fn uin_at(answers: &Vec<Answer>, i: usize) -> (r: Option<u32>)
    ensures
        r == answer_at(answers@, i as int),
{
    if i < answers.len() {
        uin_of(&answers[i])
    } else {
        None
    }
}

fn uin_or_zero_at(answers: &Vec<Answer>, i: usize) -> (r: u32)
    ensures
        r == or_zero(answer_at(answers@, i as int)),
{
    match uin_at(answers, i) {
        Some(n) => n,
        None => 0,
    }
}

/// The index of the first request in `reqs` to join group `group_uin` by `target_uin`.
fn find_request_index(reqs: &Vec<BotGroupRequest>, group_uin: u32, target_uin: u32) -> (r: Option<
    usize,
>)
    ensures
        match r {
            Some(i) => i < reqs.len() && find_request(reqs@, group_uin, target_uin) == Some(
                reqs@[i as int],
            ),
            None => find_request(reqs@, group_uin, target_uin) is None,
        },
{
    let mut i: usize = 0;
    assert(reqs@.subrange(0, reqs.len() as int) =~= reqs@);
    while i < reqs.len()
        invariant
            i <= reqs.len(),
            find_request(reqs@, group_uin, target_uin) == find_request(
                reqs@.subrange(i as int, reqs.len() as int),
                group_uin,
                target_uin,
            ),
        decreases reqs.len() - i,
    {
        let ghost rest = reqs@.subrange(i as int, reqs.len() as int);
        assert(rest[0] == reqs@[i as int]);
        if reqs[i].group_uin == group_uin && reqs[i].target_member_uin == target_uin {
            return Some(i);
        }
        assert(rest.drop_first() =~= reqs@.subrange(i + 1, reqs.len() as int));
        i = i + 1;
    }
    assert(reqs@.subrange(i as int, reqs.len() as int).len() == 0);
    None
}

fn join_request_event(group_uin: u32, target_uin: u32, b: &BotGroupRequest) -> (e:
    GroupJoinRequestEvent)
    ensures
        is_join_request_event(e, group_uin, target_uin, *b),
{
    GroupJoinRequestEvent {
        group_uin,
        target_uin,
        target_nickname: b.target_member_card.clone(),
        invitor_uin: match b.invitor_member_uin {
            Some(n) => n,
            None => 0,
        },
        answer: text_of(&b.comment),
        request_seq: b.sequence,
    }
}

/// What the listeners are told of `ev`, once the queries that `next_query` asked for were
/// answered by `answers` in order (see `dispatched`).
pub fn incoming_dispatch(ev: IncomingEvent, answers: &Vec<Answer>) -> (r: Option<Dispatch>)
    ensures
        dispatched(ev, answers@, r),
{
    match ev {
        IncomingEvent::PushMessage(None) => None,
        IncomingEvent::PushMessage(Some(chain)) => match chain.typ {
            MessageType::Group(_) => Some(Dispatch::Group(GroupEvent::GroupMessage(chain))),
            MessageType::Friend(_) => Some(Dispatch::Friend(FriendEvent::FriendMessageEvent(chain))),
            MessageType::Temp => Some(Dispatch::System(SystemEvent::TempMessageEvent(chain))),
            MessageType::Other => None,
        },
        IncomingEvent::Notice(n) => match n {
            NoticeEvent::GroupSysRequestJoin(req) => {
                let t = match uin_at(answers, 0) {
                    Some(t) => t,
                    None => return None,
                };
                if answers.len() < 2 {
                    return None;
                }
                match &answers[1] {
                    Answer::Requests(Some(reqs)) => match find_request_index(reqs, req.group_uin, t) {
                        Some(i) => Some(
                            Dispatch::Group(
                                GroupEvent::GroupJoinRequest(
                                    join_request_event(req.group_uin, t, &reqs[i]),
                                ),
                            ),
                        ),
                        None => None,
                    },
                    _ => None,
                }
            },
            NoticeEvent::GroupSysPoke(p) => Some(
                Dispatch::Group(
                    GroupEvent::GroupPoke(
                        GroupPokeEvent {
                            group_uin: p.group_uin,
                            operator_uin: p.operator_uin,
                            target_uin: p.target_uin,
                            action: p.action,
                            suffix: p.suffix,
                            action_img_url: p.action_img_url,
                        },
                    ),
                ),
            ),
            NoticeEvent::GroupSysIncrease(join) => Some(
                Dispatch::Group(
                    GroupEvent::GroupMemberIncrease(
                        GroupMemberIncreaseEvent {
                            group_uin: join.group_uin,
                            member_uin: uin_or_zero_at(answers, 0),
                            invitor_uin: uin_at(answers, 1),
                            event_type: join.event_type,
                        },
                    ),
                ),
            ),
            NoticeEvent::GroupSysDecrease(leave) => Some(
                Dispatch::Group(
                    GroupEvent::GroupMemberDecrease(
                        GroupMemberDecreaseEvent {
                            group_uin: leave.group_uin,
                            member_uin: uin_or_zero_at(answers, 0),
                            operator_uin: uin_at(answers, 1),
                            event_type: leave.event_type,
                        },
                    ),
                ),
            ),
            NoticeEvent::FriendSysPoke(p) => Some(
                Dispatch::Friend(
                    FriendEvent::FriendPokeEvent(
                        FriendPokeEvent {
                            operator_uin: p.operator_uin,
                            target_uin: p.target_uin,
                            action: p.action,
                            suffix: p.suffix,
                            action_url: p.action_img_url,
                        },
                    ),
                ),
            ),
            NoticeEvent::GroupSysReaction(re) => Some(
                Dispatch::Group(
                    GroupEvent::GroupReaction(
                        GroupReactionEvent {
                            target_group_uin: re.target_group_uin,
                            target_sequence: re.target_sequence,
                            operator_uin: uin_or_zero_at(answers, 0),
                            is_add: re.is_add,
                            code: re.code,
                            count: re.count,
                        },
                    ),
                ),
            ),
            NoticeEvent::GroupSysRecall(rc) => {
                let operator_uin = if rc.operator_uid.is_some() {
                    uin_or_zero_at(answers, 1)
                } else {
                    0
                };
                Some(
                    Dispatch::Group(
                        GroupEvent::GroupRecall(
                            GroupRecallEvent {
                                group_uin: rc.group_uin,
                                author_uin: uin_or_zero_at(answers, 0),
                                operator_uin,
                                sequence: rc.sequence,
                                time: rc.time,
                                random: rc.random,
                                tip: rc.tip,
                            },
                        ),
                    ),
                )
            },
            NoticeEvent::FriendSysRecall(rc) => Some(
                Dispatch::Friend(
                    FriendEvent::FriendRecallEvent(
                        FriendRecallEvent {
                            friend_uin: uin_or_zero_at(answers, 0),
                            client_sequence: rc.client_sequence,
                            time: rc.time,
                            random: rc.random,
                            tip: rc.tip,
                        },
                    ),
                ),
            ),
        },
    }
}

/// The messaging logic asks at most two queries for any event: once two answers are in, it
/// asks for nothing more.
pub proof fn law_at_most_two_queries(ev: IncomingEvent, answers: Seq<Answer>)
    requires
        answers.len() >= 2,
    ensures
        spec_next_query(ev, answers) is None,
{
}

/// A poke, of a group or a friend, is told to the listeners at once, with no query.
pub proof fn law_pokes_need_no_query(ev: IncomingEvent, answers: Seq<Answer>)
    requires
        ev matches IncomingEvent::Notice(n) && (n is GroupSysPoke || n is FriendSysPoke),
    ensures
        spec_next_query(ev, answers) is None,
{
}

/// A friend's poke reaches the listeners as the same poke, whatever the answers: the one who
/// poked stays the operator and the one poked stays the target, with the action, its suffix and
/// its image.
pub proof fn law_friend_poke_keeps_sides(p: FriendSysPokeEvent, answers: Seq<Answer>, r: Option<Dispatch>)
    requires
        dispatched(IncomingEvent::Notice(NoticeEvent::FriendSysPoke(p)), answers, r),
    ensures
        r matches Some(Dispatch::Friend(FriendEvent::FriendPokeEvent(e))) && e.operator_uin
            == p.operator_uin && e.target_uin == p.target_uin && e.action == p.action && e.suffix
            == p.suffix && e.action_url == p.action_img_url,
{
}

/// A group poke reaches the listeners as the same poke, in the same group, whatever the answers:
/// the one who poked stays the operator and the one poked stays the target.
pub proof fn law_group_poke_keeps_sides(p: GroupSysPokeEvent, answers: Seq<Answer>, r: Option<Dispatch>)
    requires
        dispatched(IncomingEvent::Notice(NoticeEvent::GroupSysPoke(p)), answers, r),
    ensures
        r matches Some(Dispatch::Group(GroupEvent::GroupPoke(e))) && e.group_uin == p.group_uin
            && e.operator_uin == p.operator_uin && e.target_uin == p.target_uin,
{
}

/// A member who joined: the logic first asks who the member is (a stranger, by uid), then who
/// invited them (among the group's members, the empty uid when none is named); the listeners
/// are told the member's number from the first answer (0 when it gave none) and the inviter's
/// from the second, in the notice's group and with its kind of join.
pub proof fn law_member_join_answers(join: GroupSysIncreaseEvent, member: Option<u32>, invitor: Option<u32>, r: Option<Dispatch>)
    requires
        dispatched(
            IncomingEvent::Notice(NoticeEvent::GroupSysIncrease(join)),
            seq![Answer::Uin(member), Answer::Uin(invitor)],
            r,
        ),
    ensures
        spec_next_query(IncomingEvent::Notice(NoticeEvent::GroupSysIncrease(join)), Seq::empty())
            == Some(QueryView::StrangerUid2Uin(join.member_uid@)),
        spec_next_query(
            IncomingEvent::Notice(NoticeEvent::GroupSysIncrease(join)),
            seq![Answer::Uin(member)],
        ) == Some(QueryView::Uid2Uin(
            match join.invitor_uid {
                Some(u) => u@,
                None => Seq::<char>::empty(),
            },
            Some(join.group_uin),
        )),
        r matches Some(Dispatch::Group(GroupEvent::GroupMemberIncrease(e))) && e.group_uin
            == join.group_uin && e.member_uin == (match member {
            Some(n) => n,
            None => 0u32,
        }) && e.invitor_uin == invitor && e.event_type == join.event_type,
{
    let a = seq![Answer::Uin(member), Answer::Uin(invitor)];
    assert(a[0] == Answer::Uin(member));
    assert(a[1] == Answer::Uin(invitor));
}

/// A member who left: the logic first asks who the member is (a stranger, by uid), then who
/// removed them (among the group's members, the empty uid when none is named); the listeners
/// are told the member's number from the first answer (0 when it gave none) and the operator's
/// from the second, in the notice's group and with its kind of leave.
pub proof fn law_member_leave_answers(leave: GroupSysDecreaseEvent, member: Option<u32>, operator: Option<u32>, r: Option<Dispatch>)
    requires
        dispatched(
            IncomingEvent::Notice(NoticeEvent::GroupSysDecrease(leave)),
            seq![Answer::Uin(member), Answer::Uin(operator)],
            r,
        ),
    ensures
        spec_next_query(IncomingEvent::Notice(NoticeEvent::GroupSysDecrease(leave)), Seq::empty())
            == Some(QueryView::StrangerUid2Uin(leave.member_uid@)),
        spec_next_query(
            IncomingEvent::Notice(NoticeEvent::GroupSysDecrease(leave)),
            seq![Answer::Uin(member)],
        ) == Some(QueryView::Uid2Uin(
            match leave.operator_uid {
                Some(u) => u@,
                None => Seq::<char>::empty(),
            },
            Some(leave.group_uin),
        )),
        r matches Some(Dispatch::Group(GroupEvent::GroupMemberDecrease(e))) && e.group_uin
            == leave.group_uin && e.member_uin == (match member {
            Some(n) => n,
            None => 0u32,
        }) && e.operator_uin == operator && e.event_type == leave.event_type,
{
    let a = seq![Answer::Uin(member), Answer::Uin(operator)];
    assert(a[0] == Answer::Uin(member));
    assert(a[1] == Answer::Uin(operator));
}

/// A reaction: the logic asks who reacted (among the group's members); the listeners are told
/// that number (0 when the lookup gave none), with the reaction's group, message, direction
/// (added or removed), code and count unchanged.
pub proof fn law_reaction_answers(re: GroupSysReactionEvent, operator: Option<u32>, r: Option<Dispatch>)
    requires
        dispatched(IncomingEvent::Notice(NoticeEvent::GroupSysReaction(re)), seq![Answer::Uin(operator)], r),
    ensures
        spec_next_query(IncomingEvent::Notice(NoticeEvent::GroupSysReaction(re)), Seq::empty())
            == Some(QueryView::Uid2Uin(re.operator_uid@, Some(re.target_group_uin))),
        r matches Some(Dispatch::Group(GroupEvent::GroupReaction(e))) && e.target_group_uin
            == re.target_group_uin && e.target_sequence == re.target_sequence && e.operator_uin
            == (match operator {
            Some(n) => n,
            None => 0u32,
        }) && e.is_add == re.is_add && e.code == re.code && e.count == re.count,
{
    let a = seq![Answer::Uin(operator)];
    assert(a[0] == Answer::Uin(operator));
}

/// A group recall: the logic first asks who wrote the message, then who recalled it (when the
/// notice names them); the listeners are told the author from the first answer and the operator
/// from the second (0 for a number not found, and 0 for an operator the notice does not name).
pub proof fn law_recall_answers(rc: GroupSysRecallEvent, author: Option<u32>, operator: Option<u32>, r: Option<Dispatch>)
    requires
        dispatched(
            IncomingEvent::Notice(NoticeEvent::GroupSysRecall(rc)),
            seq![Answer::Uin(author), Answer::Uin(operator)],
            r,
        ),
    ensures
        spec_next_query(IncomingEvent::Notice(NoticeEvent::GroupSysRecall(rc)), Seq::empty())
            == Some(QueryView::Uid2Uin(rc.author_uid@, Some(rc.group_uin))),
        r matches Some(Dispatch::Group(GroupEvent::GroupRecall(e))) && e.group_uin == rc.group_uin
            && e.author_uin == (match author {
            Some(n) => n,
            None => 0u32,
        }) && e.operator_uin == (match (rc.operator_uid, operator) {
            (Some(_), Some(n)) => n,
            _ => 0u32,
        }) && e.sequence == rc.sequence,
{
    let a = seq![Answer::Uin(author), Answer::Uin(operator)];
    assert(a[0] == Answer::Uin(author));
    assert(a[1] == Answer::Uin(operator));
}

} // verus!
