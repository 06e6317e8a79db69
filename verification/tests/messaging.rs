use mania::business::chain_media::{
    chain_entity_query, resolve_chain_entity, resolve_entity, ChainAnswer, ChainQuery,
};
use mania::business::messaging_logic::{incoming_dispatch, next_query, Answer, IncomingEvent, Query};
use mania::dispatch::{Dispatch, FriendEvent, GroupEvent, SystemEvent};
use mania::entity::{BotGroupRequest, GroupMemberDecreaseEventType, GroupMemberIncreaseEventType};
use mania::event::notify::{
    FriendSysPokeEvent, FriendSysRecallEvent, GroupSysDecreaseEvent, GroupSysIncreaseEvent,
    GroupSysPokeEvent, GroupSysReactionEvent, GroupSysRecallEvent, GroupSysRequestJoinEvent,
    NoticeEvent,
};
use mania::message::{
    C2CFileUnique, Entity, FileEntity, FileUnique, GroupFileUnique, ImageEntity, IndexNode,
    MessageChain, MessageType, MsgInfo, MsgInfoBody, MultiMsgEntity, RecordEntity, VideoEntity,
};

fn request(group_uin: u32, target: u32, seq: u64) -> BotGroupRequest {
    BotGroupRequest {
        group_uin,
        invitor_member_uin: None,
        invitor_member_card: None,
        target_member_uin: target,
        target_member_card: format!("card{}", seq),
        operator_uin: Some(5),
        operator_name: None,
        sequence: seq,
        state: 1,
        event_type: 1,
        comment: Some("let me in".to_string()),
        is_filtered: false,
    }
}

fn join_request() -> IncomingEvent {
    IncomingEvent::Notice(NoticeEvent::GroupSysRequestJoin(GroupSysRequestJoinEvent {
        target_uid: "u_target".to_string(),
        group_uin: 100,
    }))
}

#[test]
fn join_request_asks_then_dispatches_first_match() {
    let ev = join_request();
    let mut answers: Vec<Answer> = vec![];
    assert!(matches!(next_query(&ev, &answers), Some(Query::StrangerUid2Uin(ref u)) if u == "u_target"));
    answers.push(Answer::Uin(Some(7)));
    assert!(matches!(next_query(&ev, &answers), Some(Query::FetchGroupRequests)));
    answers.push(Answer::Requests(Some(vec![request(99, 7, 1), request(100, 7, 2), request(100, 7, 3)])));
    assert!(next_query(&ev, &answers).is_none());
    match incoming_dispatch(ev, &answers) {
        Some(Dispatch::Group(GroupEvent::GroupJoinRequest(e))) => {
            assert_eq!(e.group_uin, 100);
            assert_eq!(e.target_uin, 7);
            assert_eq!(e.target_nickname, "card2");
            assert_eq!(e.invitor_uin, 0);
            assert_eq!(e.answer, "let me in");
            assert_eq!(e.request_seq, 2);
        }
        _ => panic!("expected a join request"),
    }
}

#[test]
fn join_request_stops_when_requester_unknown() {
    let ev = join_request();
    let answers = vec![Answer::Uin(None)];
    assert!(next_query(&ev, &answers).is_none());
    assert!(incoming_dispatch(ev, &answers).is_none());
}

#[test]
fn join_request_without_match_is_not_told() {
    let ev = join_request();
    let answers = vec![Answer::Uin(Some(8)), Answer::Requests(Some(vec![request(100, 7, 1)]))];
    assert!(incoming_dispatch(ev, &answers).is_none());
}

#[test]
fn member_increase_uses_answers_or_defaults() {
    let ev = IncomingEvent::Notice(NoticeEvent::GroupSysIncrease(GroupSysIncreaseEvent {
        group_uin: 5,
        member_uid: "m".to_string(),
        invitor_uid: None,
        event_type: GroupMemberIncreaseEventType::Approve,
    }));
    assert!(matches!(next_query(&ev, &vec![Answer::Uin(None)]), Some(Query::Uid2Uin(ref u, Some(5))) if u.is_empty()));
    match incoming_dispatch(ev, &vec![Answer::Uin(None), Answer::Uin(Some(9))]) {
        Some(Dispatch::Group(GroupEvent::GroupMemberIncrease(e))) => {
            assert_eq!(e.group_uin, 5);
            assert_eq!(e.member_uin, 0);
            assert_eq!(e.invitor_uin, Some(9));
            assert_eq!(e.event_type, GroupMemberIncreaseEventType::Approve);
        }
        _ => panic!("expected an increase"),
    }
}

#[test]
fn member_decrease_operator_optional() {
    let ev = IncomingEvent::Notice(NoticeEvent::GroupSysDecrease(GroupSysDecreaseEvent {
        group_uin: 6,
        member_uid: "m".to_string(),
        operator_uid: Some("op".to_string()),
        event_type: GroupMemberDecreaseEventType::KickMe,
    }));
    match incoming_dispatch(ev, &vec![Answer::Uin(Some(11)), Answer::Uin(None)]) {
        Some(Dispatch::Group(GroupEvent::GroupMemberDecrease(e))) => {
            assert_eq!(e.member_uin, 11);
            assert_eq!(e.operator_uin, None);
        }
        _ => panic!("expected a decrease"),
    }
}

#[test]
fn pokes_need_no_query() {
    let gp = IncomingEvent::Notice(NoticeEvent::GroupSysPoke(GroupSysPokeEvent {
        group_uin: 1,
        operator_uin: 2,
        target_uin: 3,
        action: "pokes".to_string(),
        suffix: "!".to_string(),
        action_img_url: "img".to_string(),
    }));
    assert!(next_query(&gp, &vec![]).is_none());
    match incoming_dispatch(gp, &vec![]) {
        Some(Dispatch::Group(GroupEvent::GroupPoke(p))) => {
            assert_eq!((p.group_uin, p.operator_uin, p.target_uin), (1, 2, 3));
            assert_eq!(p.action_img_url, "img");
        }
        _ => panic!("expected a group poke"),
    }
    let fp = IncomingEvent::Notice(NoticeEvent::FriendSysPoke(FriendSysPokeEvent {
        operator_uin: 4,
        target_uin: 5,
        action: "a".to_string(),
        suffix: "s".to_string(),
        action_img_url: "u".to_string(),
    }));
    assert!(next_query(&fp, &vec![]).is_none());
    match incoming_dispatch(fp, &vec![]) {
        Some(Dispatch::Friend(FriendEvent::FriendPokeEvent(p))) => assert_eq!(p.action_url, "u"),
        _ => panic!("expected a friend poke"),
    }
}

#[test]
fn at_most_two_queries() {
    let ev = IncomingEvent::Notice(NoticeEvent::GroupSysRecall(GroupSysRecallEvent {
        group_uin: 1,
        author_uid: "a".to_string(),
        operator_uid: Some("o".to_string()),
        sequence: 1,
        time: 2,
        random: 3,
        tip: "t".to_string(),
    }));
    assert!(next_query(&ev, &vec![]).is_some());
    assert!(next_query(&ev, &vec![Answer::Uin(Some(1))]).is_some());
    assert!(next_query(&ev, &vec![Answer::Uin(Some(1)), Answer::Uin(Some(2))]).is_none());
    match incoming_dispatch(ev, &vec![Answer::Uin(Some(1)), Answer::Uin(None)]) {
        Some(Dispatch::Group(GroupEvent::GroupRecall(r))) => {
            assert_eq!(r.author_uin, 1);
            assert_eq!(r.operator_uin, 0);
            assert_eq!(r.tip, "t");
        }
        _ => panic!("expected a recall"),
    }
}

#[test]
fn recall_without_operator_asks_once() {
    let ev = IncomingEvent::Notice(NoticeEvent::GroupSysRecall(GroupSysRecallEvent {
        group_uin: 1,
        author_uid: "a".to_string(),
        operator_uid: None,
        sequence: 1,
        time: 2,
        random: 3,
        tip: String::new(),
    }));
    assert!(next_query(&ev, &vec![Answer::Uin(Some(1))]).is_none());
}

#[test]
fn reaction_and_friend_recall() {
    let re = IncomingEvent::Notice(NoticeEvent::GroupSysReaction(GroupSysReactionEvent {
        target_group_uin: 8,
        target_sequence: 9,
        operator_uid: "op".to_string(),
        is_add: true,
        code: "128".to_string(),
        count: 2,
    }));
    match incoming_dispatch(re, &vec![Answer::Uin(Some(77))]) {
        Some(Dispatch::Group(GroupEvent::GroupReaction(r))) => {
            assert_eq!(r.operator_uin, 77);
            assert_eq!(r.code, "128");
            assert!(r.is_add);
        }
        _ => panic!("expected a reaction"),
    }
    let fr = IncomingEvent::Notice(NoticeEvent::FriendSysRecall(FriendSysRecallEvent {
        from_uid: "f".to_string(),
        client_sequence: 3,
        time: 4,
        random: 5,
        tip: "x".to_string(),
    }));
    assert!(matches!(next_query(&fr, &vec![]), Some(Query::Uid2Uin(ref u, None)) if u == "f"));
    match incoming_dispatch(fr, &vec![Answer::Uin(None)]) {
        Some(Dispatch::Friend(FriendEvent::FriendRecallEvent(r))) => {
            assert_eq!(r.friend_uin, 0);
            assert_eq!(r.client_sequence, 3);
        }
        _ => panic!("expected a friend recall"),
    }
}

fn chain(typ: MessageType, entities: Vec<Entity>) -> MessageChain {
    MessageChain { typ, uid: "me".to_string(), friend_uin: 42, entities }
}

#[test]
fn messages_go_to_their_listener() {
    let g = incoming_dispatch(IncomingEvent::PushMessage(Some(chain(MessageType::Group(1), vec![]))), &vec![]);
    assert!(matches!(g, Some(Dispatch::Group(GroupEvent::GroupMessage(_)))));
    let f = incoming_dispatch(IncomingEvent::PushMessage(Some(chain(MessageType::Friend(1), vec![]))), &vec![]);
    assert!(matches!(f, Some(Dispatch::Friend(FriendEvent::FriendMessageEvent(_)))));
    let t = incoming_dispatch(IncomingEvent::PushMessage(Some(chain(MessageType::Temp, vec![]))), &vec![]);
    assert!(matches!(t, Some(Dispatch::System(SystemEvent::TempMessageEvent(_)))));
    let o = incoming_dispatch(IncomingEvent::PushMessage(Some(chain(MessageType::Other, vec![]))), &vec![]);
    assert!(o.is_none());
    assert!(incoming_dispatch(IncomingEvent::PushMessage(None), &vec![]).is_none());
}

fn node(uuid: &str) -> IndexNode {
    IndexNode { info: None, file_uuid: uuid.to_string(), store_id: 0, upload_time: 0, ttl: 0, sub_type: 0 }
}

fn image(url: &str) -> Entity {
    Entity::Image(ImageEntity {
        url: url.to_string(),
        msg_info: Some(MsgInfo { msg_info_body: vec![MsgInfoBody { index: Some(node("img")) }] }),
        custom_face: None,
    })
}

#[test]
fn signed_image_is_kept() {
    let c = chain(MessageType::Group(3), vec![image("https://a/b?x=1&rkey=k")]);
    assert!(chain_entity_query(&c, 0, &vec![]).is_none());
    let r = resolve_entity(c.typ, image("https://a/b?x=1&rkey=k"), vec![ChainAnswer::Text(Some("new".into()))]);
    match r {
        Entity::Image(i) => assert_eq!(i.url, "https://a/b?x=1&rkey=k"),
        _ => panic!("kind changed"),
    }
}

#[test]
fn unsigned_image_gets_its_link() {
    let mut c = chain(MessageType::Group(3), vec![Entity::Text("hi".into()), image("old")]);
    match chain_entity_query(&c, 1, &vec![]) {
        Some(ChainQuery::DownloadGroupImage(g, n)) => {
            assert_eq!(g, 3);
            assert_eq!(n.file_uuid, "img");
        }
        _ => panic!("expected a group image download"),
    }
    resolve_chain_entity(&mut c, 1, vec![ChainAnswer::Text(Some("https://new".into()))]);
    assert!(matches!(&c.entities[0], Entity::Text(t) if t == "hi"));
    assert!(matches!(&c.entities[1], Entity::Image(i) if i.url == "https://new"));
    let mut failed = chain(MessageType::Friend(3), vec![image("old")]);
    assert!(matches!(chain_entity_query(&failed, 0, &vec![]), Some(ChainQuery::DownloadC2CImage(_))));
    resolve_chain_entity(&mut failed, 0, vec![ChainAnswer::Text(None)]);
    assert!(matches!(&failed.entities[0], Entity::Image(i) if i.url == "old"));
}

#[test]
fn group_video_falls_back_to_group_download() {
    let v = Entity::Video(VideoEntity { file_name: "v.mp4".into(), node: Some(node("vid")), video_url: String::new() });
    let c = chain(MessageType::Group(9), vec![v]);
    assert!(matches!(chain_entity_query(&c, 0, &vec![]), Some(ChainQuery::Uin2Uid(42, 9))));
    let a1 = vec![ChainAnswer::Text(None)];
    match chain_entity_query(&c, 0, &a1) {
        Some(ChainQuery::DownloadVideo(uid, name, _, true)) => {
            assert_eq!(uid, "");
            assert_eq!(name, "v.mp4");
        }
        _ => panic!("expected a video download"),
    }
    let a2 = vec![ChainAnswer::Text(None), ChainAnswer::Text(None)];
    assert!(matches!(chain_entity_query(&c, 0, &a2), Some(ChainQuery::DownloadGroupVideo(9, _, _))));
    let a3 = vec![ChainAnswer::Text(Some("u".into())), ChainAnswer::Text(None), ChainAnswer::Text(Some("https://g".into()))];
    assert!(chain_entity_query(&c, 0, &a3).is_none());
    let mut c2 = c;
    resolve_chain_entity(&mut c2, 0, a3);
    assert!(matches!(&c2.entities[0], Entity::Video(v) if v.video_url == "https://g"));
}

#[test]
fn files_records_and_forwards() {
    let no_extra = resolve_entity(
        MessageType::Group(1),
        Entity::File(FileEntity { extra: None, file_url: Some("keep?".into()) }),
        vec![],
    );
    assert!(matches!(no_extra, Entity::File(f) if f.file_url.is_none()));
    let group_file_in_private = resolve_entity(
        MessageType::Friend(1),
        Entity::File(FileEntity {
            extra: Some(FileUnique::Group(GroupFileUnique { file_id: Some("id".into()) })),
            file_url: Some("old".into()),
        }),
        vec![ChainAnswer::Text(Some("new".into()))],
    );
    assert!(matches!(group_file_in_private, Entity::File(f) if f.file_url.as_deref() == Some("old")));
    let c2c = Entity::File(FileEntity {
        extra: Some(FileUnique::C2C(C2CFileUnique { file_uuid: Some("fu".into()), file_hash: None })),
        file_url: None,
    });
    let c = chain(MessageType::Friend(1), vec![c2c]);
    match chain_entity_query(&c, 0, &vec![]) {
        Some(ChainQuery::DownloadC2CFile(u, h, uid)) => {
            assert_eq!(u.as_deref(), Some("fu"));
            assert!(h.is_none());
            assert_eq!(uid, "me");
        }
        _ => panic!("expected a private file download"),
    }
    let rec = Entity::Record(RecordEntity { msg_info: None, audio_uuid: Some("au".into()), audio_url: String::new() });
    let rc = chain(MessageType::Group(5), vec![rec]);
    assert!(matches!(chain_entity_query(&rc, 0, &vec![]), Some(ChainQuery::DownloadGroupRecordByUuid(5, ref u)) if u == "au"));
    let fwd = Entity::MultiMsg(MultiMsgEntity { res_id: "res".into(), chains: vec![] });
    let fc = chain(MessageType::Group(5), vec![fwd]);
    assert!(matches!(chain_entity_query(&fc, 0, &vec![]), Some(ChainQuery::MultiMsgDownload(ref u, ref r)) if u == "me" && r == "res"));
    let filled = resolve_entity(
        MessageType::Group(5),
        Entity::MultiMsg(MultiMsgEntity { res_id: "res".into(), chains: vec![] }),
        vec![ChainAnswer::Chains(Some(vec![chain(MessageType::Temp, vec![])]))],
    );
    assert!(matches!(filled, Entity::MultiMsg(m) if m.chains.len() == 1));
}
