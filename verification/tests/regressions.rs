use md5::{Digest, Md5};
use mania::business::chain_media::{resolve_chain, ChainAnswer};
use mania::cache::{Cache, CacheMode};
use mania::entity::{BotGroupMember, GroupMemberPermission};
use mania::error::{EventError, ManiaError, ParseEventError};
use mania::event::login::{AccountInfo, WtLogin, WtLoginTlvs};
use mania::event::notify::{GroupSysRequestJoinEvent, NoticeEvent};
use mania::event::push_msg::{PkgType, PushMessageEvent};
use mania::highway::{finish_image_upload, group_image_upload_args, image_digests, image_source, ImageSource};
use mania::message::{Entity, ImageEntity, MessageChain, MessageType, MsgInfo, MsgInfoBody, RecordEntity};
use mania::business::pending::PendingRequests;
use mania::cache::{
    search_friends_page_uid, search_friends_page_uin, search_members_page_uid, search_members_page_uin,
    PageOutcome,
};
use mania::entity::{BotFriend, GroupMemberDecreaseEventType, GroupMemberIncreaseEventType};
use mania::event::chat::MultiMsgDownloadEvent;
use mania::event::media::FileC2CDownloadEvent;
use mania::event::push_msg::{group_decrease_step, group_increase_event, DecreaseStep};
use mania::event::system::{FetchFriendsEvent, FetchMembersEvent};
use mania::proto::GroupChange;
use sha1::Sha1;

fn chain(entities: Vec<Entity>) -> MessageChain {
    MessageChain { typ: MessageType::Friend(1), uid: "me".into(), friend_uin: 1, entities }
}

#[test]
fn chat_chain_outcomes() {
    let (ev, extra) = PushMessageEvent::with_chain(PkgType::GroupMessage, Ok(chain(vec![]))).ok().unwrap();
    assert!(ev.chain.is_some());
    assert!(extra.is_none());
    let (ev, extra) = PushMessageEvent::with_chain(PkgType::PrivateFileMessage, Ok(chain(vec![]))).ok().unwrap();
    assert!(ev.chain.is_some());
    assert_eq!(extra.unwrap().len(), 0);
    match PushMessageEvent::with_chain(PkgType::TempMessage, Err("bad elem".into())) {
        Err(EventError::OtherError(m)) => assert_eq!(m, "parse_chain failed: bad elem"),
        _ => panic!("expected OtherError"),
    }
    match PushMessageEvent::with_chain(PkgType::PrivateFileMessage, Err("x".into())) {
        Err(EventError::OtherError(m)) => assert_eq!(m, "parse_file_chain failed: x"),
        _ => panic!("expected OtherError"),
    }
    let (ev, extra) = PushMessageEvent::with_notice(Some(NoticeEvent::GroupSysRequestJoin(GroupSysRequestJoinEvent {
        target_uid: "t".into(),
        group_uin: 3,
    })));
    assert!(ev.chain.is_none());
    assert_eq!(extra.unwrap().len(), 1);
    let (_, none) = PushMessageEvent::with_notice(None);
    assert_eq!(none.unwrap().len(), 0);
}

#[test]
fn image_bytes_give_their_digests() {
    let data = b"\x89PNG fake image".to_vec();
    let (sha1, md5) = image_digests(&data);
    assert_eq!(sha1, Sha1::digest(&data).to_vec());
    assert_eq!(md5, Md5::digest(&data).to_vec());
    let args = group_image_upload_args(7, data.len() as u32, None, &data, 1001, "png", 2, 3, 0, None);
    assert_eq!(args.sha1, sha1);
    assert_eq!(args.md5, md5);
    assert_eq!(args.name, format!("{}.png", hex::encode(&sha1)));
    assert_eq!(args.size, data.len() as u32);
}

#[test]
fn image_sources() {
    assert!(matches!(image_source(&Some("/a.png".into()), true), Ok(ImageSource::File(p)) if p == "/a.png"));
    assert!(matches!(image_source(&None, true), Ok(ImageSource::Stream)));
    assert!(matches!(image_source(&None, false), Err(ManiaError::GenericError(m)) if m == "No image stream or file path"));
}

#[test]
fn upload_answer_is_kept() {
    let mut img = ImageEntity { url: "u".into(), msg_info: None, custom_face: None };
    finish_image_upload(&mut img, MsgInfo { msg_info_body: vec![MsgInfoBody { index: None }] }, Some(vec![1, 2]));
    assert_eq!(img.url, "u");
    assert_eq!(img.msg_info.unwrap().msg_info_body.len(), 1);
    assert_eq!(img.custom_face, Some(vec![1, 2]));
}

#[test]
fn successful_login_outcome() {
    let tlvs = WtLoginTlvs {
        t10a_tgt: Some(vec![1]),
        t143_d2: Some(vec![2]),
        t305_d2_key: Some(vec![9u8; 16]),
        t106_temp: Some(vec![3]),
        t543_uid: Some("uid".into()),
        t11a_info: Some(AccountInfo { age: 1, gender: 1, name: "n".into() }),
    };
    let (w, s) = WtLogin::complete(tlvs).ok().unwrap();
    assert_eq!(w.code, 0);
    assert!(w.msg.is_none());
    assert_eq!(s.tgtgt, Md5::digest([9u8; 16]).to_vec());
    let missing = WtLoginTlvs {
        t10a_tgt: Some(vec![1]),
        t143_d2: None,
        t305_d2_key: None,
        t106_temp: None,
        t543_uid: None,
        t11a_info: None,
    };
    assert!(matches!(WtLogin::complete(missing), Err(ParseEventError::MissingTlv(0x143))));
}

#[test]
fn whole_chain_resolution() {
    let mut c = chain(vec![
        Entity::Text("a".into()),
        Entity::Record(RecordEntity { msg_info: None, audio_uuid: Some("au".into()), audio_url: String::new() }),
        Entity::Image(ImageEntity { url: "x&rkey=1".into(), msg_info: None, custom_face: None }),
    ]);
    resolve_chain(
        &mut c,
        vec![vec![], vec![ChainAnswer::Text(Some("https://voice".into()))], vec![ChainAnswer::Text(Some("no".into()))]],
    );
    assert_eq!(c.entities.len(), 3);
    assert!(matches!(&c.entities[0], Entity::Text(t) if t == "a"));
    assert!(matches!(&c.entities[1], Entity::Record(r) if r.audio_url == "https://voice" && r.audio_uuid.as_deref() == Some("au")));
    assert!(matches!(&c.entities[2], Entity::Image(i) if i.url == "x&rkey=1"));
    assert_eq!(c.uid, "me");
}

fn member(uin: u32, uid: &str) -> BotGroupMember {
    BotGroupMember {
        uin,
        uid: uid.into(),
        permission: GroupMemberPermission::Member,
        group_level: 0,
        member_card: None,
        member_name: String::new(),
        special_title: None,
        join_time: 0,
        last_msg_time: 0,
        shut_up_timestamp: 0,
    }
}

#[test]
fn member_round_trip() {
    for mode in [CacheMode::Full, CacheMode::Half] {
        let mut cache = Cache::new(mode);
        cache.store_group_members(8, vec![member(1, "a"), member(2, "b"), member(3, "c")]);
        for (uin, uid) in [(1u32, "a"), (2, "b"), (3, "c")] {
            let got = cache.resolve_uin2uid_within_cache(uin, Some(8)).ok().unwrap();
            assert_eq!(got, uid);
            assert_eq!(cache.resolve_uid2uin_within_cache(&got, Some(8)).ok().unwrap(), uin);
        }
    }
}

fn change(decrease_type: u32, operator: Option<&str>) -> GroupChange {
    GroupChange {
        group_uin: 9,
        member_uid: "m".into(),
        decrease_type,
        operator: operator.map(|o| o.as_bytes().to_vec()),
    }
}

#[test]
fn member_notice_event_types() {
    let ev = group_increase_event(change(131, Some("inv"))).ok().unwrap();
    assert_eq!(ev.event_type, GroupMemberIncreaseEventType::Invite);
    assert_eq!(ev.invitor_uid.as_deref(), Some("inv"));
    assert_eq!(group_increase_event(change(130, None)).ok().unwrap().event_type, GroupMemberIncreaseEventType::Approve);
    assert_eq!(group_increase_event(change(5, None)).ok().unwrap().event_type, GroupMemberIncreaseEventType::Unknown);
    match group_decrease_step(change(130, Some("op"))).ok().unwrap() {
        DecreaseStep::Event(ev) => {
            assert_eq!(ev.event_type, GroupMemberDecreaseEventType::Leave);
            assert_eq!(ev.operator_uid.as_deref(), Some("op"));
        }
        _ => panic!("expected a complete notice"),
    }
    match group_decrease_step(change(131, None)).ok().unwrap() {
        DecreaseStep::Event(ev) => assert_eq!(ev.event_type, GroupMemberDecreaseEventType::Kick),
        _ => panic!("expected a complete notice"),
    }
    match group_decrease_step(change(7, None)).ok().unwrap() {
        DecreaseStep::Event(ev) => assert_eq!(ev.event_type, GroupMemberDecreaseEventType::Unknown),
        _ => panic!("expected a complete notice"),
    }
    assert!(matches!(group_decrease_step(change(3, Some("x"))).ok().unwrap(), DecreaseStep::DecodeOperator(..)));
}

#[test]
fn forwarded_chains_in_order() {
    let a = MessageChain { typ: MessageType::Temp, uid: "a".into(), friend_uin: 1, entities: vec![] };
    let b = MessageChain { typ: MessageType::Temp, uid: "b".into(), friend_uin: 2, entities: vec![] };
    let ev = MultiMsgDownloadEvent::with_chains(vec![Ok(a), Ok(b)]).ok().unwrap();
    let uids: Vec<String> = ev.chains.unwrap().into_iter().map(|c| c.uid).collect();
    assert_eq!(uids, vec!["a".to_string(), "b".to_string()]);
    assert!(ev.uid.is_none() && ev.res_id.is_none());
    let c = MessageChain { typ: MessageType::Temp, uid: "c".into(), friend_uin: 3, entities: vec![] };
    match MultiMsgDownloadEvent::with_chains(vec![Ok(c), Err("first".into()), Err("second".into())]) {
        Err(EventError::OtherError(m)) => assert_eq!(m, "first"),
        _ => panic!("expected the first error"),
    }
    assert_eq!(MultiMsgDownloadEvent::with_chains(vec![]).ok().unwrap().chains.unwrap().len(), 0);
}

#[test]
fn cache_modes_keep_their_maps() {
    let mut full = Cache::new(CacheMode::Full);
    full.insert_uin_uid(5, "five".into());
    assert_eq!(full.resolve_uin2uid_within_cache(5, None).ok().unwrap(), "five");
    assert_eq!(full.resolve_uid2uin_within_cache("five", None).ok().unwrap(), 5);
    let mut half = Cache::new(CacheMode::Half);
    half.insert_uin_uid(5, "five".into());
    match half.resolve_uin2uid_within_cache(5, None) {
        Err(ManiaError::GenericError(m)) => assert_eq!(m, "Friend not found"),
        _ => panic!("a half cache keeps no uin map"),
    }
    assert!(half.refresh_applies());
    assert!(!Cache::new(CacheMode::NoCache).refresh_applies());
}

#[test]
fn private_file_request_fields() {
    let f = FileC2CDownloadEvent {
        sender_uid: None,
        receiver_uid: Some("r".into()),
        file_uuid: Some("u".into()),
        file_hash: Some("h".into()),
        file_url: String::new(),
    };
    let req = f.build();
    assert_eq!((req.sub_command, req.field2, req.typ, req.t2), (1200, 1, 2, 0));
    assert_eq!((req.field101, req.field102, req.field200), (3, 103, 1));
    assert_eq!(req.field99999, vec![0xc0, 0x85, 0x2c, 0x01]);
    assert_eq!((req.oidb_command, req.oidb_sub_command), (0xe37, 1200));
}

#[test]
fn pending_requests_by_sequence() {
    let mut p: PendingRequests<&str> = PendingRequests::new();
    assert_eq!(p.insert(1, "one"), None);
    assert_eq!(p.insert(2, "two"), None);
    assert_eq!(p.insert(1, "uno"), Some("one"));
    assert_eq!(p.take(1), Some("uno"));
    assert_eq!(p.take(1), None);
    assert_eq!(p.take(2), Some("two"));
    assert_eq!(p.take(3), None);
}

fn friend(uin: u32, uid: &str) -> BotFriend {
    BotFriend {
        uin,
        uid: uid.into(),
        nickname: String::new(),
        remarks: String::new(),
        personal_sign: String::new(),
        qid: String::new(),
        group: None,
    }
}

#[test]
fn list_pages_settle_searches() {
    let page = FetchFriendsEvent { friends: vec![friend(1, "a"), friend(2, "b")], friend_groups: vec![], next_uin: Some(40) };
    assert!(matches!(search_friends_page_uid(&page, 2), PageOutcome::Found(u) if u == "b"));
    assert!(matches!(search_friends_page_uin(&page, "a"), PageOutcome::Found(1)));
    assert!(matches!(search_friends_page_uid(&page, 3), PageOutcome::Next(40)));
    let last = FetchFriendsEvent { friends: vec![], friend_groups: vec![], next_uin: None };
    match search_friends_page_uin(&last, "z") {
        PageOutcome::NotFound(ManiaError::GenericError(m)) => assert_eq!(m, "Friend not found"),
        _ => panic!("expected Friend not found"),
    }
    let members = FetchMembersEvent { group_uin: 8, group_members: vec![member(7, "s")], token: Some("t".into()) };
    assert!(matches!(search_members_page_uid(&members, 7), PageOutcome::Found(u) if u == "s"));
    assert!(matches!(search_members_page_uin(&members, "q"), PageOutcome::Next(t) if t == "t"));
    let end = FetchMembersEvent { group_uin: 8, group_members: vec![], token: None };
    match search_members_page_uid(&end, 7) {
        PageOutcome::NotFound(ManiaError::GenericError(m)) => assert_eq!(m, "Member not found"),
        _ => panic!("expected Member not found"),
    }
}
