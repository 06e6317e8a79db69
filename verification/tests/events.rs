use md5::{Digest, Md5};
use mania::entity::{GenderInfo, GroupMemberPermission};
use mania::error::{EventError, ParseEventError};
use mania::event::chat::{LongMsgAction, MultiMsgDownloadEvent, SendMessageEvent, SendMessageResponse};
use mania::event::group_requests::{
    group_requests_with_accounts, request_uids, FetchFilteredGroupRequestsEvent,
    FetchGroupRequestsEvent, GroupRequestRecord, GroupRequestsResponse, RequestAccounts, RequestMember,
};
use mania::event::login::{AccountInfo, WtLogin, WtLoginAnswer, WtLoginStep, WtLoginTlvs};
use mania::event::media::{
    DownloadInfo, FileC2CDownloadEvent, FileDownloadBody, FileDownloadResponse, FileDownloadResult,
    ImageC2CDownloadEvent, RecordC2CDownloadEvent, RecordGroupDownloadEvent, RichMediaDownload,
    RichMediaResponse,
};
use mania::event::push_msg::{
    extract_0x2dc_head, extract_0x_sub_type, notice_head_ok, extract_msg_content, extract_poke_info,
    group_increase_event, process_event_0x210, process_event_0x2dc, PushMessageEvent, PushStep,
};
use mania::event::system::{AliveEvent, FetchFriendsEvent, FetchHighwayTicketEvent, FetchMembersEvent, HttpConnResponse};
use mania::event::user_info::FetchUserInfoEvent;
use mania::message::IndexNode;
use mania::proto::{
    Avatar, BusinessBody, BusinessIcon, BusinessListRecord, BusinessRecord, BytesProperty,
    ContentHead, CustomStatus, FriendAdditional, FriendGroupRecord, FriendLayer1, FriendProperty,
    FriendRecord, FriendsResponse, GeneralGrayTipInfo, GroupChange, MemberCardRecord, MemberRecord,
    MemberUin, MembersResponse, MessageBody, NumberProperty, PushMsg, PushMsgBody, ResponseHead,
    TemplParam, UserInfoBody, UserInfoProperties, UserInfoResponse,
};

fn other(e: EventError) -> String {
    match e {
        EventError::OtherError(m) => m,
        _ => panic!("expected OtherError"),
    }
}

fn push(typ: u32, sub_type: Option<u32>, content: Option<Vec<u8>>) -> PushMsg {
    PushMsg {
        message: Some(PushMsgBody {
            response_head: Some(ResponseHead { from_uid: Some("from".to_string()) }),
            content_head: Some(ContentHead { typ, sub_type }),
            body: Some(MessageBody { msg_content: content }),
        }),
    }
}

#[test]
fn push_kinds() {
    assert!(matches!(PushMessageEvent::parse(push(82, None, None)), Ok(PushStep::ParseChain(_, _))));
    assert!(matches!(PushMessageEvent::parse(push(84, None, Some(vec![1]))), Ok(PushStep::DecodeGroupJoin(c)) if c == vec![1]));
    assert_eq!(
        other(PushMessageEvent::parse(push(84, None, None)).err().unwrap()),
        "GroupRequestJoinNotice missing msg_content"
    );
    assert_eq!(
        other(PushMessageEvent::parse(push(1, None, None)).err().unwrap()),
        "receive unknown olpush message type: 1"
    );
    assert!(matches!(PushMessageEvent::parse(push(87, None, None)), Ok(PushStep::Unhandled)));
    let no_head = PushMsg { message: None };
    assert_eq!(other(PushMessageEvent::parse(no_head).err().unwrap()), "Cannot get typ in PushMsg");
}

#[test]
fn push_content_and_sub_type() {
    assert_eq!(extract_msg_content(push(0, None, Some(vec![9, 8])), "tip").unwrap(), vec![9, 8]);
    assert_eq!(other(extract_msg_content(push(0, None, None), "tip").err().unwrap()), "tip");
    assert_eq!(extract_0x_sub_type(&push(0, Some(17), None)).unwrap(), 17);
    assert_eq!(other(extract_0x_sub_type(&push(0, None, None)).err().unwrap()), "Cannot get sub_type in PushMsg");
}

#[test]
fn group_and_friend_notices() {
    assert!(matches!(process_event_0x2dc(push(0x2dc, Some(17), Some(vec![1]))), Ok(PushStep::SplitGroupNotice(_, _))));
    assert!(matches!(process_event_0x2dc(push(0x2dc, Some(12), Some(vec![1]))), Ok(PushStep::Unhandled)));
    assert_eq!(
        other(process_event_0x2dc(push(0x2dc, Some(99), None)).err().unwrap()),
        "receive unknown olpush message 0x2dc sub type: TryFromPrimitiveError { number: 99 }"
    );
    match process_event_0x210(push(0x210, Some(138), Some(vec![5]))) {
        Ok(PushStep::DecodeFriendRecall(c, uid)) => {
            assert_eq!(c, vec![5]);
            assert_eq!(uid.as_deref(), Some("from"));
        }
        _ => panic!("expected a friend recall"),
    }
    assert!(matches!(process_event_0x210(push(0x210, Some(290), Some(vec![5]))), Ok(PushStep::DecodeFriendPoke(_))));
}

#[test]
fn notice_head_split() {
    let content = vec![0, 0, 1, 2, 9, 0, 2, 7, 8, 6];
    let (group, body) = extract_0x2dc_head(&content);
    assert_eq!(group, 258);
    assert_eq!(body, vec![7, 8]);
}

fn param(k: &str, v: &str) -> TemplParam {
    TemplParam { key: k.to_string(), value: v.to_string() }
}

#[test]
fn poke_info_reads_last_params() {
    let gt = GeneralGrayTipInfo {
        busi_type: 12,
        msg_templ_param: vec![
            param("alt_str1", "alt"),
            param("uin_str1", "123"),
            param("uin_str2", "x"),
            param("uin_str1", "456"),
            param("suffix", "!"),
        ],
    };
    let p = extract_poke_info(&gt);
    assert_eq!(p.action, "alt");
    assert_eq!(p.operator_uin, 456);
    assert_eq!(p.target_uin, 0);
    assert_eq!(p.suffix, "!");
    assert_eq!(p.action_img_url, "");
}

#[test]
fn increase_with_bad_operator_bytes() {
    let change = GroupChange { group_uin: 1, member_uid: "m".into(), decrease_type: 0, operator: Some(vec![0xff]) };
    let e = other(group_increase_event(change).err().unwrap());
    assert!(e.starts_with("Failed to parse invitor_uid in GroupChange: "));
    let ok = GroupChange { group_uin: 1, member_uid: "m".into(), decrease_type: 0, operator: Some(b"inv".to_vec()) };
    assert_eq!(group_increase_event(ok).unwrap().invitor_uid.as_deref(), Some("inv"));
}

fn friend(uin: u32, props: Vec<FriendProperty>) -> FriendRecord {
    FriendRecord {
        uid: format!("u{}", uin),
        custom_group: 3,
        uin,
        additional: vec![
            FriendAdditional { typ: 2, layer1: None },
            FriendAdditional { typ: 1, layer1: Some(FriendLayer1 { properties: props }) },
        ],
    }
}

fn prop(code: u32, v: &str) -> FriendProperty {
    FriendProperty { code, value: v.to_string() }
}

#[test]
fn friends_page() {
    let resp = FriendsResponse {
        next: Some(77),
        friends: vec![
            friend(10, vec![prop(20002, "a"), prop(20002, "b"), prop(103, "r")]),
            friend(11, vec![]),
        ],
        groups: vec![FriendGroupRecord { code: 3, value: "mates".into() }],
    };
    let ev = FetchFriendsEvent::parse(resp).ok().unwrap();
    assert_eq!(ev.friends.len(), 2);
    assert_eq!(ev.friends[0].nickname, "b");
    assert_eq!(ev.friends[0].remarks, "r");
    assert_eq!(ev.friends[1].nickname, "11");
    assert_eq!(ev.friends[1].qid, "");
    assert_eq!(ev.friends[0].group.as_ref().unwrap().group_id, 3);
    assert_eq!(ev.friend_groups, vec![(3, "mates".to_string())]);
    assert_eq!(ev.next_uin, Some(77));
}

#[test]
fn friends_page_errors() {
    let mut f = friend(1, vec![]);
    f.additional = vec![FriendAdditional { typ: 2, layer1: None }];
    let resp = FriendsResponse { next: None, friends: vec![f], groups: vec![] };
    assert_eq!(other(FetchFriendsEvent::parse(resp).err().unwrap()), "Missing additional with type 1");
    let mut g = friend(1, vec![]);
    g.additional = vec![FriendAdditional { typ: 1, layer1: None }];
    let resp = FriendsResponse { next: None, friends: vec![g], groups: vec![] };
    assert_eq!(other(FetchFriendsEvent::parse(resp).err().unwrap()), "Missing layer1 in additional");
}

fn member(uin: Option<u32>, permission: u32) -> MemberRecord {
    MemberRecord {
        uin: uin.map(|u| MemberUin { uid: format!("m{}", u), uin: u }),
        member_name: "name".into(),
        special_title: None,
        member_card: Some(MemberCardRecord { member_card: Some("card".into()) }),
        level: None,
        join_timestamp: 1000,
        last_msg_timestamp: 2000,
        shut_up_timestamp: None,
        permission,
    }
}

#[test]
fn members_page() {
    let resp = MembersResponse { group_uin: 9, members: vec![member(Some(1), 0), member(Some(2), 2)], token: Some("t".into()) };
    let ev = FetchMembersEvent::parse(resp).ok().unwrap();
    assert_eq!(ev.group_uin, 9);
    assert_eq!(ev.token.as_deref(), Some("t"));
    assert_eq!(ev.group_members[1].permission, GroupMemberPermission::Admin);
    assert_eq!(ev.group_members[0].member_card.as_deref(), Some("card"));
    assert_eq!(ev.group_members[0].group_level, 0);
    assert_eq!(ev.group_members[0].join_time, 1000);
    assert_eq!(ev.group_members[0].last_msg_time, 2000);
    assert_eq!(ev.group_members[0].shut_up_timestamp, 0);
}

#[test]
fn members_page_errors() {
    let resp = MembersResponse { group_uin: 9, members: vec![member(Some(1), 5), member(None, 0)], token: None };
    assert_eq!(other(FetchMembersEvent::parse(resp).err().unwrap()), "Invalid permission");
    let resp = MembersResponse { group_uin: 9, members: vec![member(None, 5)], token: None };
    assert_eq!(other(FetchMembersEvent::parse(resp).err().unwrap()), "Missing uin");
}

fn bytes(code: u32, v: &[u8]) -> BytesProperty {
    BytesProperty { code, value: v.to_vec() }
}

fn num(code: u32, v: u32) -> NumberProperty {
    NumberProperty { number1: code, number2: v }
}

#[test]
fn user_info_profile() {
    let props = UserInfoProperties {
        number_properties: vec![num(27372, 268435457), num(20009, 2), num(20037, 30), num(105, 64), num(20026, 1234)],
        bytes_properties: vec![
            bytes(20002, b"nick"),
            bytes(20031, &[0x07, 0x70, 1, 1]),
            bytes(27394, b"qid"),
            bytes(102, &[0xff]),
        ],
    };
    let response = UserInfoResponse { body: Some(UserInfoBody { properties: Some(props), uin: 555 }) };
    let business = BusinessRecord {
        body: Some(BusinessBody {
            lists: vec![
                BusinessListRecord { typ: 1, level: 2, icon: Some(BusinessIcon::Icon2("i".into())), is_pro: 1, is_year: 0 },
                BusinessListRecord { typ: 3, level: 4, icon: Some(BusinessIcon::Icon1(String::new())), is_pro: 0, is_year: 1 },
            ],
        }),
    };
    let ev = FetchUserInfoEvent::parse(
        response,
        Some(CustomStatus { face_id: 8, msg: Some("busy".into()) }),
        Some(Avatar { url: Some("https://a/".into()) }),
        Some(business),
    )
    .ok()
    .unwrap();
    let info = ev.user_info;
    assert_eq!(ev.uin, 555);
    assert!(ev.uid.is_none());
    assert_eq!(info.nickname, "nick");
    assert_eq!(info.avatar, "https://a/640");
    assert_eq!(info.birthday, -2082844800);
    assert_eq!(info.status.status_id, 1);
    assert_eq!(info.status.face_id, Some(8));
    assert_eq!(info.status.msg.as_deref(), Some("busy"));
    assert_eq!(info.gender, GenderInfo::Female);
    assert_eq!(info.age, 30);
    assert_eq!(info.level, 64);
    assert_eq!(info.register_time, 1234);
    assert_eq!(info.qid.as_deref(), Some("qid"));
    assert_eq!(info.sign, "");
    assert_eq!(info.city, "");
    assert_eq!(info.business.len(), 2);
    assert_eq!(info.business[0].icon.as_deref(), Some("i"));
    assert!(info.business[1].icon.is_none());
}

#[test]
fn user_info_birthday_defaults_to_epoch() {
    let props = UserInfoProperties { number_properties: vec![], bytes_properties: vec![bytes(20031, &[0x07, 0xd0, 2, 30])] };
    let response = UserInfoResponse { body: Some(UserInfoBody { properties: Some(props), uin: 1 }) };
    let info = FetchUserInfoEvent::parse(response, None, None, None).ok().unwrap().user_info;
    assert_eq!(info.birthday, 0);
    assert_eq!(info.avatar, "640");
    assert_eq!(info.gender, GenderInfo::Unset);
    let props = UserInfoProperties { number_properties: vec![], bytes_properties: vec![bytes(20031, b"\x07\x5f\x02\x1e")] };
    let response = UserInfoResponse { body: Some(UserInfoBody { properties: Some(props), uin: 1 }) };
    let info = FetchUserInfoEvent::parse(response, None, None, None).ok().unwrap().user_info;
    assert_eq!(info.birthday, 0);
    let props = UserInfoProperties { number_properties: vec![], bytes_properties: vec![bytes(20031, b"\x07\x5f\x05\x0f")] };
    let response = UserInfoResponse { body: Some(UserInfoBody { properties: Some(props), uin: 1 }) };
    let info = FetchUserInfoEvent::parse(response, None, None, None).ok().unwrap().user_info;
    assert_eq!(info.birthday, -2607638400);
}

#[test]
fn user_info_errors_and_blobs() {
    assert_eq!(
        other(FetchUserInfoEvent::parse(UserInfoResponse { body: None }, None, None, None).err().unwrap()),
        "Missing response body"
    );
    let r = UserInfoResponse { body: Some(UserInfoBody { properties: None, uin: 1 }) };
    assert_eq!(other(FetchUserInfoEvent::parse(r, None, None, None).err().unwrap()), "Missing properties");
    let props = UserInfoProperties {
        number_properties: vec![],
        bytes_properties: vec![bytes(27406, &[]), bytes(101, &[1]), bytes(101, &[2])],
    };
    let blobs = FetchUserInfoEvent::nested_blobs(&props);
    assert!(blobs.custom_status.is_none());
    assert_eq!(blobs.avatar, Some(vec![2]));
    assert!(blobs.business.is_none());
}

#[test]
fn user_info_request() {
    let ev = FetchUserInfoEvent {
        user_info: FetchUserInfoEvent::parse(
            UserInfoResponse { body: Some(UserInfoBody { properties: Some(UserInfoProperties { number_properties: vec![], bytes_properties: vec![] }), uin: 0 }) },
            None,
            None,
            None,
        )
        .ok()
        .unwrap()
        .user_info,
        uin: 12,
        uid: None,
    };
    let req = ev.build();
    assert_eq!(req.uin, 12);
    assert!(req.uid.is_none());
    assert_eq!(req.keys.len(), 38);
    assert_eq!(req.keys[0], 20002);
    assert_eq!(req.keys[37], 20037);
}

#[test]
fn login_outcomes() {
    let ok = WtLogin::outcome(WtLoginAnswer { typ: 0, t119_encrypted: Some(vec![1, 2]), t146_message: None });
    assert!(matches!(ok, Ok(WtLoginStep::Decrypt(v)) if v == vec![1, 2]));
    let refused = WtLogin::outcome(WtLoginAnswer { typ: 2, t119_encrypted: None, t146_message: Some("bad".into()) });
    match refused {
        Ok(WtLoginStep::Done(w)) => {
            assert_eq!(w.code, 2);
            assert_eq!(w.msg.as_deref(), Some("bad"));
        }
        _ => panic!("expected a refusal"),
    }
    assert!(matches!(
        WtLogin::outcome(WtLoginAnswer { typ: 0, t119_encrypted: None, t146_message: None }),
        Err(ParseEventError::MissingTlv(0x119))
    ));
    assert!(matches!(
        WtLogin::outcome(WtLoginAnswer { typ: 1, t119_encrypted: None, t146_message: None }),
        Err(ParseEventError::MissingTlv(0x146))
    ));
}

fn tlvs() -> WtLoginTlvs {
    WtLoginTlvs {
        t10a_tgt: Some(vec![1]),
        t143_d2: Some(vec![2]),
        t305_d2_key: Some(vec![7u8; 16]),
        t106_temp: Some(vec![3]),
        t543_uid: Some("uid".into()),
        t11a_info: Some(AccountInfo { age: 20, gender: 1, name: "me".into() }),
    }
}

#[test]
fn login_session() {
    let s = WtLogin::session(tlvs()).ok().unwrap();
    assert_eq!(s.tgtgt, Md5::digest([7u8; 16]).to_vec());
    assert_eq!(s.tgt, vec![1]);
    assert_eq!(s.d2, vec![2]);
    assert_eq!(s.uid, "uid");
    assert_eq!(s.info.name, "me");
    let mut t = tlvs();
    t.t106_temp = None;
    t.t11a_info = None;
    assert!(matches!(WtLogin::session(t), Err(ParseEventError::MissingTlv(0x106))));
    let mut t = tlvs();
    t.t10a_tgt = None;
    t.t305_d2_key = None;
    assert!(matches!(WtLogin::session(t), Err(ParseEventError::MissingTlv(0x10a))));
}

fn rich(domain: Option<&str>) -> RichMediaResponse {
    RichMediaResponse {
        download: Some(RichMediaDownload {
            info: domain.map(|d| DownloadInfo { domain: d.to_string(), url_path: "/p?x=1".to_string() }),
            r_key_param: "&rkey=k".to_string(),
        }),
    }
}

#[test]
fn media_links() {
    assert_eq!(ImageC2CDownloadEvent::parse(rich(Some("d.com"))).unwrap(), "https://d.com/p?x=1&rkey=k");
    assert_eq!(other(ImageC2CDownloadEvent::parse(rich(None)).err().unwrap()), "Missing DownloadInfo");
    assert_eq!(other(ImageC2CDownloadEvent::parse(RichMediaResponse { download: None }).err().unwrap()), "Missing DownloadResp");
    assert_eq!(
        other(RecordC2CDownloadEvent::parse(RichMediaResponse { download: None }).err().unwrap()),
        "Missing Ntv2RichMediaResp download response"
    );
    assert_eq!(
        other(RecordGroupDownloadEvent::parse(rich(None)).err().unwrap()),
        "Missing Ntv2RichMediaResp download info"
    );
    let file = FileDownloadResponse {
        body: Some(FileDownloadBody {
            result: Some(FileDownloadResult { sso_url: "f.com".into(), sso_port: 443, url: "/f?id=1".into() }),
        }),
    };
    assert_eq!(FileC2CDownloadEvent::parse(file).unwrap(), "https://f.com:443/f?id=1&isthumb=0");
    assert_eq!(
        other(FileC2CDownloadEvent::parse(FileDownloadResponse { body: None }).err().unwrap()),
        "Missing OidbSvcTrpcTcp0xE371200responseBody"
    );
    assert_eq!(
        other(FileC2CDownloadEvent::parse(FileDownloadResponse { body: Some(FileDownloadBody { result: None }) }).err().unwrap()),
        "Missing OidbSvcTrpcTcp0xE371200result"
    );
}

#[test]
fn media_requests() {
    let rec = RecordGroupDownloadEvent { group_uin: 5, node: None, file_uuid: "fu".into(), audio_url: String::new() };
    let r = rec.build();
    assert_eq!(r.node.file_uuid, "fu");
    assert_eq!(r.group_uin, Some(5));
    assert_eq!((r.request_id, r.request_type, r.business_type, r.scene_type), (4, 1, 3, 2));
    let node = IndexNode { info: None, file_uuid: "n".into(), store_id: 1, upload_time: 2, ttl: 3, sub_type: 4 };
    let rc = RecordC2CDownloadEvent { self_uid: "me".into(), node: Some(node), file_uuid: "ignored".into(), audio_url: String::new() };
    let r = rc.build();
    assert_eq!(r.node.file_uuid, "n");
    assert_eq!(r.c2c_target_uid.as_deref(), Some("me"));
    let f = FileC2CDownloadEvent {
        sender_uid: None,
        receiver_uid: Some("r".into()),
        file_uuid: Some("u".into()),
        file_hash: Some("h".into()),
        file_url: String::new(),
    };
    let req = f.build();
    assert_eq!((req.receiver_uid.as_str(), req.file_uuid.as_str(), req.file_hash.as_str()), ("r", "u", "h"));
}

fn record(with_names: bool) -> GroupRequestRecord {
    let m = |u: &str| if with_names { Some(RequestMember { uid: u.to_string(), name: format!("{}-name", u) }) } else { None };
    GroupRequestRecord {
        group_uin: Some(4),
        invitor: m("inv"),
        target: m("tgt"),
        operator: m("op"),
        sequence: 9,
        state: 1,
        event_type: 2,
        comment: "hello".into(),
    }
}

#[test]
fn group_request_lists() {
    let pending = FetchGroupRequestsEvent::parse(GroupRequestsResponse { requests: vec![record(true)] });
    let p = &pending.results[0];
    assert_eq!(p.invitor_member_uid.as_deref(), Some("inv"));
    assert!(p.invitor_member_card.is_none());
    assert_eq!(p.target_member_uid, "tgt");
    assert_eq!(p.target_member_card, "");
    assert!(p.operator_name.is_none());
    assert!(!p.is_filtered);
    let filtered = FetchFilteredGroupRequestsEvent::parse(GroupRequestsResponse { requests: vec![record(true), record(false)] });
    let f = &filtered.results[0];
    assert_eq!(f.invitor_member_card.as_deref(), Some("inv-name"));
    assert_eq!(f.target_member_card, "tgt-name");
    assert!(f.is_filtered);
    let g = &filtered.results[1];
    assert_eq!(g.group_uin, 4);
    assert!(g.invitor_member_uid.is_none());
    assert_eq!(g.target_member_uid, "");
    assert_eq!(g.comment.as_deref(), Some("hello"));
    let uids = request_uids(g);
    assert_eq!(uids, (String::new(), String::new(), String::new()));
    let all = group_requests_with_accounts(
        pending.results,
        filtered.results,
        vec![
            RequestAccounts { invitor: Some(1), target: Some(2), operator: None },
            RequestAccounts { invitor: None, target: None, operator: Some(3) },
            RequestAccounts { invitor: None, target: Some(5), operator: None },
        ],
    );
    assert_eq!(all.len(), 3);
    assert_eq!(all[0].invitor_member_uin, Some(1));
    assert!(!all[0].is_filtered);
    assert_eq!(all[1].target_member_uin, 0);
    assert_eq!(all[1].operator_uin, Some(3));
    assert!(all[1].is_filtered);
    assert_eq!(all[2].target_member_uin, 5);
}

#[test]
fn send_result_and_forwards() {
    let r = SendMessageEvent::parse(SendMessageResponse { result: -1, group_sequence: None, private_sequence: 33, timestamp1: 44 });
    assert_eq!(r.result, u32::MAX);
    assert_eq!(r.sequence, Some(33));
    assert_eq!(r.timestamp, 44);
    let g = SendMessageEvent::parse(SendMessageResponse { result: 0, group_sequence: Some(7), private_sequence: 33, timestamp1: 0 });
    assert_eq!(g.sequence, Some(7));
    let actions = vec![
        LongMsgAction { action_command: "Other".into(), action_data: Some(vec![]) },
        LongMsgAction { action_command: "MultiMsg".into(), action_data: None },
    ];
    assert_eq!(other(MultiMsgDownloadEvent::forwarded_bodies(actions).err().unwrap()), "Failed to find action_data");
    let none = vec![LongMsgAction { action_command: "Other".into(), action_data: Some(vec![]) }];
    assert_eq!(other(MultiMsgDownloadEvent::forwarded_bodies(none).err().unwrap()), "Failed to find MultiMsg command");
    let ok = vec![LongMsgAction { action_command: "MultiMsg".into(), action_data: Some(vec![]) }];
    assert!(MultiMsgDownloadEvent::forwarded_bodies(ok).unwrap().is_empty());
}

#[test]
fn heartbeat_and_ticket() {
    assert_eq!(AliveEvent.build(), vec![0, 0, 0, 4]);
    let t = FetchHighwayTicketEvent::parse(Some(HttpConnResponse { sig_session: vec![1, 2, 3] })).ok().unwrap();
    assert_eq!(t.sig_session, vec![1, 2, 3]);
    assert_eq!(other(FetchHighwayTicketEvent::parse(None).err().unwrap()), "No http_conn in response");
}

#[test]
fn readiness_checks() {
    assert!(notice_head_ok(&vec![0, 0, 0, 1, 0, 0, 2, 9, 9]));
    assert!(!notice_head_ok(&vec![0, 0, 0, 1, 0, 0, 3, 9, 9]));
    assert!(!notice_head_ok(&vec![0, 0, 0]));
    let mut t = tlvs();
    assert!(WtLogin::d2_key_ok(&t));
    t.t305_d2_key = Some(vec![1, 2]);
    assert!(!WtLogin::d2_key_ok(&t));
    t.t10a_tgt = None;
    assert!(WtLogin::d2_key_ok(&t));
    let short = UserInfoResponse {
        body: Some(UserInfoBody {
            properties: Some(UserInfoProperties { number_properties: vec![], bytes_properties: vec![bytes(20031, b"ab")] }),
            uin: 1,
        }),
    };
    assert!(!FetchUserInfoEvent::readable(&short));
    let not_text = UserInfoResponse {
        body: Some(UserInfoBody {
            properties: Some(UserInfoProperties { number_properties: vec![], bytes_properties: vec![bytes(20031, &[0xff])] }),
            uin: 1,
        }),
    };
    assert!(FetchUserInfoEvent::readable(&not_text));
}
