use mania::business::system_logic::{
    caching_stale_group, incoming_disposal, kick_offline_event, next_retry_secs, request_result,
    IncomingDisposal, WaitOutcome, FIRST_RETRY_SECS,
};
use mania::business::LogicFlow;
use mania::cache::{Cache, CacheMode, FriendsRefresh, LookupStep};
use mania::connect::{fastest_server, server_candidates, ServerCandidates};
use mania::context::{AppInfo, DeviceInfo, DeviceUuid, ExtendUuid, KeyStore, Protocol, SessionKeys};
use mania::dispatch::{Dispatch, SystemEvent};
use mania::entity::{
    BotFriend, BotFriendGroup, BotGroupMember, GroupMemberDecreaseEventType, GroupMemberIncreaseEventType,
    GroupMemberPermission,
};
use mania::error::{BusinessError, EventError, ManiaError};
use mania::event::login::{AccountInfo, WtLogin, WtLoginTlvs};
use mania::event::notify::{GroupSysDecreaseEvent, GroupSysIncreaseEvent, NoticeEvent};
use mania::event::system::{FetchFriendsEvent, KickNTEvent};

#[test]
fn retry_waits_double_then_stay() {
    let mut w = FIRST_RETRY_SECS;
    let mut seen = vec![w];
    for _ in 0..8 {
        w = next_retry_secs(w);
        seen.push(w);
    }
    assert_eq!(seen, vec![1, 2, 4, 8, 16, 32, 32, 32, 32]);
}

#[test]
fn stale_groups() {
    let inc = NoticeEvent::GroupSysIncrease(GroupSysIncreaseEvent { group_uin: 1, member_uid: "x".into(), invitor_uid: None, event_type: GroupMemberIncreaseEventType::Unknown });
    assert_eq!(caching_stale_group(&inc, "me"), Some(1));
    let left_me = NoticeEvent::GroupSysDecrease(GroupSysDecreaseEvent { group_uin: 2, member_uid: "me".into(), operator_uid: None, event_type: GroupMemberDecreaseEventType::KickMe });
    assert_eq!(caching_stale_group(&left_me, "me"), None);
    let left_other = NoticeEvent::GroupSysDecrease(GroupSysDecreaseEvent { group_uin: 2, member_uid: "you".into(), operator_uid: None, event_type: GroupMemberDecreaseEventType::Unknown });
    assert_eq!(caching_stale_group(&left_other, "me"), Some(2));
}

#[test]
fn kicked_bot_goes_offline() {
    let d = kick_offline_event(&KickNTEvent { tips: "logged in elsewhere".into(), title: "Offline".into() });
    match d {
        Dispatch::System(SystemEvent::BotOfflineEvent(Some(r))) => assert_eq!(r, "Offline: logged in elsewhere"),
        _ => panic!("expected offline"),
    }
}

#[test]
fn flow_text() {
    assert_eq!(LogicFlow::InComing.text(), ">>> InComing");
    assert_eq!(LogicFlow::OutGoing.text(), "<<< OutGoing");
}

#[test]
fn incoming_packets_disposal() {
    assert!(matches!(incoming_disposal::<()>(true, &Err(BusinessError::GenericError("x".into()))), IncomingDisposal::Deliver));
    assert!(matches!(incoming_disposal(false, &Ok(())), IncomingDisposal::Done));
    assert!(matches!(
        incoming_disposal::<()>(false, &Err(BusinessError::InternalEventError(EventError::UnsupportedEvent("c".into())))),
        IncomingDisposal::Warn
    ));
    assert!(matches!(
        incoming_disposal::<()>(false, &Err(BusinessError::InternalEventError(EventError::OtherError("c".into())))),
        IncomingDisposal::Report
    ));
}

#[test]
fn waiting_for_answers() {
    let (r, drop) = request_result::<u32>(WaitOutcome::Answered(Ok(5)));
    assert_eq!(r.ok(), Some(5));
    assert!(!drop);
    let (r, drop) = request_result::<u32>(WaitOutcome::TimedOut);
    assert!(matches!(r, Err(BusinessError::GenericError(m)) if m == "request timed out"));
    assert!(drop);
    let (r, drop) = request_result::<u32>(WaitOutcome::ChannelDropped);
    assert!(matches!(r, Err(BusinessError::GenericError(m)) if m == "response channel dropped"));
    assert!(drop);
}

#[test]
fn app_info_per_protocol() {
    let l = AppInfo::get(Protocol::Linux);
    assert_eq!(l.os, "Linux");
    assert_eq!(l.app_id, 1600001615);
    assert_eq!(l.nt_login_type, 1);
    let w = AppInfo::get(Protocol::Windows);
    assert_eq!(w.vendor_os, "win32");
    assert_eq!(w.sub_app_id, 537138217);
    let m = AppInfo::get(Protocol::MacOS);
    assert_eq!(m.kernel, "Darwin");
    assert_eq!(m.package_sign, "V1_MAC_NQ_6.9.23-20139_RDM_B");
    assert_eq!(m.main_sig_map, 169742560);
}

#[test]
fn default_device() {
    let d = DeviceInfo::default();
    assert_eq!(d.mac_address.len(), 6);
    assert_eq!(d.device_name, "Lagrange.Mania");
    assert_eq!(d.system_kernel, "Windows 10.0.19042");
    assert_eq!(d.kernel_version, "10.0.19042.0");
    assert_eq!(d.uuid.bytes[6] >> 4, 4);
    assert_eq!(d.uuid.bytes[8] >> 6, 2);
    let u = DeviceUuid { bytes: [3u8; 16] };
    assert_eq!(u.to_bytes(), &[3u8; 16][..]);
}

fn key_store(date: i64) -> KeyStore {
    KeyStore {
        uin: 1,
        uid: None,
        password_md5: vec![],
        session: SessionKeys { d2_key: vec![], d2: vec![], tgt: vec![], session_date: date, temp_password: None },
        info: AccountInfo { age: 0, gender: 0, name: String::new() },
    }
}

#[test]
fn session_expiry() {
    let ks = key_store(1000);
    assert!(!ks.is_session_expired_at(1000 + 15 * 86400));
    assert!(ks.is_session_expired_at(1001 + 15 * 86400));
    assert!(ks.is_expired_at(1000));
    let mut ks = key_store(0);
    let session = WtLogin::session(WtLoginTlvs {
        t10a_tgt: Some(vec![1]),
        t143_d2: Some(vec![2]),
        t305_d2_key: Some(vec![0u8; 16]),
        t106_temp: Some(vec![3]),
        t543_uid: Some("uid".into()),
        t11a_info: Some(AccountInfo { age: 1, gender: 2, name: "n".into() }),
    })
    .ok()
    .unwrap();
    ks.store_login(session, 5000);
    assert!(!ks.is_expired_at(5000));
    assert!(!ks.is_expired_at(5000 + 15 * 86400));
    assert!(ks.is_expired_at(5001 + 15 * 86400));
    assert_eq!(ks.uid.as_deref(), Some("uid"));
    assert_eq!(ks.session.temp_password, Some(vec![3]));
    let fresh = key_store(i64::MAX);
    assert!(!fresh.is_session_expired_at(i64::MIN));
    assert!(key_store(i64::MIN).is_session_expired_at(i64::MAX));
}

#[test]
fn servers() {
    assert!(matches!(server_candidates(true, true), ServerCandidates::Resolve(h) if h == "msfwifiv6.3g.qq.com:8080"));
    assert!(matches!(server_candidates(true, false), ServerCandidates::Resolve(h) if h == "msfwifi.3g.qq.com:8080"));
    assert!(matches!(server_candidates(false, true), ServerCandidates::Resolve(h) if h == "msfwifiv6.3g.qq.com:14000"));
    match server_candidates(false, false) {
        ServerCandidates::Fixed(v) => assert_eq!(v.len(), 3),
        _ => panic!("expected fixed servers"),
    }
    assert_eq!(fastest_server(&vec![30, 10, 20, 10]), 1);
    assert_eq!(fastest_server(&vec![5]), 0);
}

fn bot_friend(uin: u32, uid: &str, group: u32) -> BotFriend {
    BotFriend {
        uin,
        uid: uid.to_string(),
        nickname: String::new(),
        remarks: String::new(),
        personal_sign: String::new(),
        qid: String::new(),
        group: Some(BotFriendGroup { group_id: group, group_name: String::new() }),
    }
}

fn generic(e: ManiaError) -> String {
    match e {
        ManiaError::GenericError(m) => m,
        _ => panic!("expected a generic error"),
    }
}

#[test]
fn cache_full_round_trip() {
    let mut cache = Cache::new(CacheMode::Full);
    assert!(matches!(cache.lookup_step(true, None, false), LookupStep::RefreshFriends));
    let mut acc = FriendsRefresh::new();
    let page = FetchFriendsEvent {
        friends: vec![bot_friend(10, "u10", 1), bot_friend(11, "u11", 2)],
        friend_groups: vec![(1, "one".into())],
        next_uin: None,
    };
    let next = cache.absorb_friends_page(&mut acc, page);
    assert!(matches!(next, Ok(None)));
    assert_eq!(acc.friends[0].group.as_ref().unwrap().group_name, "one");
    assert_eq!(acc.friends[1].group.as_ref().unwrap().group_name, "");
    cache.store_friends(acc);
    assert!(matches!(cache.lookup_step(true, None, false), LookupStep::Resolve));
    assert_eq!(cache.resolve_uin2uid_within_cache(11, None).ok().unwrap(), "u11");
    assert_eq!(cache.resolve_uid2uin_within_cache("u10", None).ok().unwrap(), 10);
    assert_eq!(generic(cache.resolve_uin2uid_within_cache(12, None).err().unwrap()), "Friend not found");
    assert!(matches!(cache.lookup_step(true, Some(5), false), LookupStep::RefreshGroup(5)));
    cache.store_group_members(
        5,
        vec![BotGroupMember {
            uin: 20,
            uid: "u20".into(),
            permission: GroupMemberPermission::Member,
            group_level: 1,
            member_card: None,
            member_name: String::new(),
            special_title: None,
            join_time: 0,
            last_msg_time: 0,
            shut_up_timestamp: 0,
        }],
    );
    assert!(matches!(cache.lookup_step(false, Some(5), false), LookupStep::Resolve));
    assert_eq!(cache.resolve_uid2uin_within_cache("u20", Some(5)).ok().unwrap(), 20);
    assert_eq!(generic(cache.resolve_uin2uid_within_cache(21, Some(5)).err().unwrap()), "Member not found");
    assert_eq!(generic(cache.resolve_uin2uid_within_cache(21, Some(6)).err().unwrap()), "Group not found");
    cache.insert_uin_uid(30, "u30".into());
    assert_eq!(cache.resolve_uin2uid_within_cache(30, Some(6)).ok().unwrap(), "u30");
}

#[test]
fn cache_none_fetches() {
    let cache = Cache::new(CacheMode::NoCache);
    assert!(matches!(cache.lookup_step(true, Some(4), false), LookupStep::FetchGroup(4)));
    assert!(matches!(cache.lookup_step(false, None, false), LookupStep::FetchFriends));
    assert!(!cache.refresh_applies());
}
