use mania::business::chain_media::{resolve_entity, ChainAnswer};
use mania::cache::{Cache, CacheMode, LookupStep};
use mania::context::{KeyStore, SessionKeys};
use mania::event::login::AccountInfo;
use mania::event::push_msg::{
    field13_from, pkg_type_from, sub_type_0x210_from, sub_type_0x2dc_from, Event0x210SubType,
    Event0x2DCSubType, Event0x2DCSubType16Field13, PkgType,
};
use mania::message::{Entity, MessageType};

#[test]
fn wire_codes_read_back() {
    assert_eq!(pkg_type_from(82), Some(PkgType::GroupMessage));
    assert_eq!(pkg_type_from(0x2dc), Some(PkgType::Event0x2DC));
    assert_eq!(pkg_type_from(83), None);
    assert_eq!(sub_type_0x2dc_from(20), Some(Event0x2DCSubType::GroupGreyTipNotice));
    assert_eq!(sub_type_0x2dc_from(13), None);
    assert_eq!(field13_from(35), Some(Event0x2DCSubType16Field13::GroupReactionNotice));
    assert_eq!(field13_from(36), None);
    assert_eq!(sub_type_0x210_from(290), Some(Event0x210SubType::FriendPokeNotice));
    assert_eq!(sub_type_0x210_from(291), None);
}

#[test]
fn unasked_entity_unchanged() {
    let t = resolve_entity(MessageType::Group(1), Entity::Text("hi".into()), vec![ChainAnswer::Text(Some("x".into()))]);
    assert!(matches!(t, Entity::Text(s) if s == "hi"));
}

#[test]
fn recorded_pair_resolves_both_ways() {
    let mut cache = Cache::new(CacheMode::Full);
    cache.insert_uin_uid(5, "u5".into());
    assert_eq!(cache.resolve_uin2uid_within_cache(5, Some(9)).ok().unwrap(), "u5");
    assert_eq!(cache.resolve_uid2uin_within_cache("u5", None).ok().unwrap(), 5);
    let mut half = Cache::new(CacheMode::Half);
    half.insert_uin_uid(5, "u5".into());
    assert!(half.resolve_uin2uid_within_cache(5, None).is_err());
    assert!(half.resolve_uid2uin_within_cache("u5", None).is_err());
}

#[test]
fn lookup_refreshes_friends_once() {
    let cache = Cache::new(CacheMode::Full);
    assert!(matches!(cache.lookup_step(true, None, false), LookupStep::RefreshFriends));
    assert!(matches!(cache.lookup_step(true, None, true), LookupStep::Resolve));
}

fn keys(date: i64) -> KeyStore {
    KeyStore {
        uin: 1,
        uid: None,
        password_md5: vec![],
        session: SessionKeys { d2_key: vec![], d2: vec![1], tgt: vec![1], session_date: date, temp_password: None },
        info: AccountInfo { age: 0, gender: 0, name: String::new() },
    }
}

#[test]
fn expiry_only_comes_with_time() {
    let k = keys(0);
    let mut was_expired = false;
    for now in [0i64, 86400, 15 * 86400, 15 * 86400 + 1, 30 * 86400, i64::MAX] {
        let e = k.is_session_expired_at(now);
        assert!(!was_expired || e);
        was_expired = e;
    }
    assert!(was_expired);
}

#[test]
fn clock_reads() {
    assert!(!keys(i64::MAX).is_session_expired());
    assert!(keys(i64::MIN).is_session_expired());
    assert!(keys(i64::MIN).is_expired());
}
