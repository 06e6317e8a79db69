//! The concurrent maps of the cache (`dashmap::DashMap`), reached through the calls below.
//! Each map's contents are named; every call states what it does to them.

use vstd::prelude::*;
use dashmap::DashMap;
use crate::entity::{BotFriend, BotGroupMember};

verus! {

/// `dashmap::DashMap`, a map that can be shared between tasks; opaque to the proofs.
#[verifier::external_type_specification]
#[verifier::external_body]
#[verifier::reject_recursive_types(K)]
#[verifier::reject_recursive_types(V)]
#[verifier::reject_recursive_types(S)]
pub struct ExDashMap<K, V, S>(DashMap<K, V, S>);

/// What a uin-to-uid map holds: each account number with (the view of) its uid.
pub uninterp spec fn uin_uid_entries(m: DashMap<u32, String>) -> Map<u32, Seq<char>>;

/// What a uid-to-uin map holds: each uid (by its view) with its account number.
pub uninterp spec fn uid_uin_entries(m: DashMap<String, u32>) -> Map<Seq<char>, u32>;

/// What a friend map holds: each friend under their account number.
pub uninterp spec fn friend_entries(m: DashMap<u32, BotFriend>) -> Map<u32, BotFriend>;

/// What a member map holds: each group's member list under the group's number.
pub uninterp spec fn member_entries(m: DashMap<u32, Vec<BotGroupMember>>) -> Map<u32, Seq<BotGroupMember>>;

/// `DashMap::new` for a uin-to-uid map: no entries.
#[verifier::external_body]
pub(crate) fn new_uin_uid_map() -> (created: DashMap<u32, String>)
    ensures
        uin_uid_entries(created).dom().is_empty(),
{
    DashMap::new()
}

/// `DashMap::new` for a uid-to-uin map: no entries.
#[verifier::external_body]
pub(crate) fn new_uid_uin_map() -> (created: DashMap<String, u32>)
    ensures
        uid_uin_entries(created).dom().is_empty(),
{
    DashMap::new()
}

/// `DashMap::new` for a friend map: no entries.
#[verifier::external_body]
pub(crate) fn new_friend_map() -> (created: DashMap<u32, BotFriend>)
    ensures
        friend_entries(created).dom().is_empty(),
{
    DashMap::new()
}

/// `DashMap::new` for a member map: no entries.
#[verifier::external_body]
pub(crate) fn new_member_map() -> (created: DashMap<u32, Vec<BotGroupMember>>)
    ensures
        member_entries(created).dom().is_empty(),
{
    DashMap::new()
}

/// `DashMap::insert` on a uin-to-uid map: the account number now maps to the uid; other
/// entries stay.
#[verifier::external_body]
pub(crate) fn uin_uid_insert(m: &mut DashMap<u32, String>, uin: u32, uid: String)
    ensures
        uin_uid_entries(*final(m)) == uin_uid_entries(*old(m)).insert(uin, uid@),
{
    m.insert(uin, uid);
}

/// `DashMap::insert` on a uid-to-uin map: the uid now maps to the account number; other
/// entries stay.
#[verifier::external_body]
pub(crate) fn uid_uin_insert(m: &mut DashMap<String, u32>, uid: String, uin: u32)
    ensures
        uid_uin_entries(*final(m)) == uid_uin_entries(*old(m)).insert(uid@, uin),
{
    m.insert(uid, uin);
}

/// `DashMap::get` on a uin-to-uid map, the uid copied out.
#[verifier::external_body]
pub(crate) fn uin_uid_get(m: &DashMap<u32, String>, uin: u32) -> (r: Option<String>)
    ensures
        r is Some <==> uin_uid_entries(*m).contains_key(uin),
        r matches Some(uid) ==> uid@ == uin_uid_entries(*m)[uin],
{
    m.get(&uin).map(|e| e.value().clone())
}

/// `DashMap::get` on a uid-to-uin map, the account number copied out.
#[verifier::external_body]
pub(crate) fn uid_uin_get(m: &DashMap<String, u32>, uid: &str) -> (r: Option<u32>)
    ensures
        r is Some <==> uid_uin_entries(*m).contains_key(uid@),
        r matches Some(uin) ==> uin == uid_uin_entries(*m)[uid@],
{
    m.get(uid).map(|e| *e.value())
}

/// `DashMap::is_empty` on a uin-to-uid map.
#[verifier::external_body]
pub(crate) fn uin_uid_is_empty(m: &DashMap<u32, String>) -> (r: bool)
    ensures
        r == uin_uid_entries(*m).dom().is_empty(),
{
    m.is_empty()
}

/// `DashMap::is_empty` on a uid-to-uin map.
#[verifier::external_body]
pub(crate) fn uid_uin_is_empty(m: &DashMap<String, u32>) -> (r: bool)
    ensures
        r == uid_uin_entries(*m).dom().is_empty(),
{
    m.is_empty()
}

/// `DashMap::insert` on a friend map: the friend is now filed under the number; other
/// entries stay.
#[verifier::external_body]
pub(crate) fn friend_insert(m: &mut DashMap<u32, BotFriend>, uin: u32, friend: BotFriend)
    ensures
        friend_entries(*final(m)) == friend_entries(*old(m)).insert(uin, friend),
{
    m.insert(uin, friend);
}

/// `DashMap::clear` on a friend map: no entries remain.
#[verifier::external_body]
pub(crate) fn friend_clear(m: &mut DashMap<u32, BotFriend>)
    ensures
        friend_entries(*final(m)).dom().is_empty(),
{
    m.clear();
}

/// `DashMap::get` on a friend map, the friend's uid copied out.
#[verifier::external_body]
pub(crate) fn friend_uid_get(m: &DashMap<u32, BotFriend>, uin: u32) -> (r: Option<String>)
    ensures
        r is Some <==> friend_entries(*m).contains_key(uin),
        r matches Some(uid) ==> uid@ == friend_entries(*m)[uin].uid@,
{
    m.get(&uin).map(|e| e.value().uid.clone())
}

/// `DashMap::iter` on a friend map, each entry mapped to its number and (a copy of) its
/// friend's uid. Every entry comes out, in the order of the walk, which the contract leaves open.
#[verifier::external_body]
pub(crate) fn friend_ids(m: &DashMap<u32, BotFriend>) -> (r: Vec<(u32, String)>)
    ensures
        forall|i: int|
            0 <= i < r@.len() ==> friend_entries(*m).contains_key(#[trigger] r@[i].0)
                && friend_entries(*m)[r@[i].0].uid@ == r@[i].1@,
        forall|k: u32|
            #[trigger] friend_entries(*m).contains_key(k) ==> exists|i: int|
                0 <= i < r@.len() && r@[i].0 == k,
{
    m.iter().map(|e| (*e.key(), e.value().uid.clone())).collect()
}

/// `DashMap::insert` on a member map: the group's member list is now `members`; other
/// entries stay.
#[verifier::external_body]
pub(crate) fn members_insert(m: &mut DashMap<u32, Vec<BotGroupMember>>, group_uin: u32, members: Vec<BotGroupMember>)
    ensures
        member_entries(*final(m)) == member_entries(*old(m)).insert(group_uin, members@),
{
    m.insert(group_uin, members);
}

/// `DashMap::contains_key` on a member map.
#[verifier::external_body]
pub(crate) fn members_contains(m: &DashMap<u32, Vec<BotGroupMember>>, group_uin: u32) -> (r: bool)
    ensures
        r == member_entries(*m).contains_key(group_uin),
{
    m.contains_key(&group_uin)
}

/// `DashMap::get` on a member map, each member mapped to their number and (a copy of) their uid.
#[verifier::external_body]
pub(crate) fn member_ids_get(m: &DashMap<u32, Vec<BotGroupMember>>, group_uin: u32) -> (r: Option<Vec<(u32, String)>>)
    ensures
        r is Some <==> member_entries(*m).contains_key(group_uin),
        r matches Some(ids) ==> ids@.len() == member_entries(*m)[group_uin].len()
            && forall|i: int| 0 <= i < ids@.len() ==> (#[trigger] ids@[i]).0 == member_entries(*m)[group_uin][i].uin
                && ids@[i].1@ == member_entries(*m)[group_uin][i].uid@,
{
    m.get(&group_uin).map(|e| e.value().iter().map(|bgm| (bgm.uin, bgm.uid.clone())).collect())
}

} // verus!
