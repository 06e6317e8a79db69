//! The client's cache of account numbers (uin), account ids (uid), friends and group members.

use vstd::prelude::*;
use dashmap::DashMap;
use crate::entity::{BotFriend, BotFriendGroup, BotGroupMember};
use crate::event::system::{FetchFriendsEvent, FetchMembersEvent};
use crate::error::{ManiaError, generic_error};
use crate::store::{
    friend_clear, friend_entries, friend_insert, friend_uid_get, friend_ids, member_entries,
    member_ids_get, members_contains, members_insert, uid_uin_is_empty, uin_uid_is_empty,
    new_friend_map, new_member_map, new_uid_uin_map, new_uin_uid_map, uid_uin_entries,
    uid_uin_get, uid_uin_insert, uin_uid_entries, uin_uid_get, uin_uid_insert,
};
use crate::text::same_text;

verus! {

/// How much the client caches: `Full` keeps friends, group members and both uin/uid maps;
/// `Half` keeps friends and group members; `NoCache` keeps nothing.
#[derive(Clone, Copy, Debug, PartialEq, Eq, Structural)]
pub enum CacheMode {
    Full,
    Half,
    NoCache,
}

/// The cache.
pub struct Cache {
    cache_mode: CacheMode,
    uin2uid: Option<DashMap<u32, String>>,
    uid2uin: Option<DashMap<String, u32>>,
    cached_friends: Option<DashMap<u32, BotFriend>>,
    cached_group_members: Option<DashMap<u32, Vec<BotGroupMember>>>,
}

/// What the cache holds: for each map that the mode keeps, its entries.
pub ghost struct CacheView {
    pub mode: CacheMode,
    pub uin2uid: Option<Map<u32, Seq<char>>>,
    pub uid2uin: Option<Map<Seq<char>, u32>>,
    pub friends: Option<Map<u32, BotFriend>>,
    pub members: Option<Map<u32, Seq<BotGroupMember>>>,
}

impl View for Cache {
    type V = CacheView;

    closed spec fn view(&self) -> CacheView {
        CacheView {
            mode: self.cache_mode,
            uin2uid: match self.uin2uid {
                Some(m) => Some(uin_uid_entries(m)),
                None => None,
            },
            uid2uin: match self.uid2uin {
                Some(m) => Some(uid_uin_entries(m)),
                None => None,
            },
            friends: match self.cached_friends {
                Some(m) => Some(friend_entries(m)),
                None => None,
            },
            members: match self.cached_group_members {
                Some(m) => Some(member_entries(m)),
                None => None,
            },
        }
    }
}

impl Cache {
    /// The maps present are exactly those the mode keeps.
    pub closed spec fn wf(&self) -> bool {
        match self.cache_mode {
            CacheMode::Full => self.uin2uid is Some && self.uid2uin is Some
                && self.cached_friends is Some && self.cached_group_members is Some,
            CacheMode::Half => self.uin2uid is None && self.uid2uin is None
                && self.cached_friends is Some && self.cached_group_members is Some,
            CacheMode::NoCache => self.uin2uid is None && self.uid2uin is None
                && self.cached_friends is None && self.cached_group_members is None,
        }
    }

    /// Every map the cache keeps is empty.
    pub open spec fn is_empty_view(v: CacheView) -> bool {
        &&& v.uin2uid matches Some(m) ==> m.dom().is_empty()
        &&& v.uid2uin matches Some(m) ==> m.dom().is_empty()
        &&& v.friends matches Some(m) ==> m.dom().is_empty()
        &&& v.members matches Some(m) ==> m.dom().is_empty()
    }

    /// An empty cache in the given mode.
    pub fn new(cache_mode: CacheMode) -> (r: Self)
        ensures
            r.wf(),
            r@.mode == cache_mode,
            Self::is_empty_view(r@),
            r@.uin2uid is Some <==> cache_mode == CacheMode::Full,
            r@.uid2uin is Some <==> cache_mode == CacheMode::Full,
            r@.friends is Some <==> cache_mode != CacheMode::NoCache,
            r@.members is Some <==> cache_mode != CacheMode::NoCache,
    {
        match cache_mode {
            CacheMode::Full => Self::full(),
            CacheMode::Half => Self::half(),
            CacheMode::NoCache => Self::none(),
        }
    }

    fn full() -> (r: Self)
        ensures
            r.wf(),
            r@.mode == CacheMode::Full,
            Self::is_empty_view(r@),
    {
        Self {
            cache_mode: CacheMode::Full,
            uin2uid: Some(new_uin_uid_map()),
            uid2uin: Some(new_uid_uin_map()),
            cached_friends: Some(new_friend_map()),
            cached_group_members: Some(new_member_map()),
        }
    }

    fn half() -> (r: Self)
        ensures
            r.wf(),
            r@.mode == CacheMode::Half,
            Self::is_empty_view(r@),
    {
        Self {
            cache_mode: CacheMode::Half,
            uin2uid: None,
            uid2uin: None,
            cached_friends: Some(new_friend_map()),
            cached_group_members: Some(new_member_map()),
        }
    }

    fn none() -> (r: Self)
        ensures
            r.wf(),
            r@.mode == CacheMode::NoCache,
            Self::is_empty_view(r@),
    {
        Self {
            cache_mode: CacheMode::NoCache,
            uin2uid: None,
            uid2uin: None,
            cached_friends: None,
            cached_group_members: None,
        }
    }

    /// Records that `uin` and `uid` name the same account, in each uin/uid map the cache keeps;
    /// nothing else changes.
    pub fn insert_uin_uid(&mut self, uin: u32, uid: String)
        ensures
            final(self)@ == view_with_pair(old(self)@, uin, uid@),
            final(self).wf() == old(self).wf(),
    {
        match &mut self.uin2uid {
            Some(m) => uin_uid_insert(m, uin, uid.clone()),
            None => {},
        }
        match &mut self.uid2uin {
            Some(m) => uid_uin_insert(m, uid, uin),
            None => {},
        }
    }
}

/// The uid of the first member with account number `uin`, if any.
pub open spec fn member_uid_by_uin(ms: Seq<BotGroupMember>, uin: u32) -> Option<Seq<char>>
    decreases ms.len(),
{
    if ms.len() == 0 {
        None
    } else if ms[0].uin == uin {
        Some(ms[0].uid@)
    } else {
        member_uid_by_uin(ms.drop_first(), uin)
    }
}

/// The account number of the first member with uid `uid`, if any.
pub open spec fn member_uin_by_uid(ms: Seq<BotGroupMember>, uid: Seq<char>) -> Option<u32>
    decreases ms.len(),
{
    if ms.len() == 0 {
        None
    } else if ms[0].uid@ == uid {
        Some(ms[0].uin)
    } else {
        member_uin_by_uid(ms.drop_first(), uid)
    }
}

/// Where the cache finds the uid of `uin`: the uin-to-uid map first; then the members of
/// `group_uin` when a group is given, else the friends.
pub open spec fn spec_uin2uid_within(v: CacheView, uin: u32, group_uin: Option<u32>) -> Result<Seq<char>, Seq<char>> {
    let in_map = match v.uin2uid {
        Some(m) => m.contains_key(uin),
        None => false,
    };
    if in_map {
        Ok(v.uin2uid.unwrap()[uin])
    } else {
        match group_uin {
            Some(g) => if !v.members.unwrap().contains_key(g) {
                Err("Group not found"@)
            } else {
                match member_uid_by_uin(v.members.unwrap()[g], uin) {
                    Some(u) => Ok(u),
                    None => Err("Member not found"@),
                }
            },
            None => if v.friends.unwrap().contains_key(uin) {
                Ok(v.friends.unwrap()[uin].uid@)
            } else {
                Err("Friend not found"@)
            },
        }
    }
}

/// Where the cache finds the account number of `uid`, when the answer does not rest on the order
/// of the friend map: the uid-to-uin map first; then the members of `group_uin` when a group is
/// given. `None` when the friends must be searched.
pub open spec fn spec_uid2uin_within(v: CacheView, uid: Seq<char>, group_uin: Option<u32>) -> Option<Result<u32, Seq<char>>> {
    let in_map = match v.uid2uin {
        Some(m) => m.contains_key(uid),
        None => false,
    };
    if in_map {
        Some(Ok(v.uid2uin.unwrap()[uid]))
    } else {
        match group_uin {
            Some(g) => if !v.members.unwrap().contains_key(g) {
                Some(Err("Group not found"@))
            } else {
                match member_uin_by_uid(v.members.unwrap()[g], uid) {
                    Some(u) => Some(Ok(u)),
                    None => Some(Err("Member not found"@)),
                }
            },
            None => None,
        }
    }
}

/// The outcome as a view.
pub open spec fn text_outcome(r: Result<String, ManiaError>) -> Result<Seq<char>, Seq<char>> {
    match r {
        Ok(s) => Ok(s@),
        Err(ManiaError::GenericError(m)) => Err(m@),
        Err(_) => Err(Seq::empty()),
    }
}

/// The outcome as a view.
pub open spec fn number_outcome(r: Result<u32, ManiaError>) -> Result<u32, Seq<char>> {
    match r {
        Ok(n) => Ok(n),
        Err(ManiaError::GenericError(m)) => Err(m@),
        Err(_) => Err(Seq::empty()),
    }
}

fn find_member_uid(ids: &Vec<(u32, String)>, uin: u32, ghost_ms: Ghost<Seq<BotGroupMember>>) -> (r: Option<String>)
    requires
        ids@.len() == ghost_ms@.len(),
        forall|i: int| 0 <= i < ids@.len() ==> (#[trigger] ids@[i]).0 == ghost_ms@[i].uin
            && ids@[i].1@ == ghost_ms@[i].uid@,
    ensures
        match r {
            Some(u) => member_uid_by_uin(ghost_ms@, uin) == Some(u@),
            None => member_uid_by_uin(ghost_ms@, uin) is None,
        },
{
    let ghost ms = ghost_ms@;
    let mut i: usize = 0;
    assert(ms.subrange(0, ms.len() as int) =~= ms);
    while i < ids.len()
        invariant
            ms == ghost_ms@,
            ids@.len() == ms.len(),
            i <= ids@.len(),
            forall|k: int| 0 <= k < ids@.len() ==> (#[trigger] ids@[k]).0 == ms[k].uin
                && ids@[k].1@ == ms[k].uid@,
            member_uid_by_uin(ms, uin) == member_uid_by_uin(ms.subrange(i as int, ms.len() as int), uin),
        decreases ids.len() - i,
    {
        let ghost rest = ms.subrange(i as int, ms.len() as int);
        assert(rest.drop_first() =~= ms.subrange(i + 1, ms.len() as int));
        assert(rest[0] == ms[i as int]);
        assert(rest.len() > 0);
        assert(ids@[i as int].0 == ms[i as int].uin && ids@[i as int].1@ == ms[i as int].uid@);
        if ids[i].0 == uin {
            assert(member_uid_by_uin(rest, uin) == Some(rest[0].uid@));
            return Some(ids[i].1.clone());
        }
        i = i + 1;
    }
    assert(ms.subrange(i as int, ms.len() as int).len() == 0);
    None
}

fn find_member_uin(ids: &Vec<(u32, String)>, uid: &str, ghost_ms: Ghost<Seq<BotGroupMember>>) -> (r: Option<u32>)
    requires
        ids@.len() == ghost_ms@.len(),
        forall|i: int| 0 <= i < ids@.len() ==> (#[trigger] ids@[i]).0 == ghost_ms@[i].uin
            && ids@[i].1@ == ghost_ms@[i].uid@,
    ensures
        r == member_uin_by_uid(ghost_ms@, uid@),
{
    let ghost ms = ghost_ms@;
    let mut i: usize = 0;
    assert(ms.subrange(0, ms.len() as int) =~= ms);
    while i < ids.len()
        invariant
            ms == ghost_ms@,
            ids@.len() == ms.len(),
            i <= ids@.len(),
            forall|k: int| 0 <= k < ids@.len() ==> (#[trigger] ids@[k]).0 == ms[k].uin
                && ids@[k].1@ == ms[k].uid@,
            member_uin_by_uid(ms, uid@) == member_uin_by_uid(ms.subrange(i as int, ms.len() as int), uid@),
        decreases ids.len() - i,
    {
        let ghost rest = ms.subrange(i as int, ms.len() as int);
        assert(rest.drop_first() =~= ms.subrange(i + 1, ms.len() as int));
        assert(rest[0] == ms[i as int]);
        assert(rest.len() > 0);
        assert(ids@[i as int].0 == ms[i as int].uin && ids@[i as int].1@ == ms[i as int].uid@);
        if same_text(ids[i].1.as_str(), uid) {
            assert(member_uin_by_uid(rest, uid@) == Some(rest[0].uin));
            return Some(ids[i].0);
        }
        i = i + 1;
    }
    assert(ms.subrange(i as int, ms.len() as int).len() == 0);
    None
}

/// The number of the first pair in `ids` with uid `uid`, if any.
fn find_friend_uin(ids: &Vec<(u32, String)>, uid: &str) -> (r: Option<u32>)
    ensures
        match r {
            Some(k) => exists|i: int| 0 <= i < ids@.len() && ids@[i].0 == k && ids@[i].1@ == uid@,
            None => forall|i: int| 0 <= i < ids@.len() ==> (#[trigger] ids@[i]).1@ != uid@,
        },
{
    let mut i: usize = 0;
    while i < ids.len()
        invariant
            i <= ids@.len(),
            forall|j: int| 0 <= j < i ==> (#[trigger] ids@[j]).1@ != uid@,
        decreases ids.len() - i,
    {
        if same_text(ids[i].1.as_str(), uid) {
            return Some(ids[i].0);
        }
        i = i + 1;
    }
    None
}

impl Cache {
    /// The uid of `uin` as the cache knows it (see `spec_uin2uid_within`); a cache that keeps
    /// nothing cannot answer.
    pub fn resolve_uin2uid_within_cache(&self, uin: u32, group_uin: Option<u32>) -> (r: Result<String, ManiaError>)
        requires
            self.wf(),
            self@.mode != CacheMode::NoCache,
        ensures
            text_outcome(r) == spec_uin2uid_within(self@, uin, group_uin),
            r matches Err(e) ==> e is GenericError,
    {
        match &self.uin2uid {
            Some(m) => match uin_uid_get(m, uin) {
                Some(uid) => return Ok(uid),
                None => {},
            },
            None => {},
        }
        match group_uin {
            Some(g) => {
                let members = self.cached_group_members.as_ref().unwrap();
                match member_ids_get(members, g) {
                    None => Err(ManiaError::GenericError("Group not found".to_string())),
                    Some(ids) => match find_member_uid(&ids, uin, Ghost(member_entries(*members)[g])) {
                        Some(u) => Ok(u),
                        None => Err(ManiaError::GenericError("Member not found".to_string())),
                    },
                }
            },
            None => {
                let friends = self.cached_friends.as_ref().unwrap();
                match friend_uid_get(friends, uin) {
                    Some(u) => Ok(u),
                    None => Err(ManiaError::GenericError("Friend not found".to_string())),
                }
            },
        }
    }

    /// The account number of `uid` as the cache knows it (see `spec_uid2uin_within`); when the
    /// friends are searched, some friend with that uid, or `Friend not found` when there is none.
    pub fn resolve_uid2uin_within_cache(&self, uid: &str, group_uin: Option<u32>) -> (r: Result<u32, ManiaError>)
        requires
            self.wf(),
            self@.mode != CacheMode::NoCache,
        ensures
            r matches Err(e) ==> e is GenericError,
            match spec_uid2uin_within(self@, uid@, group_uin) {
                Some(expected) => number_outcome(r) == expected,
                None => match r {
                    Ok(k) => self@.friends.unwrap().contains_key(k)
                        && self@.friends.unwrap()[k].uid@ == uid@,
                    Err(e) => generic_error(e, "Friend not found"@)
                        && forall|k: u32| self@.friends.unwrap().contains_key(k)
                            ==> #[trigger] self@.friends.unwrap()[k].uid@ != uid@,
                },
            },
    {
        match &self.uid2uin {
            Some(m) => match uid_uin_get(m, uid) {
                Some(uin) => return Ok(uin),
                None => {},
            },
            None => {},
        }
        match group_uin {
            Some(g) => {
                let members = self.cached_group_members.as_ref().unwrap();
                match member_ids_get(members, g) {
                    None => Err(ManiaError::GenericError("Group not found".to_string())),
                    Some(ids) => match find_member_uin(&ids, uid, Ghost(member_entries(*members)[g])) {
                        Some(u) => Ok(u),
                        None => Err(ManiaError::GenericError("Member not found".to_string())),
                    },
                }
            },
            None => {
                let friends = self.cached_friends.as_ref().unwrap();
                let ids = friend_ids(friends);
                match find_friend_uin(&ids, uid) {
                    Some(k) => {
                        assert(friend_entries(*friends).contains_key(k)
                            && friend_entries(*friends)[k].uid@ == uid@);
                        Ok(k)
                    },
                    None => {
                        assert forall|k: u32| friend_entries(*friends).contains_key(k) implies
                            #[trigger] friend_entries(*friends)[k].uid@ != uid@ by {
                            let i = choose|i: int| 0 <= i < ids@.len() && ids@[i].0 == k;
                            assert(ids@[i].1@ != uid@);
                        }
                        Err(ManiaError::GenericError("Friend not found".to_string()))
                    },
                }
            },
        }
    }
}

/// The cache once `uin` and `uid` are recorded as one account in each uin/uid map it keeps.
pub open spec fn view_with_pair(v: CacheView, uin: u32, uid: Seq<char>) -> CacheView {
    CacheView {
        uin2uid: match v.uin2uid {
            Some(m) => Some(m.insert(uin, uid)),
            None => None,
        },
        uid2uin: match v.uid2uin {
            Some(m) => Some(m.insert(uid, uin)),
            None => None,
        },
        ..v
    }
}

/// The cache once each friend's number and uid are recorded, in order.
pub open spec fn view_with_friend_ids(v: CacheView, fs: Seq<BotFriend>) -> CacheView
    decreases fs.len(),
{
    if fs.len() == 0 {
        v
    } else {
        view_with_pair(view_with_friend_ids(v, fs.drop_last()), fs.last().uin, fs.last().uid@)
    }
}

/// The cache once each member's number and uid are recorded, in order.
pub open spec fn view_with_member_ids(v: CacheView, ms: Seq<BotGroupMember>) -> CacheView
    decreases ms.len(),
{
    if ms.len() == 0 {
        v
    } else {
        view_with_pair(view_with_member_ids(v, ms.drop_last()), ms.last().uin, ms.last().uid@)
    }
}

proof fn lemma_member_ids_keep(v: CacheView, ms: Seq<BotGroupMember>)
    ensures
        view_with_member_ids(v, ms).mode == v.mode,
        view_with_member_ids(v, ms).friends == v.friends,
        view_with_member_ids(v, ms).members == v.members,
    decreases ms.len(),
{
    if ms.len() > 0 {
        lemma_member_ids_keep(v, ms.drop_last());
    }
}

/// The name of friend list group `id`: the last pair naming it.
pub open spec fn group_name_lookup(gs: Seq<(u32, String)>, id: u32) -> Option<Seq<char>>
    decreases gs.len(),
{
    if gs.len() == 0 {
        None
    } else if gs.last().0 == id {
        Some(gs.last().1@)
    } else {
        group_name_lookup(gs.drop_last(), id)
    }
}

/// The friends filed by number: a later friend with the same number replaces an earlier one.
pub open spec fn friends_map(fs: Seq<BotFriend>) -> Map<u32, BotFriend>
    decreases fs.len(),
{
    if fs.len() == 0 {
        Map::empty()
    } else {
        friends_map(fs.drop_last()).insert(fs.last().uin, fs.last())
    }
}

/// `after` is `before` with its friend list group named from `gs` when `gs` names it.
pub open spec fn named_friend(before: BotFriend, after: BotFriend, gs: Seq<(u32, String)>) -> bool {
    &&& after.uin == before.uin
    &&& after.uid == before.uid
    &&& after.nickname == before.nickname
    &&& after.remarks == before.remarks
    &&& after.personal_sign == before.personal_sign
    &&& after.qid == before.qid
    &&& match before.group {
        Some(g) => match group_name_lookup(gs, g.group_id) {
            Some(name) => after.group matches Some(ag) && ag.group_id == g.group_id && ag.group_name@ == name,
            None => after.group == before.group,
        },
        None => after.group == before.group,
    }
}

/// The number of friends before the first one filed under no friend list group.
pub open spec fn grouped_prefix(fs: Seq<BotFriend>) -> int
    decreases fs.len(),
{
    if fs.len() == 0 {
        0
    } else if fs[0].group is None {
        0
    } else {
        1 + grouped_prefix(fs.drop_first())
    }
}

/// The friends gathered so far while the friend list is refreshed, and the friend list groups
/// seen so far.
pub struct FriendsRefresh {
    pub friends: Vec<BotFriend>,
    pub friend_groups: Vec<(u32, String)>,
}

impl FriendsRefresh {
    /// Nothing gathered yet.
    pub fn new() -> (r: Self)
        ensures
            r.friends@.len() == 0,
            r.friend_groups@.len() == 0,
    {
        FriendsRefresh { friends: Vec::new(), friend_groups: Vec::new() }
    }
}

proof fn lemma_grouped_prefix_bounds(fs: Seq<BotFriend>)
    ensures
        0 <= grouped_prefix(fs) <= fs.len(),
        grouped_prefix(fs) < fs.len() ==> fs[grouped_prefix(fs)].group is None,
        forall|i: int| 0 <= i < grouped_prefix(fs) ==> (#[trigger] fs[i]).group is Some,
    decreases fs.len(),
{
    if fs.len() > 0 && fs[0].group is Some {
        lemma_grouped_prefix_bounds(fs.drop_first());
        assert forall|i: int| 0 <= i < grouped_prefix(fs) implies (#[trigger] fs[i]).group is Some by {
            if i > 0 {
                assert(fs[i] == fs.drop_first()[i - 1]);
            }
        }
    }
}

fn find_group_name(gs: &Vec<(u32, String)>, id: u32) -> (r: Option<String>)
    ensures
        match r {
            Some(n) => group_name_lookup(gs@, id) == Some(n@),
            None => group_name_lookup(gs@, id) is None,
        },
{
    let mut i: usize = gs.len();
    assert(gs@.take(i as int) =~= gs@);
    while i > 0
        invariant
            i <= gs.len(),
            group_name_lookup(gs@, id) == group_name_lookup(gs@.take(i as int), id),
        decreases i,
    {
        let ghost before = gs@.take(i as int);
        assert(before.drop_last() =~= gs@.take(i - 1));
        assert(before.last() == gs@[i - 1]);
        if gs[i - 1].0 == id {
            return Some(gs[i - 1].1.clone());
        }
        i = i - 1;
    }
    None
}

impl Cache {
    /// Takes in one page of the friend list while the friend list is refreshed: its friend list
    /// groups join those seen so far; then, in order, each friend is filed under the name of its
    /// friend list group (when known) and gathered, and in `Full` mode its number and uid are
    /// recorded. A friend under no friend list group stops the refresh with `Missing group id`,
    /// after the friends before it were taken in. Gives back the number that the next page
    /// starts from, if any.
    pub fn absorb_friends_page(&mut self, acc: &mut FriendsRefresh, page: FetchFriendsEvent) -> (r: Result<Option<u32>, ManiaError>)
        requires
            old(self).wf(),
            old(self)@.mode != CacheMode::NoCache,
        ensures
            final(self).wf(),
            final(acc).friend_groups@ == old(acc).friend_groups@ + page.friend_groups@,
            ({
                let k = grouped_prefix(page.friends@);
                let taken = page.friends@.take(k);
                &&& final(acc).friends@.len() == old(acc).friends@.len() + k
                &&& final(acc).friends@.take(old(acc).friends@.len() as int) == old(acc).friends@
                &&& forall|i: int| 0 <= i < k ==> named_friend(
                    page.friends@[i],
                    #[trigger] final(acc).friends@[old(acc).friends@.len() + i],
                    final(acc).friend_groups@,
                )
                &&& final(self)@ == if old(self)@.mode == CacheMode::Full {
                    view_with_friend_ids(old(self)@, taken)
                } else {
                    old(self)@
                }
                &&& if k < page.friends@.len() {
                    r matches Err(e) && generic_error(e, "Missing group id"@)
                } else {
                    r == Ok::<Option<u32>, ManiaError>(page.next_uin)
                }
            }),
    {
        let FetchFriendsEvent { friends, friend_groups, next_uin } = page;
        let ghost page_friends = friends@;
        let mut groups = friend_groups;
        acc.friend_groups.append(&mut groups);
        let ghost start = acc.friends@.len();
        let ghost acc0 = acc.friends@;
        let ghost view0 = self@;
        proof { lemma_grouped_prefix_bounds(page_friends); }
        let mut i: usize = 0;
        let n = friends.len();
        let mut rest = friends;
        while i < n
            invariant
                n == page_friends.len(),
                page_friends == page.friends@,
                self.wf(),
                self.cache_mode == old(self)@.mode,
                self.cache_mode != CacheMode::NoCache,
                view0 == old(self)@,
                i <= grouped_prefix(page_friends),
                0 <= grouped_prefix(page_friends) <= page_friends.len(),
                grouped_prefix(page_friends) < page_friends.len() ==> page_friends[grouped_prefix(page_friends)].group is None,
                forall|j: int| 0 <= j < grouped_prefix(page_friends) ==> (#[trigger] page_friends[j]).group is Some,
                rest@ == page_friends.subrange(i as int, page_friends.len() as int),
                acc.friends@.len() == start + i,
                acc.friends@.take(start as int) == acc0,
                start == acc0.len(),
                acc0 == old(acc).friends@,
                acc.friend_groups@ == old(acc).friend_groups@ + page.friend_groups@,
                forall|j: int| 0 <= j < i ==> named_friend(
                    page_friends[j],
                    #[trigger] acc.friends@[start + j],
                    acc.friend_groups@,
                ),
                self@ == if self.cache_mode == CacheMode::Full {
                    view_with_friend_ids(view0, page_friends.take(i as int))
                } else {
                    view0
                },
            decreases page_friends.len() - i,
        {
            let mut friend = rest.remove(0);
            assert(friend == page_friends[i as int]);
            assert(rest@ =~= page_friends.subrange(i + 1, page_friends.len() as int));
            let group_id = match &friend.group {
                Some(g) => g.group_id,
                None => {
                    assert(i == grouped_prefix(page_friends));
                    assert(page_friends.take(i as int) =~= page.friends@.take(grouped_prefix(page.friends@)));
                    return Err(ManiaError::GenericError("Missing group id".to_string()));
                },
            };
            match find_group_name(&acc.friend_groups, group_id) {
                Some(name) => {
                    friend.group = Some(BotFriendGroup { group_id, group_name: name });
                },
                None => {},
            }
            if self.cache_mode == CacheMode::Full {
                self.insert_uin_uid(friend.uin, friend.uid.clone());
            }
            let ghost before_push = acc.friends@;
            acc.friends.push(friend);
            proof {
                assert(page_friends.take(i + 1).drop_last() =~= page_friends.take(i as int));
                assert(acc.friends@.take(start as int) =~= before_push.take(start as int));
            }
            i = i + 1;
        }
        proof {
            assert(page_friends.take(i as int) =~= page_friends.take(grouped_prefix(page_friends)));
        }
        Ok(next_uin)
    }
}

/// What a lookup of an account asks for next.
#[derive(Clone, Copy, Debug, PartialEq, Eq, Structural)]
pub enum LookupStep {
    /// Refresh the cached friend list (see `absorb_friends_page` and `store_friends`).
    RefreshFriends,
    /// Refresh the cached members of this group (see `store_group_members`).
    RefreshGroup(u32),
    /// Answer from the cache (`resolve_uin2uid_within_cache` or `resolve_uid2uin_within_cache`).
    Resolve,
    /// Search the members of this group page by page, without the cache.
    FetchGroup(u32),
    /// Search the friend list page by page, without the cache.
    FetchFriends,
}

/// The first member with account number `uin` in one page, as its uid.
pub fn page_member_uid(ms: &Vec<BotGroupMember>, uin: u32) -> (r: Option<String>)
    ensures
        match r {
            Some(u) => member_uid_by_uin(ms@, uin) == Some(u@),
            None => member_uid_by_uin(ms@, uin) is None,
        },
{
    let mut i: usize = 0;
    assert(ms@.subrange(0, ms@.len() as int) =~= ms@);
    while i < ms.len()
        invariant
            i <= ms@.len(),
            member_uid_by_uin(ms@, uin) == member_uid_by_uin(ms@.subrange(i as int, ms@.len() as int), uin),
        decreases ms.len() - i,
    {
        let ghost rest = ms@.subrange(i as int, ms@.len() as int);
        assert(rest.drop_first() =~= ms@.subrange(i + 1, ms@.len() as int));
        assert(rest[0] == ms@[i as int]);
        if ms[i].uin == uin {
            return Some(ms[i].uid.clone());
        }
        i = i + 1;
    }
    None
}

/// The first member with uid `uid` in one page, as their account number.
pub fn page_member_uin(ms: &Vec<BotGroupMember>, uid: &str) -> (r: Option<u32>)
    ensures
        r == member_uin_by_uid(ms@, uid@),
{
    let mut i: usize = 0;
    assert(ms@.subrange(0, ms@.len() as int) =~= ms@);
    while i < ms.len()
        invariant
            i <= ms@.len(),
            member_uin_by_uid(ms@, uid@) == member_uin_by_uid(ms@.subrange(i as int, ms@.len() as int), uid@),
        decreases ms.len() - i,
    {
        let ghost rest = ms@.subrange(i as int, ms@.len() as int);
        assert(rest.drop_first() =~= ms@.subrange(i + 1, ms@.len() as int));
        assert(rest[0] == ms@[i as int]);
        if same_text(ms[i].uid.as_str(), uid) {
            return Some(ms[i].uin);
        }
        i = i + 1;
    }
    None
}

/// The uid of the first friend with account number `uin`, if any.
pub open spec fn friend_uid_by_uin(fs: Seq<BotFriend>, uin: u32) -> Option<Seq<char>>
    decreases fs.len(),
{
    if fs.len() == 0 {
        None
    } else if fs[0].uin == uin {
        Some(fs[0].uid@)
    } else {
        friend_uid_by_uin(fs.drop_first(), uin)
    }
}

/// The account number of the first friend with uid `uid`, if any.
pub open spec fn friend_uin_by_uid(fs: Seq<BotFriend>, uid: Seq<char>) -> Option<u32>
    decreases fs.len(),
{
    if fs.len() == 0 {
        None
    } else if fs[0].uid@ == uid {
        Some(fs[0].uin)
    } else {
        friend_uin_by_uid(fs.drop_first(), uid)
    }
}

/// The first friend with account number `uin` in one page, as their uid.
pub fn page_friend_uid(fs: &Vec<BotFriend>, uin: u32) -> (r: Option<String>)
    ensures
        match r {
            Some(u) => friend_uid_by_uin(fs@, uin) == Some(u@),
            None => friend_uid_by_uin(fs@, uin) is None,
        },
{
    let mut i: usize = 0;
    assert(fs@.subrange(0, fs@.len() as int) =~= fs@);
    while i < fs.len()
        invariant
            i <= fs@.len(),
            friend_uid_by_uin(fs@, uin) == friend_uid_by_uin(fs@.subrange(i as int, fs@.len() as int), uin),
        decreases fs.len() - i,
    {
        let ghost rest = fs@.subrange(i as int, fs@.len() as int);
        assert(rest.drop_first() =~= fs@.subrange(i + 1, fs@.len() as int));
        assert(rest[0] == fs@[i as int]);
        if fs[i].uin == uin {
            return Some(fs[i].uid.clone());
        }
        i = i + 1;
    }
    None
}

/// The first friend with uid `uid` in one page, as their account number.
pub fn page_friend_uin(fs: &Vec<BotFriend>, uid: &str) -> (r: Option<u32>)
    ensures
        r == friend_uin_by_uid(fs@, uid@),
{
    let mut i: usize = 0;
    assert(fs@.subrange(0, fs@.len() as int) =~= fs@);
    while i < fs.len()
        invariant
            i <= fs@.len(),
            friend_uin_by_uid(fs@, uid@) == friend_uin_by_uid(fs@.subrange(i as int, fs@.len() as int), uid@),
        decreases fs.len() - i,
    {
        let ghost rest = fs@.subrange(i as int, fs@.len() as int);
        assert(rest.drop_first() =~= fs@.subrange(i + 1, fs@.len() as int));
        assert(rest[0] == fs@[i as int]);
        if same_text(fs[i].uid.as_str(), uid) {
            return Some(fs[i].uin);
        }
        i = i + 1;
    }
    None
}

/// Takes in one page of a group's member list: its members join those gathered so far.
/// Gives back the token of the next page, if any.
pub fn absorb_members_page(acc: &mut Vec<BotGroupMember>, page: FetchMembersEvent) -> (r: Option<String>)
    ensures
        final(acc)@ == old(acc)@ + page.group_members@,
        r == page.token,
{
    let FetchMembersEvent { group_uin: _, group_members, token } = page;
    let mut members = group_members;
    acc.append(&mut members);
    token
}

/// What one page of a search through the server's list, without the cache, settles.
pub enum PageOutcome<V, N> {
    /// The account is on this page.
    Found(V),
    /// It is not on this page; the next page is asked for with this.
    Next(N),
    /// It is not on this page and no page follows: the search fails with this error.
    NotFound(ManiaError),
}

/// One page of the friend list searched for the friend with account number `uin`: their uid,
/// else the next page, else the error "Friend not found".
pub fn search_friends_page_uid(page: &FetchFriendsEvent, uin: u32) -> (r: PageOutcome<String, u32>)
    ensures
        match friend_uid_by_uin(page.friends@, uin) {
            Some(u) => r matches PageOutcome::Found(v) && v@ == u,
            None => match page.next_uin {
                Some(n) => r == PageOutcome::<String, u32>::Next(n),
                None => r matches PageOutcome::NotFound(e) && generic_error(e, "Friend not found"@),
            },
        },
{
    match page_friend_uid(&page.friends, uin) {
        Some(uid) => PageOutcome::Found(uid),
        None => match page.next_uin {
            Some(n) => PageOutcome::Next(n),
            None => PageOutcome::NotFound(ManiaError::GenericError("Friend not found".to_string())),
        },
    }
}

/// One page of the friend list searched for the friend with uid `uid`: their account number,
/// else the next page, else the error "Friend not found".
pub fn search_friends_page_uin(page: &FetchFriendsEvent, uid: &str) -> (r: PageOutcome<u32, u32>)
    ensures
        match friend_uin_by_uid(page.friends@, uid@) {
            Some(u) => r == PageOutcome::<u32, u32>::Found(u),
            None => match page.next_uin {
                Some(n) => r == PageOutcome::<u32, u32>::Next(n),
                None => r matches PageOutcome::NotFound(e) && generic_error(e, "Friend not found"@),
            },
        },
{
    match page_friend_uin(&page.friends, uid) {
        Some(uin) => PageOutcome::Found(uin),
        None => match page.next_uin {
            Some(n) => PageOutcome::Next(n),
            None => PageOutcome::NotFound(ManiaError::GenericError("Friend not found".to_string())),
        },
    }
}

/// One page of a group's member list searched for the member with account number `uin`: their
/// uid, else the token of the next page, else the error "Member not found".
pub fn search_members_page_uid(page: &FetchMembersEvent, uin: u32) -> (r: PageOutcome<String, String>)
    ensures
        match member_uid_by_uin(page.group_members@, uin) {
            Some(u) => r matches PageOutcome::Found(v) && v@ == u,
            None => match page.token {
                Some(t) => r matches PageOutcome::Next(n) && n@ == t@,
                None => r matches PageOutcome::NotFound(e) && generic_error(e, "Member not found"@),
            },
        },
{
    match page_member_uid(&page.group_members, uin) {
        Some(uid) => PageOutcome::Found(uid),
        None => match &page.token {
            Some(t) => PageOutcome::Next(t.clone()),
            None => PageOutcome::NotFound(ManiaError::GenericError("Member not found".to_string())),
        },
    }
}

/// One page of a group's member list searched for the member with uid `uid`: their account
/// number, else the token of the next page, else the error "Member not found".
pub fn search_members_page_uin(page: &FetchMembersEvent, uid: &str) -> (r: PageOutcome<u32, String>)
    ensures
        match member_uin_by_uid(page.group_members@, uid@) {
            Some(u) => r matches PageOutcome::Found(v) && v == u,
            None => match page.token {
                Some(t) => r matches PageOutcome::Next(n) && n@ == t@,
                None => r matches PageOutcome::NotFound(e) && generic_error(e, "Member not found"@),
            },
        },
{
    match page_member_uin(&page.group_members, uid) {
        Some(uin) => PageOutcome::Found(uin),
        None => match &page.token {
            Some(t) => PageOutcome::Next(t.clone()),
            None => PageOutcome::NotFound(ManiaError::GenericError("Member not found".to_string())),
        },
    }
}

impl Cache {
    /// Whether refreshing the friend list or a member list has any effect: not when the cache
    /// keeps nothing.
    pub fn refresh_applies(&self) -> (r: bool)
        ensures
            r == (self@.mode != CacheMode::NoCache),
    {
        self.cache_mode != CacheMode::NoCache
    }

    /// Ends a refresh of the friend list: the cached friends become exactly the friends
    /// gathered, filed by number (a later friend with the same number replacing an earlier one).
    pub fn store_friends(&mut self, acc: FriendsRefresh)
        requires
            old(self).wf(),
            old(self)@.mode != CacheMode::NoCache,
        ensures
            final(self).wf(),
            final(self)@ == (CacheView { friends: Some(friends_map(acc.friends@)), ..old(self)@ }),
    {
        let FriendsRefresh { friends, friend_groups: _ } = acc;
        let ghost all = friends@;
        let mut map = self.cached_friends.take().unwrap();
        friend_clear(&mut map);
        let n = friends.len();
        let mut rest = friends;
        let mut i: usize = 0;
        assert(all.take(0) =~= Seq::<BotFriend>::empty());
        while i < n
            invariant
                n == all.len(),
                i <= n,
                rest@ == all.subrange(i as int, n as int),
                friend_entries(map) == friends_map(all.take(i as int)),
            decreases n - i,
        {
            let friend = rest.remove(0);
            assert(friend == all[i as int]);
            assert(rest@ =~= all.subrange(i + 1, n as int));
            assert(all.take(i + 1).drop_last() =~= all.take(i as int));
            friend_insert(&mut map, friend.uin, friend);
            i = i + 1;
        }
        assert(all.take(n as int) =~= all);
        self.cached_friends = Some(map);
    }

    /// Ends a refresh of a group's member list: in `Full` mode each member's number and uid are
    /// recorded, in order; the group's cached members become exactly the members gathered.
    pub fn store_group_members(&mut self, group_uin: u32, members: Vec<BotGroupMember>)
        requires
            old(self).wf(),
            old(self)@.mode != CacheMode::NoCache,
        ensures
            final(self).wf(),
            ({
                let ids = if old(self)@.mode == CacheMode::Full {
                    view_with_member_ids(old(self)@, members@)
                } else {
                    old(self)@
                };
                final(self)@ == (CacheView {
                    members: Some(old(self)@.members.unwrap().insert(group_uin, members@)),
                    ..ids
                })
            }),
    {
        let ghost all = members@;
        let ghost view0 = self@;
        if self.cache_mode == CacheMode::Full {
            let mut i: usize = 0;
            assert(all.take(0) =~= Seq::<BotGroupMember>::empty());
            while i < members.len()
                invariant
                    members@ == all,
                    self.wf(),
                    self.cache_mode == CacheMode::Full,
                    i <= all.len(),
                    self@ == view_with_member_ids(view0, all.take(i as int)),
                decreases members.len() - i,
            {
                assert(all.take(i + 1).drop_last() =~= all.take(i as int));
                self.insert_uin_uid(members[i].uin, members[i].uid.clone());
                i = i + 1;
            }
            assert(all.take(all.len() as int) =~= all);
        }
        proof { lemma_member_ids_keep(view0, all); }
        let mut map = self.cached_group_members.take().unwrap();
        members_insert(&mut map, group_uin, members);
        self.cached_group_members = Some(map);
    }

    /// What a lookup of an account in group `group_uin` (or among the friends) asks for next.
    /// A cache that keeps nothing searches page by page. Otherwise, a `Full` cache whose
    /// uin/uid map (`uin2uid` when `by_uin`, else `uid2uin`) is empty first refreshes the friend
    /// list (`friends_refreshed` says that this was done); a group whose members are not cached
    /// is refreshed next; then the cache answers.
    pub fn lookup_step(&self, by_uin: bool, group_uin: Option<u32>, friends_refreshed: bool) -> (r: LookupStep)
        requires
            self.wf(),
        ensures
            r == spec_lookup_step(self@, by_uin, group_uin, friends_refreshed),
    {
        if self.cache_mode == CacheMode::NoCache {
            return match group_uin {
                Some(g) => LookupStep::FetchGroup(g),
                None => LookupStep::FetchFriends,
            };
        }
        if self.cache_mode == CacheMode::Full && !friends_refreshed {
            let empty = if by_uin {
                uin_uid_is_empty(self.uin2uid.as_ref().unwrap())
            } else {
                uid_uin_is_empty(self.uid2uin.as_ref().unwrap())
            };
            if empty {
                return LookupStep::RefreshFriends;
            }
        }
        match group_uin {
            Some(g) => if !members_contains(self.cached_group_members.as_ref().unwrap(), g) {
                LookupStep::RefreshGroup(g)
            } else {
                LookupStep::Resolve
            },
            None => LookupStep::Resolve,
        }
    }
}

/// What a lookup asks for next (see `Cache::lookup_step`).
pub open spec fn spec_lookup_step(v: CacheView, by_uin: bool, group_uin: Option<u32>, friends_refreshed: bool) -> LookupStep {
    if v.mode == CacheMode::NoCache {
        match group_uin {
            Some(g) => LookupStep::FetchGroup(g),
            None => LookupStep::FetchFriends,
        }
    } else {
        let map_empty = if by_uin {
            v.uin2uid.unwrap().dom().is_empty()
        } else {
            v.uid2uin.unwrap().dom().is_empty()
        };
        if v.mode == CacheMode::Full && !friends_refreshed && map_empty {
            LookupStep::RefreshFriends
        } else {
            match group_uin {
                Some(g) => if !v.members.unwrap().contains_key(g) {
                    LookupStep::RefreshGroup(g)
                } else {
                    LookupStep::Resolve
                },
                None => LookupStep::Resolve,
            }
        }
    }
}

/// Once `uin` and `uid` are recorded in a `Full` cache, the cache answers each with the other,
/// whatever group is asked about.
pub proof fn law_recorded_pair_resolves(v: CacheView, uin: u32, uid: Seq<char>, group_uin: Option<u32>)
    requires
        v.mode == CacheMode::Full,
        v.uin2uid is Some,
        v.uid2uin is Some,
    ensures
        spec_uin2uid_within(view_with_pair(v, uin, uid), uin, group_uin) == Ok::<Seq<char>, Seq<char>>(uid),
        spec_uid2uin_within(view_with_pair(v, uin, uid), uid, group_uin) == Some(Ok::<u32, Seq<char>>(uin)),
{
}

/// A cache that keeps no uin/uid maps is not changed by recording a pair.
pub proof fn law_pair_needs_maps(v: CacheView, uin: u32, uid: Seq<char>)
    requires
        v.uin2uid is None,
        v.uid2uin is None,
    ensures
        view_with_pair(v, uin, uid) == v,
{
}

/// A lookup asks for the friend list at most once, and for a group only while its members are
/// not cached: once the friend list was refreshed and the group's members are cached, the cache
/// answers.
pub proof fn law_lookup_refreshes_once(v: CacheView, by_uin: bool, group_uin: Option<u32>)
    requires
        v.mode != CacheMode::NoCache,
        v.members is Some,
        group_uin matches Some(g) ==> v.members.unwrap().contains_key(g),
    ensures
        spec_lookup_step(v, by_uin, group_uin, true) == LookupStep::Resolve,
        spec_lookup_step(v, by_uin, group_uin, false) != LookupStep::FetchFriends,
{
}

/// The members of `ms` have distinct numbers and distinct uids.
pub open spec fn distinct_members(ms: Seq<BotGroupMember>) -> bool {
    forall|i: int, j: int|
        #![trigger ms[i], ms[j]]
        0 <= i < ms.len() && 0 <= j < ms.len() && i != j ==> ms[i].uin != ms[j].uin && ms[i].uid@
            != ms[j].uid@
}

/// The uin/uid maps the cache keeps say nothing of the members of `ms` that contradicts them.
pub open spec fn maps_agree_with(v: CacheView, ms: Seq<BotGroupMember>) -> bool {
    &&& (v.uin2uid matches Some(m) ==> forall|i: int|
        0 <= i < ms.len() && m.contains_key(#[trigger] ms[i].uin) ==> m[ms[i].uin] == ms[i].uid@)
    &&& (v.uid2uin matches Some(m) ==> forall|i: int|
        0 <= i < ms.len() && m.contains_key(#[trigger] ms[i].uid@) ==> m[ms[i].uid@] == ms[i].uin)
}

proof fn lemma_member_found(ms: Seq<BotGroupMember>, j: int)
    requires
        0 <= j < ms.len(),
        distinct_members(ms),
    ensures
        member_uid_by_uin(ms, ms[j].uin) == Some(ms[j].uid@),
        member_uin_by_uid(ms, ms[j].uid@) == Some(ms[j].uin),
    decreases ms.len(),
{
    if j > 0 {
        let rest = ms.drop_first();
        assert forall|a: int, b: int|
            #![trigger rest[a], rest[b]]
            0 <= a < rest.len() && 0 <= b < rest.len() && a != b implies rest[a].uin != rest[b].uin
                && rest[a].uid@ != rest[b].uid@ by {
            assert(rest[a] == ms[a + 1] && rest[b] == ms[b + 1]);
        }
        assert(rest[j - 1] == ms[j]);
        assert(ms[0].uin != ms[j].uin && ms[0].uid@ != ms[j].uid@);
        lemma_member_found(rest, j - 1);
    }
}

/// Within a cached group whose members have distinct numbers and uids, and whose members the
/// uin/uid maps do not contradict, a member's uid looked up by number, and their number looked
/// up by that uid, are the member's own.
pub proof fn law_member_round_trip(v: CacheView, g: u32, j: int)
    requires
        v.mode != CacheMode::NoCache,
        v.members is Some,
        v.members.unwrap().contains_key(g),
        distinct_members(v.members.unwrap()[g]),
        maps_agree_with(v, v.members.unwrap()[g]),
        0 <= j < v.members.unwrap()[g].len(),
    ensures
        spec_uin2uid_within(v, v.members.unwrap()[g][j].uin, Some(g)) == Ok::<Seq<char>, Seq<char>>(
            v.members.unwrap()[g][j].uid@,
        ),
        spec_uid2uin_within(v, v.members.unwrap()[g][j].uid@, Some(g)) == Some(
            Ok::<u32, Seq<char>>(v.members.unwrap()[g][j].uin),
        ),
{
    let ms = v.members.unwrap()[g];
    lemma_member_found(ms, j);
    assert(ms[j] == v.members.unwrap()[g][j]);
}

/// In every well-formed cache, which maps exist follows the mode: the uin/uid maps in `Full`
/// mode only, the friend and member maps in every mode but `NoCache`.
pub proof fn law_maps_follow_mode(c: Cache)
    requires
        c.wf(),
    ensures
        c@.uin2uid is Some <==> c@.mode == CacheMode::Full,
        c@.uid2uin is Some <==> c@.mode == CacheMode::Full,
        c@.friends is Some <==> c@.mode != CacheMode::NoCache,
        c@.members is Some <==> c@.mode != CacheMode::NoCache,
{
}

} // verus!
