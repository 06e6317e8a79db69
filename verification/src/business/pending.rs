//! The requests waiting for the server's answer, by sequence number: a request is put in when
//! it is sent, and taken out when its answer comes or the wait is given up.

use vstd::prelude::*;

verus! {

/// The entries by sequence number, a later entry for a sequence replacing an earlier one.
pub open spec fn entries_map<T>(s: Seq<(u32, T)>) -> Map<u32, T>
    decreases s.len(),
{
    if s.len() == 0 {
        Map::empty()
    } else {
        entries_map(s.drop_last()).insert(s.last().0, s.last().1)
    }
}

/// What a map holds under `k`, if anything.
pub open spec fn map_get<T>(m: Map<u32, T>, k: u32) -> Option<T> {
    if m.contains_key(k) {
        Some(m[k])
    } else {
        None
    }
}

/// The requests waiting for an answer, each under its sequence number.
pub struct PendingRequests<T> {
    entries: Vec<(u32, T)>,
}

impl<T> View for PendingRequests<T> {
    type V = Map<u32, T>;

    closed spec fn view(&self) -> Map<u32, T> {
        entries_map(self.entries@)
    }
}

impl<T> PendingRequests<T> {
    /// No request waits.
    pub fn new() -> (r: Self)
        ensures
            r@ == Map::<u32, T>::empty(),
    {
        PendingRequests { entries: Vec::new() }
    }

    /// Takes out the request waiting under `sequence`, if one does; the others stay.
    pub fn take(&mut self, sequence: u32) -> (r: Option<T>)
        ensures
            r == map_get(old(self)@, sequence),
            final(self)@ == old(self)@.remove(sequence),
    {
        let ghost all = self.entries@;
        let mut rest: Vec<(u32, T)> = Vec::new();
        std::mem::swap(&mut rest, &mut self.entries);
        let n = rest.len();
        let mut kept: Vec<(u32, T)> = Vec::new();
        let mut found: Option<T> = None;
        let mut i: usize = 0;
        assert(all.take(0) =~= Seq::<(u32, T)>::empty());
        assert(entries_map(kept@) =~= entries_map(all.take(0)).remove(sequence));
        while i < n
            invariant
                n == all.len(),
                i <= n,
                rest@ =~= all.subrange(i as int, n as int),
                entries_map(kept@) == entries_map(all.take(i as int)).remove(sequence),
                found == map_get(entries_map(all.take(i as int)), sequence),
            decreases n - i,
        {
            let ghost before = rest@;
            let e = rest.remove(0);
            assert(before[0] == e);
            assert(e == all[i as int]);
            assert(all.take(i + 1).drop_last() =~= all.take(i as int));
            assert(all.take(i + 1).last() == e);
            let ghost prev = entries_map(all.take(i as int));
            if e.0 == sequence {
                assert(entries_map(all.take(i + 1)) == prev.insert(e.0, e.1));
                assert(prev.insert(e.0, e.1).remove(sequence) =~= prev.remove(sequence));
                found = Some(e.1);
            } else {
                let ghost k0 = kept@;
                kept.push(e);
                assert(kept@.drop_last() =~= k0);
                assert(prev.insert(e.0, e.1).remove(sequence) =~= prev.remove(sequence).insert(
                    e.0,
                    e.1,
                ));
            }
            assert(rest@ =~= all.subrange(i + 1, n as int));
            i = i + 1;
        }
        assert(all.take(n as int) =~= all);
        self.entries = kept;
        found
    }

    /// Puts in `request` under `sequence`; a request already waiting under it is taken out and
    /// given back.
    pub fn insert(&mut self, sequence: u32, request: T) -> (r: Option<T>)
        ensures
            r == map_get(old(self)@, sequence),
            final(self)@ == old(self)@.insert(sequence, request),
    {
        let old_request = self.take(sequence);
        let ghost before = self.entries@;
        self.entries.push((sequence, request));
        assert(self.entries@.drop_last() =~= before);
        assert(entries_map(before).insert(sequence, request) =~= old(self)@.insert(
            sequence,
            request,
        ));
        old_request
    }
}

/// A request put in under a sequence is the one taken out under it, as long as no other was put
/// in under the same sequence in between; taking it out leaves the other requests as they were.
pub proof fn law_take_gives_back_insert<T>(m: Map<u32, T>, sequence: u32, request: T)
    ensures
        map_get(m.insert(sequence, request), sequence) == Some(request),
        m.insert(sequence, request).remove(sequence) == m.remove(sequence),
{
    assert(m.insert(sequence, request).remove(sequence) =~= m.remove(sequence));
}

} // verus!
