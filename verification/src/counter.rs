use crate::assoc::{
    assoc_map, keys_unique, lemma_assoc_map_contains_key, lemma_assoc_map_index,
    lemma_assoc_map_push, lemma_assoc_map_update,
};
use crate::clip::{sat_add_u64, with_hits, Clip};
use crate::field::Shortcode;
use crate::store::ClipStore;
use vstd::pervasive::VecAdditionalExecFns;
use vstd::prelude::*;

verus! {

/// Addition on pending counters, capped at the largest representable
/// count.
pub open spec fn sat_add_u32(a: u32, b: u32) -> u32 {
    if a + b > u32::MAX {
        u32::MAX
    } else {
        (a + b) as u32
    }
}

/// The pending-hits map after one hit event is recorded.
pub open spec fn spec_record_hit(
    m: Map<Seq<char>, u32>,
    sc: Seq<char>,
    n: u32,
) -> Map<Seq<char>, u32> {
    let prev = if m.contains_key(sc) {
        m[sc]
    } else {
        0u32
    };
    m.insert(sc, sat_add_u32(prev, n))
}

/// The pending-hits map after a sequence of hit events is recorded in
/// order.
pub open spec fn spec_record_hits(
    m: Map<Seq<char>, u32>,
    evs: Seq<(Seq<char>, u32)>,
) -> Map<Seq<char>, u32>
    decreases evs.len(),
{
    if evs.len() == 0 {
        m
    } else {
        spec_record_hit(spec_record_hits(m, evs.drop_last()), evs.last().0, evs.last().1)
    }
}

/// The total count carried by a sequence of hit events for one short
/// code.
pub open spec fn spec_hit_total(evs: Seq<(Seq<char>, u32)>, sc: Seq<char>) -> int
    decreases evs.len(),
{
    if evs.len() == 0 {
        0
    } else {
        spec_hit_total(evs.drop_last(), sc) + if evs.last().0 == sc {
            evs.last().1 as int
        } else {
            0
        }
    }
}

/// The uncommitted count a pending-hits map holds for a short code.
pub open spec fn pending_count(m: Map<Seq<char>, u32>, sc: Seq<char>) -> int {
    if m.contains_key(sc) {
        m[sc] as int
    } else {
        0
    }
}

/// The clip stored under `sc` once the pending hits for `sc` are
/// committed.
pub open spec fn spec_commit_value(c: Clip, pend: Map<Seq<char>, u32>, sc: Seq<char>) -> Clip {
    if pend.contains_key(sc) {
        with_hits(c, sat_add_u64(c.hits.spec_count(), pend[sc] as u64))
    } else {
        c
    }
}

/// Relates a store map before a commit to the one after it: the same
/// clips are stored, and each has exactly its pending hits folded in.
pub open spec fn spec_committed(
    orig: Map<Seq<char>, Clip>,
    pend: Map<Seq<char>, u32>,
    committed: Map<Seq<char>, Clip>,
) -> bool {
    &&& forall|k: Seq<char>| #[trigger] committed.contains_key(k) <==> orig.contains_key(k)
    &&& forall|k: Seq<char>| #[trigger] committed.contains_key(k) ==> committed[k]
        == spec_commit_value(orig[k], pend, k)
}

/// The entries of the pending vector, keyed by short code.
pub open spec fn counter_entries(s: Seq<(Shortcode, u32)>) -> Seq<(Seq<char>, u32)> {
    s.map(|i: int, p: (Shortcode, u32)| (p.0@, p.1))
}

/// A message to the hit-counter worker: record a hit event, or flush
/// the pending map into the store.
pub enum HitCounterMsg {
    Commit,
    Hit(Shortcode, u32),
}

/// The write-back buffer for view events: hits are coalesced by short
/// code in the pending map and folded into the store at each commit.
pub struct HitCounter {
    pending: Vec<(Shortcode, u32)>,
}

impl View for HitCounter {
    type V = Map<Seq<char>, u32>;

    closed spec fn view(&self) -> Map<Seq<char>, u32> {
        assoc_map(counter_entries(self.pending@))
    }
}

impl HitCounter {
    /// The buffer's invariant: one pending entry per short code.
    pub closed spec fn wf(&self) -> bool {
        keys_unique(counter_entries(self.pending@))
    }

    pub fn new() -> (r: HitCounter)
        ensures
            r.wf(),
            r@ == Map::<Seq<char>, u32>::empty(),
    {
        let r = HitCounter { pending: Vec::new() };
        proof {
            assert(counter_entries(r.pending@) =~= Seq::<(Seq<char>, u32)>::empty());
        }
        r
    }

    fn find_index(&self, code: &Shortcode) -> (r: Option<usize>)
        ensures
            match r {
                Some(i) => i < self.pending@.len() && self.pending@[i as int].0@ == code@,
                None => forall|i: int|
                    0 <= i < self.pending@.len() ==> (#[trigger] self.pending@[i]).0@ != code@,
            },
    {
        let mut i: usize = 0;
        while i < self.pending.len()
            invariant
                i <= self.pending@.len(),
                forall|j: int| 0 <= j < i ==> (#[trigger] self.pending@[j]).0@ != code@,
            decreases self.pending@.len() - i,
        {
            if self.pending[i].0.eq_code(code) {
                return Some(i);
            }
            i += 1;
        }
        None
    }

    /// Records one hit event in the pending map: the counts for one
    /// short code coalesce into a single entry. No store I/O happens
    /// here. A zero count is permitted and leaves the count unchanged.
    pub fn hit(&mut self, shortcode: &Shortcode, count: u32)
        requires
            old(self).wf(),
        ensures
            final(self).wf(),
            final(self)@ == spec_record_hit(old(self)@, shortcode@, count),
    {
        match self.find_index(shortcode) {
            Some(i) => {
                proof {
                    lemma_assoc_map_index(counter_entries(self.pending@), i as int);
                }
                let cur: u32 = self.pending[i].1;
                let grown: u32 = if count > u32::MAX - cur {
                    u32::MAX
                } else {
                    cur + count
                };
                let sc2 = self.pending[i].0.clone();
                proof {
                    let es = counter_entries(self.pending@);
                    lemma_assoc_map_update(es, i as int, grown);
                    assert(counter_entries(self.pending@.update(i as int, (sc2, grown)))
                        =~= es.update(i as int, (es[i as int].0, grown)));
                }
                self.pending.set(i, (sc2, grown));
            },
            None => {
                let sc2 = shortcode.clone();
                proof {
                    let es = counter_entries(self.pending@);
                    lemma_assoc_map_contains_key(es, shortcode@);
                    lemma_assoc_map_push(es, (sc2@, count));
                    assert(counter_entries(self.pending@.push((sc2, count))) =~= es.push(
                        (sc2@, count),
                    ));
                    assert forall|a: int, b: int|
                        0 <= a < b < es.push((sc2@, count)).len() implies (#[trigger] es.push(
                        (sc2@, count),
                    )[a]).0 != (#[trigger] es.push((sc2@, count))[b]).0 by {
                        if b == es.len() {
                            assert(es[a].0 == self.pending@[a].0@);
                        }
                    }
                }
                self.pending.push((sc2, count));
            },
        }
    }

    /// Flushes the pending map: every pending entry is folded into the
    /// store, entries whose short code is no longer stored are dropped,
    /// and the pending map is left empty.
    pub fn commit(&mut self, store: &mut ClipStore)
        requires
            old(self).wf(),
            old(store).wf(),
        ensures
            final(self).wf(),
            final(store).wf(),
            final(self)@ == Map::<Seq<char>, u32>::empty(),
            spec_committed(old(store)@, old(self)@, final(store)@),
    {
        let mut i: usize = 0;
        while i < self.pending.len()
            invariant
                self.pending@ == old(self).pending@,
                self.wf(),
                store.wf(),
                i <= self.pending@.len(),
                forall|k: Seq<char>| #[trigger] store@.contains_key(k) <==> old(
                    store,
                )@.contains_key(k),
                forall|k: Seq<char>| #[trigger] store@.contains_key(k) ==> store@[k] == (if (
                exists|j: int|
                    0 <= j < i && (#[trigger] counter_entries(self.pending@)[j]).0 == k) {
                    spec_commit_value(old(store)@[k], old(self)@, k)
                } else {
                    old(store)@[k]
                }),
            decreases self.pending@.len() - i,
        {
            let ghost es = counter_entries(self.pending@);
            proof {
                lemma_assoc_map_index(es, i as int);
            }
            let e = &self.pending[i];
            store.increase_hits(&e.0, e.1);
            proof {
                let key = es[i as int].0;
                assert forall|j: int| 0 <= j < i implies (#[trigger] es[j]).0 != key by {
                    assert(es[j].0 == self.pending@[j].0@);
                    assert(es[i as int].0 == self.pending@[i as int].0@);
                }
                assert(old(self)@ == assoc_map(es));
                assert(old(self)@[key] == es[i as int].1);
            }
            i += 1;
        }
        proof {
            let es = counter_entries(self.pending@);
            assert(old(self)@ == assoc_map(es));
            assert forall|k: Seq<char>| #[trigger] store@.contains_key(k) implies store@[k]
                == spec_commit_value(old(store)@[k], old(self)@, k) by {
                lemma_assoc_map_contains_key(es, k);
                if exists|j: int| 0 <= j < es.len() && (#[trigger] es[j]).0 == k {
                    assert(old(self)@.contains_key(k));
                } else {
                    assert(!old(self)@.contains_key(k));
                    assert(store@[k] == old(store)@[k]);
                }
            }
        }
        self.pending.clear();
        proof {
            assert(counter_entries(Seq::<(Shortcode, u32)>::empty()) =~= Seq::<(
                Seq<char>,
                u32,
            )>::empty());
        }
    }

    /// One step of the worker protocol: a hit event is recorded with no
    /// store I/O; a commit message flushes the pending map.
    pub fn process_msg(&mut self, msg: HitCounterMsg, store: &mut ClipStore)
        requires
            old(self).wf(),
            old(store).wf(),
        ensures
            final(self).wf(),
            final(store).wf(),
            match msg {
                HitCounterMsg::Hit(sc, n) => final(self)@ == spec_record_hit(old(self)@, sc@, n)
                    && final(store)@ == old(store)@,
                HitCounterMsg::Commit => final(self)@ == Map::<Seq<char>, u32>::empty()
                    && spec_committed(old(store)@, old(self)@, final(store)@),
            },
    {
        match msg {
            HitCounterMsg::Commit => self.commit(store),
            HitCounterMsg::Hit(sc, n) => self.hit(&sc, n),
        }
    }
}

/// The total a sequence of hit events carries for a short code is never
/// negative.
pub proof fn lemma_hit_total_nonneg(evs: Seq<(Seq<char>, u32)>, sc: Seq<char>)
    ensures
        spec_hit_total(evs, sc) >= 0,
    decreases evs.len(),
{
    if evs.len() > 0 {
        lemma_hit_total_nonneg(evs.drop_last(), sc);
    }
}

/// Hit coalescing over any event sequence: recording the events raises
/// the pending count for a short code by exactly the total its events
/// carry, whenever that total stays in range.
pub proof fn lemma_record_hits_total(
    m: Map<Seq<char>, u32>,
    evs: Seq<(Seq<char>, u32)>,
    sc: Seq<char>,
)
    requires
        pending_count(m, sc) + spec_hit_total(evs, sc) <= u32::MAX,
    ensures
        pending_count(spec_record_hits(m, evs), sc) == pending_count(m, sc) + spec_hit_total(
            evs,
            sc,
        ),
    decreases evs.len(),
{
    if evs.len() > 0 {
        lemma_hit_total_nonneg(evs.drop_last(), sc);
        lemma_record_hits_total(m, evs.drop_last(), sc);
    }
}

/// Hit coalescing: K unit hits for one short code, all delivered before
/// the next commit, leave exactly K pending hits for it.
pub proof fn lemma_hit_coalescing(m: Map<Seq<char>, u32>, sc: Seq<char>, k: nat)
    requires
        pending_count(m, sc) + k <= u32::MAX,
    ensures
        pending_count(spec_record_hits(m, Seq::new(k, |i: int| (sc, 1u32))), sc) == pending_count(
            m,
            sc,
        ) + k,
{
    lemma_unit_hit_total(Seq::new(k, |i: int| (sc, 1u32)), sc);
    lemma_record_hits_total(m, Seq::new(k, |i: int| (sc, 1u32)), sc);
}

/// A sequence of unit hits for one short code carries a total equal to
/// its length.
pub proof fn lemma_unit_hit_total(evs: Seq<(Seq<char>, u32)>, sc: Seq<char>)
    requires
        forall|i: int| 0 <= i < evs.len() ==> #[trigger] evs[i] == (sc, 1u32),
    ensures
        spec_hit_total(evs, sc) == evs.len(),
    decreases evs.len(),
{
    if evs.len() > 0 {
        lemma_unit_hit_total(evs.drop_last(), sc);
    }
}

/// Hit ordering under load: N producers send M unit hits each for one
/// short code; however their events interleave, the pending count grows
/// by exactly N times M.
pub proof fn lemma_hit_ordering(
    m: Map<Seq<char>, u32>,
    evs: Seq<(Seq<char>, u32)>,
    sc: Seq<char>,
    n: nat,
    per_producer: nat,
)
    requires
        evs.len() == n * per_producer,
        forall|i: int| 0 <= i < evs.len() ==> #[trigger] evs[i] == (sc, 1u32),
        pending_count(m, sc) + n * per_producer <= u32::MAX,
    ensures
        pending_count(spec_record_hits(m, evs), sc) == pending_count(m, sc) + n * per_producer,
{
    lemma_unit_hit_total(evs, sc);
    lemma_record_hits_total(m, evs, sc);
}

/// Hit coalescing, end to end: with no pending hits for `sc`, recording
/// K unit hits and then committing grows the stored view count for `sc`
/// by exactly K.
pub proof fn lemma_hit_coalescing_commit(
    store_m: Map<Seq<char>, Clip>,
    pend: Map<Seq<char>, u32>,
    sc: Seq<char>,
    k: nat,
)
    requires
        !pend.contains_key(sc),
        k <= u32::MAX,
        store_m.contains_key(sc),
        store_m[sc].hits.spec_count() + k <= u64::MAX,
    ensures
        ({
            let recorded = spec_record_hits(pend, Seq::new(k, |i: int| (sc, 1u32)));
            spec_commit_value(store_m[sc], recorded, sc).hits.spec_count() == store_m[
                sc
            ].hits.spec_count() + k
        }),
{
    let evs = Seq::new(k, |i: int| (sc, 1u32));
    let recorded = spec_record_hits(pend, evs);
    lemma_hit_coalescing(pend, sc, k);
    if k == 0 {
        assert(evs =~= Seq::<(Seq<char>, u32)>::empty());
        assert(recorded == pend);
    } else {
        assert(evs.last() == (sc, 1u32));
        assert(recorded == spec_record_hit(
            spec_record_hits(pend, evs.drop_last()),
            sc,
            1u32,
        ));
        assert(recorded.contains_key(sc));
        assert(recorded[sc] == k);
    }
}

} // verus!
