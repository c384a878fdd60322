use crate::assoc::{
    assoc_map, keys_unique, lemma_assoc_map_contains_key, lemma_assoc_map_index,
    lemma_assoc_map_len, lemma_assoc_map_push, lemma_assoc_map_update,
};
use crate::clip::{clip_wf, password_wf, sat_add_u64, spec_is_expired, with_hits, Clip};
use crate::data::Dbid;
use crate::field::{is_generated_code, ClipId, Content, Expires, Hits, Password, Posted, Shortcode, Title};
use crate::time::Time;
use vstd::pervasive::VecAdditionalExecFns;
use vstd::prelude::*;

verus! {

/// The entries of a clip sequence, keyed by short code.
pub open spec fn store_entries(s: Seq<Clip>) -> Seq<(Seq<char>, Clip)> {
    s.map(|i: int, c: Clip| (c.shortcode@, c))
}

/// The clip repository: the clips table of the store, with unique short
/// codes. Viewed as a map from short code to clip.
pub struct ClipStore {
    clips: Vec<Clip>,
}

impl View for ClipStore {
    type V = Map<Seq<char>, Clip>;

    closed spec fn view(&self) -> Map<Seq<char>, Clip> {
        assoc_map(store_entries(self.clips@))
    }
}

impl ClipStore {
    /// The store's invariant: short codes are unique and every stored
    /// clip is well formed.
    pub closed spec fn wf(&self) -> bool {
        &&& keys_unique(store_entries(self.clips@))
        &&& forall|i: int| 0 <= i < self.clips@.len() ==> clip_wf(#[trigger] self.clips@[i])
    }

    /// Every value of a well-formed store is a well-formed clip filed
    /// under its own short code, and there are finitely many of them.
    pub proof fn lemma_wf_values(&self)
        requires
            self.wf(),
        ensures
            forall|k: Seq<char>| #[trigger] self@.contains_key(k) ==> clip_wf(self@[k])
                && self@[k].shortcode@ == k,
            self@.dom().finite(),
    {
        let es = store_entries(self.clips@);
        lemma_assoc_map_len(es);
        assert forall|k: Seq<char>| #[trigger] self@.contains_key(k) implies clip_wf(self@[k])
            && self@[k].shortcode@ == k by {
            lemma_assoc_map_contains_key(es, k);
            let i = choose|i: int| 0 <= i < es.len() && (#[trigger] es[i]).0 == k;
            lemma_assoc_map_index(es, i);
        }
    }

    pub fn new() -> (r: ClipStore)
        ensures
            r.wf(),
            r@ == Map::<Seq<char>, Clip>::empty(),
    {
        let r = ClipStore { clips: Vec::new() };
        proof {
            assert(store_entries(r.clips@) =~= Seq::<(Seq<char>, Clip)>::empty());
        }
        r
    }

    /// The number of stored clips.
    pub fn len(&self) -> (n: usize)
        requires
            self.wf(),
        ensures
            n == self@.len(),
    {
        proof {
            lemma_assoc_map_len(store_entries(self.clips@));
        }
        self.clips.len()
    }

    fn find_index(&self, code: &Shortcode) -> (r: Option<usize>)
        ensures
            match r {
                Some(i) => i < self.clips@.len() && self.clips@[i as int].shortcode@ == code@,
                None => forall|i: int|
                    0 <= i < self.clips@.len() ==> (#[trigger] self.clips@[i]).shortcode@ != code@,
            },
    {
        let mut i: usize = 0;
        while i < self.clips.len()
            invariant
                i <= self.clips@.len(),
                forall|j: int| 0 <= j < i ==> (#[trigger] self.clips@[j]).shortcode@ != code@,
            decreases self.clips@.len() - i,
        {
            if self.clips[i].shortcode.eq_code(code) {
                return Some(i);
            }
            i += 1;
        }
        None
    }

    /// Returns the stored clip with the given short code, unless it is
    /// absent or already expired: an expired clip is never returned.
    pub fn get_clip(&self, code: &Shortcode, now: Time) -> (r: Option<Clip>)
        requires
            self.wf(),
        ensures
            match r {
                Some(c) => {
                    &&& self@.contains_key(code@)
                    &&& !spec_is_expired(self@[code@], now.spec_seconds())
                    &&& c == self@[code@]
                    &&& clip_wf(c)
                    &&& c.shortcode@ == code@
                },
                None => !self@.contains_key(code@) || spec_is_expired(
                    self@[code@],
                    now.spec_seconds(),
                ),
            },
    {
        match self.find_index(code) {
            Some(i) => {
                proof {
                    lemma_assoc_map_index(store_entries(self.clips@), i as int);
                }
                let c = &self.clips[i];
                if c.is_expired(now) {
                    None
                } else {
                    Some(c.clone())
                }
            },
            None => {
                proof {
                    lemma_assoc_map_contains_key(store_entries(self.clips@), code@);
                }
                None
            },
        }
    }

    /// Draws fresh short codes until one is unused, giving up after five
    /// collisions in a row. Giving up takes at least one collision, so
    /// it can only happen on a non-empty store.
    fn fresh_code(&self) -> (r: Option<Shortcode>)
        ensures
            match r {
                Some(sc) => is_generated_code(sc@) && !self@.contains_key(sc@),
                None => self.clips@.len() > 0,
            },
    {
        let mut attempts: usize = 0;
        while attempts < 5
            invariant
                attempts <= 5,
                attempts > 0 ==> self.clips@.len() > 0,
            decreases 5 - attempts,
        {
            let sc = Shortcode::new();
            let found = self.find_index(&sc);
            if found.is_none() {
                proof {
                    lemma_assoc_map_contains_key(store_entries(self.clips@), sc@);
                }
                return Some(sc);
            }
            attempts += 1;
        }
        None
    }

    /// Inserts a new clip under a freshly generated short code, stamped
    /// with the given creation instant and a zero view count. Returns
    /// `None` only when five fresh codes in a row collided, which takes
    /// a non-empty store: on an empty store creation always succeeds.
    pub fn new_clip(
        &mut self,
        content: Content,
        title: Title,
        expires: Expires,
        password: Password,
        now: Time,
    ) -> (r: Option<Clip>)
        requires
            old(self).wf(),
            content@.len() > 0,
            password_wf(password@),
        ensures
            final(self).wf(),
            match r {
                Some(c) => {
                    &&& c.content == content
                    &&& c.title == title
                    &&& c.expires == expires
                    &&& c.password == password
                    &&& c.posted.spec_seconds() == now.spec_seconds()
                    &&& c.hits.spec_count() == 0
                    &&& is_generated_code(c.shortcode@)
                    &&& !old(self)@.contains_key(c.shortcode@)
                    &&& final(self)@ == old(self)@.insert(c.shortcode@, c)
                },
                None => final(self)@ == old(self)@ && old(self)@.len() > 0,
            },
    {
        match self.fresh_code() {
            None => {
                proof {
                    lemma_assoc_map_len(store_entries(self.clips@));
                }
                None
            },
            Some(sc) => {
                let clip = Clip {
                    clip_id: ClipId::new(Dbid::new()),
                    shortcode: sc,
                    content,
                    title,
                    posted: Posted::new(now),
                    expires,
                    password,
                    hits: Hits::new(0),
                };
                let ret = clip.clone();
                proof {
                    let es = store_entries(self.clips@);
                    let e = (clip.shortcode@, clip);
                    lemma_assoc_map_contains_key(es, clip.shortcode@);
                    lemma_assoc_map_push(es, e);
                    assert(store_entries(self.clips@.push(clip)) =~= es.push(e));
                    assert forall|a: int, b: int|
                        0 <= a < b < es.push(e).len() implies (#[trigger] es.push(e)[a]).0 != (
                    #[trigger] es.push(e)[b]).0 by {
                        if b == es.len() {
                            assert(es[a].0 == self.clips@[a].shortcode@);
                        }
                    }
                }
                self.clips.push(clip);
                Some(ret)
            },
        }
    }

    /// Replaces the mutable fields of the clip stored under the given
    /// short code; its identifier, creation instant and view count stay
    /// untouched. Returns the updated clip, or `None` for an unknown code.
    pub fn update_clip(
        &mut self,
        code: &Shortcode,
        content: Content,
        title: Title,
        expires: Expires,
        password: Password,
    ) -> (r: Option<Clip>)
        requires
            old(self).wf(),
            content@.len() > 0,
            password_wf(password@),
        ensures
            final(self).wf(),
            match r {
                Some(c) => {
                    &&& old(self)@.contains_key(code@)
                    &&& c.clip_id == old(self)@[code@].clip_id
                    &&& c.shortcode == old(self)@[code@].shortcode
                    &&& c.content == content
                    &&& c.title == title
                    &&& c.expires == expires
                    &&& c.password == password
                    &&& c.posted == old(self)@[code@].posted
                    &&& c.hits == old(self)@[code@].hits
                    &&& final(self)@ == old(self)@.insert(code@, c)
                },
                None => !old(self)@.contains_key(code@) && final(self)@ == old(self)@,
            },
    {
        match self.find_index(code) {
            None => {
                proof {
                    lemma_assoc_map_contains_key(store_entries(self.clips@), code@);
                }
                None
            },
            Some(i) => {
                proof {
                    lemma_assoc_map_index(store_entries(self.clips@), i as int);
                }
                let stored = &self.clips[i];
                let updated = Clip {
                    clip_id: stored.clip_id,
                    shortcode: stored.shortcode.clone(),
                    content,
                    title,
                    posted: stored.posted,
                    expires,
                    password,
                    hits: stored.hits,
                };
                let ret = updated.clone();
                proof {
                    let es = store_entries(self.clips@);
                    lemma_assoc_map_update(es, i as int, updated);
                    assert(store_entries(self.clips@.update(i as int, updated)) =~= es.update(
                        i as int,
                        (es[i as int].0, updated),
                    ));
                }
                self.clips.set(i, updated);
                Some(ret)
            },
        }
    }

    /// The result of atomically adding `delta` to the view count stored
    /// under key `k`, when the key is present; an unknown key changes
    /// nothing.
    pub open spec fn spec_increase_hits(
        m: Map<Seq<char>, Clip>,
        k: Seq<char>,
        delta: u32,
    ) -> Map<Seq<char>, Clip> {
        if m.contains_key(k) {
            m.insert(k, with_hits(m[k], sat_add_u64(m[k].hits.spec_count(), delta as u64)))
        } else {
            m
        }
    }

    /// Adds `delta` to the view count of the clip with the given short
    /// code. A missing code is silently ignored: the clip may have just
    /// been deleted.
    pub fn increase_hits(&mut self, code: &Shortcode, delta: u32)
        requires
            old(self).wf(),
        ensures
            final(self).wf(),
            final(self)@ == Self::spec_increase_hits(old(self)@, code@, delta),
    {
        match self.find_index(code) {
            None => {
                proof {
                    lemma_assoc_map_contains_key(store_entries(self.clips@), code@);
                }
            },
            Some(i) => {
                proof {
                    lemma_assoc_map_index(store_entries(self.clips@), i as int);
                }
                let cur: u64 = self.clips[i].hits.into_inner();
                let grown: u64 = if delta as u64 > u64::MAX - cur {
                    u64::MAX
                } else {
                    cur + delta as u64
                };
                let stored = &self.clips[i];
                let updated = Clip {
                    clip_id: stored.clip_id,
                    shortcode: stored.shortcode.clone(),
                    content: stored.content.clone(),
                    title: stored.title.clone(),
                    posted: stored.posted,
                    expires: stored.expires,
                    password: stored.password.clone(),
                    hits: Hits::new(grown),
                };
                proof {
                    let es = store_entries(self.clips@);
                    assert(updated == with_hits(
                        self@[code@],
                        sat_add_u64(self@[code@].hits.spec_count(), delta as u64),
                    ));
                    lemma_assoc_map_update(es, i as int, updated);
                    assert(store_entries(self.clips@.update(i as int, updated)) =~= es.update(
                        i as int,
                        (es[i as int].0, updated),
                    ));
                }
                self.clips.set(i, updated);
            },
        }
    }

    /// Deletes every clip whose expiration instant lies strictly before
    /// `now` and returns how many were removed. All other clips stay
    /// exactly as they were.
    pub fn delete_expired(&mut self, now: Time) -> (count: usize)
        requires
            old(self).wf(),
        ensures
            final(self).wf(),
            forall|k: Seq<char>| #[trigger] final(self)@.contains_key(k) <==> (old(
                self,
            )@.contains_key(k) && !spec_is_expired(old(self)@[k], now.spec_seconds())),
            forall|k: Seq<char>| #[trigger] final(self)@.contains_key(k) ==> final(self)@[k] == old(
                self,
            )@[k],
            old(self)@.dom().finite(),
            final(self)@.dom().finite(),
            count == old(self)@.len() - final(self)@.len(),
    {
        let ghost full = self.clips@;
        let mut kept: Vec<Clip> = Vec::new();
        let mut i: usize = 0;
        while i < self.clips.len()
            invariant
                self.clips@ == full,
                self.wf(),
                i <= full.len(),
                kept@.len() <= i,
                keys_unique(store_entries(kept@)),
                forall|j: int| 0 <= j < kept@.len() ==> clip_wf(#[trigger] kept@[j]),
                forall|k: Seq<char>| #[trigger]
                    assoc_map(store_entries(kept@)).contains_key(k) <==> (assoc_map(
                        store_entries(full.take(i as int)),
                    ).contains_key(k) && !spec_is_expired(
                        assoc_map(store_entries(full.take(i as int)))[k],
                        now.spec_seconds(),
                    )),
                forall|k: Seq<char>| #[trigger]
                    assoc_map(store_entries(kept@)).contains_key(k) ==> assoc_map(
                        store_entries(kept@),
                    )[k] == assoc_map(store_entries(full.take(i as int)))[k],
            decreases full.len() - i,
        {
            let ghost prefix = full.take(i as int);
            let ghost prefix2 = full.take(i as int + 1);
            proof {
                assert(prefix2 =~= prefix.push(full[i as int]));
                let e = (full[i as int].shortcode@, full[i as int]);
                assert(store_entries(prefix2) =~= store_entries(prefix).push(e));
                lemma_assoc_map_push(store_entries(prefix), e);
                lemma_assoc_map_contains_key(store_entries(prefix), e.0);
                assert forall|j: int| 0 <= j < prefix.len() implies (#[trigger] store_entries(
                    prefix,
                )[j]).0 != e.0 by {
                    assert(store_entries(prefix)[j].0 == full[j].shortcode@);
                    assert(store_entries(full)[j].0 != store_entries(full)[i as int].0);
                }
                assert(!assoc_map(store_entries(prefix)).contains_key(e.0));
            }
            let clip = &self.clips[i];
            if clip.is_expired(now) {
                proof {
                    lemma_assoc_map_contains_key(store_entries(kept@), full[i as int].shortcode@);
                    assert forall|j: int| 0 <= j < kept@.len() implies (#[trigger] store_entries(
                        kept@,
                    )[j]).0 != full[i as int].shortcode@ by {
                        assert(store_entries(kept@)[j].0 == kept@[j].shortcode@);
                        assert(assoc_map(store_entries(kept@)).contains_key(kept@[j].shortcode@))
                            by {
                            lemma_assoc_map_index(store_entries(kept@), j);
                        }
                    }
                }
            } else {
                let keep = clip.clone();
                proof {
                    let ke = (keep.shortcode@, keep);
                    lemma_assoc_map_push(store_entries(kept@), ke);
                    assert(store_entries(kept@.push(keep)) =~= store_entries(kept@).push(ke));
                    assert forall|a: int, b: int|
                        0 <= a < b < store_entries(kept@).push(ke).len() implies (
                    #[trigger] store_entries(kept@).push(ke)[a]).0 != (#[trigger] store_entries(
                        kept@,
                    ).push(ke)[b]).0 by {
                        if b == kept@.len() {
                            assert(assoc_map(store_entries(kept@)).contains_key(
                                kept@[a].shortcode@,
                            )) by {
                                lemma_assoc_map_index(store_entries(kept@), a);
                            }
                            assert(!assoc_map(store_entries(prefix)).contains_key(ke.0));
                        }
                    }
                }
                kept.push(keep);
            }
            i += 1;
        }
        proof {
            assert(full.take(full.len() as int) =~= full);
            lemma_assoc_map_len(store_entries(full));
            lemma_assoc_map_len(store_entries(kept@));
        }
        let count = self.clips.len() - kept.len();
        self.clips = kept;
        count
    }
}

} // verus!
