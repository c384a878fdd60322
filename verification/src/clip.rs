use crate::field::{ClipId, Content, Expires, Hits, Password, Posted, Shortcode, Title};
use vstd::prelude::*;

verus! {

/// A validation failure while building clip fields.
#[derive(Clone, Copy, PartialEq, Eq, Structural, Debug)]
pub enum ClipError {
    InvalidPassword,
    InvalidTitle,
    EmptyContent,
    InvalidDate,
    Id,
    Hits,
}

/// A stored pastebin entry.
#[derive(Debug)]
pub struct Clip {
    pub clip_id: ClipId,
    pub shortcode: Shortcode,
    pub content: Content,
    pub title: Title,
    pub posted: Posted,
    pub expires: Expires,
    pub password: Password,
    pub hits: Hits,
}

impl Clone for Clip {
    fn clone(&self) -> (r: Self)
        ensures
            r == *self,
    {
        Clip {
            clip_id: self.clip_id,
            shortcode: self.shortcode.clone(),
            content: self.content.clone(),
            title: self.title.clone(),
            posted: self.posted,
            expires: self.expires,
            password: self.password.clone(),
            hits: self.hits,
        }
    }
}

/// The invariant of every stored or returned clip: the content is
/// non-empty, and a stored password is never the empty string.
pub open spec fn clip_wf(c: Clip) -> bool {
    &&& c.content@.len() > 0
    &&& match c.password@ {
        Some(p) => p.len() > 0,
        None => true,
    }
}

/// Tells whether a stored password value is in normalized form: either
/// absent or non-empty.
pub open spec fn password_wf(p: Option<Seq<char>>) -> bool {
    match p {
        Some(s) => s.len() > 0,
        None => true,
    }
}

/// Addition on view counters, capped at the largest representable count.
pub open spec fn sat_add_u64(a: u64, b: u64) -> u64 {
    if a + b > u64::MAX {
        u64::MAX
    } else {
        (a + b) as u64
    }
}

/// The same clip with its view count replaced.
pub open spec fn with_hits(c: Clip, h: u64) -> Clip {
    Clip { hits: Hits { count: h }, ..c }
}

/// Tells whether a clip's expiration instant lies strictly in the past.
pub open spec fn spec_is_expired(c: Clip, now: int) -> bool {
    match c.expires@ {
        Some(t) => now > t,
        None => false,
    }
}

impl Clip {
    /// Tells whether the clip has expired by the given instant.
    pub fn is_expired(&self, now: crate::time::Time) -> (b: bool)
        ensures
            b == spec_is_expired(*self, now.spec_seconds()),
    {
        match self.expires.into_inner() {
            Some(t) => now.seconds() > t.seconds(),
            None => false,
        }
    }
}

} // verus!
