use crate::ask;
use crate::clip::{clip_wf, spec_is_expired, with_hits, Clip, ClipError};
use crate::counter::{spec_record_hit, HitCounter};
use crate::field::{
    is_generated_code, normalized_password, opt_string_view, password_accepted, trimmed, Content,
    Expires, Password, Shortcode, Title,
};
use crate::store::ClipStore;
use crate::time::{rfc3339_seconds, Time};
use vstd::prelude::*;

verus! {

/// A failure of a service action.
#[derive(Clone, Copy, PartialEq, Eq, Structural, Debug)]
pub enum ServiceError {
    /// A request field failed validation.
    Validation(ClipError),
    /// The short code is unknown, or the clip has expired.
    NotFound,
    /// The offered password does not open the stored clip.
    PermissionDenied,
    /// Fresh short codes collided too many times in a row.
    Internal,
}

/// Tells whether a raw expiration field is acceptable: absent, or an
/// RFC 3339 date-time.
pub open spec fn expires_valid(e: Option<String>) -> bool {
    match e {
        None => true,
        Some(s) => rfc3339_seconds(s@) is Some,
    }
}

/// The instant an acceptable raw expiration field denotes.
pub open spec fn spec_parsed_expires(e: Option<String>) -> Option<int> {
    match e {
        None => None,
        Some(s) => rfc3339_seconds(s@),
    }
}

fn clone_opt_string(o: &Option<String>) -> (r: Option<String>)
    ensures
        r == *o,
{
    match o {
        Some(s) => Some(s.clone()),
        None => None,
    }
}

fn parse_expires(e: &Option<String>) -> (r: Result<Expires, ClipError>)
    ensures
        match r {
            Ok(x) => expires_valid(*e) && x@ == spec_parsed_expires(*e),
            Err(err) => err == ClipError::InvalidDate && !expires_valid(*e),
        },
{
    match e {
        None => Ok(Expires::new(None)),
        Some(s) => match Time::parse_rfc3339(s.as_str()) {
            Some(t) => Ok(Expires::new(Some(t))),
            None => Err(ClipError::InvalidDate),
        },
    }
}

/// Fetches a clip by short code. An unknown or expired code is
/// `NotFound`. A protected clip opens only for a matching password,
/// else `PermissionDenied`. On success one hit event for the code is
/// recorded with the hit counter; no other outcome touches it.
pub fn get_clip(req: &ask::GetClip, store: &ClipStore, counter: &mut HitCounter, now: Time) -> (r:
    Result<Clip, ServiceError>)
    requires
        store.wf(),
        old(counter).wf(),
    ensures
        final(counter).wf(),
        match r {
            Ok(c) => {
                &&& store@.contains_key(req.shortcode@)
                &&& !spec_is_expired(store@[req.shortcode@], now.spec_seconds())
                &&& password_accepted(store@[req.shortcode@].password@, req.password@)
                &&& c == store@[req.shortcode@]
                &&& clip_wf(c)
                &&& c.shortcode@ == req.shortcode@
                &&& final(counter)@ == spec_record_hit(old(counter)@, req.shortcode@, 1)
            },
            Err(ServiceError::NotFound) => {
                &&& !store@.contains_key(req.shortcode@) || spec_is_expired(
                    store@[req.shortcode@],
                    now.spec_seconds(),
                )
                &&& final(counter)@ == old(counter)@
            },
            Err(ServiceError::PermissionDenied) => {
                &&& store@.contains_key(req.shortcode@)
                &&& !spec_is_expired(store@[req.shortcode@], now.spec_seconds())
                &&& !password_accepted(store@[req.shortcode@].password@, req.password@)
                &&& final(counter)@ == old(counter)@
            },
            _ => false,
        },
{
    match store.get_clip(&req.shortcode, now) {
        None => Err(ServiceError::NotFound),
        Some(c) => {
            if c.password.accepts(&req.password) {
                counter.hit(&req.shortcode, 1);
                Ok(c)
            } else {
                Err(ServiceError::PermissionDenied)
            }
        },
    }
}

/// Creates a clip from a raw request. The content must be non-blank
/// and the expiration, when given, RFC 3339; the store assigns a fresh
/// short code, stamps the creation instant, and starts the view count
/// at zero. `Internal` is the one outcome of exhausted short-code
/// retries; it takes collisions, so it never happens on an empty store.
pub fn new_clip(req: &ask::NewClip, store: &mut ClipStore, now: Time) -> (r: Result<
    Clip,
    ServiceError,
>)
    requires
        old(store).wf(),
    ensures
        final(store).wf(),
        match r {
            Ok(c) => {
                &&& trimmed(req.content@).len() > 0
                &&& expires_valid(req.expires)
                &&& c.content@ == req.content@
                &&& c.title@ == opt_string_view(req.title)
                &&& c.expires@ == spec_parsed_expires(req.expires)
                &&& c.password@ == normalized_password(opt_string_view(req.password))
                &&& c.posted.spec_seconds() == now.spec_seconds()
                &&& c.hits.spec_count() == 0
                &&& is_generated_code(c.shortcode@)
                &&& !old(store)@.contains_key(c.shortcode@)
                &&& final(store)@ == old(store)@.insert(c.shortcode@, c)
            },
            Err(ServiceError::Validation(ClipError::EmptyContent)) => trimmed(req.content@).len()
                == 0 && final(store)@ == old(store)@,
            Err(ServiceError::Validation(ClipError::InvalidDate)) => {
                &&& trimmed(req.content@).len() > 0
                &&& !expires_valid(req.expires)
                &&& final(store)@ == old(store)@
            },
            Err(ServiceError::Internal) => {
                &&& trimmed(req.content@).len() > 0
                &&& expires_valid(req.expires)
                &&& old(store)@.len() > 0
                &&& final(store)@ == old(store)@
            },
            _ => false,
        },
{
    let content = match Content::new(req.content.as_str()) {
        Ok(c) => c,
        Err(e) => {
            return Err(ServiceError::Validation(e));
        },
    };
    let expires = match parse_expires(&req.expires) {
        Ok(x) => x,
        Err(e) => {
            return Err(ServiceError::Validation(e));
        },
    };
    let title = Title::new(clone_opt_string(&req.title));
    let password = Password::new(clone_opt_string(&req.password));
    match store.new_clip(content, title, expires, password, now) {
        Some(c) => Ok(c),
        None => Err(ServiceError::Internal),
    }
}

/// Replaces the mutable fields of a stored clip: content, title,
/// expiration and password. The offered password must open the stored
/// clip, and becomes the stored password. The clip's identifier,
/// creation instant and view count never change.
pub fn update_clip(req: &ask::UpdateClip, store: &mut ClipStore, now: Time) -> (r: Result<
    Clip,
    ServiceError,
>)
    requires
        old(store).wf(),
    ensures
        final(store).wf(),
        match r {
            Ok(c) => {
                &&& trimmed(req.content@).len() > 0
                &&& expires_valid(req.expires)
                &&& old(store)@.contains_key(req.shortcode@)
                &&& !spec_is_expired(old(store)@[req.shortcode@], now.spec_seconds())
                &&& password_accepted(
                    old(store)@[req.shortcode@].password@,
                    normalized_password(opt_string_view(req.password)),
                )
                &&& c.clip_id == old(store)@[req.shortcode@].clip_id
                &&& c.shortcode == old(store)@[req.shortcode@].shortcode
                &&& c.content@ == req.content@
                &&& c.title@ == opt_string_view(req.title)
                &&& c.expires@ == spec_parsed_expires(req.expires)
                &&& c.password@ == normalized_password(opt_string_view(req.password))
                &&& c.posted == old(store)@[req.shortcode@].posted
                &&& c.hits == old(store)@[req.shortcode@].hits
                &&& final(store)@ == old(store)@.insert(req.shortcode@, c)
            },
            Err(ServiceError::Validation(ClipError::EmptyContent)) => trimmed(req.content@).len()
                == 0 && final(store)@ == old(store)@,
            Err(ServiceError::Validation(ClipError::InvalidDate)) => {
                &&& trimmed(req.content@).len() > 0
                &&& !expires_valid(req.expires)
                &&& final(store)@ == old(store)@
            },
            Err(ServiceError::NotFound) => {
                &&& trimmed(req.content@).len() > 0
                &&& expires_valid(req.expires)
                &&& (!old(store)@.contains_key(req.shortcode@) || spec_is_expired(
                    old(store)@[req.shortcode@],
                    now.spec_seconds(),
                ))
                &&& final(store)@ == old(store)@
            },
            Err(ServiceError::PermissionDenied) => {
                &&& trimmed(req.content@).len() > 0
                &&& expires_valid(req.expires)
                &&& old(store)@.contains_key(req.shortcode@)
                &&& !spec_is_expired(old(store)@[req.shortcode@], now.spec_seconds())
                &&& !password_accepted(
                    old(store)@[req.shortcode@].password@,
                    normalized_password(opt_string_view(req.password)),
                )
                &&& final(store)@ == old(store)@
            },
            _ => false,
        },
{
    let content = match Content::new(req.content.as_str()) {
        Ok(c) => c,
        Err(e) => {
            return Err(ServiceError::Validation(e));
        },
    };
    let expires = match parse_expires(&req.expires) {
        Ok(x) => x,
        Err(e) => {
            return Err(ServiceError::Validation(e));
        },
    };
    let sc = Shortcode::from_str(req.shortcode.as_str());
    let offered = Password::new(clone_opt_string(&req.password));
    match store.get_clip(&sc, now) {
        None => Err(ServiceError::NotFound),
        Some(stored) => {
            if stored.password.accepts(&offered) {
                let title = Title::new(clone_opt_string(&req.title));
                match store.update_clip(&sc, content, title, expires, offered) {
                    Some(c) => Ok(c),
                    // The lookup above has just found this short code.
                    None => vstd::pervasive::unreached(),
                }
            } else {
                Err(ServiceError::PermissionDenied)
            }
        },
    }
}

/// Deletes every clip whose expiration lies strictly before `now` and
/// returns how many were removed; every other clip stays untouched.
pub fn delete_expired(store: &mut ClipStore, now: Time) -> (count: usize)
    requires
        old(store).wf(),
    ensures
        final(store).wf(),
        forall|k: Seq<char>| #[trigger] final(store)@.contains_key(k) <==> (old(
            store,
        )@.contains_key(k) && !spec_is_expired(old(store)@[k], now.spec_seconds())),
        forall|k: Seq<char>| #[trigger] final(store)@.contains_key(k) ==> final(store)@[k] == old(
            store,
        )@[k],
        old(store)@.dom().finite(),
        final(store)@.dom().finite(),
        count == old(store)@.len() - final(store)@.len(),
{
    store.delete_expired(now)
}

/// Short-code round trip: wherever the store holds, under a clip's own
/// short code, that clip with at most its view count grown, a lookup
/// with the clip's own password passes the password gate and yields a
/// clip equal to it in every field but the view count. Together with
/// the contract of `get_clip` this pins the lookup's result, as long as
/// the clip has not expired by lookup time.
pub proof fn lemma_shortcode_roundtrip(m: Map<Seq<char>, Clip>, c: Clip, now: int)
    requires
        m.contains_key(c.shortcode@),
        m[c.shortcode@] == with_hits(c, m[c.shortcode@].hits.spec_count()),
        !spec_is_expired(m[c.shortcode@], now),
    ensures
        password_accepted(m[c.shortcode@].password@, c.password@),
        m[c.shortcode@].clip_id == c.clip_id,
        m[c.shortcode@].shortcode == c.shortcode,
        m[c.shortcode@].content == c.content,
        m[c.shortcode@].title == c.title,
        m[c.shortcode@].posted == c.posted,
        m[c.shortcode@].expires == c.expires,
        m[c.shortcode@].password == c.password,
{
}

} // verus!
