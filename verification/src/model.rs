use crate::clip::ClipError;
use crate::data::{uuid_text, uuid_value, Dbid};
use crate::field::{
    normalized_password, opt_string_view, trimmed, ClipId, Content, Expires, Hits, Password,
    Posted, Shortcode, Title,
};
use crate::time::Time;
use vstd::prelude::*;

verus! {

/// A row of the clips table, as a store hands it over: plain column
/// values, not yet validated.
#[derive(Debug)]
pub struct Clip {
    pub clip_id: String,
    pub shortcode: String,
    pub content: String,
    pub title: Option<String>,
    pub posted: i64,
    pub expires: Option<i64>,
    pub password: Option<String>,
    pub hits: i64,
}

impl Clip {
    /// Validates a raw row into a domain clip: the identifier must be
    /// UUID text, the content non-blank, the view count non-negative.
    pub fn into_domain(self) -> (r: Result<crate::clip::Clip, ClipError>)
        ensures
            match r {
                Ok(c) => {
                    &&& uuid_value(self.clip_id@) == Some(c.clip_id.spec_value())
                    &&& c.shortcode@ == self.shortcode@
                    &&& trimmed(self.content@).len() > 0
                    &&& c.content@ == self.content@
                    &&& c.title@ == opt_string_view(self.title)
                    &&& c.posted.spec_seconds() == self.posted
                    &&& c.expires@ == match self.expires {
                        Some(t) => Some(t as int),
                        None => None::<int>,
                    }
                    &&& c.password@ == normalized_password(opt_string_view(self.password))
                    &&& self.hits >= 0
                    &&& c.hits.spec_count() == self.hits
                },
                Err(ClipError::Id) => uuid_value(self.clip_id@) is None,
                Err(ClipError::EmptyContent) => uuid_value(self.clip_id@) is Some && trimmed(
                    self.content@,
                ).len() == 0,
                Err(ClipError::Hits) => {
                    &&& uuid_value(self.clip_id@) is Some
                    &&& trimmed(self.content@).len() > 0
                    &&& self.hits < 0
                },
                _ => false,
            },
    {
        let id = match Dbid::parse(self.clip_id.as_str()) {
            Some(d) => d,
            None => {
                return Err(ClipError::Id);
            },
        };
        let content = match Content::new(self.content.as_str()) {
            Ok(c) => c,
            Err(e) => {
                return Err(e);
            },
        };
        if self.hits < 0 {
            return Err(ClipError::Hits);
        }
        Ok(
            crate::clip::Clip {
                clip_id: ClipId::new(id),
                shortcode: Shortcode::from_string(self.shortcode),
                content,
                title: Title::new(self.title),
                posted: Posted::new(Time::new(self.posted)),
                expires: Expires::new(
                    match self.expires {
                        Some(t) => Some(Time::new(t)),
                        None => None,
                    },
                ),
                password: Password::new(self.password),
                hits: Hits::new(self.hits as u64),
            },
        )
    }

    /// The row a domain clip is persisted as.
    pub fn from_domain(c: &crate::clip::Clip) -> (r: Clip)
        requires
            c.hits.spec_count() <= i64::MAX,
        ensures
            r.clip_id@ == uuid_text(c.clip_id.spec_value()),
            uuid_value(r.clip_id@) == Some(c.clip_id.spec_value()),
            r.shortcode@ == c.shortcode@,
            r.content@ == c.content@,
            opt_string_view(r.title) == c.title@,
            r.posted == c.posted.spec_seconds(),
            (match r.expires {
                Some(t) => Some(t as int),
                None => None::<int>,
            }) == c.expires@,
            opt_string_view(r.password) == c.password@,
            r.hits == c.hits.spec_count(),
    {
        Clip {
            clip_id: c.clip_id.into_inner().format(),
            shortcode: c.shortcode.clone().into_inner(),
            content: c.content.clone().into_inner(),
            title: c.title.clone().into_inner(),
            posted: c.posted.into_inner().seconds(),
            expires: match c.expires.into_inner() {
                Some(t) => Some(t.seconds()),
                None => None,
            },
            password: c.password.clone().into_inner(),
            hits: c.hits.into_inner() as i64,
        }
    }
}

/// The single query column of a clip lookup.
#[derive(Debug)]
pub struct GetClip {
    pub shortcode: String,
}

impl GetClip {
    pub fn from_ask(req: crate::ask::GetClip) -> (r: Self)
        ensures
            r.shortcode@ == req.shortcode@,
    {
        GetClip { shortcode: req.shortcode.into_inner() }
    }

    pub fn from_shortcode(code: Shortcode) -> (r: Self)
        ensures
            r.shortcode@ == code@,
    {
        GetClip { shortcode: code.into_inner() }
    }

    pub fn from_string(code: String) -> (r: Self)
        ensures
            r.shortcode@ == code@,
    {
        GetClip { shortcode: code }
    }
}

/// The column values of a clip insertion.
#[derive(Debug)]
pub struct NewClip {
    pub clip_id: String,
    pub shortcode: String,
    pub content: String,
    pub title: Option<String>,
    pub posted: i64,
    pub expires: Option<i64>,
    pub password: Option<String>,
}

/// The column values of a clip update.
#[derive(Debug)]
pub struct UpdateClip {
    pub shortcode: String,
    pub content: String,
    pub title: Option<String>,
    pub expires: Option<i64>,
    pub password: Option<String>,
}

} // verus!
