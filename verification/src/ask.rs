use crate::field::{Password, Shortcode};
use vstd::prelude::*;

verus! {

/// A request to fetch a clip: a short code, with the password the
/// caller offers. No offered password means an empty offer.
#[derive(Debug)]
pub struct GetClip {
    pub shortcode: Shortcode,
    pub password: Password,
}

impl GetClip {
    /// A request for a raw short code, with no password offered.
    pub fn from_raw(shortcode: &str) -> (r: Self)
        ensures
            r.shortcode@ == shortcode@,
            r.password@ is None,
    {
        GetClip { shortcode: Shortcode::from_str(shortcode), password: Password::none() }
    }

    /// A request for an already-built short code, with no password
    /// offered.
    pub fn from_shortcode(shortcode: Shortcode) -> (r: Self)
        ensures
            r.shortcode == shortcode,
            r.password@ is None,
    {
        GetClip { shortcode, password: Password::none() }
    }
}

/// A request to create a clip, as it crosses the transport boundary:
/// raw text fields, validated by the service.
#[derive(Debug)]
pub struct NewClip {
    pub content: String,
    pub title: Option<String>,
    pub expires: Option<String>,
    pub password: Option<String>,
}

/// A request to replace the mutable fields of a stored clip. The
/// password both authorizes the change and becomes the stored password.
#[derive(Debug)]
pub struct UpdateClip {
    pub shortcode: String,
    pub content: String,
    pub title: Option<String>,
    pub expires: Option<String>,
    pub password: Option<String>,
}

} // verus!
