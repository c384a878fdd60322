use crate::clip::ClipError;
use crate::data::Dbid;
use crate::time::Time;
use vstd::prelude::*;
use vstd::string::StringExecFns;

verus! {

/// The input with leading and trailing whitespace removed.
pub uninterp spec fn trimmed(s: Seq<char>) -> Seq<char>;

/// Relies on `str::trim`: the trimmed text depends on the characters alone
/// and is never longer than the input.
#[verifier::external_body]
fn trim(s: &str) -> (r: &str)
    ensures
        r@ == trimmed(s@),
        r@.len() <= s@.len(),
{
    s.trim()
}

/// Relies on rand's `random`: a fresh pseudo-random byte.
/// Nothing is promised of the value.
#[verifier::external_body]
fn random_byte() -> u8 {
    rand::random::<u8>()
}

/// The text of an optional string field.
pub open spec fn opt_string_view(o: Option<String>) -> Option<Seq<char>> {
    match o {
        Some(s) => Some(s@),
        None => None,
    }
}

/// The stored form of an offered password: an absent or empty password
/// means "no password required".
pub open spec fn normalized_password(p: Option<Seq<char>>) -> Option<Seq<char>> {
    match p {
        Some(s) => if s.len() > 0 {
            Some(s)
        } else {
            None
        },
        None => None,
    }
}

/// The text body of a clip. Never empty once constructed.
#[derive(Debug)]
pub struct Content {
    inner: String,
}

impl View for Content {
    type V = Seq<char>;

    closed spec fn view(&self) -> Seq<char> {
        self.inner@
    }
}

impl Clone for Content {
    fn clone(&self) -> (r: Self)
        ensures
            r == *self,
    {
        Content { inner: self.inner.clone() }
    }
}

impl Content {
    /// Accepts any text that is non-empty after a whitespace trim and
    /// stores it verbatim; purely-whitespace text is rejected.
    pub fn new(content: &str) -> (r: Result<Content, ClipError>)
        ensures
            match r {
                Ok(c) => trimmed(content@).len() > 0 && c@ == content@ && c@.len() > 0,
                Err(e) => e == ClipError::EmptyContent && trimmed(content@).len() == 0,
            },
    {
        let t = trim(content);
        if t.is_empty() {
            Err(ClipError::EmptyContent)
        } else {
            Ok(Content { inner: content.to_owned() })
        }
    }

    pub fn into_inner(self) -> (s: String)
        ensures
            s@ == self@,
    {
        self.inner
    }

    pub fn as_str(&self) -> (s: &str)
        ensures
            s@ == self@,
    {
        self.inner.as_str()
    }
}

/// The optional display title of a clip; stored exactly as given.
#[derive(Debug)]
pub struct Title {
    inner: Option<String>,
}

impl View for Title {
    type V = Option<Seq<char>>;

    closed spec fn view(&self) -> Option<Seq<char>> {
        opt_string_view(self.inner)
    }
}

impl Clone for Title {
    fn clone(&self) -> (r: Self)
        ensures
            r == *self,
    {
        match &self.inner {
            Some(s) => Title { inner: Some(s.clone()) },
            None => Title { inner: None },
        }
    }
}

impl Title {
    pub fn new(title: Option<String>) -> (r: Title)
        ensures
            r@ == opt_string_view(title),
    {
        Title { inner: title }
    }

    pub fn into_inner(self) -> (s: Option<String>)
        ensures
            opt_string_view(s) == self@,
    {
        self.inner
    }
}

/// The optional password of a clip. An offered empty password is
/// normalized to "no password required".
#[derive(Debug)]
pub struct Password {
    inner: Option<String>,
}

impl View for Password {
    type V = Option<Seq<char>>;

    closed spec fn view(&self) -> Option<Seq<char>> {
        opt_string_view(self.inner)
    }
}

impl Clone for Password {
    fn clone(&self) -> (r: Self)
        ensures
            r == *self,
    {
        match &self.inner {
            Some(s) => Password { inner: Some(s.clone()) },
            None => Password { inner: None },
        }
    }
}

impl Password {
    pub fn new(password: Option<String>) -> (r: Password)
        ensures
            r@ == normalized_password(opt_string_view(password)),
    {
        match password {
            Some(s) => {
                if !s.as_str().is_empty() {
                    Password { inner: Some(s) }
                } else {
                    Password { inner: None }
                }
            },
            None => Password { inner: None },
        }
    }

    pub fn none() -> (r: Password)
        ensures
            r@ is None,
    {
        Password { inner: None }
    }

    pub fn has_password(&self) -> (b: bool)
        ensures
            b == (self@ is Some),
    {
        self.inner.is_some()
    }

    pub fn into_inner(self) -> (s: Option<String>)
        ensures
            opt_string_view(s) == self@,
    {
        self.inner
    }

    /// Tells whether an offered password opens a clip stored with this
    /// password: an unprotected clip opens for everyone, a protected
    /// one only for a byte-for-byte equal offer.
    pub fn accepts(&self, given: &Password) -> (b: bool)
        ensures
            b == password_accepted(self@, given@),
    {
        match (&self.inner, &given.inner) {
            (None, _) => true,
            (Some(p), Some(g)) => *p == *g,
            (Some(_), None) => false,
        }
    }
}

/// Tells whether an offered password opens a clip with the given stored
/// password.
pub open spec fn password_accepted(stored: Option<Seq<char>>, given: Option<Seq<char>>) -> bool {
    match stored {
        None => true,
        Some(p) => given == Some(p),
    }
}

/// The optional expiration instant of a clip; any instant is accepted.
#[derive(Clone, Copy, Debug)]
pub struct Expires {
    inner: Option<Time>,
}

impl View for Expires {
    type V = Option<int>;

    closed spec fn view(&self) -> Option<int> {
        match self.inner {
            Some(t) => Some(t.spec_seconds()),
            None => None,
        }
    }
}

impl Expires {
    pub fn new(expires: Option<Time>) -> (r: Expires)
        ensures
            r@ == match expires {
                Some(t) => Some(t.spec_seconds()),
                None => None::<int>,
            },
    {
        Expires { inner: expires }
    }

    pub fn into_inner(self) -> (t: Option<Time>)
        ensures
            self@ == match t {
                Some(t0) => Some(t0.spec_seconds()),
                None => None::<int>,
            },
    {
        self.inner
    }
}

/// Tells whether a character may appear in a generated short code.
pub open spec fn is_code_char(c: char) -> bool {
    c == 'a' || c == 'b' || c == 'c' || c == 'd' || c == '1' || c == '2' || c == '3' || c == '4'
}

/// Tells whether a string has the exact shape of a generated short code:
/// ten characters, all from the code alphabet.
pub open spec fn is_generated_code(s: Seq<char>) -> bool {
    &&& s.len() == 10
    &&& forall|i: int| 0 <= i < s.len() ==> is_code_char(#[trigger] s[i])
}

/// The URL-visible identifier of a clip. Freshly generated codes are ten
/// characters over the code alphabet; codes taken from the outside are
/// stored without validation.
#[derive(Debug)]
pub struct Shortcode {
    inner: String,
}

impl View for Shortcode {
    type V = Seq<char>;

    closed spec fn view(&self) -> Seq<char> {
        self.inner@
    }
}

impl Clone for Shortcode {
    fn clone(&self) -> (r: Self)
        ensures
            r == *self,
    {
        Shortcode { inner: self.inner.clone() }
    }
}

impl Shortcode {
    /// Draws a fresh random short code from the code alphabet.
    pub fn new() -> (r: Shortcode)
        ensures
            is_generated_code(r@),
    {
        let mut code = String::new();
        let mut i: usize = 0;
        while i < 10
            invariant
                i <= 10,
                code@.len() == i,
                forall|j: int| 0 <= j < i ==> is_code_char(#[trigger] code@[j]),
            decreases 10 - i,
        {
            let b = random_byte();
            let idx = b % 8;
            let piece: &str = if idx == 0 {
                "a"
            } else if idx == 1 {
                "b"
            } else if idx == 2 {
                "c"
            } else if idx == 3 {
                "d"
            } else if idx == 4 {
                "1"
            } else if idx == 5 {
                "2"
            } else if idx == 6 {
                "3"
            } else {
                "4"
            };
            proof {
                reveal_strlit("a");
                reveal_strlit("b");
                reveal_strlit("c");
                reveal_strlit("d");
                reveal_strlit("1");
                reveal_strlit("2");
                reveal_strlit("3");
                reveal_strlit("4");
            }
            code.append(piece);
            i += 1;
        }
        Shortcode { inner: code }
    }

    pub fn from_str(code: &str) -> (r: Shortcode)
        ensures
            r@ == code@,
    {
        Shortcode { inner: code.to_owned() }
    }

    pub fn from_string(code: String) -> (r: Shortcode)
        ensures
            r@ == code@,
    {
        Shortcode { inner: code }
    }

    pub fn as_str(&self) -> (s: &str)
        ensures
            s@ == self@,
    {
        self.inner.as_str()
    }

    pub fn into_inner(self) -> (s: String)
        ensures
            s@ == self@,
    {
        self.inner
    }

    pub fn eq_code(&self, other: &Shortcode) -> (b: bool)
        ensures
            b == (self@ == other@),
    {
        self.inner == other.inner
    }
}

/// The view count of a clip.
#[derive(Clone, Copy, PartialEq, Eq, Structural, Debug)]
pub struct Hits {
    pub count: u64,
}

impl Hits {
    pub open spec fn spec_count(&self) -> u64 {
        self.count
    }

    pub fn new(count: u64) -> (r: Hits)
        ensures
            r.spec_count() == count,
    {
        Hits { count }
    }

    pub fn into_inner(self) -> (n: u64)
        ensures
            n == self.spec_count(),
    {
        self.count
    }
}

/// The creation instant of a clip; immutable after creation.
#[derive(Clone, Copy, PartialEq, Eq, Structural, Debug)]
pub struct Posted {
    inner: Time,
}

impl Posted {
    pub closed spec fn spec_seconds(&self) -> int {
        self.inner.spec_seconds()
    }

    pub fn new(posted: Time) -> (r: Posted)
        ensures
            r.spec_seconds() == posted.spec_seconds(),
    {
        Posted { inner: posted }
    }

    pub fn into_inner(self) -> (t: Time)
        ensures
            t.spec_seconds() == self.spec_seconds(),
    {
        self.inner
    }
}

/// The opaque creation identifier of a clip.
#[derive(Clone, Copy, PartialEq, Eq, Structural, Debug)]
pub struct ClipId {
    inner: Dbid,
}

impl ClipId {
    pub closed spec fn spec_value(&self) -> u128 {
        self.inner.spec_value()
    }

    pub fn new(id: Dbid) -> (r: ClipId)
        ensures
            r.spec_value() == id.spec_value(),
    {
        ClipId { inner: id }
    }

    pub fn into_inner(self) -> (id: Dbid)
        ensures
            id.spec_value() == self.spec_value(),
    {
        self.inner
    }
}

} // verus!
