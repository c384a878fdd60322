use vstd::prelude::*;

verus! {

/// A 128-bit database identifier: the integer value of a UUID.
#[derive(Clone, Copy, PartialEq, Eq, Structural, Debug)]
pub struct Dbid {
    value: u128,
}

/// The identifier, if any, that a UUID text string denotes.
pub uninterp spec fn uuid_value(s: Seq<char>) -> Option<u128>;

/// The canonical hyphenated text of the UUID with the given value.
pub uninterp spec fn uuid_text(v: u128) -> Seq<char>;

impl Dbid {
    pub closed spec fn spec_value(&self) -> u128 {
        self.value
    }

    /// Relies on uuid's `Uuid::new_v4`: a fresh random identifier.
    /// Nothing is promised of the value.
    #[verifier::external_body]
    pub fn new() -> Dbid {
        Dbid { value: uuid::Uuid::new_v4().as_u128() }
    }

    pub fn nil() -> (r: Dbid)
        ensures
            r.spec_value() == 0,
    {
        Dbid { value: 0 }
    }

    pub fn value(&self) -> (v: u128)
        ensures
            v == self.spec_value(),
    {
        self.value
    }

    /// Relies on uuid's `Uuid::parse_str` and `Uuid::as_u128`: whether a
    /// string is UUID text, and the identifier it denotes, depend on the
    /// characters alone.
    #[verifier::external_body]
    pub fn parse(s: &str) -> (r: Option<Dbid>)
        ensures
            match r {
                Some(d) => uuid_value(s@) == Some(d.spec_value()),
                None => uuid_value(s@) is None,
            },
    {
        match uuid::Uuid::parse_str(s) {
            Ok(u) => Some(Dbid { value: u.as_u128() }),
            Err(_) => None,
        }
    }

    /// Relies on uuid's `Uuid::from_u128` and its display form: the
    /// hyphenated text of a UUID depends on its value alone, and
    /// `Uuid::parse_str` accepts exactly that text and gives the value
    /// back, so formatting and parsing round-trip.
    #[verifier::external_body]
    pub fn format(&self) -> (r: String)
        ensures
            r@ == uuid_text(self.spec_value()),
            uuid_value(r@) == Some(self.spec_value()),
    {
        uuid::Uuid::from_u128(self.value).to_string()
    }
}

} // verus!
