use crate::error::Error;
use vstd::prelude::*;
use vstd::string::*;

verus! {

/// Whether a validator is weak: it starts with `W/`.
pub open spec fn is_weak_text(s: Seq<char>) -> bool {
    s.len() >= 2 && s[0] == 'W' && s[1] == '/'
}

/// An opaque validator for conditional requests, weak (`W/`-prefixed) or
/// strong. It reads as the text it was made from.
#[derive(Debug, Clone, PartialEq, Eq)]
pub struct Etag(String);

impl View for Etag {
    type V = Seq<char>;

    closed spec fn view(&self) -> Seq<char> {
        self.0@
    }
}

impl Etag {
    /// The validator with the text `s`.
    pub fn new(s: String) -> (r: Etag)
        ensures
            r@ == s@,
    {
        Etag(s)
    }

    /// Whether this is a weak validator.
    pub fn is_weak(&self) -> (r: bool)
        ensures
            r == is_weak_text(self@),
    {
        let s = self.0.as_str();
        if s.unicode_len() < 2 {
            return false;
        }
        s.get_char(0) == 'W' && s.get_char(1) == '/'
    }

    /// The validator's text, as it was given.
    pub fn as_str(&self) -> (r: &str)
        ensures
            r@ == self@,
    {
        self.0.as_str()
    }

    /// The validator's text, as it was given.
    pub fn to_string(&self) -> (r: String)
        ensures
            r@ == self@,
    {
        self.0.clone()
    }
}

impl From<&'static str> for Etag {
    fn from(s: &'static str) -> (r: Etag) {
        Etag(String::from_str(s))
    }
}

impl vstd::std_specs::convert::FromSpecImpl<&'static str> for Etag {
    open spec fn obeys_from_spec() -> bool {
        false
    }

    closed spec fn from_spec(s: &'static str) -> Etag {
        arbitrary()
    }
}

impl From<String> for Etag {
    fn from(s: String) -> (r: Etag) {
        Etag(s)
    }
}

impl vstd::std_specs::convert::FromSpecImpl<String> for Etag {
    open spec fn obeys_from_spec() -> bool {
        true
    }

    closed spec fn from_spec(s: String) -> Etag {
        Etag(s)
    }
}

impl std::str::FromStr for Etag {
    type Err = Error;

    fn from_str(s: &str) -> Result<Etag, Error> {
        Ok(Etag(s.to_owned()))
    }
}

/// An etag made from a `String` by `From` holds that text.
pub broadcast proof fn lemma_from_string(s: String)
    ensures
        (#[trigger] <Etag as vstd::std_specs::convert::FromSpec<String>>::from_spec(s))@ == s@,
{
}

} // verus!
