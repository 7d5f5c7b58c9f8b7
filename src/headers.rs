use crate::error::{error_text, Error, ErrorKind};
use vstd::prelude::*;
use vstd::string::*;

verus! {

/// Whether `s` holds no ASCII capital letter.
pub open spec fn no_ascii_upper(s: Seq<char>) -> bool {
    forall|i: int| 0 <= i < s.len() ==> !('A' <= #[trigger] s[i] && s[i] <= 'Z')
}

/// Relies on `str::to_lowercase`: the lowercase mapping of each character.
pub uninterp spec fn lowercase_of(s: Seq<char>) -> Seq<char>;

/// Relies on `str::to_lowercase`, which maps every character to its lowercase
/// form: an ASCII capital becomes its small letter, and no character maps to
/// an ASCII capital.
#[verifier::external_body]
fn to_lowercase(s: &str) -> (r: String)
    ensures
        r@ == lowercase_of(s@),
        no_ascii_upper(r@),
{
    s.to_lowercase()
}

/// Whether `s` may be used as a header name: it holds no ASCII capital letter.
pub fn ensure_no_uppercase(s: &str) -> (r: bool)
    ensures
        r == no_ascii_upper(s@),
{
    let n = s.unicode_len();
    let mut i: usize = 0;
    while i < n
        invariant
            n == s@.len(),
            i <= n,
            forall|j: int| 0 <= j < i ==> !('A' <= #[trigger] s@[j] && s@[j] <= 'Z'),
        decreases n - i,
    {
        let c = s.get_char(i);
        if 'A' <= c && c <= 'Z' {
            return false;
        }
        i = i + 1;
    }
    true
}

/// A header name. Names are compared as written; the constructors from
/// fixed text refuse capital letters, and the one from owned text lowercases.
#[derive(Clone, Debug, Hash, Eq, PartialEq, PartialOrd, Ord)]
pub struct HeaderName(String);

impl View for HeaderName {
    type V = Seq<char>;

    closed spec fn view(&self) -> Seq<char> {
        self.0@
    }
}

impl HeaderName {
    /// A name from fixed text, which must hold no capital letter.
    pub fn from_static(s: &'static str) -> (r: HeaderName)
        requires
            no_ascii_upper(s@),
        ensures
            r@ == s@,
    {
        HeaderName(String::from_str(s))
    }

    /// A name from text, which must hold no capital letter.
    pub fn from_cow(s: String) -> (r: HeaderName)
        requires
            no_ascii_upper(s@),
        ensures
            r@ == s@,
    {
        HeaderName(s)
    }

    /// A name from any text: the text is lowercased.
    pub fn from_string(s: String) -> (r: HeaderName)
        ensures
            r@ == lowercase_of(s@),
            no_ascii_upper(r@),
    {
        HeaderName(to_lowercase(s.as_str()))
    }

    pub fn as_str(&self) -> (r: &str)
        ensures
            r@ == self@,
    {
        self.0.as_str()
    }

    /// A copy of this name.
    pub fn duplicate(&self) -> (r: HeaderName)
        ensures
            r == *self,
    {
        HeaderName(self.0.clone())
    }
}

/// A header value.
#[derive(Clone, Debug, PartialEq, Eq)]
pub struct HeaderValue(String);

impl View for HeaderValue {
    type V = Seq<char>;

    closed spec fn view(&self) -> Seq<char> {
        self.0@
    }
}

impl HeaderValue {
    pub fn from_static(s: &'static str) -> (r: HeaderValue)
        ensures
            r@ == s@,
    {
        HeaderValue(String::from_str(s))
    }

    pub fn from_cow(s: String) -> (r: HeaderValue)
        ensures
            r@ == s@,
    {
        HeaderValue(s)
    }

    pub fn as_str(&self) -> (r: &str)
        ensures
            r@ == self@,
    {
        self.0.as_str()
    }

    /// A copy of this value.
    pub fn duplicate(&self) -> (r: HeaderValue)
        ensures
            r == *self,
    {
        HeaderValue(self.0.clone())
    }
}

impl From<String> for HeaderName {
    fn from(s: String) -> (r: HeaderName) {
        HeaderName::from_string(s)
    }
}

impl vstd::std_specs::convert::FromSpecImpl<String> for HeaderName {
    open spec fn obeys_from_spec() -> bool {
        false
    }

    open spec fn from_spec(s: String) -> HeaderName {
        arbitrary()
    }
}

impl From<&'static str> for HeaderValue {
    fn from(s: &'static str) -> (r: HeaderValue) {
        HeaderValue::from_static(s)
    }
}

impl vstd::std_specs::convert::FromSpecImpl<&'static str> for HeaderValue {
    open spec fn obeys_from_spec() -> bool {
        false
    }

    open spec fn from_spec(s: &'static str) -> HeaderValue {
        arbitrary()
    }
}

impl<'a> From<&'a String> for HeaderValue {
    fn from(s: &'a String) -> (r: HeaderValue) {
        HeaderValue::from_cow(s.clone())
    }
}

impl<'a> vstd::std_specs::convert::FromSpecImpl<&'a String> for HeaderValue {
    open spec fn obeys_from_spec() -> bool {
        false
    }

    open spec fn from_spec(s: &'a String) -> HeaderValue {
        arbitrary()
    }
}

impl From<String> for HeaderValue {
    fn from(s: String) -> (r: HeaderValue) {
        HeaderValue::from_cow(s)
    }
}

impl vstd::std_specs::convert::FromSpecImpl<String> for HeaderValue {
    open spec fn obeys_from_spec() -> bool {
        false
    }

    open spec fn from_spec(s: String) -> HeaderValue {
        arbitrary()
    }
}

/// The map that a list of name/value pairs stands for: a later pair wins.
pub closed spec fn entries_view(s: Seq<(HeaderName, HeaderValue)>) -> Map<Seq<char>, Seq<char>>
    decreases s.len(),
{
    if s.len() == 0 {
        Map::empty()
    } else {
        entries_view(s.drop_last()).insert(s.last().0@, s.last().1@)
    }
}

/// No pair after `j` has the name `k`.
spec fn last_with(s: Seq<(HeaderName, HeaderValue)>, j: int, k: Seq<char>) -> bool {
    &&& 0 <= j < s.len()
    &&& s[j].0@ == k
    &&& forall|i: int| j < i < s.len() ==> (#[trigger] s[i]).0@ != k
}

proof fn lemma_absent(s: Seq<(HeaderName, HeaderValue)>, k: Seq<char>)
    requires
        forall|i: int| 0 <= i < s.len() ==> (#[trigger] s[i]).0@ != k,
    ensures
        !entries_view(s).contains_key(k),
    decreases s.len(),
{
    if s.len() > 0 {
        lemma_absent(s.drop_last(), k);
    }
}

proof fn lemma_found(s: Seq<(HeaderName, HeaderValue)>, j: int, k: Seq<char>)
    requires
        last_with(s, j, k),
    ensures
        entries_view(s).contains_key(k),
        entries_view(s)[k] == s[j].1@,
    decreases s.len(),
{
    if j < s.len() - 1 {
        lemma_found(s.drop_last(), j, k);
    }
}

proof fn lemma_replace(
    s: Seq<(HeaderName, HeaderValue)>,
    j: int,
    name: HeaderName,
    value: HeaderValue,
)
    requires
        last_with(s, j, name@),
    ensures
        entries_view(s.update(j, (name, value))) == entries_view(s).insert(name@, value@),
    decreases s.len(),
{
    let t = s.update(j, (name, value));
    if j == s.len() - 1 {
        assert(t.drop_last() == s.drop_last());
    } else {
        assert(t.drop_last() == s.drop_last().update(j, (name, value)));
        lemma_replace(s.drop_last(), j, name, value);
    }
    assert(entries_view(t) =~= entries_view(s).insert(name@, value@));
}

/// A collection of headers: at most one value per name.
#[derive(Clone, Debug)]
pub struct Headers(Vec<(HeaderName, HeaderValue)>);

impl View for Headers {
    type V = Map<Seq<char>, Seq<char>>;

    closed spec fn view(&self) -> Map<Seq<char>, Seq<char>> {
        entries_view(self.0@)
    }
}

impl Headers {
    /// No headers.
    pub fn new() -> (r: Headers)
        ensures
            r@ == Map::<Seq<char>, Seq<char>>::empty(),
    {
        Headers(Vec::new())
    }

    /// Where the pair for `key` stands, if there is one.
    fn position(&self, key: &HeaderName) -> (r: Option<usize>)
        ensures
            match r {
                Some(j) => last_with(self.0@, j as int, key@),
                None => forall|i: int|
                    0 <= i < self.0@.len() ==> (#[trigger] self.0@[i]).0@ != key@,
            },
    {
        let mut i: usize = self.0.len();
        while i > 0
            invariant
                i <= self.0@.len(),
                forall|m: int| i <= m < self.0@.len() ==> (#[trigger] self.0@[m]).0@ != key@,
            decreases i,
        {
            if self.0[i - 1].0.0 == key.0 {
                return Some(i - 1);
            }
            i = i - 1;
        }
        None
    }

    /// The value stored under `key`, if any.
    fn find(&self, key: &HeaderName) -> (r: Option<&HeaderValue>)
        ensures
            match r {
                Some(v) => self@.contains_key(key@) && self@[key@] == v@,
                None => !self@.contains_key(key@),
            },
    {
        match self.position(key) {
            Some(j) => {
                proof {
                    lemma_found(self.0@, j as int, key@);
                }
                Some(&self.0[j].1)
            },
            None => {
                proof {
                    lemma_absent(self.0@, key@);
                }
                None
            },
        }
    }

    /// Stores `value` under `key`, replacing what was there.
    pub fn insert(&mut self, key: HeaderName, value: HeaderValue)
        ensures
            final(self)@ == old(self)@.insert(key@, value@),
    {
        match self.position(&key) {
            Some(j) => {
                proof {
                    lemma_replace(self.0@, j as int, key, value);
                }
                self.0.set(j, (key, value));
            },
            None => {
                proof {
                    assert(self.0@.push((key, value)).drop_last() == self.0@);
                }
                self.0.push((key, value));
            },
        }
    }

    /// A copy of these headers.
    pub fn duplicate(&self) -> (r: Headers)
        ensures
            r@ == self@,
    {
        Headers(self.iter())
    }

    /// All name/value pairs, in no particular order.
    pub fn iter(&self) -> (r: Vec<(HeaderName, HeaderValue)>)
        ensures
            entries_view(r@) == self@,
    {
        let mut r: Vec<(HeaderName, HeaderValue)> = Vec::new();
        let mut i: usize = 0;
        while i < self.0.len()
            invariant
                i <= self.0@.len(),
                r@ == self.0@.subrange(0, i as int),
            decreases self.0@.len() - i,
        {
            let (name, value) = (self.0[i].0.duplicate(), self.0[i].1.duplicate());
            r.push((name, value));
            proof {
                assert(self.0@.subrange(0, i + 1) == self.0@.subrange(0, i as int).push(self.0@[i as int]));
            }
            i = i + 1;
        }
        proof {
            assert(self.0@.subrange(0, self.0@.len() as int) == self.0@);
        }
        r
    }
    /// The value under `key` as text, or a `DataConversion` error that says
    /// the header is missing.
    pub fn get_str(&self, key: &HeaderName) -> (r: Result<&str, Error>)
        ensures
            match r {
                Ok(v) => self@.contains_key(key@) && v@ == self@[key@],
                Err(e) => !self@.contains_key(key@) && is_not_found(e, key@),
            },
    {
        match self.find(key) {
            Some(v) => Ok(v.as_str()),
            None => Err(not_found(key)),
        }
    }

    /// The value under `key` as text, if there is one.
    pub fn get_optional_str(&self, key: &HeaderName) -> (r: Option<&str>)
        ensures
            match r {
                Some(v) => self@.contains_key(key@) && v@ == self@[key@],
                None => !self@.contains_key(key@),
            },
    {
        match self.find(key) {
            Some(v) => Some(v.as_str()),
            None => None,
        }
    }

    /// A copy of the value under `key`, if there is one.
    pub fn get_optional_string(&self, key: &HeaderName) -> (r: Option<String>)
        ensures
            match r {
                Some(v) => self@.contains_key(key@) && v@ == self@[key@],
                None => !self@.contains_key(key@),
            },
    {
        match self.find(key) {
            Some(v) => Some(v.0.clone()),
            None => None,
        }
    }

    /// Runs `parser` on the value under `key`, if there is one. A failure of
    /// the parser becomes the cause of a `DataConversion` error that names
    /// the header.
    pub fn get_optional_with<V, F: FnOnce(&HeaderValue) -> Result<V, Error>>(
        &self,
        key: &HeaderName,
        parser: F,
    ) -> (r: Result<Option<V>, Error>)
        requires
            forall|v: &HeaderValue| #[trigger] call_requires(parser, (v,)),
        ensures
            !self@.contains_key(key@) ==> r matches Ok(None),
            self@.contains_key(key@) ==> exists|v: &HeaderValue, p: Result<V, Error>|
                #[trigger] call_ensures(parser, (v,), p) && v@ == self@[key@] && parsed(
                    p,
                    r,
                    key@,
                    v@,
                ),
    {
        match self.find(key) {
            None => Ok(None),
            Some(v) => {
                let p = parser(v);
                let r = match p {
                    Ok(x) => Ok(Some(x)),
                    Err(e) => Err(e.context(ErrorKind::DataConversion, parse_failure_text(key, v))),
                };
                assert(call_ensures(parser, (v,), p) && v@ == self@[key@] && parsed(p, r, key@, v@));
                r
            },
        }
    }

    /// As `get_optional_with`, where a missing header is a `DataConversion`
    /// error that says so.
    pub fn get_with<V, F: FnOnce(&HeaderValue) -> Result<V, Error>>(
        &self,
        key: &HeaderName,
        parser: F,
    ) -> (r: Result<V, Error>)
        requires
            forall|v: &HeaderValue| #[trigger] call_requires(parser, (v,)),
        ensures
            !self@.contains_key(key@) ==> r is Err && is_not_found(r->Err_0, key@),
            self@.contains_key(key@) ==> exists|v: &HeaderValue, p: Result<V, Error>|
                #[trigger] call_ensures(parser, (v,), p) && v@ == self@[key@] && match p {
                    Ok(x) => r == Ok::<V, Error>(x),
                    Err(e) => r is Err && is_parse_failure(r->Err_0, e, key@, v@),
                },
    {
        match self.get_optional_with(key, parser) {
            Ok(Some(x)) => Ok(x),
            Ok(None) => Err(not_found(key)),
            Err(e) => Err(e),
        }
    }
    /// The value under `key` parsed as a `V`. A missing header, or text that
    /// does not parse, is a `DataConversion` error.
    pub fn get_as<V: std::str::FromStr>(&self, key: &HeaderName) -> (r: Result<V, Error>)
        ensures
            !self@.contains_key(key@) ==> r is Err && is_not_found(r->Err_0, key@),
            self@.contains_key(key@) ==> r is Ok || r->Err_0.message_spec() == Some(
                parse_failure_message(key@, self@[key@]),
            ),
            r is Err ==> r->Err_0.kind_spec() == ErrorKind::DataConversion,
    {
        self.get_with(key, |v: &HeaderValue| -> (p: Result<V, Error>)
            ensures
                p is Err ==> p->Err_0.kind_spec() == ErrorKind::DataConversion,
            { parse_value::<V>(v) })
    }

    /// As `get_as`, where a missing header is `None`.
    pub fn get_optional_as<V: std::str::FromStr>(&self, key: &HeaderName) -> (r: Result<
        Option<V>,
        Error,
    >)
        ensures
            !self@.contains_key(key@) ==> r matches Ok(None),
            self@.contains_key(key@) ==> r matches Ok(Some(_)) || r->Err_0.message_spec() == Some(
                parse_failure_message(key@, self@[key@]),
            ),
            r is Err ==> r->Err_0.kind_spec() == ErrorKind::DataConversion,
    {
        self.get_optional_with(key, |v: &HeaderValue| -> (p: Result<V, Error>)
            ensures
                p is Err ==> p->Err_0.kind_spec() == ErrorKind::DataConversion,
            { parse_value::<V>(v) })
    }

    /// Inserts each pair that `header` stands for, in order.
    pub fn add<H: AsHeaders>(&mut self, header: H)
        ensures
            exists|s: Seq<(Seq<char>, Seq<char>)>| final(self)@ == insert_all(old(self)@, s),
    {
        self.add_all(&header);
    }

    /// Inserts each pair that `header` stands for, in order.
    pub(crate) fn add_all<H: AsHeaders>(&mut self, header: &H)
        ensures
            exists|s: Seq<(Seq<char>, Seq<char>)>| final(self)@ == insert_all(old(self)@, s),
    {
        let pairs = header.as_headers();
        self.insert_pairs(pairs);
    }

    /// Inserts each of `pairs`, in order.
    pub fn insert_pairs(&mut self, pairs: Vec<(HeaderName, HeaderValue)>)
        ensures
            final(self)@ == insert_all(old(self)@, pair_views(pairs@)),
    {
        let mut i: usize = 0;
        while i < pairs.len()
            invariant
                i <= pairs@.len(),
                self@ == insert_all(old(self)@, pair_views(pairs@).subrange(0, i as int)),
            decreases pairs@.len() - i,
        {
            let name = pairs[i].0.duplicate();
            let value = pairs[i].1.duplicate();
            self.insert(name, value);
            proof {
                let s = pair_views(pairs@);
                assert(s.subrange(0, i + 1).drop_last() == s.subrange(0, i as int));
            }
            i = i + 1;
        }
        proof {
            let s = pair_views(pairs@);
            assert(s.subrange(0, s.len() as int) == s);
        }
    }
}

/// The names and values of `pairs`, as text.
pub open spec fn pair_views(pairs: Seq<(HeaderName, HeaderValue)>) -> Seq<(Seq<char>, Seq<char>)> {
    pairs.map_values(|p: (HeaderName, HeaderValue)| (p.0@, p.1@))
}

impl Default for Headers {
    fn default() -> (r: Headers)
        ensures
            r@ == Map::<Seq<char>, Seq<char>>::empty(),
    {
        Headers::new()
    }
}

/// `m` with each pair of `s` inserted in order.
pub open spec fn insert_all(
    m: Map<Seq<char>, Seq<char>>,
    s: Seq<(Seq<char>, Seq<char>)>,
) -> Map<Seq<char>, Seq<char>>
    decreases s.len(),
{
    if s.len() == 0 {
        m
    } else {
        insert_all(m, s.drop_last()).insert(s.last().0, s.last().1)
    }
}

/// Relies on `str::parse` (through `FromStr`): `None` where the text does
/// not parse.
#[verifier::external_body]
fn parse_text<V: std::str::FromStr>(s: &str) -> (r: Option<V>) {
    s.parse::<V>().ok()
}

fn parse_value<V: std::str::FromStr>(v: &HeaderValue) -> (r: Result<V, Error>)
    ensures
        r is Err ==> r->Err_0.kind_spec() == ErrorKind::DataConversion,
{
    proof {
        reveal_strlit("the value does not parse");
    }
    match parse_text::<V>(v.as_str()) {
        Some(x) => Ok(x),
        None => Err(Error::message(ErrorKind::DataConversion, String::from_str("the value does not parse"))),
    }
}

/// A single header that a type stands for.
pub trait Header {
    fn name(&self) -> HeaderName;

    fn value(&self) -> HeaderValue;
}

/// The headers that a value stands for, in order.
pub trait AsHeaders {
    fn as_headers(&self) -> Vec<(HeaderName, HeaderValue)>;
}

impl<T: Header> AsHeaders for T {
    fn as_headers(&self) -> Vec<(HeaderName, HeaderValue)> {
        let mut r = Vec::new();
        r.push((self.name(), self.value()));
        r
    }
}

impl<T: AsHeaders> AsHeaders for Option<T> {
    fn as_headers(&self) -> Vec<(HeaderName, HeaderValue)> {
        match self {
            Some(h) => h.as_headers(),
            None => Vec::new(),
        }
    }
}

/// The message of the error for a missing header.
pub open spec fn not_found_text(key: Seq<char>) -> Seq<char> {
    "header not found "@ + key
}

/// The message of the error for a header that could not be parsed.
pub open spec fn parse_failure_message(key: Seq<char>, value: Seq<char>) -> Seq<char> {
    "unable to parse header '"@ + key + ": "@ + value + "'"@
}

/// `e` is the error for a missing header `key`.
pub open spec fn is_not_found(e: Error, key: Seq<char>) -> bool {
    &&& e.kind_spec() == ErrorKind::DataConversion
    &&& e.message_spec() == Some(not_found_text(key))
    &&& e.cause_spec() is None
}

/// `e` is the error for a header `key: value` whose parser failed with `cause`.
pub open spec fn is_parse_failure(e: Error, cause: Error, key: Seq<char>, value: Seq<char>) -> bool {
    &&& e.kind_spec() == ErrorKind::DataConversion
    &&& e.message_spec() == Some(parse_failure_message(key, value))
    &&& e.cause_spec() == Some(
        error_text(cause.kind_spec(), cause.message_spec(), cause.cause_spec()),
    )
}

/// `r` is what a lookup returns when the parser gave `p` on `key: value`.
pub open spec fn parsed<V>(
    p: Result<V, Error>,
    r: Result<Option<V>, Error>,
    key: Seq<char>,
    value: Seq<char>,
) -> bool {
    match p {
        Ok(x) => r == Ok::<Option<V>, Error>(Some(x)),
        Err(e) => r is Err && is_parse_failure(r->Err_0, e, key, value),
    }
}

fn not_found(key: &HeaderName) -> (r: Error)
    ensures
        is_not_found(r, key@),
{
    proof {
        reveal_strlit("header not found ");
    }
    let mut m = String::from_str("header not found ");
    m.append(key.as_str());
    Error::message(ErrorKind::DataConversion, m)
}

fn parse_failure_text(key: &HeaderName, value: &HeaderValue) -> (r: String)
    ensures
        r@ == parse_failure_message(key@, value@),
{
    proof {
        reveal_strlit("unable to parse header '");
        reveal_strlit(": ");
        reveal_strlit("'");
    }
    let mut m = String::from_str("unable to parse header '");
    m.append(key.as_str());
    m.append(": ");
    m.append(value.as_str());
    m.append("'");
    m
}

} // verus!

verus! {

pub const ACCEPT: &'static str = "accept";

pub const AUTHORIZATION: &'static str = "authorization";

pub const CLIENT_REQUEST_ID: &'static str = "x-ms-client-request-id";

pub const CONTENT_ENCODING: &'static str = "content-encoding";

pub const CONTENT_LENGTH: &'static str = "content-length";

pub const ETAG: &'static str = "etag";

pub const IF_MATCH: &'static str = "if-match";

pub const IF_MODIFIED_SINCE: &'static str = "if-modified-since";

pub const IF_NONE_MATCH: &'static str = "if-none-match";

pub const IF_UNMODIFIED_SINCE: &'static str = "if-unmodified-since";

pub const TAGS: &'static str = "x-ms-tags";

pub const USER_AGENT: &'static str = "user-agent";

pub const WWW_AUTHENTICATE: &'static str = "www-authenticate";

} // verus!
