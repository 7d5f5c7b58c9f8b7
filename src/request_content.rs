use crate::error::Error;
use vstd::prelude::*;
use vstd::string::*;

verus! {

/// A byte buffer tagged with the type of the payload it encodes. The tag has
/// no runtime form; the bytes are never read back.
#[derive(Debug)]
pub struct RequestContent<T> {
    body: Vec<u8>,
    phantom: std::marker::PhantomData<T>,
}

impl<T> View for RequestContent<T> {
    type V = Seq<u8>;

    closed spec fn view(&self) -> Seq<u8> {
        self.body@
    }
}

impl<T> RequestContent<T> {
    pub fn body(&self) -> (r: &Vec<u8>)
        ensures
            r@ == self@,
    {
        &self.body
    }

    /// Content made of `bytes`.
    pub fn from(bytes: Vec<u8>) -> (r: RequestContent<T>)
        ensures
            r@ == bytes@,
    {
        RequestContent { body: bytes, phantom: std::marker::PhantomData }
    }

    /// Content made of the UTF-8 encoding of `text`.
    pub fn from_text(text: &str) -> (r: RequestContent<T>)
        ensures
            r@ == text.spec_bytes(),
    {
        RequestContent::from(copy_bytes(text.as_bytes()))
    }

    /// The bytes, given up.
    pub fn into_bytes(self) -> (r: Vec<u8>)
        ensures
            r@ == self@,
    {
        self.body
    }
}

impl<T> PartialEq for RequestContent<T> {
    fn eq(&self, other: &RequestContent<T>) -> (r: bool) {
        let n = self.body.len();
        if n != other.body.len() {
            return false;
        }
        let mut i: usize = 0;
        while i < n
            invariant
                n == self.body@.len() == other.body@.len(),
                i <= n,
                forall|j: int| 0 <= j < i ==> self.body@[j] == other.body@[j],
            decreases n - i,
        {
            if self.body[i] != other.body[i] {
                return false;
            }
            i = i + 1;
        }
        assert(self.body@ == other.body@);
        true
    }
}

impl<T> vstd::std_specs::cmp::PartialEqSpecImpl for RequestContent<T> {
    open spec fn obeys_eq_spec() -> bool {
        true
    }

    open spec fn eq_spec(&self, other: &RequestContent<T>) -> bool {
        self@ == other@
    }
}

impl<T> TryFrom<Vec<u8>> for RequestContent<T> {
    type Error = Error;

    fn try_from(bytes: Vec<u8>) -> (r: Result<RequestContent<T>, Error>) {
        Ok(RequestContent { body: bytes, phantom: std::marker::PhantomData })
    }
}

impl<T> vstd::std_specs::convert::TryFromSpecImpl<Vec<u8>> for RequestContent<T> {
    open spec fn obeys_try_from_spec() -> bool {
        true
    }

    closed spec fn try_from_spec(bytes: Vec<u8>) -> Result<RequestContent<T>, Error> {
        Ok(RequestContent { body: bytes, phantom: std::marker::PhantomData })
    }
}

/// Content made from bytes by `TryFrom` is always made, and holds those bytes.
pub broadcast proof fn lemma_try_from_bytes<T>(bytes: Vec<u8>)
    ensures
        #[trigger] <RequestContent<T> as vstd::std_specs::convert::TryFromSpec<
            Vec<u8>,
        >>::try_from_spec(bytes) is Ok,
        <RequestContent<T> as vstd::std_specs::convert::TryFromSpec<
            Vec<u8>,
        >>::try_from_spec(bytes)->Ok_0@ == bytes@,
{
}

impl<T> TryFrom<&'static str> for RequestContent<T> {
    type Error = Error;

    fn try_from(text: &'static str) -> (r: Result<RequestContent<T>, Error>) {
        Ok(RequestContent::from_text(text))
    }
}

impl<T> vstd::std_specs::convert::TryFromSpecImpl<&'static str> for RequestContent<T> {
    open spec fn obeys_try_from_spec() -> bool {
        false
    }

    open spec fn try_from_spec(text: &'static str) -> Result<RequestContent<T>, Error> {
        arbitrary()
    }
}

impl<T> std::str::FromStr for RequestContent<T> {
    type Err = Error;

    fn from_str(text: &str) -> Result<RequestContent<T>, Error> {
        Ok(RequestContent::from_text(text))
    }
}

/// A copy of `bytes`.
fn copy_bytes(bytes: &[u8]) -> (r: Vec<u8>)
    ensures
        r@ == bytes@,
{
    let mut r: Vec<u8> = Vec::new();
    let mut i: usize = 0;
    while i < bytes.len()
        invariant
            i <= bytes@.len(),
            r@ == bytes@.subrange(0, i as int),
        decreases bytes@.len() - i,
    {
        r.push(bytes[i]);
        proof {
            assert(bytes@.subrange(0, i + 1) == bytes@.subrange(0, i as int).push(bytes@[i as int]));
        }
        i = i + 1;
    }
    proof {
        assert(bytes@.subrange(0, bytes@.len() as int) == bytes@);
    }
    r
}

} // verus!
