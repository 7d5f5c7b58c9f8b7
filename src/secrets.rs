use crate::etag::Etag;
use crate::headers::{HeaderName, HeaderValue, IF_MATCH, IF_NONE_MATCH};
use crate::request::{Request, RequestView};
use vstd::prelude::*;
use vstd::string::*;

verus! {

/// The properties of a secret.
#[derive(Clone, Copy, Debug, Default, PartialEq, Eq, Structural)]
pub struct SecretProperties {
    pub enabled: bool,
}

/// A secret as the service returns it.
#[derive(Clone, Debug)]
pub struct Secret {
    pub name: String,
    pub version: String,
    pub properties: SecretProperties,
}

/// The options of a read of a secret.
#[derive(Clone, Debug, Default)]
pub struct GetSecretOptions {}

/// The conditions of an update of a secret's properties: the update applies
/// only where the secret's validator matches `if_match`, or does not match
/// `if_none_match`.
#[derive(Clone, Debug, Default)]
pub struct UpdateSecretPropertiesOptions {
    pub if_match: Option<Etag>,
    pub if_none_match: Option<Etag>,
}

/// `headers` with the header `name` set to the validator, where there is one.
pub open spec fn with_condition(
    headers: Map<Seq<char>, Seq<char>>,
    name: Seq<char>,
    etag: Option<Etag>,
) -> Map<Seq<char>, Seq<char>> {
    match etag {
        Some(e) => headers.insert(name, e@),
        None => headers,
    }
}

impl UpdateSecretPropertiesOptions {
    /// Puts the conditions on `request` as `if-match` and `if-none-match`
    /// headers carrying the validators' text.
    pub fn insert_conditions(&self, request: &mut Request)
        ensures
            final(request)@ == (RequestView {
                headers: with_condition(
                    with_condition(old(request)@.headers, "if-match"@, self.if_match),
                    "if-none-match"@,
                    self.if_none_match,
                ),
                ..old(request)@
            }),
    {
        proof {
            reveal_strlit("if-match");
            reveal_strlit("if-none-match");
        }
        match &self.if_match {
            Some(etag) => request.insert_header(
                HeaderName::from_static(IF_MATCH),
                HeaderValue::from_cow(etag.to_string()),
            ),
            None => {},
        }
        match &self.if_none_match {
            Some(etag) => request.insert_header(
                HeaderName::from_static(IF_NONE_MATCH),
                HeaderValue::from_cow(etag.to_string()),
            ),
            None => {},
        }
    }
}

} // verus!
