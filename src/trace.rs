use vstd::prelude::*;

verus! {

/// The name of a tracing span, carried in a `Context`.
#[derive(Clone, Copy, Debug, PartialEq)]
pub struct Span(&'static str);

impl From<&'static str> for Span {
    fn from(name: &'static str) -> (r: Span) {
        Span(name)
    }
}

impl vstd::std_specs::convert::FromSpecImpl<&'static str> for Span {
    open spec fn obeys_from_spec() -> bool {
        true
    }

    closed spec fn from_spec(name: &'static str) -> Span {
        Span(name)
    }
}

} // verus!
