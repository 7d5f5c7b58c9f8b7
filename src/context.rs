use crate::trace::Span;
use vstd::prelude::*;

verus! {

/// The kinds of value that a `Context` can carry: one slot per kind.
#[derive(Clone, Copy, Debug, PartialEq, Eq, Structural)]
pub enum ContextKind {
    Span,
    CorrelationId,
    Cancellation,
    Text,
    Integer,
}

/// A request-scoped value, tagged by its kind.
#[derive(Clone, Debug, PartialEq)]
pub enum ContextValue {
    /// The tracing span of the operation.
    Span(Span),
    /// A caller-chosen identifier that follows one logical call.
    CorrelationId(String),
    /// A cancellation signal: `true` once the caller has given up.
    Cancellation(bool),
    /// Free-form caller metadata.
    Text(String),
    /// Free-form numeric caller metadata.
    Integer(i64),
}

impl ContextValue {
    pub open spec fn kind_spec(&self) -> ContextKind {
        match self {
            ContextValue::Span(_) => ContextKind::Span,
            ContextValue::CorrelationId(_) => ContextKind::CorrelationId,
            ContextValue::Cancellation(_) => ContextKind::Cancellation,
            ContextValue::Text(_) => ContextKind::Text,
            ContextValue::Integer(_) => ContextKind::Integer,
        }
    }

    /// The slot this value goes to.
    pub fn kind(&self) -> (r: ContextKind)
        ensures
            r == self.kind_spec(),
    {
        match self {
            ContextValue::Span(_) => ContextKind::Span,
            ContextValue::CorrelationId(_) => ContextKind::CorrelationId,
            ContextValue::Cancellation(_) => ContextKind::Cancellation,
            ContextValue::Text(_) => ContextKind::Text,
            ContextValue::Integer(_) => ContextKind::Integer,
        }
    }

    /// A copy of this value.
    pub fn duplicate(&self) -> (r: ContextValue)
        ensures
            r == *self,
    {
        match self {
            ContextValue::Span(s) => ContextValue::Span(*s),
            ContextValue::CorrelationId(s) => ContextValue::CorrelationId(s.clone()),
            ContextValue::Cancellation(b) => ContextValue::Cancellation(*b),
            ContextValue::Text(s) => ContextValue::Text(s.clone()),
            ContextValue::Integer(i) => ContextValue::Integer(*i),
        }
    }
}

fn duplicate_slot(slot: &Option<ContextValue>) -> (r: Option<ContextValue>)
    ensures
        r == *slot,
{
    match slot {
        Some(v) => Some(v.duplicate()),
        None => None,
    }
}

/// A bag of request-scoped values, indexed by kind: at most one value of
/// each kind. A child branched from a parent starts with the parent's values;
/// after that, the two are independent.
#[derive(Debug)]
pub struct Context {
    span: Option<ContextValue>,
    correlation_id: Option<ContextValue>,
    cancellation: Option<ContextValue>,
    text: Option<ContextValue>,
    integer: Option<ContextValue>,
}

pub open spec fn slot_count(slot: Option<ContextValue>) -> nat {
    if slot is Some {
        1
    } else {
        0
    }
}

impl Context {
    /// The value of kind `k` that this context carries, if any.
    pub closed spec fn get(&self, k: ContextKind) -> Option<ContextValue> {
        match k {
            ContextKind::Span => self.span,
            ContextKind::CorrelationId => self.correlation_id,
            ContextKind::Cancellation => self.cancellation,
            ContextKind::Text => self.text,
            ContextKind::Integer => self.integer,
        }
    }

    /// How many kinds have a value.
    pub closed spec fn size(&self) -> nat {
        slot_count(self.span) + slot_count(self.correlation_id) + slot_count(self.cancellation)
            + slot_count(self.text) + slot_count(self.integer)
    }

    fn slot_mut(&mut self, k: ContextKind) -> (r: &mut Option<ContextValue>)
        ensures
            *r == old(self).get(k),
            forall|j: ContextKind|
                j != k ==> #[trigger] final(self).get(j) == old(self).get(j),
            final(self).get(k) == *final(r),
            final(self).size() + slot_count(*r) == old(self).size() + slot_count(*final(r)),
    {
        match k {
            ContextKind::Span => &mut self.span,
            ContextKind::CorrelationId => &mut self.correlation_id,
            ContextKind::Cancellation => &mut self.cancellation,
            ContextKind::Text => &mut self.text,
            ContextKind::Integer => &mut self.integer,
        }
    }

    /// An empty context.
    pub fn new() -> (r: Context)
        ensures
            forall|k: ContextKind| #[trigger] r.get(k) is None,
            r.size() == 0,
    {
        Context { span: None, correlation_id: None, cancellation: None, text: None, integer: None }
    }

    /// A child context that starts with the parent's values.
    pub fn with_context(parent: &Context) -> (r: Context)
        ensures
            forall|k: ContextKind| #[trigger] r.get(k) == parent.get(k),
            r.size() == parent.size(),
    {
        Context {
            span: duplicate_slot(&parent.span),
            correlation_id: duplicate_slot(&parent.correlation_id),
            cancellation: duplicate_slot(&parent.cancellation),
            text: duplicate_slot(&parent.text),
            integer: duplicate_slot(&parent.integer),
        }
    }
    /// Stores `value` under its kind and hands back the value it replaced.
    pub fn insert_or_replace(&mut self, value: ContextValue) -> (r: Option<ContextValue>)
        ensures
            r == old(self).get(value.kind_spec()),
            final(self).get(value.kind_spec()) == Some(value),
            forall|k: ContextKind|
                k != value.kind_spec() ==> #[trigger] final(self).get(k) == old(self).get(k),
            final(self).size() == old(self).size() + (if r is Some {
                0int
            } else {
                1int
            }),
    {
        let k = value.kind();
        let slot = self.slot_mut(k);
        let previous = slot.take();
        *slot = Some(value);
        previous
    }

    /// Stores `value` under its kind, replacing what was there.
    pub fn insert(&mut self, value: ContextValue) -> (r: &mut Context)
        ensures
            r.get(value.kind_spec()) == Some(value),
            forall|k: ContextKind|
                k != value.kind_spec() ==> #[trigger] r.get(k) == old(self).get(k),
            r.size() == old(self).size() + (if old(self).get(value.kind_spec()) is Some {
                0int
            } else {
                1int
            }),
            *final(self) == *final(r),
    {
        self.insert_or_replace(value);
        self
    }

    /// Takes out the value of kind `k`, if there is one.
    pub fn remove(&mut self, k: ContextKind) -> (r: Option<ContextValue>)
        ensures
            r == old(self).get(k),
            final(self).get(k) is None,
            forall|j: ContextKind| j != k ==> #[trigger] final(self).get(j) == old(self).get(j),
            final(self).size() == old(self).size() - (if r is Some {
                1int
            } else {
                0int
            }),
    {
        let slot = self.slot_mut(k);
        slot.take()
    }

    /// The value of kind `k`, if there is one.
    pub fn value(&self, k: ContextKind) -> (r: Option<&ContextValue>)
        ensures
            match r {
                Some(v) => self.get(k) == Some(*v),
                None => self.get(k) is None,
            },
    {
        match k {
            ContextKind::Span => self.span.as_ref(),
            ContextKind::CorrelationId => self.correlation_id.as_ref(),
            ContextKind::Cancellation => self.cancellation.as_ref(),
            ContextKind::Text => self.text.as_ref(),
            ContextKind::Integer => self.integer.as_ref(),
        }
    }

    /// How many kinds have a value.
    pub fn len(&self) -> (r: usize)
        ensures
            r == self.size(),
    {
        let mut n: usize = 0;
        if self.span.is_some() {
            n = n + 1;
        }
        if self.correlation_id.is_some() {
            n = n + 1;
        }
        if self.cancellation.is_some() {
            n = n + 1;
        }
        if self.text.is_some() {
            n = n + 1;
        }
        if self.integer.is_some() {
            n = n + 1;
        }
        n
    }

    /// Whether no kind has a value.
    pub fn is_empty(&self) -> (r: bool)
        ensures
            r == (self.size() == 0),
    {
        self.len() == 0
    }
}

impl Default for Context {
    fn default() -> (r: Context)
        ensures
            forall|k: ContextKind| #[trigger] r.get(k) is None,
            r.size() == 0,
    {
        Context::new()
    }
}

} // verus!
