//! Text-map carriers over a message's attribute set: a writer used while
//! trace context is injected before publishing, and a reader used while it
//! is extracted from a received message.
use crate::attributes::{opt_str_view, opt_view, str_views, text_of, text_type, AttributeSet, AttributeValue};
use vstd::prelude::*;

verus! {

/// Writes trace context into the attribute set of an outgoing message.
pub struct MessageAttributesInjector<'a>(pub &'a mut AttributeSet);

/// Reads trace context from the attribute set of a received message.
pub struct MessageAttributesExtractor<'a>(pub &'a AttributeSet);

/// What a reader gets under `key`: the text of its value, when the key is
/// present and its value is tagged as text.
pub open spec fn extracted(attrs: Map<Seq<char>, AttributeValue>, key: Seq<char>) -> Option<
    Seq<char>,
> {
    if attrs.dom().contains(key) {
        text_of(attrs[key])
    } else {
        None
    }
}

/// `after` is `before` with `key` set to a text attribute holding `value`,
/// and nothing else changed.
pub open spec fn injected(
    before: Map<Seq<char>, AttributeValue>,
    after: Map<Seq<char>, AttributeValue>,
    key: Seq<char>,
    value: Seq<char>,
) -> bool {
    &&& after == before.insert(key, after[key])
    &&& after[key].data_type@ == text_type()
    &&& opt_view(after[key].string_value) == Some(value)
    &&& after[key].binary_value is None
}

impl<'a> MessageAttributesInjector<'a> {
    /// Stores `value` under `key` as a text attribute, replacing whatever
    /// the key held.
    pub fn set(&mut self, key: &str, value: String)
        requires
            old(self).0.wf(),
        ensures
            final(self).0.wf(),
            *final(final(self).0) == *final(old(self).0),
            injected(old(self).0@, final(self).0@, key@, value@),
            final(self).0@[key@].string_value == Some(value),
    {
        let name = String::from_str(key);
        self.0.insert(name, AttributeValue::text(value));
    }
}

impl<'a> MessageAttributesExtractor<'a> {
    /// The text stored under `key`; nothing when the key is absent or its
    /// value is not tagged as text.
    pub fn get(&self, key: &str) -> (r: Option<&'a str>)
        requires
            self.0.wf(),
        ensures
            opt_str_view(r) == extracted(self.0@, key@),
    {
        match self.0.get(key) {
            Some(v) => v.text_value(),
            None => None,
        }
    }

    /// Every attribute name, each once.
    pub fn keys(&self) -> (r: Vec<&'a str>)
        requires
            self.0.wf(),
        ensures
            str_views(r@).no_duplicates(),
            str_views(r@).to_set() == self.0@.dom(),
    {
        self.0.keys()
    }
}

/// A value written under a key is read back unchanged under that key.
pub proof fn lemma_round_trip(
    before: Map<Seq<char>, AttributeValue>,
    after: Map<Seq<char>, AttributeValue>,
    key: Seq<char>,
    value: Seq<char>,
)
    requires
        injected(before, after, key, value),
    ensures
        extracted(after, key) == Some(value),
{
    assert(after.dom().contains(key));
}

/// Writing a key twice leaves one entry for it, holding the second value,
/// and as many entries as after the first write.
pub proof fn lemma_overwrite(
    start: Map<Seq<char>, AttributeValue>,
    first: Map<Seq<char>, AttributeValue>,
    second: Map<Seq<char>, AttributeValue>,
    key: Seq<char>,
    v1: Seq<char>,
    v2: Seq<char>,
)
    requires
        start.dom().finite(),
        injected(start, first, key, v1),
        injected(first, second, key, v2),
    ensures
        extracted(second, key) == Some(v2),
        second.dom() == first.dom(),
        second.dom().len() == first.dom().len(),
        second.remove(key) == start.remove(key),
{
    assert(first.dom().contains(key));
    assert(second.dom() =~= first.dom());
    assert(second.remove(key) =~= start.remove(key));
}

/// The names present do not depend on the order in which they were
/// written.
pub proof fn lemma_names_order_free(
    attrs: Map<Seq<char>, AttributeValue>,
    k1: Seq<char>,
    v1: AttributeValue,
    k2: Seq<char>,
    v2: AttributeValue,
)
    ensures
        attrs.insert(k1, v1).insert(k2, v2).dom() == attrs.insert(k2, v2).insert(k1, v1).dom(),
{
    assert(attrs.insert(k1, v1).insert(k2, v2).dom() =~= attrs.insert(k2, v2).insert(k1, v1).dom());
}

/// Reading a key that is not present yields nothing.
pub proof fn lemma_missing_key(attrs: Map<Seq<char>, AttributeValue>, key: Seq<char>)
    requires
        !attrs.dom().contains(key),
    ensures
        extracted(attrs, key) is None,
{
}

} // verus!
