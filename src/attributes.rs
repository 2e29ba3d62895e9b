//! Message attribute sets: the metadata a queue or topic message carries
//! beside its body, keyed by attribute name.
use vstd::prelude::*;

verus! {

/// One attribute value in the transport's shape: a data type tag and the
/// string or binary payload that the tag calls for.
pub struct AttributeValue {
    pub data_type: String,
    pub string_value: Option<String>,
    pub binary_value: Option<Vec<u8>>,
}

/// The data type tag of a plain text attribute.
pub open spec fn text_type() -> Seq<char> {
    seq!['S', 't', 'r', 'i', 'n', 'g']
}

/// What a reader sees of a value: its text when it is tagged as text and
/// holds one, and nothing otherwise.
pub open spec fn text_of(v: AttributeValue) -> Option<Seq<char>> {
    if v.data_type@ == text_type() && v.string_value is Some {
        Some(v.string_value->Some_0@)
    } else {
        None
    }
}

/// The text of each string slice.
pub open spec fn str_views(v: Seq<&str>) -> Seq<Seq<char>> {
    v.map_values(|s: &str| s@)
}

/// The text of an optional string slice.
pub open spec fn opt_str_view(o: Option<&str>) -> Option<Seq<char>> {
    match o {
        Some(s) => Some(s@),
        None => None,
    }
}

/// The text of an optional string.
pub open spec fn opt_view(o: Option<String>) -> Option<Seq<char>> {
    match o {
        Some(s) => Some(s@),
        None => None,
    }
}

/// In a sequence without duplicates, an element's position is the one it
/// was found at.
proof fn lemma_index_of(s: Seq<Seq<char>>, i: int)
    requires
        s.no_duplicates(),
        0 <= i < s.len(),
    ensures
        s.index_of(s[i]) == i,
        s.contains(s[i]),
{
    assert(s[i] == s[i]);
    let j = s.index_of(s[i]);
    assert(0 <= j < s.len() && s[j] == s[i]);
}

fn text_type_name() -> (r: String)
    ensures
        r@ == text_type(),
{
    proof {
        reveal_strlit("String");
    }
    String::from_str("String")
}

impl AttributeValue {
    /// A text attribute holding `value`.
    pub fn text(value: String) -> (r: AttributeValue)
        ensures
            r.data_type@ == text_type(),
            r.string_value == Some(value),
            r.binary_value is None,
            text_of(r) == Some(value@),
    {
        AttributeValue { data_type: text_type_name(), string_value: Some(value), binary_value: None }
    }

    /// A binary attribute holding `value`.
    pub fn binary(value: Vec<u8>) -> (r: AttributeValue)
        ensures
            r.data_type@ == seq!['B', 'i', 'n', 'a', 'r', 'y'],
            r.string_value is None,
            r.binary_value == Some(value),
            text_of(r) is None,
    {
        proof {
            reveal_strlit("Binary");
        }
        let t = String::from_str("Binary");
        AttributeValue { data_type: t, string_value: None, binary_value: Some(value) }
    }

    pub fn data_type(&self) -> (r: &str)
        ensures
            r@ == self.data_type@,
    {
        self.data_type.as_str()
    }

    pub fn string_value(&self) -> (r: Option<&str>)
        ensures
            r is Some <==> self.string_value is Some,
            r matches Some(s) ==> s@ == self.string_value->Some_0@,
    {
        match &self.string_value {
            Some(s) => Some(s.as_str()),
            None => None,
        }
    }

    /// The text of this value, only when it is tagged as text.
    pub fn text_value(&self) -> (r: Option<&str>)
        ensures
            r is Some <==> text_of(*self) is Some,
            r matches Some(s) ==> Some(s@) == text_of(*self),
    {
        let t = text_type_name();
        if self.data_type == t {
            self.string_value()
        } else {
            None
        }
    }
}

/// The attributes of one message. Names are unique: writing a name that is
/// already present replaces its value.
pub struct AttributeSet {
    entries: Vec<(String, AttributeValue)>,
}

impl AttributeSet {
    pub open spec fn names(&self) -> Seq<Seq<char>> {
        self.entry_seq().map_values(|e: (String, AttributeValue)| e.0@)
    }

    pub closed spec fn entry_seq(&self) -> Seq<(String, AttributeValue)> {
        self.entries@
    }

    /// No name occurs twice.
    pub open spec fn wf(&self) -> bool {
        self.names().no_duplicates()
    }

    /// The attributes as a map from name to value.
    pub open spec fn view(&self) -> Map<Seq<char>, AttributeValue> {
        Map::new(
            |k: Seq<char>| self.names().contains(k),
            |k: Seq<char>| self.entry_seq()[self.names().index_of(k)].1,
        )
    }

    pub fn new() -> (r: AttributeSet)
        ensures
            r.wf(),
            r@ == Map::<Seq<char>, AttributeValue>::empty(),
    {
        let r = AttributeSet { entries: Vec::new() };
        assert(r@ =~= Map::<Seq<char>, AttributeValue>::empty());
        r
    }

    pub fn len(&self) -> (r: usize)
        requires
            self.wf(),
        ensures
            r == self@.dom().len(),
    {
        proof {
            self.lemma_dom_len();
        }
        self.entries.len()
    }

    proof fn lemma_dom_len(&self)
        requires
            self.wf(),
        ensures
            self@.dom().finite(),
            self@.dom().len() == self.entries@.len(),
    {
        assert(self@.dom() =~= self.names().to_set());
        self.names().unique_seq_to_set();
    }

    /// The position of `name`, if present.
    fn find(&self, name: &str) -> (r: Option<usize>)
        ensures
            r is None <==> !self.names().contains(name@),
            r matches Some(i) ==> i < self.entries@.len() && self.names()[i as int] == name@,
    {
        let target = String::from_str(name);
        let mut i: usize = 0;
        while i < self.entries.len()
            invariant
                i <= self.entries@.len(),
                target@ == name@,
                forall|j: int| 0 <= j < i ==> self.names()[j] != name@,
            decreases self.entries@.len() - i,
        {
            if self.entries[i].0 == target {
                assert(self.names()[i as int] == name@);
                return Some(i);
            }
            i = i + 1;
        }
        None
    }

    pub fn contains_key(&self, name: &str) -> (r: bool)
        ensures
            r == self@.dom().contains(name@),
    {
        self.find(name).is_some()
    }

    pub fn get(&self, name: &str) -> (r: Option<&AttributeValue>)
        requires
            self.wf(),
        ensures
            r is Some <==> self@.dom().contains(name@),
            r matches Some(v) ==> *v == self@[name@],
    {
        match self.find(name) {
            Some(i) => {
                proof {
                    lemma_index_of(self.names(), i as int);
                }
                Some(&self.entries[i].1)
            },
            None => None,
        }
    }

    /// Sets `name` to `value`, replacing any value it had.
    pub fn insert(&mut self, name: String, value: AttributeValue)
        requires
            old(self).wf(),
        ensures
            final(self).wf(),
            final(self)@ == old(self)@.insert(name@, value),
    {
        let ghost before = self.names();
        match self.find(name.as_str()) {
            Some(i) => {
                proof {
                    lemma_index_of(before, i as int);
                }
                self.entries.set(i, (name, value));
                proof {
                    assert(self.names() =~= before);
                    self.lemma_view_insert_at(old(self), i as int, name@, value);
                }
            },
            None => {
                self.entries.push((name, value));
                proof {
                    assert(self.names() =~= before.push(name@));
                    assert(self@ =~= old(self)@.insert(name@, value)) by {
                        assert forall|k: Seq<char>| #[trigger]
                            self.names().contains(k) <==> (k == name@ || before.contains(k)) by {
                            if self.names().contains(k) && k != name@ {
                                let j = choose|j: int|
                                    0 <= j < self.names().len() && self.names()[j] == k;
                                assert(j < before.len());
                                assert(before[j] == k);
                            }
                            if k == name@ {
                                assert(self.names()[before.len() as int] == k);
                            }
                            if before.contains(k) {
                                let j = choose|j: int| 0 <= j < before.len() && before[j] == k;
                                assert(self.names()[j] == k);
                            }
                        }
                        assert forall|k: Seq<char>| self.names().contains(k) implies
                            self.entry_seq()[self.names().index_of(k)].1 == (if k == name@ {
                                value
                            } else {
                                old(self)@[k]
                            }) by {
                            let j = self.names().index_of(k);
                            lemma_index_of(self.names(), j);
                            if k != name@ {
                                assert(before.contains(k)) by {
                                    assert(j < before.len());
                                    assert(before[j] == k);
                                }
                                lemma_index_of(before, before.index_of(k));
                            }
                        }
                    }
                }
            },
        }
    }

    proof fn lemma_view_insert_at(
        &self,
        prev: &AttributeSet,
        i: int,
        name: Seq<char>,
        value: AttributeValue,
    )
        requires
            prev.wf(),
            0 <= i < prev.entry_seq().len(),
            prev.names()[i] == name,
            self.names() == prev.names(),
            self.entry_seq() == prev.entry_seq().update(i, (self.entry_seq()[i].0, value)),
        ensures
            self.wf(),
            self@ == prev@.insert(name, value),
    {
        assert(self@ =~= prev@.insert(name, value)) by {
            assert forall|k: Seq<char>| self.names().contains(k) implies self.entry_seq()[
                self.names().index_of(k)
            ].1 == (if k == name {
                value
            } else {
                prev@[k]
            }) by {
                let j = self.names().index_of(k);
                lemma_index_of(self.names(), j);
            }
        }
    }

    /// The entries, each name once with its value.
    pub fn into_entries(self) -> (r: Vec<(String, AttributeValue)>)
        requires
            self.wf(),
        ensures
            r@.map_values(|e: (String, AttributeValue)| e.0@) == self.names(),
            forall|i: int| 0 <= i < r@.len() ==> self@[#[trigger] r@[i].0@] == r@[i].1,
    {
        proof {
            assert forall|i: int| 0 <= i < self.entries@.len() implies self@[
                #[trigger] self.entries@[i].0@
            ] == self.entries@[i].1 by {
                assert(self.names()[i] == self.entries@[i].0@);
                lemma_index_of(self.names(), i);
            }
        }
        self.entries
    }

    /// Every name, each once, in the order the set holds them.
    pub fn keys(&self) -> (r: Vec<&str>)
        requires
            self.wf(),
        ensures
            str_views(r@) == self.names(),
            str_views(r@).no_duplicates(),
            str_views(r@).to_set() == self@.dom(),
    {
        let mut r: Vec<&str> = Vec::new();
        let mut i: usize = 0;
        while i < self.entries.len()
            invariant
                i <= self.entries@.len(),
                r@.len() == i,
                forall|j: int| 0 <= j < i ==> #[trigger] r@[j]@ == self.names()[j],
            decreases self.entries@.len() - i,
        {
            let k = self.entries[i].0.as_str();
            r.push(k);
            proof {
                assert(self.names()[i as int] == k@);
            }
            i = i + 1;
        }
        proof {
            assert(str_views(r@) =~= self.names());
            assert(self.names().to_set() =~= self@.dom());
        }
        r
    }
}

} // verus!
