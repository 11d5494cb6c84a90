use vstd::prelude::*;

verus! {

/// The unit properties that controllers may set. Their names, as the
/// service manager expects them, are given by [`PropertyName::as_str`].
#[derive(Debug, Clone, Copy, PartialEq, Eq, Structural)]
pub enum PropertyName {
    MemoryLow,
    MemoryMax,
    MemorySwapMax,
}

impl PropertyName {
    pub open spec fn spec_text(self) -> Seq<char> {
        match self {
            PropertyName::MemoryLow => "MemoryLow"@,
            PropertyName::MemoryMax => "MemoryMax"@,
            PropertyName::MemorySwapMax => "MemorySwapMax"@,
        }
    }

    /// The property's name in the service manager's vocabulary.
    pub fn as_str(&self) -> (r: &'static str)
        ensures
            r@ == self.spec_text(),
    {
        match self {
            PropertyName::MemoryLow => "MemoryLow",
            PropertyName::MemoryMax => "MemoryMax",
            PropertyName::MemorySwapMax => "MemorySwapMax",
        }
    }
}

/// A typed property value.
#[derive(Debug, PartialEq, Eq)]
pub enum PropertyValue {
    Bool(bool),
    U64(u64),
    Str(String),
    Bytes(Vec<u8>),
    Array(Vec<PropertyValue>),
}

/// The settings collected for one apply call: a mapping from property name
/// to value, each name at most once.
pub struct PropertySink {
    entries: Vec<(PropertyName, PropertyValue)>,
}

impl PropertySink {
    #[verifier::type_invariant]
    spec fn keys_unique(&self) -> bool {
        forall|i: int, j: int|
            0 <= i < j < self.entries@.len() ==> self.entries@[i].0 != self.entries@[j].0
    }

    spec fn has_key_at(&self, k: PropertyName) -> bool {
        exists|i: int| 0 <= i < self.entries@.len() && self.entries@[i].0 == k
    }

    spec fn index_of(&self, k: PropertyName) -> int {
        choose|i: int| 0 <= i < self.entries@.len() && self.entries@[i].0 == k
    }

    /// The properties held, by name.
    pub closed spec fn view(&self) -> Map<PropertyName, PropertyValue> {
        Map::new(|k: PropertyName| self.has_key_at(k), |k: PropertyName| self.entries@[self.index_of(k)].1)
    }

    /// An empty sink.
    pub fn new() -> (r: PropertySink)
        ensures
            r@ == Map::<PropertyName, PropertyValue>::empty(),
    {
        let r = PropertySink { entries: Vec::new() };
        assert(r@ =~= Map::<PropertyName, PropertyValue>::empty());
        r
    }

    /// The entries held, each name once, in no particular order.
    pub fn entries(&self) -> (r: &[(PropertyName, PropertyValue)])
        ensures
            forall|i: int| 0 <= i < r@.len() ==> self@.contains_key(#[trigger] r@[i].0) && self@[r@[i].0] == r@[i].1,
            forall|k: PropertyName| #[trigger] self@.contains_key(k) ==> exists|i: int| 0 <= i < r@.len() && r@[i].0 == k,
            forall|i: int, j: int| 0 <= i < j < r@.len() ==> r@[i].0 != r@[j].0,
    {
        proof {
            use_type_invariant(self);
            assert forall|i: int| 0 <= i < self.entries@.len() implies self@.contains_key(#[trigger] self.entries@[i].0)
                && self@[self.entries@[i].0] == self.entries@[i].1 by {
                let k = self.entries@[i].0;
                assert(self.has_key_at(k));
                assert(self.index_of(k) == i);
            }
        }
        self.entries.as_slice()
    }

    /// The value held under `name`, if any.
    pub fn get(&self, name: PropertyName) -> (r: Option<&PropertyValue>)
        ensures
            match r {
                Some(v) => self@.contains_key(name) && *v == self@[name],
                None => !self@.contains_key(name),
            },
    {
        proof {
            use_type_invariant(self);
        }
        let n = self.entries.len();
        let mut i: usize = 0;
        while i < n
            invariant
                n == self.entries@.len(),
                0 <= i <= n,
                self.keys_unique(),
                forall|j: int| 0 <= j < i ==> self.entries@[j].0 != name,
            decreases n - i,
        {
            if self.entries[i].0 == name {
                proof {
                    assert(self.has_key_at(name));
                    let j = self.index_of(name);
                    assert(self.entries@[j].0 == name);
                    if j > i {
                        assert(self.entries@[i as int].0 != self.entries@[j].0);
                    }
                    assert(j == i);
                }
                return Some(&self.entries[i].1);
            }
            i = i + 1;
        }
        None
    }

    /// Sets `name` to `value`, replacing what it held before.
    pub fn insert(&mut self, name: PropertyName, value: PropertyValue)
        ensures
            final(self)@ == old(self)@.insert(name, value),
    {
        proof {
            use_type_invariant(&*self);
        }
        let mut taken = PropertySink::new();
        std::mem::swap(self, &mut taken);
        let PropertySink { mut entries } = taken;
        let n = entries.len();
        let mut found: Option<usize> = None;
        let mut i: usize = 0;
        while i < n
            invariant
                n == entries@.len(),
                entries@ == old(self).entries@,
                0 <= i <= n,
                match found {
                    Some(k) => k < n && entries@[k as int].0 == name,
                    None => forall|j: int| 0 <= j < i ==> entries@[j].0 != name,
                },
            decreases n - i,
        {
            if found.is_none() && entries[i].0 == name {
                found = Some(i);
            }
            i = i + 1;
        }
        match found {
            Some(k) => {
                entries.set(k, (name, value));
            },
            None => {
                entries.push((name, value));
            },
        }
        proof {
            let pre = old(self).entries@;
            let post = entries@;
            assert forall|a: int, b: int| 0 <= a < b < post.len() implies post[a].0 != post[b].0 by {
                if found is None && b == pre.len() {
                    assert(pre[a].0 != name);
                }
            }
        }
        *self = PropertySink { entries };
        proof {
            let pre = old(self).entries@;
            let post = self.entries@;
            match found {
                Some(k) => assert(post[k as int].0 == name),
                None => assert(post[pre.len() as int].0 == name),
            }
            assert(self.has_key_at(name));
            assert forall|key: PropertyName| #[trigger] self.has_key_at(key) == old(self).has_key_at(key)
                || key == name by {
                if key != name && self.has_key_at(key) {
                    let j = self.index_of(key);
                    assert(pre[j].0 == key);
                }
                if old(self).has_key_at(key) {
                    let j = old(self).index_of(key);
                    assert(post[j].0 == key || key == name);
                }
            }
            assert forall|key: PropertyName| #[trigger] self.has_key_at(key)
                implies self.entries@[self.index_of(key)].1 == old(self)@.insert(name, value)[key] by {
                let j = self.index_of(key);
                if key == name {
                    match found {
                        Some(k) => assert(j == k as int),
                        None => assert(j == pre.len()),
                    }
                } else {
                    assert(pre[j].0 == key);
                    assert(old(self).has_key_at(key));
                    assert(old(self).index_of(key) == j);
                }
            }
            assert(self@ =~= old(self)@.insert(name, value));
        }
    }
}

} // verus!
