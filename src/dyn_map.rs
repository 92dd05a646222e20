//! A per-entity side table for optional data that the entity's shape does not
//! anticipate. Values carry their type as a tag; a typed read of a value of
//! another type finds nothing.
use vstd::prelude::*;

verus! {

/// A value stored in a `DynMap`, tagged with its type.
#[derive(Debug, Clone, PartialEq, Eq, Hash)]
pub enum ExtValue {
    Flag(bool),
    Int(i64),
    Count(u64),
    Text(String),
    Bytes(Vec<u8>),
}

/// Dynamic structure capable of holding data of several kinds under string
/// keys. Keys are unique.
#[derive(Debug)]
pub struct DynMap {
    entries: Vec<(String, ExtValue)>,
}

impl DynMap {
    /// No key occurs twice.
    #[verifier::type_invariant]
    closed spec fn wf(&self) -> bool {
        forall|i: int, j: int|
            0 <= i < j < self.entries@.len() ==> #[trigger] self.entries@[i].0@
                != #[trigger] self.entries@[j].0@
    }

    /// The contents, as a map from keys to values.
    pub closed spec fn view(&self) -> Map<Seq<char>, ExtValue> {
        Map::new(
            |k: Seq<char>| exists|i: int| 0 <= i < self.entries@.len() && self.entries@[i].0@ == k,
            |k: Seq<char>|
                self.entries@[choose|i: int| 0 <= i < self.entries@.len() && self.entries@[i].0@ == k].1,
        )
    }

    proof fn lemma_view_at(&self, i: int)
        requires
            self.wf(),
            0 <= i < self.entries@.len(),
        ensures
            self@.contains_key(self.entries@[i].0@),
            self@[self.entries@[i].0@] == self.entries@[i].1,
    {
        let k = self.entries@[i].0@;
        assert(self@.dom().contains(k));
        let j = choose|j: int| 0 <= j < self.entries@.len() && self.entries@[j].0@ == k;
        if j < i {
            assert(self.entries@[j].0@ != self.entries@[i].0@);
        } else if i < j {
            assert(self.entries@[i].0@ != self.entries@[j].0@);
        }
    }

    /// An empty map.
    pub fn new() -> (r: DynMap)
        ensures
            r@ == Map::<Seq<char>, ExtValue>::empty(),
    {
        let r = DynMap { entries: Vec::new() };
        assert(r@ =~= Map::<Seq<char>, ExtValue>::empty());
        r
    }

    /// The position of `key`, if it is present.
    fn position(&self, key: &str) -> (r: Option<usize>)
        ensures
            r is None ==> !self@.contains_key(key@),
            r is Some ==> r->0 < self.entries@.len() && self.entries@[r->0 as int].0@ == key@,
    {
        proof {
            use_type_invariant(self);
        }
        let wanted = key.to_owned();
        let mut i: usize = 0;
        while i < self.entries.len()
            invariant
                i <= self.entries@.len(),
                wanted@ == key@,
                forall|j: int| 0 <= j < i ==> self.entries@[j].0@ != key@,
            decreases self.entries@.len() - i,
        {
            if self.entries[i].0 == wanted {
                return Some(i);
            }
            i = i + 1;
        }
        None
    }

    /// The value stored under `key`, of whatever type.
    pub fn get(&self, key: &str) -> (r: Option<&ExtValue>)
        ensures
            r is Some <==> self@.contains_key(key@),
            r is Some ==> *r->0 == self@[key@],
    {
        proof {
            use_type_invariant(self);
        }
        match self.position(key) {
            Some(i) => {
                proof {
                    self.lemma_view_at(i as int);
                }
                Some(&self.entries[i].1)
            },
            None => None,
        }
    }

    /// The value under `key` if it is present and a `Flag`; nothing otherwise.
    pub fn get_flag(&self, key: &str) -> (r: Option<bool>)
        ensures
            match self@.get(key@) {
                Some(ExtValue::Flag(v)) => r is Some && r->0 == v,
                _ => r is None,
            },
    {
        match self.get(key) {
            Some(ExtValue::Flag(v)) => Some(*v),
            _ => None,
        }
    }

    /// The value under `key` if it is present and a `Int`; nothing otherwise.
    pub fn get_int(&self, key: &str) -> (r: Option<i64>)
        ensures
            match self@.get(key@) {
                Some(ExtValue::Int(v)) => r is Some && r->0 == v,
                _ => r is None,
            },
    {
        match self.get(key) {
            Some(ExtValue::Int(v)) => Some(*v),
            _ => None,
        }
    }

    /// The value under `key` if it is present and a `Count`; nothing otherwise.
    pub fn get_count(&self, key: &str) -> (r: Option<u64>)
        ensures
            match self@.get(key@) {
                Some(ExtValue::Count(v)) => r is Some && r->0 == v,
                _ => r is None,
            },
    {
        match self.get(key) {
            Some(ExtValue::Count(v)) => Some(*v),
            _ => None,
        }
    }

    /// The value under `key` if it is present and a `Text`; nothing otherwise.
    pub fn get_text(&self, key: &str) -> (r: Option<&String>)
        ensures
            match self@.get(key@) {
                Some(ExtValue::Text(v)) => r is Some && *r->0 == v,
                _ => r is None,
            },
    {
        match self.get(key) {
            Some(ExtValue::Text(v)) => Some(v),
            _ => None,
        }
    }

    /// The value under `key` if it is present and a `Bytes`; nothing otherwise.
    pub fn get_bytes(&self, key: &str) -> (r: Option<&Vec<u8>>)
        ensures
            match self@.get(key@) {
                Some(ExtValue::Bytes(v)) => r is Some && *r->0 == v,
                _ => r is None,
            },
    {
        match self.get(key) {
            Some(ExtValue::Bytes(v)) => Some(v),
            _ => None,
        }
    }

    /// Stores `value` under `key`, replacing what was there.
    pub fn set(&mut self, key: String, value: ExtValue)
        ensures
            final(self)@ == old(self)@.insert(key@, value),
    {
        proof {
            use_type_invariant(&*self);
        }
        let ghost before = self@;
        match self.position(key.as_str()) {
            Some(i) => {
                let ghost k = key@;
                let mut entries: Vec<(String, ExtValue)> = Vec::new();
                std::mem::swap(&mut self.entries, &mut entries);
                entries.set(i, (key, value));
                self.entries = entries;
                assert forall|a: int, b: int|
                    0 <= a < b < self.entries@.len() implies #[trigger] self.entries@[a].0@
                    != #[trigger] self.entries@[b].0@ by {
                    if a != i as int && b != i as int {
                        assert(old(self).entries@[a].0@ != old(self).entries@[b].0@);
                    } else if a == i as int {
                        assert(old(self).entries@[a].0@ != old(self).entries@[b].0@);
                    } else {
                        assert(old(self).entries@[a].0@ != old(self).entries@[b].0@);
                    }
                }
                assert forall|x: Seq<char>| #[trigger] self@.contains_key(x) implies before.insert(k, value).contains_key(x) by {
                    let j = choose|j: int| 0 <= j < self.entries@.len() && self.entries@[j].0@ == x;
                    if j != i as int {
                        assert(old(self).entries@[j].0@ == x);
                    }
                }
                assert forall|x: Seq<char>| #[trigger] before.insert(k, value).contains_key(x) implies self@.contains_key(x) && self@[x] == before.insert(k, value)[x] by {
                    if x == k {
                        self.lemma_view_at(i as int);
                    } else {
                        let j = choose|j: int| 0 <= j < old(self).entries@.len() && old(self).entries@[j].0@ == x;
                        old(self).lemma_view_at(j);
                        self.lemma_view_at(j);
                    }
                }
                assert(self@ =~= before.insert(k, value));
            },
            None => {
                let ghost k = key@;
                let mut entries: Vec<(String, ExtValue)> = Vec::new();
                std::mem::swap(&mut self.entries, &mut entries);
                entries.push((key, value));
                self.entries = entries;
                let ghost n: int = self.entries@.len() - 1;
                assert forall|a: int, b: int|
                    0 <= a < b < self.entries@.len() implies #[trigger] self.entries@[a].0@
                    != #[trigger] self.entries@[b].0@ by {
                    if b == n {
                        assert(!before.contains_key(k));
                        assert(old(self).entries@[a].0@ == self.entries@[a].0@);
                        if old(self).entries@[a].0@ == k {
                            assert(before.dom().contains(k));
                        }
                    } else {
                        assert(old(self).entries@[a].0@ != old(self).entries@[b].0@);
                    }
                }
                assert forall|x: Seq<char>| #[trigger] self@.contains_key(x) implies before.insert(k, value).contains_key(x) by {
                    let j = choose|j: int| 0 <= j < self.entries@.len() && self.entries@[j].0@ == x;
                    if j != n {
                        assert(old(self).entries@[j].0@ == x);
                    }
                }
                assert forall|x: Seq<char>| #[trigger] before.insert(k, value).contains_key(x) implies self@.contains_key(x) && self@[x] == before.insert(k, value)[x] by {
                    if x == k {
                        self.lemma_view_at(n);
                    } else {
                        let j = choose|j: int| 0 <= j < old(self).entries@.len() && old(self).entries@[j].0@ == x;
                        old(self).lemma_view_at(j);
                        self.lemma_view_at(j);
                    }
                }
                assert(self@ =~= before.insert(k, value));
            },
        }
    }
}

/// Access to the side table of an entity.
pub trait Extended {
    fn extended_content(&self) -> &DynMap;

    fn extended_content_mut(&mut self) -> &mut DynMap;
}

} // verus!
