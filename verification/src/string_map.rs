//! A map from strings to strings that keeps its entries in the order in
//! which they came, as a query's context and a lookup's table are written.

use crate::json::{Json, JsonModel, ObjectWriter};
use vstd::prelude::*;

verus! {

/// The mathematical model of a [`StringMap`]: its entries in order.
#[verifier::ext_equal]
pub struct StringMapModel {
    pub entries: Seq<(Seq<char>, Seq<char>)>,
}

impl StringMapModel {
    /// The position of the first entry under `key` at or after `from`.
    pub open spec fn position(self, key: Seq<char>, from: int) -> Option<int>
        decreases self.entries.len() - from,
    {
        if from < 0 || from >= self.entries.len() {
            None
        } else if self.entries[from].0 == key {
            Some(from)
        } else {
            self.position(key, from + 1)
        }
    }

    /// The value under `key`, if there is one.
    pub open spec fn get(self, key: Seq<char>) -> Option<Seq<char>> {
        match self.position(key, 0) {
            Some(i) => Some(self.entries[i].1),
            None => None,
        }
    }

    /// The map after `value` was written under `key`: in place where the key
    /// was there, at the end where it was not.
    pub open spec fn put(self, key: Seq<char>, value: Seq<char>) -> StringMapModel {
        match self.position(key, 0) {
            Some(i) => StringMapModel { entries: self.entries.update(i, (key, value)) },
            None => StringMapModel { entries: self.entries.push((key, value)) },
        }
    }

    /// No key stands twice.
    pub open spec fn unique(self) -> bool {
        forall|i: int, j: int|
            0 <= i < j < self.entries.len() ==> (#[trigger] self.entries[i]).0 != (
            #[trigger] self.entries[j]).0
    }

    /// The wire form: an object with one string member for each entry.
    pub open spec fn wire(self) -> JsonModel {
        JsonModel::Object(
            Seq::new(
                self.entries.len(),
                |i: int| (self.entries[i].0, JsonModel::Str(self.entries[i].1)),
            ),
        )
    }

    /// What a JSON value reads as: the members of an object whose values are
    /// all strings, and nothing else.
    pub open spec fn parse(j: JsonModel) -> Option<StringMapModel> {
        match j {
            JsonModel::Object(members) => if forall|i: int|
                0 <= i < members.len() ==> (#[trigger] members[i]).1 is Str {
                Some(
                    StringMapModel {
                        entries: Seq::new(
                            members.len(),
                            |i: int| (members[i].0, members[i].1->Str_0),
                        ),
                    },
                )
            } else {
                None
            },
            _ => None,
        }
    }

    /// What the required member `key` of `j` reads as.
    pub open spec fn parse_field(j: JsonModel, key: Seq<char>) -> Option<StringMapModel> {
        match j.field(key) {
            Some(v) => Self::parse(v),
            None => None,
        }
    }

    /// A position that `position` returns holds the key, and no earlier one
    /// at or after `from` does.
    pub proof fn lemma_position(self, key: Seq<char>, from: int)
        requires
            0 <= from,
        ensures
            match self.position(key, from) {
                Some(i) => {
                    &&& from <= i < self.entries.len()
                    &&& self.entries[i].0 == key
                    &&& forall|k: int| from <= k < i ==> (#[trigger] self.entries[k]).0 != key
                },
                None => forall|k: int|
                    from <= k < self.entries.len() ==> (#[trigger] self.entries[k]).0 != key,
            },
        decreases self.entries.len() - from,
    {
        if from < self.entries.len() && self.entries[from].0 != key {
            self.lemma_position(key, from + 1);
        }
    }

    /// Writing under a key keeps every key single.
    pub proof fn lemma_put_unique(self, key: Seq<char>, value: Seq<char>)
        requires
            self.unique(),
        ensures
            self.put(key, value).unique(),
            self.put(key, value).get(key) == Some(value),
    {
        self.lemma_position(key, 0);
        let after = self.put(key, value);
        after.lemma_position(key, 0);
        let at = match self.position(key, 0) {
            Some(i) => i,
            None => self.entries.len() as int,
        };
        assert(after.entries[at] == (key, value));
        assert(forall|k: int| 0 <= k < at ==> after.entries[k] == #[trigger] self.entries[k]);
        let found = after.position(key, 0)->Some_0;
        if found < at {
            assert(self.entries[found].0 != key);
        }
        assert(found == at);
    }

    /// Decoding the wire form of a map gives the map back.
    pub proof fn lemma_round_trip(self)
        ensures
            Self::parse(self.wire()) == Some(self),
    {
        assert(Self::parse(self.wire())->Some_0.entries =~= self.entries);
    }
}

/// A map from strings to strings, in the order in which the keys were first
/// written. A map that is made with `new` and `insert` holds no key twice
/// (`unique`), and neither does a map that is read from JSON text.
#[derive(Debug, PartialEq)]
pub struct StringMap {
    entries: Vec<(String, String)>,
}

impl StringMap {
    /// The entries as their texts.
    pub open spec fn entry_views(entries: Seq<(String, String)>) -> Seq<(Seq<char>, Seq<char>)> {
        Seq::new(entries.len(), |i: int| (entries[i].0@, entries[i].1@))
    }
}

impl View for StringMap {
    type V = StringMapModel;

    closed spec fn view(&self) -> StringMapModel {
        StringMapModel { entries: Self::entry_views(self.entries@) }
    }
}

impl Default for StringMap {
    fn default() -> (m: StringMap)
        ensures
            m@.entries == Seq::<(Seq<char>, Seq<char>)>::empty(),
    {
        StringMap::new()
    }
}

impl StringMap {
    /// The empty map.
    pub fn new() -> (m: StringMap)
        ensures
            m@.entries == Seq::<(Seq<char>, Seq<char>)>::empty(),
            m@.unique(),
    {
        let m = StringMap { entries: Vec::new() };
        assert(m@.entries =~= Seq::empty());
        m
    }

    /// How many entries the map holds.
    pub fn len(&self) -> (n: usize)
        ensures
            n == self@.entries.len(),
    {
        self.entries.len()
    }

    /// Whether the map holds no entry.
    pub fn is_empty(&self) -> (b: bool)
        ensures
            b == (self@.entries.len() == 0),
    {
        self.entries.len() == 0
    }

    /// The position of the first entry under `key`.
    fn find(&self, key: &str) -> (r: Option<usize>)
        ensures
            match r {
                Some(i) => self@.position(key@, 0) == Some(i as int) && i < self.entries@.len(),
                None => self@.position(key@, 0) is None,
            },
    {
        let mut i: usize = 0;
        while i < self.entries.len()
            invariant
                i <= self.entries.len(),
                self@.position(key@, 0) == self@.position(key@, i as int),
            decreases self.entries.len() - i,
        {
            if crate::json::same_text(self.entries[i].0.as_str(), key) {
                return Some(i);
            }
            i += 1;
        }
        None
    }

    /// The value under `key`, if there is one.
    pub fn get(&self, key: &str) -> (r: Option<&String>)
        ensures
            match r {
                Some(v) => self@.get(key@) == Some(v@),
                None => self@.get(key@) is None,
            },
    {
        match self.find(key) {
            Some(i) => Some(&self.entries[i].1),
            None => None,
        }
    }

    /// Writes `value` under `key` and hands back the value that stood there.
    pub fn insert(&mut self, key: String, value: String) -> (previous: Option<String>)
        ensures
            final(self)@ == old(self)@.put(key@, value@),
            match previous {
                Some(v) => old(self)@.get(key@) == Some(v@),
                None => old(self)@.get(key@) is None,
            },
            old(self)@.unique() ==> final(self)@.unique(),
    {
        proof {
            if self@.unique() {
                self@.lemma_put_unique(key@, value@);
            }
        }
        match self.find(key.as_str()) {
            Some(i) => {
                let previous = self.entries[i].1.clone();
                self.entries.set(i, (key, value));
                assert(self@.entries =~= old(self)@.put(key@, value@).entries);
                Some(previous)
            },
            None => {
                self.entries.push((key, value));
                assert(self@.entries =~= old(self)@.put(key@, value@).entries);
                None
            },
        }
    }

    /// The wire form of the map.
    pub fn to_json(&self) -> (j: Json)
        ensures
            j@ == self@.wire(),
    {
        let mut w = ObjectWriter::new();
        let mut i: usize = 0;
        while i < self.entries.len()
            invariant
                i <= self.entries.len(),
                w@.len() == i,
                forall|k: int|
                    0 <= k < i ==> (#[trigger] w@[k]) == (
                        self.entries@[k].0@,
                        JsonModel::Str(self.entries@[k].1@),
                    ),
            decreases self.entries.len() - i,
        {
            w.put(self.entries[i].0.as_str(), Json::text(self.entries[i].1.as_str()));
            i += 1;
        }
        assert(w@ =~= self@.wire()->Object_0);
        w.finish()
    }

    /// Reads a map from a JSON value: the members of an object whose values
    /// are all strings. Where the object holds no name twice, the map holds
    /// no key twice.
    pub fn from_json(j: &Json) -> (r: Option<StringMap>)
        ensures
            match r {
                Some(m) => StringMapModel::parse(j@) == Some(m@) && (j@.names_once()
                    ==> m@.unique()),
                None => StringMapModel::parse(j@) is None,
            },
    {
        match j {
            Json::Object(members) => {
                let mut entries: Vec<(String, String)> = Vec::new();
                let mut i: usize = 0;
                while i < members.len()
                    invariant
                        i <= members.len(),
                        entries@.len() == i,
                        j@ == JsonModel::Object(Json::member_models(members@)),
                        forall|k: int|
                            0 <= k < i ==> (#[trigger] Json::member_models(members@)[k]) == (
                                entries@[k].0@,
                                JsonModel::Str(entries@[k].1@),
                            ),
                    decreases members.len() - i,
                {
                    match &members[i].1 {
                        Json::Str(s) => {
                            entries.push((members[i].0.clone(), s.clone()));
                        },
                        _ => {
                            assert(!(Json::member_models(members@)[i as int].1 is Str));
                            return None;
                        },
                    }
                    i += 1;
                }
                let m = StringMap { entries };
                proof {
                    let all = Json::member_models(members@);
                    assert(forall|k: int| 0 <= k < all.len() ==> (#[trigger] all[k]).1 is Str);
                    assert(StringMapModel::parse(j@)->Some_0.entries =~= m@.entries);
                }
                Some(m)
            },
            _ => None,
        }
    }

    /// Reads the required member `key` of `j` as a map.
    pub fn field_from_json(j: &Json, key: &str) -> (r: Option<StringMap>)
        ensures
            match r {
                Some(m) => StringMapModel::parse_field(j@, key@) == Some(m@),
                None => StringMapModel::parse_field(j@, key@) is None,
            },
    {
        match j.get(key) {
            Some(v) => Self::from_json(v),
            None => None,
        }
    }
}

} // verus!
