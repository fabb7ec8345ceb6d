//! JSON values as the library holds them, and their mathematical model.
//!
//! Every encoder and decoder of the query model is stated over [`JsonModel`]:
//! an encoder says which tree it builds, a decoder says which trees it accepts
//! and what it reads from them.

use vstd::prelude::*;

verus! {

/// The mathematical model of a JSON number: an integer, or a real number that
/// is identified by the bit pattern of the double it is held as.
pub enum NumberModel {
    Int(int),
    Real(u64),
}

/// The mathematical model of a JSON value. An object keeps its members in the
/// order in which they were written.
#[verifier::ext_equal]
pub enum JsonModel {
    Null,
    Bool(bool),
    Number(NumberModel),
    Str(Seq<char>),
    Array(Seq<JsonModel>),
    Object(Seq<(Seq<char>, JsonModel)>),
}

#[verifier::external_type_specification]
#[verifier::external_body]
pub struct ExNumber(serde_json::Number);

/// What a `serde_json::Number` holds.
pub uninterp spec fn number_model(n: serde_json::Number) -> NumberModel;

/// `serde_json::Number::as_u64`: the integer, where the number is one that
/// is not negative. An integer held by a `serde_json::Number` lies between
/// `i64::MIN` and `u64::MAX`.
pub assume_specification[ serde_json::Number::as_u64 ](n: &serde_json::Number) -> (r: Option<u64>)
    ensures
        match number_model(*n) {
            NumberModel::Int(i) => if 0 <= i {
                i <= u64::MAX && r == Some(i as u64)
            } else {
                i64::MIN <= i && r is None
            },
            NumberModel::Real(_) => r is None,
        },
;

/// `serde_json::Number::as_i64`: the integer, where the number is one that
/// fits in `i64`. An integer held by a `serde_json::Number` is not below
/// `i64::MIN`.
pub assume_specification[ serde_json::Number::as_i64 ](n: &serde_json::Number) -> (r: Option<i64>)
    ensures
        match number_model(*n) {
            NumberModel::Int(i) => if i <= i64::MAX {
                i64::MIN <= i && r == Some(i as i64)
            } else {
                r is None
            },
            NumberModel::Real(_) => r is None,
        },
;

/// `Clone` of `serde_json::Number`: the same number.
pub assume_specification[ <serde_json::Number as Clone>::clone ](n: &serde_json::Number) -> (r:
    serde_json::Number)
    ensures
        r == *n,
;

/// `serde_json::Number::from` on a `u64`: that integer.
#[verifier::external_body]
fn number_of_u64(n: u64) -> (r: serde_json::Number)
    ensures
        number_model(r) == NumberModel::Int(n as int),
{
    serde_json::Number::from(n)
}

/// `serde_json::Number::from` on an `i64`: that integer.
#[verifier::external_body]
fn number_of_i64(n: i64) -> (r: serde_json::Number)
    ensures
        number_model(r) == NumberModel::Int(n as int),
{
    serde_json::Number::from(n)
}

/// A JSON value. Numbers are held as `serde_json` holds them, so that a real
/// number passes through the library untouched.
#[derive(Debug, PartialEq)]
pub enum Json {
    Null,
    Bool(bool),
    Number(serde_json::Number),
    Str(String),
    Array(Vec<Json>),
    Object(Vec<(String, Json)>),
}

impl Json {
    /// The tree that this value stands for.
    pub open spec fn model(self) -> JsonModel
        decreases self,
    {
        match self {
            Json::Null => JsonModel::Null,
            Json::Bool(b) => JsonModel::Bool(b),
            Json::Number(n) => JsonModel::Number(number_model(n)),
            Json::Str(s) => JsonModel::Str(s@),
            Json::Array(items) => JsonModel::Array(Self::models(items@)),
            Json::Object(members) => JsonModel::Object(Self::member_models(members@)),
        }
    }

    /// The trees of a sequence of values.
    pub open spec fn models(items: Seq<Json>) -> Seq<JsonModel>
        decreases items,
    {
        Seq::new(
            items.len(),
            |i: int|
                if 0 <= i < items.len() {
                    items[i].model()
                } else {
                    JsonModel::Null
                },
        )
    }

    /// The members of an object, each value as its tree.
    pub open spec fn member_models(members: Seq<(String, Json)>) -> Seq<(Seq<char>, JsonModel)>
        decreases members,
    {
        Seq::new(
            members.len(),
            |i: int|
                if 0 <= i < members.len() {
                    (members[i].0@, members[i].1.model())
                } else {
                    (Seq::empty(), JsonModel::Null)
                },
        )
    }
}

impl View for Json {
    type V = JsonModel;

    open spec fn view(&self) -> JsonModel {
        self.model()
    }
}

/// The text of a string that may be absent.
pub open spec fn optional_text_view(s: Option<String>) -> Option<Seq<char>> {
    match s {
        Some(t) => Some(t@),
        None => None,
    }
}

/// The views of a sequence of strings.
pub open spec fn text_views(s: Seq<String>) -> Seq<Seq<char>> {
    Seq::new(s.len(), |i: int| s[i]@)
}

/// The views of a sequence of rows of strings.
pub open spec fn text_row_views(s: Seq<Vec<String>>) -> Seq<Seq<Seq<char>>> {
    Seq::new(s.len(), |i: int| text_views(s[i]@))
}

impl JsonModel {
    /// The value of the first member named `key` at or after position `from`.
    pub open spec fn find(
        members: Seq<(Seq<char>, JsonModel)>,
        key: Seq<char>,
        from: int,
    ) -> Option<JsonModel>
        decreases members.len() - from,
    {
        if from < 0 || from >= members.len() {
            None
        } else if members[from].0 == key {
            Some(members[from].1)
        } else {
            Self::find(members, key, from + 1)
        }
    }

    /// The value of the first member named `key`, where `self` is an object
    /// that has one.
    pub open spec fn field(self, key: Seq<char>) -> Option<JsonModel> {
        match self {
            JsonModel::Object(members) => Self::find(members, key, 0),
            _ => None,
        }
    }

    /// The member `key` as an optional value: an absent member and `null` both
    /// stand for "not given".
    pub open spec fn optional(self, key: Seq<char>) -> Option<JsonModel> {
        match self.field(key) {
            Some(JsonModel::Null) => None,
            other => other,
        }
    }

    /// An integer.
    pub open spec fn integer(n: int) -> JsonModel {
        JsonModel::Number(NumberModel::Int(n))
    }

    /// An array of strings.
    pub open spec fn texts(s: Seq<Seq<char>>) -> JsonModel {
        JsonModel::Array(Seq::new(s.len(), |i: int| JsonModel::Str(s[i])))
    }

    /// An array of arrays of strings.
    pub open spec fn text_rows(s: Seq<Seq<Seq<char>>>) -> JsonModel {
        JsonModel::Array(Seq::new(s.len(), |i: int| Self::texts(s[i])))
    }

    /// A string or `null`.
    pub open spec fn optional_text(s: Option<Seq<char>>) -> JsonModel {
        match s {
            Some(t) => JsonModel::Str(t),
            None => JsonModel::Null,
        }
    }

    /// An integer or `null`.
    pub open spec fn optional_usize(n: Option<usize>) -> JsonModel {
        match n {
            Some(v) => Self::integer(v as int),
            None => JsonModel::Null,
        }
    }

    /// The string that `self` is, if it is one.
    pub open spec fn as_text(self) -> Option<Seq<char>> {
        match self {
            JsonModel::Str(s) => Some(s),
            _ => None,
        }
    }

    /// The boolean that `self` is, if it is one.
    pub open spec fn as_bool(self) -> Option<bool> {
        match self {
            JsonModel::Bool(b) => Some(b),
            _ => None,
        }
    }

    /// The integer that `self` is, if it is one that fits in `usize`.
    pub open spec fn as_usize(self) -> Option<usize> {
        match self {
            JsonModel::Number(NumberModel::Int(i)) => if 0 <= i <= usize::MAX {
                Some(i as usize)
            } else {
                None
            },
            _ => None,
        }
    }

    /// The integer that `self` is, if it is one that fits in `isize`.
    pub open spec fn as_isize(self) -> Option<isize> {
        match self {
            JsonModel::Number(NumberModel::Int(i)) => if isize::MIN <= i <= isize::MAX {
                Some(i as isize)
            } else {
                None
            },
            _ => None,
        }
    }

    /// The strings that `self` holds, if it is an array of strings.
    pub open spec fn as_texts(self) -> Option<Seq<Seq<char>>> {
        match self {
            JsonModel::Array(items) => if forall|i: int|
                0 <= i < items.len() ==> (#[trigger] items[i]) is Str {
                Some(Seq::new(items.len(), |i: int| items[i]->Str_0))
            } else {
                None
            },
            _ => None,
        }
    }

    /// The rows that `self` holds, if it is an array of arrays of strings.
    pub open spec fn as_text_rows(self) -> Option<Seq<Seq<Seq<char>>>> {
        match self {
            JsonModel::Array(items) => if forall|i: int|
                0 <= i < items.len() ==> (#[trigger] items[i]).as_texts() is Some {
                Some(Seq::new(items.len(), |i: int| items[i].as_texts()->Some_0))
            } else {
                None
            },
            _ => None,
        }
    }

    /// The required string member `key`.
    pub open spec fn text_field(self, key: Seq<char>) -> Option<Seq<char>> {
        match self.field(key) {
            Some(v) => v.as_text(),
            None => None,
        }
    }

    /// The required boolean member `key`.
    pub open spec fn bool_field(self, key: Seq<char>) -> Option<bool> {
        match self.field(key) {
            Some(v) => v.as_bool(),
            None => None,
        }
    }

    /// The required integer member `key`.
    pub open spec fn usize_field(self, key: Seq<char>) -> Option<usize> {
        match self.field(key) {
            Some(v) => v.as_usize(),
            None => None,
        }
    }

    /// The required member `key` that is an array of strings.
    pub open spec fn texts_field(self, key: Seq<char>) -> Option<Seq<Seq<char>>> {
        match self.field(key) {
            Some(v) => v.as_texts(),
            None => None,
        }
    }

    /// The required member `key` that is an array of arrays of strings.
    pub open spec fn text_rows_field(self, key: Seq<char>) -> Option<Seq<Seq<Seq<char>>>> {
        match self.field(key) {
            Some(v) => v.as_text_rows(),
            None => None,
        }
    }

    /// The items that `self` holds, if it is an array.
    pub open spec fn as_items(self) -> Option<Seq<JsonModel>> {
        match self {
            JsonModel::Array(items) => Some(items),
            _ => None,
        }
    }

    /// The items of the required member `key` that is an array.
    pub open spec fn array_field(self, key: Seq<char>) -> Option<Seq<JsonModel>> {
        match self.field(key) {
            Some(v) => v.as_items(),
            None => None,
        }
    }

    /// The optional string member `key`: `None` where it is given and is not
    /// a string.
    pub open spec fn optional_text_field(self, key: Seq<char>) -> Option<Option<Seq<char>>> {
        match self.optional(key) {
            Some(v) => match v.as_text() {
                Some(s) => Some(Some(s)),
                None => None,
            },
            None => Some(None),
        }
    }

    /// The optional integer member `key`: `None` where it is given and is not
    /// an integer that fits in `usize`.
    pub open spec fn optional_usize_field(self, key: Seq<char>) -> Option<Option<usize>> {
        match self.optional(key) {
            Some(v) => match v.as_usize() {
                Some(n) => Some(Some(n)),
                None => None,
            },
            None => Some(None),
        }
    }

    /// The optional boolean member `key`: `None` where it is given and is not
    /// a boolean.
    pub open spec fn optional_bool_field(self, key: Seq<char>) -> Option<Option<bool>> {
        match self.optional(key) {
            Some(v) => match v.as_bool() {
                Some(b) => Some(Some(b)),
                None => None,
            },
            None => Some(None),
        }
    }

    /// An array of strings reads as those strings.
    pub proof fn lemma_texts(s: Seq<Seq<char>>)
        ensures
            Self::texts(s).as_texts() == Some(s),
    {
        assert(Self::texts(s).as_texts()->Some_0 =~= s);
    }

    /// An array of arrays of strings reads as those rows.
    pub proof fn lemma_text_rows(s: Seq<Seq<Seq<char>>>)
        ensures
            Self::text_rows(s).as_text_rows() == Some(s),
    {
        assert forall|i: int| 0 <= i < s.len() implies (#[trigger] Self::text_rows(
            s,
        )->Array_0[i]).as_texts() == Some(s[i]) by {
            Self::lemma_texts(s[i]);
        }
        assert(Self::text_rows(s).as_text_rows()->Some_0 =~= s);
    }

    /// A member that `find` returns stands in the sequence.
    pub proof fn lemma_find_is_member(
        members: Seq<(Seq<char>, JsonModel)>,
        key: Seq<char>,
        from: int,
    )
        requires
            0 <= from,
        ensures
            Self::find(members, key, from) matches Some(v) ==> exists|i: int|
                from <= i < members.len() && #[trigger] members[i] == (key, v),
        decreases members.len() - from,
    {
        if from < members.len() && members[from].0 != key {
            Self::lemma_find_is_member(members, key, from + 1);
        }
    }

    /// A member of an object is a smaller tree than the object.
    pub proof fn lemma_field_decreases(self, key: Seq<char>)
        ensures
            self.field(key) matches Some(v) ==> decreases_to!(self => v),
            self.optional(key) matches Some(v) ==> decreases_to!(self => v),
    {
        if let JsonModel::Object(members) = self {
            Self::lemma_find_is_member(members, key, 0);
            if let Some(v) = Self::find(members, key, 0) {
                let i = choose|i: int| 0 <= i < members.len() && #[trigger] members[i] == (key, v);
                assert(decreases_to!(members => members[i]));
                assert(decreases_to!(members[i] => members[i].1));
            }
        }
    }
}

/// Whether two strings hold the same text.
pub fn same_text(a: &str, b: &str) -> (r: bool)
    ensures
        r == (a@ == b@),
{
    let x = a.to_owned();
    let y = b.to_owned();
    x == y
}

impl Json {
    /// The string `s` as a JSON value.
    pub fn text(s: &str) -> (j: Json)
        ensures
            j@ == JsonModel::Str(s@),
    {
        Json::Str(s.to_owned())
    }

    /// The integer `n` as a JSON value.
    pub fn from_usize(n: usize) -> (j: Json)
        ensures
            j@ == JsonModel::integer(n as int),
    {
        Json::Number(number_of_u64(n as u64))
    }

    /// The integer `n` as a JSON value.
    pub fn from_isize(n: isize) -> (j: Json)
        ensures
            j@ == JsonModel::integer(n as int),
    {
        Json::Number(number_of_i64(n as i64))
    }

    /// The value of the first member named `key`, where `self` is an object
    /// that has one.
    pub fn get<'a>(&'a self, key: &str) -> (r: Option<&'a Json>)
        ensures
            match r {
                Some(v) => self@.field(key@) == Some(v@),
                None => self@.field(key@) is None,
            },
    {
        match self {
            Json::Object(members) => {
                let mut i: usize = 0;
                while i < members.len()
                    invariant
                        i <= members.len(),
                        self@ == JsonModel::Object(Json::member_models(members@)),
                        self@.field(key@) == JsonModel::find(
                            Json::member_models(members@),
                            key@,
                            i as int,
                        ),
                    decreases members.len() - i,
                {
                    if same_text(members[i].0.as_str(), key) {
                        return Some(&members[i].1);
                    }
                    i += 1;
                }
                None
            },
            _ => None,
        }
    }

    /// The member `key` as an optional value: an absent member and `null` both
    /// stand for "not given".
    pub fn get_optional<'a>(&'a self, key: &str) -> (r: Option<&'a Json>)
        ensures
            match r {
                Some(v) => self@.optional(key@) == Some(v@),
                None => self@.optional(key@) is None,
            },
    {
        match self.get(key) {
            Some(Json::Null) => None,
            other => other,
        }
    }

    /// The string that `self` is, if it is one.
    pub fn as_text(&self) -> (r: Option<String>)
        ensures
            match r {
                Some(s) => self@.as_text() == Some(s@),
                None => self@.as_text() is None,
            },
    {
        match self {
            Json::Str(s) => Some(s.clone()),
            _ => None,
        }
    }

    /// The boolean that `self` is, if it is one.
    pub fn as_bool(&self) -> (r: Option<bool>)
        ensures
            r == self@.as_bool(),
    {
        match self {
            Json::Bool(b) => Some(*b),
            _ => None,
        }
    }

    /// The integer that `self` is, if it is one that fits in `usize`.
    pub fn as_usize(&self) -> (r: Option<usize>)
        ensures
            r == self@.as_usize(),
    {
        match self {
            Json::Number(n) => match n.as_u64() {
                Some(u) => if u <= usize::MAX as u64 {
                    Some(u as usize)
                } else {
                    None
                },
                None => None,
            },
            _ => None,
        }
    }

    /// The integer that `self` is, if it is one that fits in `isize`.
    pub fn as_isize(&self) -> (r: Option<isize>)
        ensures
            r == self@.as_isize(),
    {
        match self {
            Json::Number(n) => match n.as_i64() {
                Some(i) => if isize::MIN as i64 <= i && i <= isize::MAX as i64 {
                    Some(i as isize)
                } else {
                    None
                },
                None => None,
            },
            _ => None,
        }
    }

    /// The strings that `self` holds, if it is an array of strings.
    pub fn as_texts(&self) -> (r: Option<Vec<String>>)
        ensures
            match r {
                Some(v) => self@.as_texts() == Some(text_views(v@)),
                None => self@.as_texts() is None,
            },
    {
        match self {
            Json::Array(items) => {
                let mut out: Vec<String> = Vec::new();
                let mut i: usize = 0;
                while i < items.len()
                    invariant
                        i <= items.len(),
                        out@.len() == i,
                        self@ == JsonModel::Array(Json::models(items@)),
                        forall|k: int|
                            0 <= k < i ==> (#[trigger] Json::models(items@)[k]) == JsonModel::Str(
                                out@[k]@,
                            ),
                    decreases items.len() - i,
                {
                    match &items[i] {
                        Json::Str(s) => {
                            out.push(s.clone());
                        },
                        _ => {
                            assert(!(Json::models(items@)[i as int] is Str));
                            return None;
                        },
                    }
                    i += 1;
                }
                proof {
                    let all = Json::models(items@);
                    assert(forall|k: int| 0 <= k < all.len() ==> (#[trigger] all[k]) is Str);
                    assert(self@.as_texts()->Some_0 =~= text_views(out@));
                }
                Some(out)
            },
            _ => None,
        }
    }

    /// The rows that `self` holds, if it is an array of arrays of strings.
    pub fn as_text_rows(&self) -> (r: Option<Vec<Vec<String>>>)
        ensures
            match r {
                Some(v) => self@.as_text_rows() == Some(text_row_views(v@)),
                None => self@.as_text_rows() is None,
            },
    {
        match self {
            Json::Array(items) => {
                let mut out: Vec<Vec<String>> = Vec::new();
                let mut i: usize = 0;
                while i < items.len()
                    invariant
                        i <= items.len(),
                        out@.len() == i,
                        self@ == JsonModel::Array(Json::models(items@)),
                        forall|k: int|
                            0 <= k < i ==> (#[trigger] Json::models(items@)[k]).as_texts() == Some(
                                text_views(out@[k]@),
                            ),
                    decreases items.len() - i,
                {
                    match items[i].as_texts() {
                        Some(row) => {
                            out.push(row);
                        },
                        None => {
                            assert(Json::models(items@)[i as int].as_texts() is None);
                            return None;
                        },
                    }
                    i += 1;
                }
                proof {
                    let all = Json::models(items@);
                    assert(forall|k: int|
                        0 <= k < all.len() ==> (#[trigger] all[k]).as_texts() is Some);
                    assert(self@.as_text_rows()->Some_0 =~= text_row_views(out@));
                }
                Some(out)
            },
            _ => None,
        }
    }

    /// The required string member `key`.
    pub fn text_field(&self, key: &str) -> (r: Option<String>)
        ensures
            match r {
                Some(s) => self@.text_field(key@) == Some(s@),
                None => self@.text_field(key@) is None,
            },
    {
        match self.get(key) {
            Some(v) => v.as_text(),
            None => None,
        }
    }

    /// The required boolean member `key`.
    pub fn bool_field(&self, key: &str) -> (r: Option<bool>)
        ensures
            r == self@.bool_field(key@),
    {
        match self.get(key) {
            Some(v) => v.as_bool(),
            None => None,
        }
    }

    /// The required integer member `key`.
    pub fn usize_field(&self, key: &str) -> (r: Option<usize>)
        ensures
            r == self@.usize_field(key@),
    {
        match self.get(key) {
            Some(v) => v.as_usize(),
            None => None,
        }
    }

    /// The required member `key` that is an array of strings.
    pub fn texts_field(&self, key: &str) -> (r: Option<Vec<String>>)
        ensures
            match r {
                Some(v) => self@.texts_field(key@) == Some(text_views(v@)),
                None => self@.texts_field(key@) is None,
            },
    {
        match self.get(key) {
            Some(v) => v.as_texts(),
            None => None,
        }
    }

    /// The required member `key` that is an array of arrays of strings.
    pub fn text_rows_field(&self, key: &str) -> (r: Option<Vec<Vec<String>>>)
        ensures
            match r {
                Some(v) => self@.text_rows_field(key@) == Some(text_row_views(v@)),
                None => self@.text_rows_field(key@) is None,
            },
    {
        match self.get(key) {
            Some(v) => v.as_text_rows(),
            None => None,
        }
    }

    /// The optional string member `key`: `None` where it is given and is not
    /// a string.
    pub fn optional_text_field(&self, key: &str) -> (r: Option<Option<String>>)
        ensures
            match r {
                Some(v) => self@.optional_text_field(key@) == Some(optional_text_view(v)),
                None => self@.optional_text_field(key@) is None,
            },
    {
        match self.get_optional(key) {
            Some(v) => match v.as_text() {
                Some(s) => Some(Some(s)),
                None => None,
            },
            None => Some(None),
        }
    }

    /// The optional integer member `key`: `None` where it is given and is not
    /// an integer that fits in `usize`.
    pub fn optional_usize_field(&self, key: &str) -> (r: Option<Option<usize>>)
        ensures
            r == self@.optional_usize_field(key@),
    {
        match self.get_optional(key) {
            Some(v) => match v.as_usize() {
                Some(n) => Some(Some(n)),
                None => None,
            },
            None => Some(None),
        }
    }

    /// The optional boolean member `key`: `None` where it is given and is not
    /// a boolean.
    pub fn optional_bool_field(&self, key: &str) -> (r: Option<Option<bool>>)
        ensures
            r == self@.optional_bool_field(key@),
    {
        match self.get_optional(key) {
            Some(v) => match v.as_bool() {
                Some(b) => Some(Some(b)),
                None => None,
            },
            None => Some(None),
        }
    }

    /// A copy of the required member `key`.
    pub fn field_duplicate(&self, key: &str) -> (r: Option<Json>)
        ensures
            match r {
                Some(v) => self@.field(key@) == Some(v@),
                None => self@.field(key@) is None,
            },
    {
        match self.get(key) {
            Some(v) => Some(v.duplicate()),
            None => None,
        }
    }

    /// Copies of the items that `self` holds, if it is an array.
    pub fn as_items(&self) -> (r: Option<Vec<Json>>)
        ensures
            match r {
                Some(v) => self@.as_items() == Some(Json::models(v@)),
                None => self@.as_items() is None,
            },
    {
        match self {
            Json::Array(items) => {
                let mut out: Vec<Json> = Vec::new();
                let mut i: usize = 0;
                while i < items.len()
                    invariant
                        i <= items.len(),
                        out@.len() == i,
                        forall|k: int| 0 <= k < i ==> (#[trigger] out@[k])@ == items@[k]@,
                    decreases items.len() - i,
                {
                    out.push(items[i].duplicate());
                    i += 1;
                }
                proof {
                    assert(Json::models(out@) =~= Json::models(items@));
                }
                Some(out)
            },
            _ => None,
        }
    }

    /// Copies of the items of the required member `key` that is an array.
    pub fn array_field(&self, key: &str) -> (r: Option<Vec<Json>>)
        ensures
            match r {
                Some(v) => self@.array_field(key@) == Some(Json::models(v@)),
                None => self@.array_field(key@) is None,
            },
    {
        match self.get(key) {
            Some(v) => v.as_items(),
            None => None,
        }
    }

    /// An array of strings.
    pub fn texts(v: &Vec<String>) -> (j: Json)
        ensures
            j@ == JsonModel::texts(text_views(v@)),
    {
        let mut out: Vec<Json> = Vec::new();
        let mut i: usize = 0;
        while i < v.len()
            invariant
                i <= v.len(),
                out@.len() == i,
                forall|k: int| 0 <= k < i ==> (#[trigger] out@[k]) == Json::Str(v@[k]),
            decreases v.len() - i,
        {
            out.push(Json::Str(v[i].clone()));
            i += 1;
        }
        proof {
            assert(Json::models(out@) =~= JsonModel::texts(text_views(v@))->Array_0);
        }
        Json::Array(out)
    }

    /// An array of arrays of strings.
    pub fn text_rows(v: &Vec<Vec<String>>) -> (j: Json)
        ensures
            j@ == JsonModel::text_rows(text_row_views(v@)),
    {
        let mut out: Vec<Json> = Vec::new();
        let mut i: usize = 0;
        while i < v.len()
            invariant
                i <= v.len(),
                out@.len() == i,
                forall|k: int|
                    0 <= k < i ==> (#[trigger] out@[k])@ == JsonModel::texts(text_views(v@[k]@)),
            decreases v.len() - i,
        {
            out.push(Json::texts(&v[i]));
            i += 1;
        }
        proof {
            assert(Json::models(out@) =~= JsonModel::text_rows(text_row_views(v@))->Array_0);
        }
        Json::Array(out)
    }

    /// A string or `null`.
    pub fn optional_text(s: &Option<String>) -> (j: Json)
        ensures
            j@ == JsonModel::optional_text(optional_text_view(*s)),
    {
        match s {
            Some(t) => Json::Str(t.clone()),
            None => Json::Null,
        }
    }

    /// An integer or `null`.
    pub fn optional_usize(n: &Option<usize>) -> (j: Json)
        ensures
            j@ == JsonModel::optional_usize(*n),
    {
        match n {
            Some(v) => Json::from_usize(*v),
            None => Json::Null,
        }
    }

    /// A copy of this value.
    pub fn duplicate(&self) -> (j: Json)
        ensures
            j@ == self@,
        decreases self,
    {
        match self {
            Json::Null => Json::Null,
            Json::Bool(b) => Json::Bool(*b),
            Json::Number(n) => Json::Number(n.clone()),
            Json::Str(s) => Json::Str(s.clone()),
            Json::Array(items) => {
                let mut out: Vec<Json> = Vec::new();
                let mut i: usize = 0;
                while i < items.len()
                    invariant
                        i <= items.len(),
                        out@.len() == i,
                        *self == Json::Array(*items),
                        forall|k: int| 0 <= k < i ==> (#[trigger] out@[k])@ == items@[k]@,
                    decreases items.len() - i,
                {
                    proof {
                        assert(decreases_to!(*self => (*self)->Array_0));
                        assert(decreases_to!(*items => items@));
                        assert(decreases_to!(items@ => items@[i as int]));
                    }
                    out.push(items[i].duplicate());
                    i += 1;
                }
                proof {
                    assert(Json::models(out@) =~= Json::models(items@));
                }
                Json::Array(out)
            },
            Json::Object(members) => {
                let mut out: Vec<(String, Json)> = Vec::new();
                let mut i: usize = 0;
                while i < members.len()
                    invariant
                        i <= members.len(),
                        out@.len() == i,
                        *self == Json::Object(*members),
                        forall|k: int|
                            0 <= k < i ==> (#[trigger] out@[k]).0@ == members@[k].0@ && out@[k].1@
                                == members@[k].1@,
                    decreases members.len() - i,
                {
                    proof {
                        assert(decreases_to!(*self => (*self)->Object_0));
                        assert(decreases_to!(*members => members@));
                        assert(decreases_to!(members@ => members@[i as int]));
                        assert(decreases_to!(members@[i as int] => members@[i as int].1));
                    }
                    let name = members[i].0.clone();
                    let value = members[i].1.duplicate();
                    out.push((name, value));
                    i += 1;
                }
                proof {
                    assert(Json::member_models(out@) =~= Json::member_models(members@));
                }
                Json::Object(out)
            },
        }
    }
}

/// The members of an object that is being written, in the order in which they
/// were put.
pub struct ObjectWriter {
    members: Vec<(String, Json)>,
}

impl View for ObjectWriter {
    type V = Seq<(Seq<char>, JsonModel)>;

    closed spec fn view(&self) -> Seq<(Seq<char>, JsonModel)> {
        Json::member_models(self.members@)
    }
}

impl ObjectWriter {
    /// No members yet.
    pub fn new() -> (w: ObjectWriter)
        ensures
            w@ == Seq::<(Seq<char>, JsonModel)>::empty(),
    {
        let w = ObjectWriter { members: Vec::new() };
        assert(w@ =~= Seq::empty());
        w
    }

    /// Adds the member `key` with `value` after those that are there.
    pub fn put(&mut self, key: &str, value: Json)
        ensures
            final(self)@ == old(self)@.push((key@, value@)),
    {
        self.members.push((key.to_owned(), value));
        assert(self@ =~= old(self)@.push((key@, value@)));
    }

    /// The object of the members that were put.
    pub fn finish(self) -> (j: Json)
        ensures
            j@ == JsonModel::Object(self@),
    {
        Json::Object(self.members)
    }
}

} // verus!
