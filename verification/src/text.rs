//! JSON text, read and written by `serde_json`.
//!
//! The library holds a JSON value as a [`Json`]; `serde_json` holds it as a
//! `serde_json::Value`. This module walks one into the other, layer by layer,
//! and hands the text to `serde_json`. An object of `serde_json` holds each
//! name once: writing a name again replaces the value that stands under it, at
//! the place where the name stood first. [`JsonModel::merged`] says what is
//! left of a tree after that.

use crate::json::{number_model, Json, JsonModel};
use vstd::prelude::*;

verus! {

#[verifier::external_type_specification]
#[verifier::external_body]
pub struct ExValue(serde_json::Value);

#[verifier::external_type_specification]
#[verifier::external_body]
pub struct ExError(serde_json::Error);

/// The tree that a `serde_json::Value` holds.
pub uninterp spec fn tree_of(v: serde_json::Value) -> JsonModel;

/// What `serde_json::from_str` reads from a text: the tree, or nothing where
/// the text is not one JSON value.
pub uninterp spec fn parsed(text: Seq<char>) -> Option<JsonModel>;

/// What `serde_json::to_string` writes for a tree.
pub uninterp spec fn rendered(tree: JsonModel) -> Option<Seq<char>>;

/// The position of the first member named `key` at or after `from`.
pub open spec fn position(
    members: Seq<(Seq<char>, JsonModel)>,
    key: Seq<char>,
    from: int,
) -> Option<int>
    decreases members.len() - from,
{
    if from < 0 || from >= members.len() {
        None
    } else if members[from].0 == key {
        Some(from)
    } else {
        position(members, key, from + 1)
    }
}

/// The members after `key` was written with `value`: replaced in place where
/// the name stood already, added at the end where it did not.
pub open spec fn put(
    members: Seq<(Seq<char>, JsonModel)>,
    key: Seq<char>,
    value: JsonModel,
) -> Seq<(Seq<char>, JsonModel)> {
    match position(members, key, 0) {
        Some(i) => members.update(i, (key, value)),
        None => members.push((key, value)),
    }
}

/// The members after each of them was written in turn into an empty object.
pub open spec fn put_all(members: Seq<(Seq<char>, JsonModel)>) -> Seq<(Seq<char>, JsonModel)>
    decreases members.len(),
{
    if members.len() == 0 {
        Seq::empty()
    } else {
        put(put_all(members.drop_last()), members.last().0, members.last().1)
    }
}

impl JsonModel {
    /// The tree with every object holding each of its names once.
    pub open spec fn merged(self) -> JsonModel
        decreases self,
    {
        match self {
            JsonModel::Array(items) => JsonModel::Array(Self::merged_items(items)),
            JsonModel::Object(members) => JsonModel::Object(put_all(Self::merged_members(members))),
            other => other,
        }
    }

    /// The items of an array, each merged.
    pub open spec fn merged_items(items: Seq<JsonModel>) -> Seq<JsonModel>
        decreases items,
    {
        Seq::new(
            items.len(),
            |i: int|
                if 0 <= i < items.len() {
                    items[i].merged()
                } else {
                    JsonModel::Null
                },
        )
    }

    /// The members of an object, the value of each merged.
    pub open spec fn merged_members(
        members: Seq<(Seq<char>, JsonModel)>,
    ) -> Seq<(Seq<char>, JsonModel)>
        decreases members,
    {
        Seq::new(
            members.len(),
            |i: int|
                if 0 <= i < members.len() {
                    (members[i].0, members[i].1.merged())
                } else {
                    (Seq::empty(), JsonModel::Null)
                },
        )
    }
}

/// No name stands twice among the members.
pub open spec fn distinct_names(members: Seq<(Seq<char>, JsonModel)>) -> bool {
    forall|i: int, k: int|
        0 <= i < k < members.len() ==> (#[trigger] members[i]).0 != (#[trigger] members[k]).0
}

/// A name that no member at or after `from` carries has no position there.
pub proof fn lemma_position_of_new_name(
    members: Seq<(Seq<char>, JsonModel)>,
    key: Seq<char>,
    from: int,
)
    requires
        0 <= from,
        forall|i: int| from <= i < members.len() ==> (#[trigger] members[i]).0 != key,
    ensures
        position(members, key, from) is None,
    decreases members.len() - from,
{
    if from < members.len() {
        lemma_position_of_new_name(members, key, from + 1);
    }
}

/// Members that each carry a name of their own are left as they are when
/// they are written in turn.
pub proof fn lemma_put_all_distinct(members: Seq<(Seq<char>, JsonModel)>)
    requires
        distinct_names(members),
    ensures
        put_all(members) == members,
    decreases members.len(),
{
    if members.len() == 0 {
        assert(put_all(members) =~= members);
    } else {
        let front = members.drop_last();
        assert(forall|i: int| 0 <= i < front.len() ==> front[i] == members[i]);
        lemma_put_all_distinct(front);
        assert forall|i: int| 0 <= i < front.len() implies (#[trigger] front[i]).0
            != members.last().0 by {
            assert(members[i].0 != members[members.len() - 1].0);
        }
        lemma_position_of_new_name(front, members.last().0, 0);
        assert(front.push(members.last()) =~= members);
    }
}

impl JsonModel {
    /// Every object of the tree holds each of its names once.
    pub open spec fn names_once(self) -> bool
        decreases self,
    {
        match self {
            JsonModel::Array(items) => forall|i: int|
                0 <= i < items.len() ==> (#[trigger] items[i]).names_once(),
            JsonModel::Object(members) => distinct_names(members) && forall|i: int|
                0 <= i < members.len() ==> (#[trigger] members[i]).1.names_once(),
            _ => true,
        }
    }

    /// A tree in which every object holds each of its names once is written
    /// as it stands: merging leaves it unchanged.
    pub proof fn lemma_merged_unchanged(self)
        requires
            self.names_once(),
        ensures
            self.merged() == self,
        decreases self,
    {
        match self {
            JsonModel::Array(items) => {
                assert forall|i: int| 0 <= i < items.len() implies (#[trigger] items[i]).merged()
                    == items[i] by {
                    items[i].lemma_merged_unchanged();
                }
                assert(Self::merged_items(items) =~= items);
            },
            JsonModel::Object(members) => {
                assert forall|i: int| 0 <= i < members.len() implies (
                #[trigger] members[i]).1.merged() == members[i].1 by {
                    members[i].1.lemma_merged_unchanged();
                }
                assert(Self::merged_members(members) =~= members);
                lemma_put_all_distinct(members);
            },
            _ => {},
        }
    }
}

/// One layer of a `serde_json::Value`, borrowed from it.
enum Layer<'a> {
    Null,
    Bool(bool),
    Number(&'a serde_json::Number),
    Str(&'a String),
    Array(&'a Vec<serde_json::Value>),
    Object(Vec<(&'a String, &'a serde_json::Value)>),
}

/// One layer of a `serde_json::Value` that is to be made.
enum Piece {
    Null,
    Bool(bool),
    Number(serde_json::Number),
    Str(String),
    Array(Vec<serde_json::Value>),
    Object(Vec<(String, serde_json::Value)>),
}

/// The trees of a sequence of values.
spec fn trees(s: Seq<serde_json::Value>) -> Seq<JsonModel> {
    Seq::new(s.len(), |i: int| tree_of(s[i]))
}

/// The trees of the members of an object, borrowed.
spec fn borrowed_member_trees(
    s: Seq<(&String, &serde_json::Value)>,
) -> Seq<(Seq<char>, JsonModel)> {
    Seq::new(s.len(), |i: int| (s[i].0@, tree_of(*s[i].1)))
}

/// The trees of the members of an object.
spec fn member_trees(s: Seq<(String, serde_json::Value)>) -> Seq<(Seq<char>, JsonModel)> {
    Seq::new(s.len(), |i: int| (s[i].0@, tree_of(s[i].1)))
}

/// The variants of `serde_json::Value`, one arm each: the tree of the value is
/// that variant's, over the trees of what it holds. The members of an object
/// come in the order in which its map hands them out, which is the order in
/// which their names were first written (`serde_json` is built with its
/// feature `preserve_order`), and the map holds no name twice.
#[verifier::external_body]
fn peel<'a>(v: &'a serde_json::Value) -> (r: Layer<'a>)
    ensures
        tree_of(*v) == (match r {
            Layer::Null => JsonModel::Null,
            Layer::Bool(b) => JsonModel::Bool(b),
            Layer::Number(n) => JsonModel::Number(number_model(*n)),
            Layer::Str(s) => JsonModel::Str(s@),
            Layer::Array(items) => JsonModel::Array(trees(items@)),
            Layer::Object(members) => JsonModel::Object(borrowed_member_trees(members@)),
        }),
        r matches Layer::Object(members) ==> distinct_names(borrowed_member_trees(members@)),
{
    match v {
        serde_json::Value::Null => Layer::Null,
        serde_json::Value::Bool(b) => Layer::Bool(*b),
        serde_json::Value::Number(n) => Layer::Number(n),
        serde_json::Value::String(s) => Layer::Str(s),
        serde_json::Value::Array(items) => Layer::Array(items),
        serde_json::Value::Object(members) => Layer::Object(members.iter().collect()),
    }
}

/// The variants of `serde_json::Value`, one arm each, made from what they
/// hold. An object is collected into `serde_json::Map`, which writes the
/// members in turn: a new name goes to the end, and a name that comes again
/// keeps its place and takes the new value (`serde_json` is built with its
/// feature `preserve_order`).
#[verifier::external_body]
fn assemble(p: Piece) -> (v: serde_json::Value)
    ensures
        tree_of(v) == (match p {
            Piece::Null => JsonModel::Null,
            Piece::Bool(b) => JsonModel::Bool(b),
            Piece::Number(n) => JsonModel::Number(number_model(n)),
            Piece::Str(s) => JsonModel::Str(s@),
            Piece::Array(items) => JsonModel::Array(trees(items@)),
            Piece::Object(members) => JsonModel::Object(put_all(member_trees(members@))),
        }),
{
    match p {
        Piece::Null => serde_json::Value::Null,
        Piece::Bool(b) => serde_json::Value::Bool(b),
        Piece::Number(n) => serde_json::Value::Number(n),
        Piece::Str(s) => serde_json::Value::String(s),
        Piece::Array(items) => serde_json::Value::Array(items),
        Piece::Object(members) => serde_json::Value::Object(members.into_iter().collect()),
    }
}

/// `serde_json::from_str` at `serde_json::Value`: the value whose tree is the
/// one that the text gives, or the error where it gives none.
#[verifier::external_body]
fn read_value(text: &str) -> (r: Result<serde_json::Value, serde_json::Error>)
    ensures
        parsed(text@) == (match r {
            Ok(v) => Some(tree_of(v)),
            Err(_) => None,
        }),
{
    serde_json::from_str::<serde_json::Value>(text)
}

/// `serde_json::to_string` on a `serde_json::Value`: the text that the tree
/// of the value gives.
#[verifier::external_body]
fn write_value(v: &serde_json::Value) -> (r: Result<String, serde_json::Error>)
    ensures
        rendered(tree_of(*v)) == (match r {
            Ok(s) => Some(s@),
            Err(_) => None,
        }),
{
    serde_json::to_string(v)
}

/// The value of the library that holds what `v` holds. No object of it holds
/// a name twice.
pub fn lift(v: &serde_json::Value) -> (j: Json)
    ensures
        j@ == tree_of(*v),
        j@.names_once(),
    decreases tree_of(*v),
{
    match peel(v) {
        Layer::Null => Json::Null,
        Layer::Bool(b) => Json::Bool(b),
        Layer::Number(n) => Json::Number(n.clone()),
        Layer::Str(s) => Json::Str(s.clone()),
        Layer::Array(items) => {
            let mut out: Vec<Json> = Vec::new();
            let mut i: usize = 0;
            while i < items.len()
                invariant
                    i <= items.len(),
                    out@.len() == i,
                    tree_of(*v) == JsonModel::Array(trees(items@)),
                    forall|k: int|
                        0 <= k < i ==> {
                            &&& (#[trigger] out@[k])@ == tree_of(items@[k])
                            &&& out@[k]@.names_once()
                        },
                decreases items.len() - i,
            {
                proof {
                    let all = tree_of(*v)->Array_0;
                    assert(all[i as int] == tree_of(items@[i as int]));
                    assert(decreases_to!(tree_of(*v) => tree_of(*v)->Array_0));
                    assert(decreases_to!(all => all[i as int]));
                }
                out.push(lift(&items[i]));
                i += 1;
            }
            proof {
                assert(Json::models(out@) =~= trees(items@));
                assert forall|k: int| 0 <= k < out@.len() implies (#[trigger] Json::models(
                    out@,
                )[k]).names_once() by {
                    assert(out@[k]@.names_once());
                }
            }
            Json::Array(out)
        },
        Layer::Object(members) => {
            let mut out: Vec<(String, Json)> = Vec::new();
            let mut i: usize = 0;
            while i < members.len()
                invariant
                    i <= members.len(),
                    out@.len() == i,
                    tree_of(*v) == JsonModel::Object(borrowed_member_trees(members@)),
                    forall|k: int|
                        0 <= k < i ==> {
                            &&& (#[trigger] out@[k]).0@ == members@[k].0@
                            &&& out@[k].1@ == tree_of(*members@[k].1)
                            &&& out@[k].1@.names_once()
                        },
                decreases members.len() - i,
            {
                proof {
                    let all = tree_of(*v)->Object_0;
                    assert(all[i as int]
                        == (members@[i as int].0@, tree_of(*members@[i as int].1)));
                    assert(decreases_to!(tree_of(*v) => tree_of(*v)->Object_0));
                    assert(decreases_to!(all => all[i as int]));
                    assert(decreases_to!(all[i as int] => all[i as int].1));
                }
                let name = members[i].0.clone();
                let value = lift(members[i].1);
                out.push((name, value));
                i += 1;
            }
            proof {
                assert(Json::member_models(out@) =~= borrowed_member_trees(members@));
                assert forall|k: int| 0 <= k < out@.len() implies (#[trigger] Json::member_models(
                    out@,
                )[k]).1.names_once() by {
                    assert(out@[k].1@.names_once());
                }
            }
            Json::Object(out)
        },
    }
}

/// The `serde_json::Value` that holds what `j` holds, each object with each
/// of its names once.
pub fn lower(j: &Json) -> (v: serde_json::Value)
    ensures
        tree_of(v) == j@.merged(),
    decreases j,
{
    match j {
        Json::Null => assemble(Piece::Null),
        Json::Bool(b) => assemble(Piece::Bool(*b)),
        Json::Number(n) => assemble(Piece::Number(n.clone())),
        Json::Str(s) => assemble(Piece::Str(s.clone())),
        Json::Array(items) => {
            let mut out: Vec<serde_json::Value> = Vec::new();
            let mut i: usize = 0;
            while i < items.len()
                invariant
                    i <= items.len(),
                    out@.len() == i,
                    *j == Json::Array(*items),
                    forall|k: int|
                        0 <= k < i ==> tree_of(#[trigger] out@[k]) == items@[k]@.merged(),
                decreases items.len() - i,
            {
                proof {
                    assert(decreases_to!(*j => (*j)->Array_0));
                    assert(decreases_to!(*items => items@));
                    assert(decreases_to!(items@ => items@[i as int]));
                }
                out.push(lower(&items[i]));
                i += 1;
            }
            proof {
                assert(trees(out@) =~= JsonModel::merged_items(j@->Array_0));
            }
            assemble(Piece::Array(out))
        },
        Json::Object(members) => {
            let mut out: Vec<(String, serde_json::Value)> = Vec::new();
            let mut i: usize = 0;
            while i < members.len()
                invariant
                    i <= members.len(),
                    out@.len() == i,
                    *j == Json::Object(*members),
                    forall|k: int|
                        0 <= k < i ==> {
                            &&& (#[trigger] out@[k]).0@ == members@[k].0@
                            &&& tree_of(out@[k].1) == members@[k].1@.merged()
                        },
                decreases members.len() - i,
            {
                proof {
                    assert(decreases_to!(*j => (*j)->Object_0));
                    assert(decreases_to!(*members => members@));
                    assert(decreases_to!(members@ => members@[i as int]));
                    assert(decreases_to!(members@[i as int] => members@[i as int].1));
                }
                let name = members[i].0.clone();
                let value = lower(&members[i].1);
                out.push((name, value));
                i += 1;
            }
            proof {
                assert(member_trees(out@) =~= JsonModel::merged_members(j@->Object_0));
            }
            assemble(Piece::Object(out))
        },
    }
}

/// Reads a JSON text: the value that `serde_json` finds in it, or its error
/// where the text is not one JSON value. No object of the value holds a name
/// twice: of a name that the text writes again, the last value is kept.
pub fn parse(text: &str) -> (r: Result<Json, serde_json::Error>)
    ensures
        parsed(text@) == (match r {
            Ok(j) => Some(j@),
            Err(_) => None,
        }),
        r matches Ok(j) ==> j@.names_once(),
{
    match read_value(text) {
        Ok(v) => Ok(lift(&v)),
        Err(e) => Err(e),
    }
}

/// Writes a JSON value as text, as `serde_json` writes the tree that is left
/// when every object holds each of its names once: the tree itself, where
/// none holds a name twice.
pub fn render(j: &Json) -> (r: Result<String, serde_json::Error>)
    ensures
        rendered(j@.merged()) == (match r {
            Ok(s) => Some(s@),
            Err(_) => None,
        }),
        j@.names_once() ==> j@.merged() == j@,
{
    proof {
        if j@.names_once() {
            j@.lemma_merged_unchanged();
        }
    }
    let v = lower(j);
    write_value(&v)
}

} // verus!
