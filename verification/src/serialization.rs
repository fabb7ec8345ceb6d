//! Readers for members that do not always come as they are declared: a
//! collection that comes as `null`, and a tag that comes bare or wrapped in
//! an object.

use crate::json::{same_text, Json, JsonModel};
use vstd::prelude::*;

verus! {

/// The value to read where a member may come as `null` or not at all: the
/// default in both cases, the member itself in every other.
pub open spec fn present_or(value: Option<JsonModel>, default: JsonModel) -> JsonModel {
    match value {
        None => default,
        Some(JsonModel::Null) => default,
        Some(v) => v,
    }
}

/// The view of a member that may be absent.
pub open spec fn optional_json_view(value: Option<&Json>) -> Option<JsonModel> {
    match value {
        Some(v) => Some(v@),
        None => None,
    }
}

/// Hands out `default` in place of a member that is `null` or absent, so
/// that a collection that the engine sends as `null` reads as an empty one.
pub fn default_for_null<'a>(value: Option<&'a Json>, default: &'a Json) -> (r: &'a Json)
    ensures
        r@ == present_or(optional_json_view(value), default@),
{
    match value {
        None => default,
        Some(Json::Null) => default,
        Some(v) => v,
    }
}

/// The tag of a value as it was found on the wire: the text that names it,
/// or the sign that `null` stood in its place and the default is meant.
#[derive(Debug, PartialEq)]
pub enum Tag {
    Given(String),
    Unit,
}

/// The mathematical model of a [`Tag`].
pub enum TagModel {
    Given(Seq<char>),
    Unit,
}

impl View for Tag {
    type V = TagModel;

    open spec fn view(&self) -> TagModel {
        match self {
            Tag::Given(s) => TagModel::Given(s@),
            Tag::Unit => TagModel::Unit,
        }
    }
}

/// The view of a tag that may not have been found.
pub open spec fn optional_tag_view(tag: Option<Tag>) -> Option<TagModel> {
    match tag {
        Some(t) => Some(t@),
        None => None,
    }
}

/// The tag that the members of an object give, from position `from` on: the
/// members are read in order, each must be a string, and the first that is
/// named `type` is the tag. An object without such a member gives none.
pub open spec fn tag_of_members(members: Seq<(Seq<char>, JsonModel)>, from: int) -> Option<TagModel>
    decreases members.len() - from,
{
    if from < 0 || from >= members.len() {
        None
    } else {
        match members[from].1 {
            JsonModel::Str(value) => if members[from].0 == "type"@ {
                Some(TagModel::Given(value))
            } else {
                tag_of_members(members, from + 1)
            },
            _ => None,
        }
    }
}

/// The tag that a member gives as it stands: a string is the tag, an object
/// gives the tag of its members, `null` and a member that is not there
/// stand for the default, and any other value gives no tag.
pub open spec fn tag_source(value: Option<JsonModel>) -> Option<TagModel> {
    match value {
        Some(JsonModel::Str(s)) => Some(TagModel::Given(s)),
        Some(JsonModel::Object(members)) => tag_of_members(members, 0),
        Some(JsonModel::Null) => Some(TagModel::Unit),
        None => Some(TagModel::Unit),
        _ => None,
    }
}

/// What `str::to_lowercase` makes of a text.
pub uninterp spec fn lowercased(text: Seq<char>) -> Seq<char>;

/// A tag with its text in lower case.
pub open spec fn lowered(tag: Option<TagModel>) -> Option<TagModel> {
    match tag {
        Some(TagModel::Given(s)) => Some(TagModel::Given(lowercased(s))),
        other => other,
    }
}

/// `str::to_lowercase`: the text in lower case, as Unicode defines it.
#[verifier::external_body]
fn to_lowercase(text: &str) -> (r: String)
    ensures
        r@ == lowercased(text@),
{
    text.to_lowercase()
}

/// Finds the tag of a member that may come as a bare string or as an object
/// with a member `type`, as it is written.
pub fn raw_tag(member: Option<&Json>) -> (r: Option<Tag>)
    ensures
        optional_tag_view(r) == tag_source(optional_json_view(member)),
{
    let j = match member {
        Some(j) => j,
        None => {
            return Some(Tag::Unit);
        },
    };
    match j {
        Json::Str(s) => Some(Tag::Given(s.clone())),
        Json::Object(members) => {
            let mut i: usize = 0;
            while i < members.len()
                invariant
                    i <= members.len(),
                    optional_json_view(member) == Some(j@),
                    j@ == JsonModel::Object(Json::member_models(members@)),
                    tag_source(Some(j@)) == tag_of_members(
                        Json::member_models(members@),
                        i as int,
                    ),
                decreases members.len() - i,
            {
                match &members[i].1 {
                    Json::Str(text) => {
                        if same_text(members[i].0.as_str(), "type") {
                            return Some(Tag::Given(text.clone()));
                        }
                    },
                    _ => {
                        return None;
                    },
                }
                i += 1;
            }
            None
        },
        Json::Null => Some(Tag::Unit),
        _ => None,
    }
}

/// Puts the text of a tag that was found into lower case.
pub fn lower_tag(tag: Option<Tag>) -> (r: Option<Tag>)
    ensures
        optional_tag_view(r) == lowered(optional_tag_view(tag)),
{
    match tag {
        Some(Tag::Given(s)) => Some(Tag::Given(to_lowercase(s.as_str()))),
        other => other,
    }
}

/// Reads the tag of a member that may come as a bare string or as an object
/// with a member `type`: the tag in lower case, the sign for the default
/// where `null` stands in its place or the member is not there, or nothing
/// where the value gives no tag.
pub fn tagged_or_untagged(member: Option<&Json>) -> (r: Option<Tag>)
    ensures
        optional_tag_view(r) == lowered(tag_source(optional_json_view(member))),
{
    lower_tag(raw_tag(member))
}

} // verus!
