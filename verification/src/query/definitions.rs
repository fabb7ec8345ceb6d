//! The parts that queries are made of: dimensions, extraction functions,
//! filters, aggregations and granularities, each with its wire form.
//!
//! Every type has a mathematical model, a wire form stated over the model
//! (`wire`), a statement of what reads as a value of the type (`parse`), and
//! the proof that what was written reads back as the same value
//! (`lemma_round_trip`). `to_json` and `from_json` are the executable sides
//! of `wire` and `parse`.

use crate::json::{optional_text_view, same_text, text_views, Json, JsonModel, ObjectWriter};
use crate::string_map::{StringMap, StringMapModel};
use vstd::prelude::*;

verus! {

/// The type in which a dimension comes out.
#[derive(Debug, Clone, Copy, PartialEq, Eq)]
pub enum OutputType {
    STRING,
    LONG,
    FLOAT,
}

impl OutputType {
    /// The wire form of this value.
    pub open spec fn wire(self) -> JsonModel {
        match self {
            OutputType::STRING => JsonModel::Str("STRING"@),
            OutputType::LONG => JsonModel::Str("LONG"@),
            OutputType::FLOAT => JsonModel::Str("FLOAT"@),
        }
    }

    /// What a JSON value reads as: `None` where it does not read as a value of
    /// this type.
    pub open spec fn parse(j: JsonModel) -> Option<OutputType> {
        match j {
            JsonModel::Str(tag) => if tag == "STRING"@ {
                Some(OutputType::STRING)
            } else if tag == "LONG"@ {
                Some(OutputType::LONG)
            } else if tag == "FLOAT"@ {
                Some(OutputType::FLOAT)
            } else {
                None
            },
            _ => None,
        }
    }

    /// What the required member `key` of `j` reads as.
    pub open spec fn parse_field(j: JsonModel, key: Seq<char>) -> Option<OutputType> {
        match j.field(key) {
            Some(v) => Self::parse(v),
            None => None,
        }
    }

    /// The lengths and the letters that tell the names of this wire form apart.
    pub proof fn lemma_names()
        ensures
            "LONG"@.len() == 4,
            "FLOAT"@.len() == 5,
            "STRING"@.len() == 6,
    {
        reveal_strlit("LONG");
        reveal_strlit("FLOAT");
        reveal_strlit("STRING");
    }

    /// Decoding the wire form of a value gives the value back.
    pub proof fn lemma_round_trip(self)
        ensures
            Self::parse(self.wire()) == Some(self),
    {
        Self::lemma_names();
        reveal_with_fuel(JsonModel::find, 3);
        match self {
            OutputType::STRING => {},
            OutputType::LONG => {},
            OutputType::FLOAT => {},
        }
    }
}

impl OutputType {
    /// The wire form of this value.
    pub fn to_json(&self) -> (j: Json)
        ensures
            j@ == self.wire(),
    {
        match self {
            OutputType::STRING => Json::text("STRING"),
            OutputType::LONG => Json::text("LONG"),
            OutputType::FLOAT => Json::text("FLOAT"),
        }
    }

    /// Reads a value from JSON: `None` where `j` does not read as a value of
    /// this type.
    pub fn from_json(j: &Json) -> (r: Option<OutputType>)
        ensures
            r == OutputType::parse(j@),
    {
        match j {
            Json::Str(tag) => {
                if same_text(tag.as_str(), "STRING") {
                    Some(OutputType::STRING)
                } else if same_text(tag.as_str(), "LONG") {
                    Some(OutputType::LONG)
                } else if same_text(tag.as_str(), "FLOAT") {
                    Some(OutputType::FLOAT)
                } else {
                    None
                }
            },
            _ => None,
        }
    }

    /// Reads the required member `key` of `j`.
    pub fn field_from_json(j: &Json, key: &str) -> (r: Option<OutputType>)
        ensures
            r == OutputType::parse_field(j@, key@),
    {
        match j.get(key) {
            Some(v) => Self::from_json(v),
            None => None,
        }
    }
}

/// The kind of HLL sketch that an aggregation builds.
#[allow(non_camel_case_types)]
#[derive(Debug, Clone, Copy, PartialEq, Eq)]
pub enum HllType {
    HLL_4,
    HLL_6,
    HLL_8,
}

impl HllType {
    /// The wire form of this value.
    pub open spec fn wire(self) -> JsonModel {
        match self {
            HllType::HLL_4 => JsonModel::Str("HLL_4"@),
            HllType::HLL_6 => JsonModel::Str("HLL_6"@),
            HllType::HLL_8 => JsonModel::Str("HLL_8"@),
        }
    }

    /// What a JSON value reads as: `None` where it does not read as a value of
    /// this type.
    pub open spec fn parse(j: JsonModel) -> Option<HllType> {
        match j {
            JsonModel::Str(tag) => if tag == "HLL_4"@ {
                Some(HllType::HLL_4)
            } else if tag == "HLL_6"@ {
                Some(HllType::HLL_6)
            } else if tag == "HLL_8"@ {
                Some(HllType::HLL_8)
            } else {
                None
            },
            _ => None,
        }
    }

    /// What the required member `key` of `j` reads as.
    pub open spec fn parse_field(j: JsonModel, key: Seq<char>) -> Option<HllType> {
        match j.field(key) {
            Some(v) => Self::parse(v),
            None => None,
        }
    }

    /// The lengths and the letters that tell the names of this wire form apart.
    pub proof fn lemma_names()
        ensures
            "HLL_4"@.len() == 5,
            "HLL_6"@.len() == 5,
            "HLL_8"@.len() == 5,
            "HLL_4"@[4] == '4',
            "HLL_6"@[4] == '6',
            "HLL_8"@[4] == '8',
    {
        reveal_strlit("HLL_4");
        reveal_strlit("HLL_6");
        reveal_strlit("HLL_8");
    }

    /// Decoding the wire form of a value gives the value back.
    pub proof fn lemma_round_trip(self)
        ensures
            Self::parse(self.wire()) == Some(self),
    {
        Self::lemma_names();
        reveal_with_fuel(JsonModel::find, 3);
        match self {
            HllType::HLL_4 => {},
            HllType::HLL_6 => {},
            HllType::HLL_8 => {},
        }
    }
}

impl HllType {
    /// The wire form of this value.
    pub fn to_json(&self) -> (j: Json)
        ensures
            j@ == self.wire(),
    {
        match self {
            HllType::HLL_4 => Json::text("HLL_4"),
            HllType::HLL_6 => Json::text("HLL_6"),
            HllType::HLL_8 => Json::text("HLL_8"),
        }
    }

    /// Reads a value from JSON: `None` where `j` does not read as a value of
    /// this type.
    pub fn from_json(j: &Json) -> (r: Option<HllType>)
        ensures
            r == HllType::parse(j@),
    {
        match j {
            Json::Str(tag) => {
                if same_text(tag.as_str(), "HLL_4") {
                    Some(HllType::HLL_4)
                } else if same_text(tag.as_str(), "HLL_6") {
                    Some(HllType::HLL_6)
                } else if same_text(tag.as_str(), "HLL_8") {
                    Some(HllType::HLL_8)
                } else {
                    None
                }
            },
            _ => None,
        }
    }

    /// Reads the required member `key` of `j`.
    pub fn field_from_json(j: &Json, key: &str) -> (r: Option<HllType>)
        ensures
            r == HllType::parse_field(j@, key@),
    {
        match j.get(key) {
            Some(v) => Self::from_json(v),
            None => None,
        }
    }
}

/// What a string format makes of a missing value.
#[derive(Debug, Clone, Copy, PartialEq, Eq)]
pub enum NullHandling {
    NullString,
    EmptyString,
    ReturnNull,
}

impl NullHandling {
    /// The wire form of this value.
    pub open spec fn wire(self) -> JsonModel {
        match self {
            NullHandling::NullString => JsonModel::Str("nullString"@),
            NullHandling::EmptyString => JsonModel::Str("emptyString"@),
            NullHandling::ReturnNull => JsonModel::Str("returnNull"@),
        }
    }

    /// The wire form of a value that may be absent: `null` where it is.
    pub open spec fn wire_optional(item: Option<NullHandling>) -> JsonModel {
        match item {
            Some(v) => v.wire(),
            None => JsonModel::Null,
        }
    }

    /// What a JSON value reads as: `None` where it does not read as a value of
    /// this type.
    pub open spec fn parse(j: JsonModel) -> Option<NullHandling> {
        match j {
            JsonModel::Str(tag) => if tag == "nullString"@ {
                Some(NullHandling::NullString)
            } else if tag == "emptyString"@ {
                Some(NullHandling::EmptyString)
            } else if tag == "returnNull"@ {
                Some(NullHandling::ReturnNull)
            } else {
                None
            },
            _ => None,
        }
    }

    /// What the member `key` of `j` reads as where it may be absent: an absent
    /// member and `null` read as no value.
    pub open spec fn parse_optional_field(
        j: JsonModel,
        key: Seq<char>,
    ) -> Option<Option<NullHandling>>
    {
        match j.optional(key) {
            Some(v) => {
                match Self::parse(v) {
                    Some(x) => Some(Some(x)),
                    None => None,
                }
            },
            None => Some(None),
        }
    }

    /// The lengths and the letters that tell the names of this wire form apart.
    pub proof fn lemma_names()
        ensures
            "nullString"@.len() == 10,
            "returnNull"@.len() == 10,
            "emptyString"@.len() == 11,
            "nullString"@[0] == 'n',
            "returnNull"@[0] == 'r',
    {
        reveal_strlit("nullString");
        reveal_strlit("returnNull");
        reveal_strlit("emptyString");
    }

    /// Decoding the wire form of a value gives the value back.
    pub proof fn lemma_round_trip(self)
        ensures
            Self::parse(self.wire()) == Some(self),
    {
        Self::lemma_names();
        reveal_with_fuel(JsonModel::find, 3);
        match self {
            NullHandling::NullString => {},
            NullHandling::EmptyString => {},
            NullHandling::ReturnNull => {},
        }
    }

    /// The wire form of a value that is there is not `null`, and decoding it
    /// gives the value back.
    pub proof fn lemma_round_trip_optional(item: Option<NullHandling>)
        ensures
            match item {
                Some(v) => Self::wire_optional(item) == v.wire() && !(v.wire() is Null)
                    && Self::parse(v.wire()) == Some(v),
                None => Self::wire_optional(item) is Null,
            },
    {
        if let Some(v) = item {
            v.lemma_round_trip();
        }
    }
}

impl NullHandling {
    /// The wire form of this value.
    pub fn to_json(&self) -> (j: Json)
        ensures
            j@ == self.wire(),
    {
        match self {
            NullHandling::NullString => Json::text("nullString"),
            NullHandling::EmptyString => Json::text("emptyString"),
            NullHandling::ReturnNull => Json::text("returnNull"),
        }
    }

    /// The wire form of a value that may be absent: `null` where it is.
    pub fn optional_to_json(item: &Option<NullHandling>) -> (j: Json)
        ensures
            j@ == NullHandling::wire_optional(*item),
    {
        match item {
            Some(v) => v.to_json(),
            None => Json::Null,
        }
    }

    /// Reads a value from JSON: `None` where `j` does not read as a value of
    /// this type.
    pub fn from_json(j: &Json) -> (r: Option<NullHandling>)
        ensures
            r == NullHandling::parse(j@),
    {
        match j {
            Json::Str(tag) => {
                if same_text(tag.as_str(), "nullString") {
                    Some(NullHandling::NullString)
                } else if same_text(tag.as_str(), "emptyString") {
                    Some(NullHandling::EmptyString)
                } else if same_text(tag.as_str(), "returnNull") {
                    Some(NullHandling::ReturnNull)
                } else {
                    None
                }
            },
            _ => None,
        }
    }

    /// Reads the member `key` of `j` where it may be absent: an absent member
    /// and `null` read as no value.
    pub fn optional_field_from_json(j: &Json, key: &str) -> (r: Option<Option<NullHandling>>)
        ensures
            r == NullHandling::parse_optional_field(j@, key@),
    {
        match j.get_optional(key) {
            Some(v) => {
                match Self::from_json(v) {
                    Some(x) => Some(Some(x)),
                    None => None,
                }
            },
            None => Some(None),
        }
    }
}

/// The direction in which rows are ordered.
#[derive(Debug, Clone, Copy, PartialEq, Eq)]
pub enum Direction {
    Ascending,
    Descending,
    Unordered,
}

impl Direction {
    /// The wire form of this value.
    pub open spec fn wire(self) -> JsonModel {
        match self {
            Direction::Ascending => JsonModel::Str("ascending"@),
            Direction::Descending => JsonModel::Str("descending"@),
            Direction::Unordered => JsonModel::Str("none"@),
        }
    }

    /// The wire form of a value that may be absent: `null` where it is.
    pub open spec fn wire_optional(item: Option<Direction>) -> JsonModel {
        match item {
            Some(v) => v.wire(),
            None => JsonModel::Null,
        }
    }

    /// What a JSON value reads as: `None` where it does not read as a value of
    /// this type.
    pub open spec fn parse(j: JsonModel) -> Option<Direction> {
        match j {
            JsonModel::Str(tag) => if tag == "ascending"@ {
                Some(Direction::Ascending)
            } else if tag == "descending"@ {
                Some(Direction::Descending)
            } else if tag == "none"@ {
                Some(Direction::Unordered)
            } else {
                None
            },
            _ => None,
        }
    }

    /// What the required member `key` of `j` reads as.
    pub open spec fn parse_field(j: JsonModel, key: Seq<char>) -> Option<Direction> {
        match j.field(key) {
            Some(v) => Self::parse(v),
            None => None,
        }
    }

    /// What the member `key` of `j` reads as where it may be absent: an absent
    /// member and `null` read as no value.
    pub open spec fn parse_optional_field(j: JsonModel, key: Seq<char>) -> Option<Option<Direction>>
    {
        match j.optional(key) {
            Some(v) => {
                match Self::parse(v) {
                    Some(x) => Some(Some(x)),
                    None => None,
                }
            },
            None => Some(None),
        }
    }

    /// The lengths and the letters that tell the names of this wire form apart.
    pub proof fn lemma_names()
        ensures
            "none"@.len() == 4,
            "ascending"@.len() == 9,
            "descending"@.len() == 10,
    {
        reveal_strlit("none");
        reveal_strlit("ascending");
        reveal_strlit("descending");
    }

    /// Decoding the wire form of a value gives the value back.
    pub proof fn lemma_round_trip(self)
        ensures
            Self::parse(self.wire()) == Some(self),
    {
        Self::lemma_names();
        reveal_with_fuel(JsonModel::find, 3);
        match self {
            Direction::Ascending => {},
            Direction::Descending => {},
            Direction::Unordered => {},
        }
    }

    /// The wire form of a value that is there is not `null`, and decoding it
    /// gives the value back.
    pub proof fn lemma_round_trip_optional(item: Option<Direction>)
        ensures
            match item {
                Some(v) => Self::wire_optional(item) == v.wire() && !(v.wire() is Null)
                    && Self::parse(v.wire()) == Some(v),
                None => Self::wire_optional(item) is Null,
            },
    {
        if let Some(v) = item {
            v.lemma_round_trip();
        }
    }
}

impl Direction {
    /// The wire form of this value.
    pub fn to_json(&self) -> (j: Json)
        ensures
            j@ == self.wire(),
    {
        match self {
            Direction::Ascending => Json::text("ascending"),
            Direction::Descending => Json::text("descending"),
            Direction::Unordered => Json::text("none"),
        }
    }

    /// The wire form of a value that may be absent: `null` where it is.
    pub fn optional_to_json(item: &Option<Direction>) -> (j: Json)
        ensures
            j@ == Direction::wire_optional(*item),
    {
        match item {
            Some(v) => v.to_json(),
            None => Json::Null,
        }
    }

    /// Reads a value from JSON: `None` where `j` does not read as a value of
    /// this type.
    pub fn from_json(j: &Json) -> (r: Option<Direction>)
        ensures
            r == Direction::parse(j@),
    {
        match j {
            Json::Str(tag) => {
                if same_text(tag.as_str(), "ascending") {
                    Some(Direction::Ascending)
                } else if same_text(tag.as_str(), "descending") {
                    Some(Direction::Descending)
                } else if same_text(tag.as_str(), "none") {
                    Some(Direction::Unordered)
                } else {
                    None
                }
            },
            _ => None,
        }
    }

    /// Reads the required member `key` of `j`.
    pub fn field_from_json(j: &Json, key: &str) -> (r: Option<Direction>)
        ensures
            r == Direction::parse_field(j@, key@),
    {
        match j.get(key) {
            Some(v) => Self::from_json(v),
            None => None,
        }
    }

    /// Reads the member `key` of `j` where it may be absent: an absent member
    /// and `null` read as no value.
    pub fn optional_field_from_json(j: &Json, key: &str) -> (r: Option<Option<Direction>>)
        ensures
            r == Direction::parse_optional_field(j@, key@),
    {
        match j.get_optional(key) {
            Some(v) => {
                match Self::from_json(v) {
                    Some(x) => Some(Some(x)),
                    None => None,
                }
            },
            None => Some(None),
        }
    }
}

/// How the values of a dimension are compared.
#[derive(Debug, Clone, Copy, PartialEq, Eq)]
pub enum SortingOrder {
    Lexicographic,
    Alphanumeric,
    Strlen,
    Numeric,
}

impl SortingOrder {
    /// The wire form of this value.
    pub open spec fn wire(self) -> JsonModel {
        match self {
            SortingOrder::Lexicographic => JsonModel::Str("lexicographic"@),
            SortingOrder::Alphanumeric => JsonModel::Str("alphanumeric"@),
            SortingOrder::Strlen => JsonModel::Str("strlen"@),
            SortingOrder::Numeric => JsonModel::Str("numeric"@),
        }
    }

    /// The wire form of a value that may be absent: `null` where it is.
    pub open spec fn wire_optional(item: Option<SortingOrder>) -> JsonModel {
        match item {
            Some(v) => v.wire(),
            None => JsonModel::Null,
        }
    }

    /// What a JSON value reads as: `None` where it does not read as a value of
    /// this type.
    pub open spec fn parse(j: JsonModel) -> Option<SortingOrder> {
        match j {
            JsonModel::Str(tag) => if tag == "lexicographic"@ {
                Some(SortingOrder::Lexicographic)
            } else if tag == "alphanumeric"@ {
                Some(SortingOrder::Alphanumeric)
            } else if tag == "strlen"@ {
                Some(SortingOrder::Strlen)
            } else if tag == "numeric"@ {
                Some(SortingOrder::Numeric)
            } else {
                None
            },
            _ => None,
        }
    }

    /// What the required member `key` of `j` reads as.
    pub open spec fn parse_field(j: JsonModel, key: Seq<char>) -> Option<SortingOrder> {
        match j.field(key) {
            Some(v) => Self::parse(v),
            None => None,
        }
    }

    /// What the member `key` of `j` reads as where it may be absent: an absent
    /// member and `null` read as no value.
    pub open spec fn parse_optional_field(
        j: JsonModel,
        key: Seq<char>,
    ) -> Option<Option<SortingOrder>>
    {
        match j.optional(key) {
            Some(v) => {
                match Self::parse(v) {
                    Some(x) => Some(Some(x)),
                    None => None,
                }
            },
            None => Some(None),
        }
    }

    /// The lengths and the letters that tell the names of this wire form apart.
    pub proof fn lemma_names()
        ensures
            "strlen"@.len() == 6,
            "numeric"@.len() == 7,
            "alphanumeric"@.len() == 12,
            "lexicographic"@.len() == 13,
    {
        reveal_strlit("strlen");
        reveal_strlit("numeric");
        reveal_strlit("alphanumeric");
        reveal_strlit("lexicographic");
    }

    /// Decoding the wire form of a value gives the value back.
    pub proof fn lemma_round_trip(self)
        ensures
            Self::parse(self.wire()) == Some(self),
    {
        Self::lemma_names();
        reveal_with_fuel(JsonModel::find, 3);
        match self {
            SortingOrder::Lexicographic => {},
            SortingOrder::Alphanumeric => {},
            SortingOrder::Strlen => {},
            SortingOrder::Numeric => {},
        }
    }

    /// The wire form of a value that is there is not `null`, and decoding it
    /// gives the value back.
    pub proof fn lemma_round_trip_optional(item: Option<SortingOrder>)
        ensures
            match item {
                Some(v) => Self::wire_optional(item) == v.wire() && !(v.wire() is Null)
                    && Self::parse(v.wire()) == Some(v),
                None => Self::wire_optional(item) is Null,
            },
    {
        if let Some(v) = item {
            v.lemma_round_trip();
        }
    }
}

impl SortingOrder {
    /// The wire form of this value.
    pub fn to_json(&self) -> (j: Json)
        ensures
            j@ == self.wire(),
    {
        match self {
            SortingOrder::Lexicographic => Json::text("lexicographic"),
            SortingOrder::Alphanumeric => Json::text("alphanumeric"),
            SortingOrder::Strlen => Json::text("strlen"),
            SortingOrder::Numeric => Json::text("numeric"),
        }
    }

    /// The wire form of a value that may be absent: `null` where it is.
    pub fn optional_to_json(item: &Option<SortingOrder>) -> (j: Json)
        ensures
            j@ == SortingOrder::wire_optional(*item),
    {
        match item {
            Some(v) => v.to_json(),
            None => Json::Null,
        }
    }

    /// Reads a value from JSON: `None` where `j` does not read as a value of
    /// this type.
    pub fn from_json(j: &Json) -> (r: Option<SortingOrder>)
        ensures
            r == SortingOrder::parse(j@),
    {
        match j {
            Json::Str(tag) => {
                if same_text(tag.as_str(), "lexicographic") {
                    Some(SortingOrder::Lexicographic)
                } else if same_text(tag.as_str(), "alphanumeric") {
                    Some(SortingOrder::Alphanumeric)
                } else if same_text(tag.as_str(), "strlen") {
                    Some(SortingOrder::Strlen)
                } else if same_text(tag.as_str(), "numeric") {
                    Some(SortingOrder::Numeric)
                } else {
                    None
                }
            },
            _ => None,
        }
    }

    /// Reads the required member `key` of `j`.
    pub fn field_from_json(j: &Json, key: &str) -> (r: Option<SortingOrder>)
        ensures
            r == SortingOrder::parse_field(j@, key@),
    {
        match j.get(key) {
            Some(v) => Self::from_json(v),
            None => None,
        }
    }

    /// Reads the member `key` of `j` where it may be absent: an absent member
    /// and `null` read as no value.
    pub fn optional_field_from_json(j: &Json, key: &str) -> (r: Option<Option<SortingOrder>>)
        ensures
            r == SortingOrder::parse_optional_field(j@, key@),
    {
        match j.get_optional(key) {
            Some(v) => {
                match Self::from_json(v) {
                    Some(x) => Some(Some(x)),
                    None => None,
                }
            },
            None => Some(None),
        }
    }
}

/// The width of the time buckets of a query: a named width, or a number of
/// milliseconds.
#[derive(Debug, Clone, Copy, PartialEq, Eq)]
pub enum Granularity {
    All,
    Unbucketed,
    Second,
    Minute,
    FifteenMinute,
    ThirtyMinute,
    Hour,
    Day,
    Week,
    Month,
    Quarter,
    Year,
    Duration { duration: usize },
}

impl Granularity {
    /// The wire form of this value.
    pub open spec fn wire(self) -> JsonModel {
        match self {
            Granularity::All => JsonModel::Str("all"@),
            Granularity::Unbucketed => JsonModel::Str("none"@),
            Granularity::Second => JsonModel::Str("second"@),
            Granularity::Minute => JsonModel::Str("minute"@),
            Granularity::FifteenMinute => JsonModel::Str("fifteen_minute"@),
            Granularity::ThirtyMinute => JsonModel::Str("thirty_minute"@),
            Granularity::Hour => JsonModel::Str("hour"@),
            Granularity::Day => JsonModel::Str("day"@),
            Granularity::Week => JsonModel::Str("week"@),
            Granularity::Month => JsonModel::Str("month"@),
            Granularity::Quarter => JsonModel::Str("quarter"@),
            Granularity::Year => JsonModel::Str("year"@),
            Granularity::Duration { duration } => JsonModel::Object(
                Seq::empty().push(
                    (
                        "duration"@,
                        JsonModel::Object(
                            Seq::empty()
                                .push(("duration"@, JsonModel::integer(duration as int))),
                        ),
                    ),
                ),
            ),
        }
    }

    /// The wire form of a value that may be absent: `null` where it is.
    pub open spec fn wire_optional(item: Option<Granularity>) -> JsonModel {
        match item {
            Some(v) => v.wire(),
            None => JsonModel::Null,
        }
    }

    /// What a JSON value reads as: `None` where it does not read as a value of
    /// this type. The members of an object are found by their names, in
    /// whatever order they stand, and members of other names are passed over.
    pub open spec fn parse(j: JsonModel) -> Option<Granularity> {
        match j {
            JsonModel::Str(tag) => if tag == "all"@ {
                Some(Granularity::All)
            } else if tag == "none"@ {
                Some(Granularity::Unbucketed)
            } else if tag == "second"@ {
                Some(Granularity::Second)
            } else if tag == "minute"@ {
                Some(Granularity::Minute)
            } else if tag == "fifteen_minute"@ {
                Some(Granularity::FifteenMinute)
            } else if tag == "thirty_minute"@ {
                Some(Granularity::ThirtyMinute)
            } else if tag == "hour"@ {
                Some(Granularity::Hour)
            } else if tag == "day"@ {
                Some(Granularity::Day)
            } else if tag == "week"@ {
                Some(Granularity::Week)
            } else if tag == "month"@ {
                Some(Granularity::Month)
            } else if tag == "quarter"@ {
                Some(Granularity::Quarter)
            } else if tag == "year"@ {
                Some(Granularity::Year)
            } else {
                None
            },
            JsonModel::Object(members) => if members.len() == 1 {
                let tag = members[0].0;
                let body = members[0].1;
                if tag == "duration"@ {
                    match body.usize_field("duration"@) {
                        Some(duration) => Some(Granularity::Duration { duration }),
                        None => None,
                    }
                } else {
                    None
                }
            } else {
                None
            },
            _ => None,
        }
    }

    /// What the required member `key` of `j` reads as.
    pub open spec fn parse_field(j: JsonModel, key: Seq<char>) -> Option<Granularity> {
        match j.field(key) {
            Some(v) => Self::parse(v),
            None => None,
        }
    }

    /// What the member `key` of `j` reads as where it may be absent: an absent
    /// member and `null` read as no value.
    pub open spec fn parse_optional_field(
        j: JsonModel,
        key: Seq<char>,
    ) -> Option<Option<Granularity>>
    {
        match j.optional(key) {
            Some(v) => {
                match Self::parse(v) {
                    Some(x) => Some(Some(x)),
                    None => None,
                }
            },
            None => Some(None),
        }
    }

    /// The lengths and the letters that tell the names of this wire form apart.
    pub proof fn lemma_names()
        ensures
            "all"@.len() == 3,
            "day"@.len() == 3,
            "hour"@.len() == 4,
            "none"@.len() == 4,
            "week"@.len() == 4,
            "year"@.len() == 4,
            "month"@.len() == 5,
            "minute"@.len() == 6,
            "second"@.len() == 6,
            "quarter"@.len() == 7,
            "duration"@.len() == 8,
            "thirty_minute"@.len() == 13,
            "fifteen_minute"@.len() == 14,
            "all"@[0] == 'a',
            "day"@[0] == 'd',
            "hour"@[0] == 'h',
            "none"@[0] == 'n',
            "week"@[0] == 'w',
            "year"@[0] == 'y',
            "minute"@[0] == 'm',
            "second"@[0] == 's',
    {
        reveal_strlit("all");
        reveal_strlit("day");
        reveal_strlit("hour");
        reveal_strlit("none");
        reveal_strlit("week");
        reveal_strlit("year");
        reveal_strlit("month");
        reveal_strlit("minute");
        reveal_strlit("second");
        reveal_strlit("quarter");
        reveal_strlit("duration");
        reveal_strlit("thirty_minute");
        reveal_strlit("fifteen_minute");
    }

    /// Decoding the wire form of a value gives the value back.
    pub proof fn lemma_round_trip(self)
        ensures
            Self::parse(self.wire()) == Some(self),
    {
        Self::lemma_names();
        reveal_with_fuel(JsonModel::find, 4);
        match self {
            Granularity::All => {},
            Granularity::Unbucketed => {},
            Granularity::Second => {},
            Granularity::Minute => {},
            Granularity::FifteenMinute => {},
            Granularity::ThirtyMinute => {},
            Granularity::Hour => {},
            Granularity::Day => {},
            Granularity::Week => {},
            Granularity::Month => {},
            Granularity::Quarter => {},
            Granularity::Year => {},
            Granularity::Duration { .. } => {},
        }
    }

    /// The wire form of a value that is there is not `null`, and decoding it
    /// gives the value back.
    pub proof fn lemma_round_trip_optional(item: Option<Granularity>)
        ensures
            match item {
                Some(v) => Self::wire_optional(item) == v.wire() && !(v.wire() is Null)
                    && Self::parse(v.wire()) == Some(v),
                None => Self::wire_optional(item) is Null,
            },
    {
        if let Some(v) = item {
            v.lemma_round_trip();
        }
    }
}

impl Granularity {
    /// The wire form of this value.
    pub fn to_json(&self) -> (j: Json)
        ensures
            j@ == self.wire(),
    {
        match self {
            Granularity::All => Json::text("all"),
            Granularity::Unbucketed => Json::text("none"),
            Granularity::Second => Json::text("second"),
            Granularity::Minute => Json::text("minute"),
            Granularity::FifteenMinute => Json::text("fifteen_minute"),
            Granularity::ThirtyMinute => Json::text("thirty_minute"),
            Granularity::Hour => Json::text("hour"),
            Granularity::Day => Json::text("day"),
            Granularity::Week => Json::text("week"),
            Granularity::Month => Json::text("month"),
            Granularity::Quarter => Json::text("quarter"),
            Granularity::Year => Json::text("year"),
            Granularity::Duration { duration } => {
                let mut body = ObjectWriter::new();
                body.put("duration", Json::from_usize(*duration));
                let mut w = ObjectWriter::new();
                w.put("duration", body.finish());
                w.finish()
            },
        }
    }

    /// The wire form of a value that may be absent: `null` where it is.
    pub fn optional_to_json(item: &Option<Granularity>) -> (j: Json)
        ensures
            j@ == Granularity::wire_optional(*item),
    {
        match item {
            Some(v) => v.to_json(),
            None => Json::Null,
        }
    }

    /// Reads a value from JSON: `None` where `j` does not read as a value of
    /// this type.
    pub fn from_json(j: &Json) -> (r: Option<Granularity>)
        ensures
            r == Granularity::parse(j@),
    {
        match j {
            Json::Str(tag) => {
                if same_text(tag.as_str(), "all") {
                    Some(Granularity::All)
                } else if same_text(tag.as_str(), "none") {
                    Some(Granularity::Unbucketed)
                } else if same_text(tag.as_str(), "second") {
                    Some(Granularity::Second)
                } else if same_text(tag.as_str(), "minute") {
                    Some(Granularity::Minute)
                } else if same_text(tag.as_str(), "fifteen_minute") {
                    Some(Granularity::FifteenMinute)
                } else if same_text(tag.as_str(), "thirty_minute") {
                    Some(Granularity::ThirtyMinute)
                } else if same_text(tag.as_str(), "hour") {
                    Some(Granularity::Hour)
                } else if same_text(tag.as_str(), "day") {
                    Some(Granularity::Day)
                } else if same_text(tag.as_str(), "week") {
                    Some(Granularity::Week)
                } else if same_text(tag.as_str(), "month") {
                    Some(Granularity::Month)
                } else if same_text(tag.as_str(), "quarter") {
                    Some(Granularity::Quarter)
                } else if same_text(tag.as_str(), "year") {
                    Some(Granularity::Year)
                } else {
                    None
                }
            },
            Json::Object(members) => {
                if members.len() != 1 {
                    return None;
                }
                let tag = &members[0].0;
                let body = &members[0].1;
                proof {
                    assert(j@->Object_0[0] == (tag@, body@));
                }
                if same_text(tag.as_str(), "duration") {
                    let duration = body.usize_field("duration")?;
                    Some(Granularity::Duration { duration })
                } else {
                    None
                }
            },
            _ => None,
        }
    }

    /// Reads the required member `key` of `j`.
    pub fn field_from_json(j: &Json, key: &str) -> (r: Option<Granularity>)
        ensures
            r == Granularity::parse_field(j@, key@),
    {
        match j.get(key) {
            Some(v) => Self::from_json(v),
            None => None,
        }
    }

    /// Reads the member `key` of `j` where it may be absent: an absent member
    /// and `null` read as no value.
    pub fn optional_field_from_json(j: &Json, key: &str) -> (r: Option<Option<Granularity>>)
        ensures
            r == Granularity::parse_optional_field(j@, key@),
    {
        match j.get_optional(key) {
            Some(v) => {
                match Self::from_json(v) {
                    Some(x) => Some(Some(x)),
                    None => None,
                }
            },
            None => Some(None),
        }
    }
}

/// A lookup table that is written into the query itself.
#[derive(Debug, PartialEq)]
pub struct LookupMap {
    pub map: StringMap,
    pub is_one_to_one: bool,
}

/// The mathematical model of a [`LookupMap`].
#[verifier::ext_equal]
pub struct LookupMapModel {
    pub map: StringMapModel,
    pub is_one_to_one: bool,
}

impl LookupMap {
    /// The mathematical model of this value.
    pub open spec fn model(self) -> LookupMapModel {
        LookupMapModel {
            map: self.map@,
            is_one_to_one: self.is_one_to_one,
        }
    }
}

impl View for LookupMap {
    type V = LookupMapModel;

    open spec fn view(&self) -> LookupMapModel {
        self.model()
    }
}

impl LookupMapModel {
    /// The wire form of this value.
    pub open spec fn wire(self) -> JsonModel {
        JsonModel::Object(
            Seq::empty()
                .push(("type"@, JsonModel::Str("map"@)))
                .push(("map"@, self.map.wire()))
                .push(("isOneToOne"@, JsonModel::Bool(self.is_one_to_one))),
        )
    }

    /// What a JSON value reads as: `None` where it does not read as a value of
    /// this type. The members of an object are found by their names, in
    /// whatever order they stand, and members of other names are passed over.
    pub open spec fn parse(j: JsonModel) -> Option<LookupMapModel> {
        match (
            StringMapModel::parse_field(j, "map"@),
            j.bool_field("isOneToOne"@),
        ) {
            (Some(map), Some(is_one_to_one)) => Some(LookupMapModel { map, is_one_to_one }),
            _ => None,
        }
    }

    /// What the required member `key` of `j` reads as.
    pub open spec fn parse_field(j: JsonModel, key: Seq<char>) -> Option<LookupMapModel> {
        match j.field(key) {
            Some(v) => Self::parse(v),
            None => None,
        }
    }

    /// The lengths and the letters that tell the names of this wire form apart.
    pub proof fn lemma_names()
        ensures
            "map"@.len() == 3,
            "type"@.len() == 4,
            "isOneToOne"@.len() == 10,
    {
        reveal_strlit("map");
        reveal_strlit("type");
        reveal_strlit("isOneToOne");
    }

    /// Decoding the wire form of a value gives the value back.
    pub proof fn lemma_round_trip(self)
        ensures
            Self::parse(self.wire()) == Some(self),
    {
        Self::lemma_names();
        reveal_with_fuel(JsonModel::find, 5);
        self.map.lemma_round_trip();
    }
}

impl LookupMap {
    /// The wire form of this value.
    pub fn to_json(&self) -> (j: Json)
        ensures
            j@ == self@.wire(),
    {
        let mut w = ObjectWriter::new();
        w.put("type", Json::text("map"));
        w.put("map", self.map.to_json());
        w.put("isOneToOne", Json::Bool(self.is_one_to_one));
        w.finish()
    }

    /// Reads a value from JSON: `None` where `j` does not read as a value of
    /// this type.
    pub fn from_json(j: &Json) -> (r: Option<LookupMap>)
        ensures
            match r {
                Some(v) => LookupMapModel::parse(j@) == Some(v@),
                None => LookupMapModel::parse(j@) is None,
            },
    {
        let map = StringMap::field_from_json(j, "map")?;
        let is_one_to_one = j.bool_field("isOneToOne")?;
        Some(LookupMap { map, is_one_to_one })
    }

    /// Reads the required member `key` of `j`.
    pub fn field_from_json(j: &Json, key: &str) -> (r: Option<LookupMap>)
        ensures
            match r {
                Some(v) => LookupMapModel::parse_field(j@, key@) == Some(v@),
                None => LookupMapModel::parse_field(j@, key@) is None,
            },
    {
        match j.get(key) {
            Some(v) => Self::from_json(v),
            None => None,
        }
    }
}

/// A transformation of the value of a dimension, applied before the value is
/// grouped or handed out.
#[derive(Debug, PartialEq)]
#[allow(inconsistent_fields)]
pub enum ExtractFN {
    /// The group `index` of the first match of `expr`.
    Regex {
        expr: String,
        index: usize,
        replace_missing_value: bool,
        replace_missing_value_with: Option<String>,
    },
    /// The value itself where it matches `expr`, and nothing where it does not.
    Partial { expr: String },
    /// The part of the value from `index` on, `length` long.
    Substring { index: usize, length: Option<usize> },
    /// The length of the value.
    Strlen,
    /// The time of the row, written in `format`.
    TimeFormat {
        format: Option<String>,
        time_zone: Option<String>,
        locale: Option<String>,
        granularity: Option<Granularity>,
        as_millis: bool,
    },
    /// A time that is written in `time_format`, written anew in
    /// `result_format`.
    Time { time_format: String, result_format: String, joda: bool },
    /// What the function makes of the value.
    Javascript { function: String },
    /// What a lookup that the cluster knows by name gives for the value.
    RegisteredLookup { lookup: String, retain_missing_value: bool },
    /// What a lookup table written in the query gives for the value.
    Lookup {
        lookup: LookupMap,
        retain_missing_value: bool,
        injective: bool,
        replace_missing_value_with: String,
    },
    /// The functions applied one after the other.
    Cascade { extraction_fns: Vec<ExtractFN> },
    /// The value put into `format`.
    StringFormat { format: String, null_handling: Option<NullHandling> },
    /// The value in upper case.
    Upper { locale: Option<String> },
    /// The value in lower case.
    Lower { locale: Option<String> },
    /// The lower end of the bucket of width `size` that a number falls into.
    Bucket { size: usize, offset: usize },
}

/// The mathematical model of a [`ExtractFN`].
#[verifier::ext_equal]
#[allow(inconsistent_fields)]
pub enum ExtractFNModel {
    Regex {
        expr: Seq<char>,
        index: usize,
        replace_missing_value: bool,
        replace_missing_value_with: Option<Seq<char>>,
    },
    Partial { expr: Seq<char> },
    Substring { index: usize, length: Option<usize> },
    Strlen,
    TimeFormat {
        format: Option<Seq<char>>,
        time_zone: Option<Seq<char>>,
        locale: Option<Seq<char>>,
        granularity: Option<Granularity>,
        as_millis: bool,
    },
    Time { time_format: Seq<char>, result_format: Seq<char>, joda: bool },
    Javascript { function: Seq<char> },
    RegisteredLookup { lookup: Seq<char>, retain_missing_value: bool },
    Lookup {
        lookup: LookupMapModel,
        retain_missing_value: bool,
        injective: bool,
        replace_missing_value_with: Seq<char>,
    },
    Cascade { extraction_fns: Seq<ExtractFNModel> },
    StringFormat { format: Seq<char>, null_handling: Option<NullHandling> },
    Upper { locale: Option<Seq<char>> },
    Lower { locale: Option<Seq<char>> },
    Bucket { size: usize, offset: usize },
}

impl ExtractFN {
    /// The mathematical model of this value.
    pub open spec fn model(self) -> ExtractFNModel
        decreases self,
    {
        match self {
            ExtractFN::Regex {
                expr,
                index,
                replace_missing_value,
                replace_missing_value_with,
            } => ExtractFNModel::Regex {
                expr: expr@,
                index,
                replace_missing_value,
                replace_missing_value_with: optional_text_view(replace_missing_value_with),
            },
            ExtractFN::Partial { expr } => ExtractFNModel::Partial { expr: expr@ },
            ExtractFN::Substring { index, length } => ExtractFNModel::Substring { index, length },
            ExtractFN::Strlen => ExtractFNModel::Strlen,
            ExtractFN::TimeFormat {
                format,
                time_zone,
                locale,
                granularity,
                as_millis,
            } => ExtractFNModel::TimeFormat {
                format: optional_text_view(format),
                time_zone: optional_text_view(time_zone),
                locale: optional_text_view(locale),
                granularity,
                as_millis,
            },
            ExtractFN::Time { time_format, result_format, joda } => ExtractFNModel::Time {
                time_format: time_format@,
                result_format: result_format@,
                joda,
            },
            ExtractFN::Javascript { function } => ExtractFNModel::Javascript {
                function: function@,
            },
            ExtractFN::RegisteredLookup {
                lookup,
                retain_missing_value,
            } => ExtractFNModel::RegisteredLookup {
                lookup: lookup@,
                retain_missing_value,
            },
            ExtractFN::Lookup {
                lookup,
                retain_missing_value,
                injective,
                replace_missing_value_with,
            } => ExtractFNModel::Lookup {
                lookup: lookup.model(),
                retain_missing_value,
                injective,
                replace_missing_value_with: replace_missing_value_with@,
            },
            ExtractFN::Cascade { extraction_fns } => ExtractFNModel::Cascade {
                extraction_fns: ExtractFN::models(extraction_fns@),
            },
            ExtractFN::StringFormat { format, null_handling } => ExtractFNModel::StringFormat {
                format: format@,
                null_handling,
            },
            ExtractFN::Upper { locale } => ExtractFNModel::Upper {
                locale: optional_text_view(locale),
            },
            ExtractFN::Lower { locale } => ExtractFNModel::Lower {
                locale: optional_text_view(locale),
            },
            ExtractFN::Bucket { size, offset } => ExtractFNModel::Bucket { size, offset },
        }
    }

    /// The models of a sequence of values.
    pub open spec fn models(items: Seq<ExtractFN>) -> Seq<ExtractFNModel>
        decreases items,
    {
        Seq::new(
            items.len(),
            |i: int|
                if 0 <= i < items.len() {
                    items[i].model()
                } else {
                    arbitrary()
                },
        )
    }

    /// The model of a value that may be absent.
    pub open spec fn optional_model(item: Option<ExtractFN>) -> Option<ExtractFNModel> {
        match item {
            Some(v) => Some(v.model()),
            None => None,
        }
    }
}

impl View for ExtractFN {
    type V = ExtractFNModel;

    open spec fn view(&self) -> ExtractFNModel {
        self.model()
    }
}

impl ExtractFNModel {
    /// The wire form of this value.
    pub open spec fn wire(self) -> JsonModel
        decreases self,
    {
        match self {
            ExtractFNModel::Regex {
                expr,
                index,
                replace_missing_value,
                replace_missing_value_with,
            } => JsonModel::Object(
                Seq::empty().push(
                    (
                        "regex"@,
                        JsonModel::Object(
                            Seq::empty()
                                .push(("expr"@, JsonModel::Str(expr)))
                                .push(("index"@, JsonModel::integer(index as int)))
                                .push(
                                    (
                                        "replaceMissingValue"@,
                                        JsonModel::Bool(replace_missing_value),
                                    ),
                                )
                                .push(
                                    (
                                        "replaceMissingValueWith"@,
                                        JsonModel::optional_text(replace_missing_value_with),
                                    ),
                                ),
                        ),
                    ),
                ),
            ),
            ExtractFNModel::Partial { expr } => JsonModel::Object(
                Seq::empty().push(
                    (
                        "partial"@,
                        JsonModel::Object(
                            Seq::empty()
                                .push(("expr"@, JsonModel::Str(expr))),
                        ),
                    ),
                ),
            ),
            ExtractFNModel::Substring { index, length } => JsonModel::Object(
                Seq::empty().push(
                    (
                        "substring"@,
                        JsonModel::Object(
                            Seq::empty()
                                .push(("index"@, JsonModel::integer(index as int)))
                                .push(("length"@, JsonModel::optional_usize(length))),
                        ),
                    ),
                ),
            ),
            ExtractFNModel::Strlen => JsonModel::Str("strlen"@),
            ExtractFNModel::TimeFormat {
                format,
                time_zone,
                locale,
                granularity,
                as_millis,
            } => JsonModel::Object(
                Seq::empty().push(
                    (
                        "timeFormat"@,
                        JsonModel::Object(
                            Seq::empty()
                                .push(("format"@, JsonModel::optional_text(format)))
                                .push(("timeZone"@, JsonModel::optional_text(time_zone)))
                                .push(("locale"@, JsonModel::optional_text(locale)))
                                .push(("granularity"@, Granularity::wire_optional(granularity)))
                                .push(("asMillis"@, JsonModel::Bool(as_millis))),
                        ),
                    ),
                ),
            ),
            ExtractFNModel::Time { time_format, result_format, joda } => JsonModel::Object(
                Seq::empty().push(
                    (
                        "time"@,
                        JsonModel::Object(
                            Seq::empty()
                                .push(("timeFormat"@, JsonModel::Str(time_format)))
                                .push(("resultFormat"@, JsonModel::Str(result_format)))
                                .push(("joda"@, JsonModel::Bool(joda))),
                        ),
                    ),
                ),
            ),
            ExtractFNModel::Javascript { function } => JsonModel::Object(
                Seq::empty().push(
                    (
                        "javascript"@,
                        JsonModel::Object(
                            Seq::empty()
                                .push(("function"@, JsonModel::Str(function))),
                        ),
                    ),
                ),
            ),
            ExtractFNModel::RegisteredLookup { lookup, retain_missing_value } => JsonModel::Object(
                Seq::empty().push(
                    (
                        "registeredLookup"@,
                        JsonModel::Object(
                            Seq::empty()
                                .push(("lookup"@, JsonModel::Str(lookup)))
                                .push(
                                    ("retainMissingValue"@, JsonModel::Bool(retain_missing_value)),
                                ),
                        ),
                    ),
                ),
            ),
            ExtractFNModel::Lookup {
                lookup,
                retain_missing_value,
                injective,
                replace_missing_value_with,
            } => JsonModel::Object(
                Seq::empty().push(
                    (
                        "lookup"@,
                        JsonModel::Object(
                            Seq::empty()
                                .push(("lookup"@, lookup.wire()))
                                .push(
                                    ("retainMissingValue"@, JsonModel::Bool(retain_missing_value)),
                                )
                                .push(("injective"@, JsonModel::Bool(injective)))
                                .push(
                                    (
                                        "replaceMissingValueWith"@,
                                        JsonModel::Str(replace_missing_value_with),
                                    ),
                                ),
                        ),
                    ),
                ),
            ),
            ExtractFNModel::Cascade { extraction_fns } => JsonModel::Object(
                Seq::empty().push(
                    (
                        "cascade"@,
                        JsonModel::Object(
                            Seq::empty()
                                .push(
                                    (
                                        "extractionFns"@,
                                        JsonModel::Array(ExtractFNModel::wire_all(extraction_fns)),
                                    ),
                                ),
                        ),
                    ),
                ),
            ),
            ExtractFNModel::StringFormat { format, null_handling } => JsonModel::Object(
                Seq::empty().push(
                    (
                        "stringFormat"@,
                        JsonModel::Object(
                            Seq::empty()
                                .push(("format"@, JsonModel::Str(format)))
                                .push(
                                    ("nullHandling"@, NullHandling::wire_optional(null_handling)),
                                ),
                        ),
                    ),
                ),
            ),
            ExtractFNModel::Upper { locale } => JsonModel::Object(
                Seq::empty().push(
                    (
                        "upper"@,
                        JsonModel::Object(
                            Seq::empty()
                                .push(("locale"@, JsonModel::optional_text(locale))),
                        ),
                    ),
                ),
            ),
            ExtractFNModel::Lower { locale } => JsonModel::Object(
                Seq::empty().push(
                    (
                        "lower"@,
                        JsonModel::Object(
                            Seq::empty()
                                .push(("locale"@, JsonModel::optional_text(locale))),
                        ),
                    ),
                ),
            ),
            ExtractFNModel::Bucket { size, offset } => JsonModel::Object(
                Seq::empty().push(
                    (
                        "bucket"@,
                        JsonModel::Object(
                            Seq::empty()
                                .push(("size"@, JsonModel::integer(size as int)))
                                .push(("offset"@, JsonModel::integer(offset as int))),
                        ),
                    ),
                ),
            ),
        }
    }

    /// The wire forms of a sequence of values.
    pub open spec fn wire_all(items: Seq<ExtractFNModel>) -> Seq<JsonModel>
        decreases items,
    {
        Seq::new(
            items.len(),
            |i: int|
                if 0 <= i < items.len() {
                    items[i].wire()
                } else {
                    JsonModel::Null
                },
        )
    }

    /// The wire form of a value that may be absent: `null` where it is.
    pub open spec fn wire_optional(item: Option<ExtractFNModel>) -> JsonModel {
        match item {
            Some(v) => v.wire(),
            None => JsonModel::Null,
        }
    }

    /// What a JSON value reads as: `None` where it does not read as a value of
    /// this type. The members of an object are found by their names, in
    /// whatever order they stand, and members of other names are passed over.
    pub open spec fn parse(j: JsonModel) -> Option<ExtractFNModel>
        decreases j, 1int,
    {
        match j {
            JsonModel::Str(tag) => if tag == "strlen"@ {
                Some(ExtractFNModel::Strlen)
            } else {
                None
            },
            JsonModel::Object(members) => if members.len() == 1 {
                let tag = members[0].0;
                let body = members[0].1;
                proof {
                    assert(decreases_to!(j => j->Object_0));
                    assert(decreases_to!(j->Object_0 => j->Object_0[0]));
                    assert(decreases_to!(j->Object_0[0] => j->Object_0[0].1));
                }
                if tag == "regex"@ {
                    match (
                        body.text_field("expr"@),
                        body.usize_field("index"@),
                        body.bool_field("replaceMissingValue"@),
                        body.optional_text_field("replaceMissingValueWith"@),
                    ) {
                        (
                            Some(expr),
                            Some(index),
                            Some(replace_missing_value),
                            Some(replace_missing_value_with),
                        ) => Some(
                            ExtractFNModel::Regex {
                                expr,
                                index,
                                replace_missing_value,
                                replace_missing_value_with,
                            },
                        ),
                        _ => None,
                    }
                } else if tag == "partial"@ {
                    match body.text_field("expr"@) {
                        Some(expr) => Some(ExtractFNModel::Partial { expr }),
                        None => None,
                    }
                } else if tag == "substring"@ {
                    match (
                        body.usize_field("index"@),
                        body.optional_usize_field("length"@),
                    ) {
                        (Some(index), Some(length)) => Some(
                            ExtractFNModel::Substring {
                                index,
                                length,
                            },
                        ),
                        _ => None,
                    }
                } else if tag == "timeFormat"@ {
                    match (
                        body.optional_text_field("format"@),
                        body.optional_text_field("timeZone"@),
                        body.optional_text_field("locale"@),
                        Granularity::parse_optional_field(body, "granularity"@),
                        body.bool_field("asMillis"@),
                    ) {
                        (
                            Some(format),
                            Some(time_zone),
                            Some(locale),
                            Some(granularity),
                            Some(as_millis),
                        ) => Some(
                            ExtractFNModel::TimeFormat {
                                format,
                                time_zone,
                                locale,
                                granularity,
                                as_millis,
                            },
                        ),
                        _ => None,
                    }
                } else if tag == "time"@ {
                    match (
                        body.text_field("timeFormat"@),
                        body.text_field("resultFormat"@),
                        body.bool_field("joda"@),
                    ) {
                        (Some(time_format), Some(result_format), Some(joda)) => Some(
                            ExtractFNModel::Time {
                                time_format,
                                result_format,
                                joda,
                            },
                        ),
                        _ => None,
                    }
                } else if tag == "javascript"@ {
                    match body.text_field("function"@) {
                        Some(function) => Some(ExtractFNModel::Javascript { function }),
                        None => None,
                    }
                } else if tag == "registeredLookup"@ {
                    match (
                        body.text_field("lookup"@),
                        body.bool_field("retainMissingValue"@),
                    ) {
                        (Some(lookup), Some(retain_missing_value)) => Some(
                            ExtractFNModel::RegisteredLookup {
                                lookup,
                                retain_missing_value,
                            },
                        ),
                        _ => None,
                    }
                } else if tag == "lookup"@ {
                    match (
                        LookupMapModel::parse_field(body, "lookup"@),
                        body.bool_field("retainMissingValue"@),
                        body.bool_field("injective"@),
                        body.text_field("replaceMissingValueWith"@),
                    ) {
                        (
                            Some(lookup),
                            Some(retain_missing_value),
                            Some(injective),
                            Some(replace_missing_value_with),
                        ) => Some(
                            ExtractFNModel::Lookup {
                                lookup,
                                retain_missing_value,
                                injective,
                                replace_missing_value_with,
                            },
                        ),
                        _ => None,
                    }
                } else if tag == "cascade"@ {
                    match ExtractFNModel::parse_all_field(body, "extractionFns"@) {
                        Some(extraction_fns) => Some(ExtractFNModel::Cascade { extraction_fns }),
                        None => None,
                    }
                } else if tag == "stringFormat"@ {
                    match (
                        body.text_field("format"@),
                        NullHandling::parse_optional_field(body, "nullHandling"@),
                    ) {
                        (Some(format), Some(null_handling)) => Some(
                            ExtractFNModel::StringFormat {
                                format,
                                null_handling,
                            },
                        ),
                        _ => None,
                    }
                } else if tag == "upper"@ {
                    match body.optional_text_field("locale"@) {
                        Some(locale) => Some(ExtractFNModel::Upper { locale }),
                        None => None,
                    }
                } else if tag == "lower"@ {
                    match body.optional_text_field("locale"@) {
                        Some(locale) => Some(ExtractFNModel::Lower { locale }),
                        None => None,
                    }
                } else if tag == "bucket"@ {
                    match (
                        body.usize_field("size"@),
                        body.usize_field("offset"@),
                    ) {
                        (Some(size), Some(offset)) => Some(ExtractFNModel::Bucket { size, offset }),
                        _ => None,
                    }
                } else {
                    None
                }
            } else {
                None
            },
            _ => None,
        }
    }

    /// What the required member `key` of `j` reads as.
    pub open spec fn parse_field(j: JsonModel, key: Seq<char>) -> Option<ExtractFNModel> {
        match j.field(key) {
            Some(v) => Self::parse(v),
            None => None,
        }
    }

    /// What the member `key` of `j` reads as where it may be absent: an absent
    /// member and `null` read as no value.
    pub open spec fn parse_optional_field(
        j: JsonModel,
        key: Seq<char>,
    ) -> Option<Option<ExtractFNModel>>
    {
        match j.optional(key) {
            Some(v) => {
                match Self::parse(v) {
                    Some(x) => Some(Some(x)),
                    None => None,
                }
            },
            None => Some(None),
        }
    }

    /// What the items of an array read as: `None` where one of them does not
    /// read.
    pub open spec fn parse_all(items: Seq<JsonModel>) -> Option<Seq<ExtractFNModel>>
        decreases items, 0int,
    {
        if forall|i: int| 0 <= i < items.len() ==> Self::parse(#[trigger] items[i]) is Some {
            Some(
                Seq::new(
                    items.len(),
                    |i: int|
                        if 0 <= i < items.len() {
                            Self::parse(items[i])->Some_0
                        } else {
                            arbitrary()
                        },
                ),
            )
        } else {
            None
        }
    }

    /// What the required member `key` of `j` reads as where it is an array of
    /// values.
    pub open spec fn parse_all_field(j: JsonModel, key: Seq<char>) -> Option<Seq<ExtractFNModel>>
        decreases j, 0int,
    {
        match j.field(key) {
            Some(JsonModel::Array(items)) => {
                proof {
                    j.lemma_field_decreases(key);
                    let member = j.field(key)->Some_0;
                    assert(decreases_to!(member => member->Array_0));
                }
                Self::parse_all(items)
            },
            _ => None,
        }
    }

    /// The lengths and the letters that tell the names of this wire form apart.
    pub proof fn lemma_names()
        ensures
            "expr"@.len() == 4,
            "joda"@.len() == 4,
            "size"@.len() == 4,
            "time"@.len() == 4,
            "index"@.len() == 5,
            "lower"@.len() == 5,
            "regex"@.len() == 5,
            "upper"@.len() == 5,
            "bucket"@.len() == 6,
            "format"@.len() == 6,
            "length"@.len() == 6,
            "locale"@.len() == 6,
            "lookup"@.len() == 6,
            "offset"@.len() == 6,
            "strlen"@.len() == 6,
            "cascade"@.len() == 7,
            "partial"@.len() == 7,
            "asMillis"@.len() == 8,
            "function"@.len() == 8,
            "timeZone"@.len() == 8,
            "injective"@.len() == 9,
            "substring"@.len() == 9,
            "javascript"@.len() == 10,
            "timeFormat"@.len() == 10,
            "granularity"@.len() == 11,
            "nullHandling"@.len() == 12,
            "resultFormat"@.len() == 12,
            "stringFormat"@.len() == 12,
            "extractionFns"@.len() == 13,
            "registeredLookup"@.len() == 16,
            "retainMissingValue"@.len() == 18,
            "replaceMissingValue"@.len() == 19,
            "replaceMissingValueWith"@.len() == 23,
            "expr"@[0] == 'e',
            "joda"@[0] == 'j',
            "size"@[0] == 's',
            "time"@[0] == 't',
            "index"@[0] == 'i',
            "lower"@[0] == 'l',
            "regex"@[0] == 'r',
            "upper"@[0] == 'u',
            "bucket"@[0] == 'b',
            "bucket"@[3] == 'k',
            "format"@[0] == 'f',
            "format"@[3] == 'm',
            "length"@[0] == 'l',
            "length"@[3] == 'g',
            "locale"@[0] == 'l',
            "locale"@[3] == 'a',
            "lookup"@[0] == 'l',
            "lookup"@[3] == 'k',
            "offset"@[0] == 'o',
            "offset"@[3] == 's',
            "strlen"@[0] == 's',
            "strlen"@[3] == 'l',
            "cascade"@[0] == 'c',
            "partial"@[0] == 'p',
            "asMillis"@[0] == 'a',
            "function"@[0] == 'f',
            "timeZone"@[0] == 't',
            "injective"@[0] == 'i',
            "substring"@[0] == 's',
            "javascript"@[0] == 'j',
            "timeFormat"@[0] == 't',
            "nullHandling"@[0] == 'n',
            "resultFormat"@[0] == 'r',
            "stringFormat"@[0] == 's',
    {
        reveal_strlit("expr");
        reveal_strlit("joda");
        reveal_strlit("size");
        reveal_strlit("time");
        reveal_strlit("index");
        reveal_strlit("lower");
        reveal_strlit("regex");
        reveal_strlit("upper");
        reveal_strlit("bucket");
        reveal_strlit("format");
        reveal_strlit("length");
        reveal_strlit("locale");
        reveal_strlit("lookup");
        reveal_strlit("offset");
        reveal_strlit("strlen");
        reveal_strlit("cascade");
        reveal_strlit("partial");
        reveal_strlit("asMillis");
        reveal_strlit("function");
        reveal_strlit("timeZone");
        reveal_strlit("injective");
        reveal_strlit("substring");
        reveal_strlit("javascript");
        reveal_strlit("timeFormat");
        reveal_strlit("granularity");
        reveal_strlit("nullHandling");
        reveal_strlit("resultFormat");
        reveal_strlit("stringFormat");
        reveal_strlit("extractionFns");
        reveal_strlit("registeredLookup");
        reveal_strlit("retainMissingValue");
        reveal_strlit("replaceMissingValue");
        reveal_strlit("replaceMissingValueWith");
    }

    /// Decoding the wire form of a `Regex` gives it back.
    proof fn lemma_round_trip_regex(self)
        requires
            self is Regex,
        ensures
            Self::parse(self.wire()) == Some(self),
        decreases self, 0int,
    {
        Self::lemma_names();
        reveal_with_fuel(JsonModel::find, 8);
        match self {
            ExtractFNModel::Regex {
                expr,
                index,
                replace_missing_value,
                replace_missing_value_with,
            } => {
            },
            _ => {},
        }
    }

    /// Decoding the wire form of a `Partial` gives it back.
    proof fn lemma_round_trip_partial(self)
        requires
            self is Partial,
        ensures
            Self::parse(self.wire()) == Some(self),
        decreases self, 0int,
    {
        Self::lemma_names();
        reveal_with_fuel(JsonModel::find, 8);
        match self {
            ExtractFNModel::Partial { expr } => {
            },
            _ => {},
        }
    }

    /// Decoding the wire form of a `Substring` gives it back.
    proof fn lemma_round_trip_substring(self)
        requires
            self is Substring,
        ensures
            Self::parse(self.wire()) == Some(self),
        decreases self, 0int,
    {
        Self::lemma_names();
        reveal_with_fuel(JsonModel::find, 8);
        match self {
            ExtractFNModel::Substring { index, length } => {
            },
            _ => {},
        }
    }

    /// Decoding the wire form of a `Strlen` gives it back.
    proof fn lemma_round_trip_strlen(self)
        requires
            self is Strlen,
        ensures
            Self::parse(self.wire()) == Some(self),
        decreases self, 0int,
    {
        Self::lemma_names();
        reveal_with_fuel(JsonModel::find, 8);
        match self {
            ExtractFNModel::Strlen => {
            },
            _ => {},
        }
    }

    /// Decoding the wire form of a `TimeFormat` gives it back.
    proof fn lemma_round_trip_time_format(self)
        requires
            self is TimeFormat,
        ensures
            Self::parse(self.wire()) == Some(self),
        decreases self, 0int,
    {
        Self::lemma_names();
        reveal_with_fuel(JsonModel::find, 8);
        match self {
            ExtractFNModel::TimeFormat { format, time_zone, locale, granularity, as_millis } => {
                Granularity::lemma_round_trip_optional(granularity);
            },
            _ => {},
        }
    }

    /// Decoding the wire form of a `Time` gives it back.
    proof fn lemma_round_trip_time(self)
        requires
            self is Time,
        ensures
            Self::parse(self.wire()) == Some(self),
        decreases self, 0int,
    {
        Self::lemma_names();
        reveal_with_fuel(JsonModel::find, 8);
        match self {
            ExtractFNModel::Time { time_format, result_format, joda } => {
            },
            _ => {},
        }
    }

    /// Decoding the wire form of a `Javascript` gives it back.
    proof fn lemma_round_trip_javascript(self)
        requires
            self is Javascript,
        ensures
            Self::parse(self.wire()) == Some(self),
        decreases self, 0int,
    {
        Self::lemma_names();
        reveal_with_fuel(JsonModel::find, 8);
        match self {
            ExtractFNModel::Javascript { function } => {
            },
            _ => {},
        }
    }

    /// Decoding the wire form of a `RegisteredLookup` gives it back.
    proof fn lemma_round_trip_registered_lookup(self)
        requires
            self is RegisteredLookup,
        ensures
            Self::parse(self.wire()) == Some(self),
        decreases self, 0int,
    {
        Self::lemma_names();
        reveal_with_fuel(JsonModel::find, 8);
        match self {
            ExtractFNModel::RegisteredLookup { lookup, retain_missing_value } => {
            },
            _ => {},
        }
    }

    /// Decoding the wire form of a `Lookup` gives it back.
    proof fn lemma_round_trip_lookup(self)
        requires
            self is Lookup,
        ensures
            Self::parse(self.wire()) == Some(self),
        decreases self, 0int,
    {
        Self::lemma_names();
        reveal_with_fuel(JsonModel::find, 8);
        match self {
            ExtractFNModel::Lookup {
                lookup,
                retain_missing_value,
                injective,
                replace_missing_value_with,
            } => {
                lookup.lemma_round_trip();
            },
            _ => {},
        }
    }

    /// Decoding the wire form of a `Cascade` gives it back.
    proof fn lemma_round_trip_cascade(self)
        requires
            self is Cascade,
        ensures
            Self::parse(self.wire()) == Some(self),
        decreases self, 0int,
    {
        Self::lemma_names();
        reveal_with_fuel(JsonModel::find, 8);
        match self {
            ExtractFNModel::Cascade { extraction_fns } => {
                ExtractFNModel::lemma_round_trip_all(extraction_fns);
            },
            _ => {},
        }
    }

    /// Decoding the wire form of a `StringFormat` gives it back.
    proof fn lemma_round_trip_string_format(self)
        requires
            self is StringFormat,
        ensures
            Self::parse(self.wire()) == Some(self),
        decreases self, 0int,
    {
        Self::lemma_names();
        reveal_with_fuel(JsonModel::find, 8);
        match self {
            ExtractFNModel::StringFormat { format, null_handling } => {
                NullHandling::lemma_round_trip_optional(null_handling);
            },
            _ => {},
        }
    }

    /// Decoding the wire form of a `Upper` gives it back.
    proof fn lemma_round_trip_upper(self)
        requires
            self is Upper,
        ensures
            Self::parse(self.wire()) == Some(self),
        decreases self, 0int,
    {
        Self::lemma_names();
        reveal_with_fuel(JsonModel::find, 8);
        match self {
            ExtractFNModel::Upper { locale } => {
            },
            _ => {},
        }
    }

    /// Decoding the wire form of a `Lower` gives it back.
    proof fn lemma_round_trip_lower(self)
        requires
            self is Lower,
        ensures
            Self::parse(self.wire()) == Some(self),
        decreases self, 0int,
    {
        Self::lemma_names();
        reveal_with_fuel(JsonModel::find, 8);
        match self {
            ExtractFNModel::Lower { locale } => {
            },
            _ => {},
        }
    }

    /// Decoding the wire form of a `Bucket` gives it back.
    proof fn lemma_round_trip_bucket(self)
        requires
            self is Bucket,
        ensures
            Self::parse(self.wire()) == Some(self),
        decreases self, 0int,
    {
        Self::lemma_names();
        reveal_with_fuel(JsonModel::find, 8);
        match self {
            ExtractFNModel::Bucket { size, offset } => {
            },
            _ => {},
        }
    }

    /// Decoding the wire form of a value gives the value back.
    pub proof fn lemma_round_trip(self)
        ensures
            Self::parse(self.wire()) == Some(self),
        decreases self, 1int,
    {
        match self {
            ExtractFNModel::Regex { .. } => self.lemma_round_trip_regex(),
            ExtractFNModel::Partial { .. } => self.lemma_round_trip_partial(),
            ExtractFNModel::Substring { .. } => self.lemma_round_trip_substring(),
            ExtractFNModel::Strlen => self.lemma_round_trip_strlen(),
            ExtractFNModel::TimeFormat { .. } => self.lemma_round_trip_time_format(),
            ExtractFNModel::Time { .. } => self.lemma_round_trip_time(),
            ExtractFNModel::Javascript { .. } => self.lemma_round_trip_javascript(),
            ExtractFNModel::RegisteredLookup { .. } => self.lemma_round_trip_registered_lookup(),
            ExtractFNModel::Lookup { .. } => self.lemma_round_trip_lookup(),
            ExtractFNModel::Cascade { .. } => self.lemma_round_trip_cascade(),
            ExtractFNModel::StringFormat { .. } => self.lemma_round_trip_string_format(),
            ExtractFNModel::Upper { .. } => self.lemma_round_trip_upper(),
            ExtractFNModel::Lower { .. } => self.lemma_round_trip_lower(),
            ExtractFNModel::Bucket { .. } => self.lemma_round_trip_bucket(),
        }
    }

    /// Decoding the wire forms of a sequence of values gives the sequence back.
    pub proof fn lemma_round_trip_all(items: Seq<ExtractFNModel>)
        ensures
            Self::parse_all(Self::wire_all(items)) == Some(items),
        decreases items, 2int,
    {
        assert forall|i: int| 0 <= i < items.len() implies Self::parse(
            #[trigger] Self::wire_all(items)[i],
        ) == Some(items[i]) by {
            items[i].lemma_round_trip();
        }
        assert(Self::parse_all(Self::wire_all(items))->Some_0 =~= items);
    }

    /// The wire form of a value that is there is not `null`, and decoding it
    /// gives the value back.
    pub proof fn lemma_round_trip_optional(item: Option<ExtractFNModel>)
        ensures
            match item {
                Some(v) => Self::wire_optional(item) == v.wire() && !(v.wire() is Null)
                    && Self::parse(v.wire()) == Some(v),
                None => Self::wire_optional(item) is Null,
            },
    {
        if let Some(v) = item {
            v.lemma_round_trip();
        }
    }
}

impl ExtractFN {
    /// The wire form of this value.
    pub fn to_json(&self) -> (j: Json)
        ensures
            j@ == self@.wire(),
        decreases self,
    {
        match self {
            ExtractFN::Regex { expr, index, replace_missing_value, replace_missing_value_with } => {
                let mut body = ObjectWriter::new();
                body.put("expr", Json::text(expr.as_str()));
                body.put("index", Json::from_usize(*index));
                body.put("replaceMissingValue", Json::Bool(*replace_missing_value));
                body.put(
                    "replaceMissingValueWith",
                    Json::optional_text(replace_missing_value_with),
                );
                let mut w = ObjectWriter::new();
                w.put("regex", body.finish());
                w.finish()
            },
            ExtractFN::Partial { expr } => {
                let mut body = ObjectWriter::new();
                body.put("expr", Json::text(expr.as_str()));
                let mut w = ObjectWriter::new();
                w.put("partial", body.finish());
                w.finish()
            },
            ExtractFN::Substring { index, length } => {
                let mut body = ObjectWriter::new();
                body.put("index", Json::from_usize(*index));
                body.put("length", Json::optional_usize(length));
                let mut w = ObjectWriter::new();
                w.put("substring", body.finish());
                w.finish()
            },
            ExtractFN::Strlen => Json::text("strlen"),
            ExtractFN::TimeFormat { format, time_zone, locale, granularity, as_millis } => {
                let mut body = ObjectWriter::new();
                body.put("format", Json::optional_text(format));
                body.put("timeZone", Json::optional_text(time_zone));
                body.put("locale", Json::optional_text(locale));
                body.put("granularity", Granularity::optional_to_json(granularity));
                body.put("asMillis", Json::Bool(*as_millis));
                let mut w = ObjectWriter::new();
                w.put("timeFormat", body.finish());
                w.finish()
            },
            ExtractFN::Time { time_format, result_format, joda } => {
                let mut body = ObjectWriter::new();
                body.put("timeFormat", Json::text(time_format.as_str()));
                body.put("resultFormat", Json::text(result_format.as_str()));
                body.put("joda", Json::Bool(*joda));
                let mut w = ObjectWriter::new();
                w.put("time", body.finish());
                w.finish()
            },
            ExtractFN::Javascript { function } => {
                let mut body = ObjectWriter::new();
                body.put("function", Json::text(function.as_str()));
                let mut w = ObjectWriter::new();
                w.put("javascript", body.finish());
                w.finish()
            },
            ExtractFN::RegisteredLookup { lookup, retain_missing_value } => {
                let mut body = ObjectWriter::new();
                body.put("lookup", Json::text(lookup.as_str()));
                body.put("retainMissingValue", Json::Bool(*retain_missing_value));
                let mut w = ObjectWriter::new();
                w.put("registeredLookup", body.finish());
                w.finish()
            },
            ExtractFN::Lookup {
                lookup,
                retain_missing_value,
                injective,
                replace_missing_value_with,
            } => {
                let mut body = ObjectWriter::new();
                body.put("lookup", lookup.to_json());
                body.put("retainMissingValue", Json::Bool(*retain_missing_value));
                body.put("injective", Json::Bool(*injective));
                body.put(
                    "replaceMissingValueWith",
                    Json::text(replace_missing_value_with.as_str()),
                );
                let mut w = ObjectWriter::new();
                w.put("lookup", body.finish());
                w.finish()
            },
            ExtractFN::Cascade { extraction_fns } => {
                let mut body = ObjectWriter::new();
                body.put("extractionFns", ExtractFN::all_to_json(extraction_fns));
                let mut w = ObjectWriter::new();
                w.put("cascade", body.finish());
                w.finish()
            },
            ExtractFN::StringFormat { format, null_handling } => {
                let mut body = ObjectWriter::new();
                body.put("format", Json::text(format.as_str()));
                body.put("nullHandling", NullHandling::optional_to_json(null_handling));
                let mut w = ObjectWriter::new();
                w.put("stringFormat", body.finish());
                w.finish()
            },
            ExtractFN::Upper { locale } => {
                let mut body = ObjectWriter::new();
                body.put("locale", Json::optional_text(locale));
                let mut w = ObjectWriter::new();
                w.put("upper", body.finish());
                w.finish()
            },
            ExtractFN::Lower { locale } => {
                let mut body = ObjectWriter::new();
                body.put("locale", Json::optional_text(locale));
                let mut w = ObjectWriter::new();
                w.put("lower", body.finish());
                w.finish()
            },
            ExtractFN::Bucket { size, offset } => {
                let mut body = ObjectWriter::new();
                body.put("size", Json::from_usize(*size));
                body.put("offset", Json::from_usize(*offset));
                let mut w = ObjectWriter::new();
                w.put("bucket", body.finish());
                w.finish()
            },
        }
    }

    /// The wire form of a sequence of values: the array of their wire forms.
    pub fn all_to_json(items: &Vec<ExtractFN>) -> (j: Json)
        ensures
            j@ == JsonModel::Array(ExtractFNModel::wire_all(ExtractFN::models(items@))),
        decreases items,
    {
        let mut out: Vec<Json> = Vec::new();
        let mut i: usize = 0;
        while i < items.len()
            invariant
                i <= items.len(),
                out@.len() == i,
                forall|k: int| 0 <= k < i ==> (#[trigger] out@[k])@ == items@[k]@.wire(),
            decreases items.len() - i,
        {
            out.push(items[i].to_json());
            i += 1;
        }
        proof {
            assert(Json::models(out@) =~= ExtractFNModel::wire_all(ExtractFN::models(items@)));
        }
        Json::Array(out)
    }

    /// The wire form of a value that may be absent: `null` where it is.
    pub fn optional_to_json(item: &Option<ExtractFN>) -> (j: Json)
        ensures
            j@ == ExtractFNModel::wire_optional(ExtractFN::optional_model(*item)),
    {
        match item {
            Some(v) => v.to_json(),
            None => Json::Null,
        }
    }

    /// Reads a value from JSON: `None` where `j` does not read as a value of
    /// this type.
    pub fn from_json(j: &Json) -> (r: Option<ExtractFN>)
        ensures
            match r {
                Some(v) => ExtractFNModel::parse(j@) == Some(v@),
                None => ExtractFNModel::parse(j@) is None,
            },
        decreases j@, 1int,
    {
        match j {
            Json::Str(tag) => {
                if same_text(tag.as_str(), "strlen") {
                    Some(ExtractFN::Strlen)
                } else {
                    None
                }
            },
            Json::Object(members) => {
                if members.len() != 1 {
                    return None;
                }
                let tag = &members[0].0;
                let body = &members[0].1;
                proof {
                    assert(j@->Object_0[0] == (tag@, body@));
                    assert(decreases_to!(j@ => j@->Object_0));
                    assert(decreases_to!(j@->Object_0 => j@->Object_0[0]));
                    assert(decreases_to!(j@->Object_0[0] => j@->Object_0[0].1));
                }
                if same_text(tag.as_str(), "regex") {
                    let expr = body.text_field("expr")?;
                    let index = body.usize_field("index")?;
                    let replace_missing_value = body.bool_field("replaceMissingValue")?;
                    let replace_missing_value_with = body.optional_text_field("replaceMissingValueWith")?;
                    Some(ExtractFN::Regex {
                        expr,
                        index,
                        replace_missing_value,
                        replace_missing_value_with,
                    })
                } else if same_text(tag.as_str(), "partial") {
                    let expr = body.text_field("expr")?;
                    Some(ExtractFN::Partial { expr })
                } else if same_text(tag.as_str(), "substring") {
                    let index = body.usize_field("index")?;
                    let length = body.optional_usize_field("length")?;
                    Some(ExtractFN::Substring { index, length })
                } else if same_text(tag.as_str(), "timeFormat") {
                    let format = body.optional_text_field("format")?;
                    let time_zone = body.optional_text_field("timeZone")?;
                    let locale = body.optional_text_field("locale")?;
                    let granularity = Granularity::optional_field_from_json(body, "granularity")?;
                    let as_millis = body.bool_field("asMillis")?;
                    Some(ExtractFN::TimeFormat {
                        format,
                        time_zone,
                        locale,
                        granularity,
                        as_millis,
                    })
                } else if same_text(tag.as_str(), "time") {
                    let time_format = body.text_field("timeFormat")?;
                    let result_format = body.text_field("resultFormat")?;
                    let joda = body.bool_field("joda")?;
                    Some(ExtractFN::Time { time_format, result_format, joda })
                } else if same_text(tag.as_str(), "javascript") {
                    let function = body.text_field("function")?;
                    Some(ExtractFN::Javascript { function })
                } else if same_text(tag.as_str(), "registeredLookup") {
                    let lookup = body.text_field("lookup")?;
                    let retain_missing_value = body.bool_field("retainMissingValue")?;
                    Some(ExtractFN::RegisteredLookup { lookup, retain_missing_value })
                } else if same_text(tag.as_str(), "lookup") {
                    let lookup = LookupMap::field_from_json(body, "lookup")?;
                    let retain_missing_value = body.bool_field("retainMissingValue")?;
                    let injective = body.bool_field("injective")?;
                    let replace_missing_value_with = body.text_field("replaceMissingValueWith")?;
                    Some(ExtractFN::Lookup {
                        lookup,
                        retain_missing_value,
                        injective,
                        replace_missing_value_with,
                    })
                } else if same_text(tag.as_str(), "cascade") {
                    let extraction_fns = ExtractFN::all_field_from_json(body, "extractionFns")?;
                    Some(ExtractFN::Cascade { extraction_fns })
                } else if same_text(tag.as_str(), "stringFormat") {
                    let format = body.text_field("format")?;
                    let null_handling = NullHandling::optional_field_from_json(body, "nullHandling")?;
                    Some(ExtractFN::StringFormat { format, null_handling })
                } else if same_text(tag.as_str(), "upper") {
                    let locale = body.optional_text_field("locale")?;
                    Some(ExtractFN::Upper { locale })
                } else if same_text(tag.as_str(), "lower") {
                    let locale = body.optional_text_field("locale")?;
                    Some(ExtractFN::Lower { locale })
                } else if same_text(tag.as_str(), "bucket") {
                    let size = body.usize_field("size")?;
                    let offset = body.usize_field("offset")?;
                    Some(ExtractFN::Bucket { size, offset })
                } else {
                    None
                }
            },
            _ => None,
        }
    }

    /// Reads the required member `key` of `j`.
    pub fn field_from_json(j: &Json, key: &str) -> (r: Option<ExtractFN>)
        ensures
            match r {
                Some(v) => ExtractFNModel::parse_field(j@, key@) == Some(v@),
                None => ExtractFNModel::parse_field(j@, key@) is None,
            },
    {
        match j.get(key) {
            Some(v) => Self::from_json(v),
            None => None,
        }
    }

    /// Reads the member `key` of `j` where it may be absent: an absent member
    /// and `null` read as no value.
    pub fn optional_field_from_json(j: &Json, key: &str) -> (r: Option<Option<ExtractFN>>)
        ensures
            match r {
                Some(v) => ExtractFNModel::parse_optional_field(j@, key@)
                    == Some(ExtractFN::optional_model(v)),
                None => ExtractFNModel::parse_optional_field(j@, key@) is None,
            },
    {
        match j.get_optional(key) {
            Some(v) => {
                match Self::from_json(v) {
                    Some(x) => Some(Some(x)),
                    None => None,
                }
            },
            None => Some(None),
        }
    }

    /// Reads the items of an array: `None` where one of them does not read.
    pub fn all_from_json(items: &Vec<Json>) -> (r: Option<Vec<ExtractFN>>)
        ensures
            match r {
                Some(v) => ExtractFNModel::parse_all(Json::models(items@))
                    == Some(ExtractFN::models(v@)),
                None => ExtractFNModel::parse_all(Json::models(items@)) is None,
            },
        decreases Json::models(items@), 0int,
    {
        let mut out: Vec<ExtractFN> = Vec::new();
        let mut i: usize = 0;
        while i < items.len()
            invariant
                i <= items.len(),
                out@.len() == i,
                forall|k: int|
                    0 <= k < i ==>
                        ExtractFNModel::parse(#[trigger] Json::models(items@)[k]) == Some(out@[k]@),
            decreases items.len() - i,
        {
            proof {
                assert(decreases_to!(Json::models(items@) => Json::models(items@)[i as int]));
            }
            match Self::from_json(&items[i]) {
                Some(v) => {
                    out.push(v);
                },
                None => {
                    assert(ExtractFNModel::parse(Json::models(items@)[i as int]) is None);
                    return None;
                },
            }
            i += 1;
        }
        proof {
            assert(ExtractFNModel::parse_all(Json::models(items@))->Some_0
                =~= ExtractFN::models(out@));
        }
        Some(out)
    }

    /// Reads the required member `key` of `j` where it is an array of values.
    pub fn all_field_from_json(j: &Json, key: &str) -> (r: Option<Vec<ExtractFN>>)
        ensures
            match r {
                Some(v) => ExtractFNModel::parse_all_field(j@, key@) == Some(ExtractFN::models(v@)),
                None => ExtractFNModel::parse_all_field(j@, key@) is None,
            },
        decreases j@, 0int,
    {
        match j.get(key) {
            Some(Json::Array(items)) => {
                proof {
                    j@.lemma_field_decreases(key@);
                    let member = j@.field(key@)->Some_0;
                    assert(decreases_to!(member => member->Array_0));
                }
                Self::all_from_json(items)
            },
            _ => None,
        }
    }
}

/// A column that a query groups by or hands out, as it is named, typed and
/// transformed.
#[derive(Debug, PartialEq)]
pub enum Dimension {
    /// A column as it is.
    Default { dimension: String, output_name: String, output_type: OutputType },
    /// A column whose values go through an extraction function.
    Extraction {
        dimenstion: String,
        output_name: String,
        output_type: OutputType,
        extraction_fn: ExtractFN,
    },
    /// The values of a multi-value dimension that are, or are not, among
    /// `values`.
    ListFiltered { delegate: Box<Dimension>, values: Vec<String>, is_whitelist: bool },
    /// The values of a multi-value dimension that match `pattern`.
    RegexFiltered { delegate: Box<Dimension>, pattern: String },
    /// The values of a multi-value dimension that start with `prefix`.
    PrefixFiltered { delegate: Box<Dimension>, prefix: String },
    /// A lookup through a table written in the query. On the wire it carries
    /// the tag `lookup`, as `Lookup` does, and is told from it by its member
    /// `lookup`; the tag `lookupMap` is read as this variant too.
    LookupMap {
        dimension: String,
        output_name: String,
        replace_missing_value_with: String,
        retain_missing_value: bool,
        lookup: LookupMap,
    },
    /// A lookup that the cluster knows by name.
    Lookup { dimension: String, output_name: String, name: String },
}

/// The mathematical model of a [`Dimension`].
#[verifier::ext_equal]
pub enum DimensionModel {
    Default { dimension: Seq<char>, output_name: Seq<char>, output_type: OutputType },
    Extraction {
        dimenstion: Seq<char>,
        output_name: Seq<char>,
        output_type: OutputType,
        extraction_fn: ExtractFNModel,
    },
    ListFiltered { delegate: Box<DimensionModel>, values: Seq<Seq<char>>, is_whitelist: bool },
    RegexFiltered { delegate: Box<DimensionModel>, pattern: Seq<char> },
    PrefixFiltered { delegate: Box<DimensionModel>, prefix: Seq<char> },
    LookupMap {
        dimension: Seq<char>,
        output_name: Seq<char>,
        replace_missing_value_with: Seq<char>,
        retain_missing_value: bool,
        lookup: LookupMapModel,
    },
    Lookup { dimension: Seq<char>, output_name: Seq<char>, name: Seq<char> },
}

impl Dimension {
    /// The mathematical model of this value.
    pub open spec fn model(self) -> DimensionModel
        decreases self,
    {
        match self {
            Dimension::Default { dimension, output_name, output_type } => DimensionModel::Default {
                dimension: dimension@,
                output_name: output_name@,
                output_type,
            },
            Dimension::Extraction {
                dimenstion,
                output_name,
                output_type,
                extraction_fn,
            } => DimensionModel::Extraction {
                dimenstion: dimenstion@,
                output_name: output_name@,
                output_type,
                extraction_fn: extraction_fn.model(),
            },
            Dimension::ListFiltered {
                delegate,
                values,
                is_whitelist,
            } => DimensionModel::ListFiltered {
                delegate: Box::new(delegate.model()),
                values: text_views(values@),
                is_whitelist,
            },
            Dimension::RegexFiltered { delegate, pattern } => DimensionModel::RegexFiltered {
                delegate: Box::new(delegate.model()),
                pattern: pattern@,
            },
            Dimension::PrefixFiltered { delegate, prefix } => DimensionModel::PrefixFiltered {
                delegate: Box::new(delegate.model()),
                prefix: prefix@,
            },
            Dimension::LookupMap {
                dimension,
                output_name,
                replace_missing_value_with,
                retain_missing_value,
                lookup,
            } => DimensionModel::LookupMap {
                dimension: dimension@,
                output_name: output_name@,
                replace_missing_value_with: replace_missing_value_with@,
                retain_missing_value,
                lookup: lookup.model(),
            },
            Dimension::Lookup { dimension, output_name, name } => DimensionModel::Lookup {
                dimension: dimension@,
                output_name: output_name@,
                name: name@,
            },
        }
    }

    /// The models of a sequence of values.
    pub open spec fn models(items: Seq<Dimension>) -> Seq<DimensionModel> {
        Seq::new(items.len(), |i: int| items[i].model())
    }
}

impl View for Dimension {
    type V = DimensionModel;

    open spec fn view(&self) -> DimensionModel {
        self.model()
    }
}

impl DimensionModel {
    /// The wire form of this value.
    pub open spec fn wire(self) -> JsonModel
        decreases self,
    {
        match self {
            DimensionModel::Default { dimension, output_name, output_type } => {
                JsonModel::Object(
                    Seq::empty()
                        .push(("type"@, JsonModel::Str("default"@)))
                        .push(("dimension"@, JsonModel::Str(dimension)))
                        .push(("outputName"@, JsonModel::Str(output_name)))
                        .push(("outputType"@, output_type.wire())),
                )
            },
            DimensionModel::Extraction { dimenstion, output_name, output_type, extraction_fn } => {
                JsonModel::Object(
                    Seq::empty()
                        .push(("type"@, JsonModel::Str("extraction"@)))
                        .push(("dimenstion"@, JsonModel::Str(dimenstion)))
                        .push(("outputName"@, JsonModel::Str(output_name)))
                        .push(("outputType"@, output_type.wire()))
                        .push(("extractionFn"@, extraction_fn.wire())),
                )
            },
            DimensionModel::ListFiltered { delegate, values, is_whitelist } => {
                JsonModel::Object(
                    Seq::empty()
                        .push(("type"@, JsonModel::Str("listFiltered"@)))
                        .push(("delegate"@, delegate.wire()))
                        .push(("values"@, JsonModel::texts(values)))
                        .push(("isWhitelist"@, JsonModel::Bool(is_whitelist))),
                )
            },
            DimensionModel::RegexFiltered { delegate, pattern } => {
                JsonModel::Object(
                    Seq::empty()
                        .push(("type"@, JsonModel::Str("regexFiltered"@)))
                        .push(("delegate"@, delegate.wire()))
                        .push(("pattern"@, JsonModel::Str(pattern))),
                )
            },
            DimensionModel::PrefixFiltered { delegate, prefix } => {
                JsonModel::Object(
                    Seq::empty()
                        .push(("type"@, JsonModel::Str("prefixFiltered"@)))
                        .push(("delegate"@, delegate.wire()))
                        .push(("prefix"@, JsonModel::Str(prefix))),
                )
            },
            DimensionModel::LookupMap {
                dimension,
                output_name,
                replace_missing_value_with,
                retain_missing_value,
                lookup,
            } => {
                JsonModel::Object(
                    Seq::empty()
                        .push(("type"@, JsonModel::Str("lookup"@)))
                        .push(("dimension"@, JsonModel::Str(dimension)))
                        .push(("outputName"@, JsonModel::Str(output_name)))
                        .push(
                            (
                                "replaceMissingValueWith"@,
                                JsonModel::Str(replace_missing_value_with),
                            ),
                        )
                        .push(("retainMissingValue"@, JsonModel::Bool(retain_missing_value)))
                        .push(("lookup"@, lookup.wire())),
                )
            },
            DimensionModel::Lookup { dimension, output_name, name } => {
                JsonModel::Object(
                    Seq::empty()
                        .push(("type"@, JsonModel::Str("lookup"@)))
                        .push(("dimension"@, JsonModel::Str(dimension)))
                        .push(("output_name"@, JsonModel::Str(output_name)))
                        .push(("name"@, JsonModel::Str(name))),
                )
            },
        }
    }

    /// The wire forms of a sequence of values.
    pub open spec fn wire_all(items: Seq<DimensionModel>) -> Seq<JsonModel> {
        Seq::new(items.len(), |i: int| items[i].wire())
    }

    /// What a JSON value reads as: `None` where it does not read as a value of
    /// this type. The members of an object are found by their names, in
    /// whatever order they stand, and members of other names are passed over.
    pub open spec fn parse(j: JsonModel) -> Option<DimensionModel>
        decreases j, 1int,
    {
        match j.text_field("type"@) {
            Some(tag) => if tag == "default"@ {
                match (
                    j.text_field("dimension"@),
                    j.text_field("outputName"@),
                    OutputType::parse_field(j, "outputType"@),
                ) {
                    (Some(dimension), Some(output_name), Some(output_type)) => Some(
                        DimensionModel::Default {
                            dimension,
                            output_name,
                            output_type,
                        },
                    ),
                    _ => None,
                }
            } else if tag == "extraction"@ {
                match (
                    j.text_field("dimenstion"@),
                    j.text_field("outputName"@),
                    OutputType::parse_field(j, "outputType"@),
                    ExtractFNModel::parse_field(j, "extractionFn"@),
                ) {
                    (
                        Some(dimenstion),
                        Some(output_name),
                        Some(output_type),
                        Some(extraction_fn),
                    ) => Some(
                        DimensionModel::Extraction {
                            dimenstion,
                            output_name,
                            output_type,
                            extraction_fn,
                        },
                    ),
                    _ => None,
                }
            } else if tag == "listFiltered"@ {
                match (
                    DimensionModel::parse_field(j, "delegate"@),
                    j.texts_field("values"@),
                    j.bool_field("isWhitelist"@),
                ) {
                    (Some(delegate), Some(values), Some(is_whitelist)) => Some(
                        DimensionModel::ListFiltered {
                            delegate: Box::new(delegate),
                            values,
                            is_whitelist,
                        },
                    ),
                    _ => None,
                }
            } else if tag == "regexFiltered"@ {
                match (
                    DimensionModel::parse_field(j, "delegate"@),
                    j.text_field("pattern"@),
                ) {
                    (Some(delegate), Some(pattern)) => Some(
                        DimensionModel::RegexFiltered {
                            delegate: Box::new(delegate),
                            pattern,
                        },
                    ),
                    _ => None,
                }
            } else if tag == "prefixFiltered"@ {
                match (
                    DimensionModel::parse_field(j, "delegate"@),
                    j.text_field("prefix"@),
                ) {
                    (Some(delegate), Some(prefix)) => Some(
                        DimensionModel::PrefixFiltered {
                            delegate: Box::new(delegate),
                            prefix,
                        },
                    ),
                    _ => None,
                }
            } else if (tag == "lookup"@ && j.field("lookup"@) is Some) || tag == "lookupMap"@ {
                match (
                    j.text_field("dimension"@),
                    j.text_field("outputName"@),
                    j.text_field("replaceMissingValueWith"@),
                    j.bool_field("retainMissingValue"@),
                    LookupMapModel::parse_field(j, "lookup"@),
                ) {
                    (
                        Some(dimension),
                        Some(output_name),
                        Some(replace_missing_value_with),
                        Some(retain_missing_value),
                        Some(lookup),
                    ) => Some(
                        DimensionModel::LookupMap {
                            dimension,
                            output_name,
                            replace_missing_value_with,
                            retain_missing_value,
                            lookup,
                        },
                    ),
                    _ => None,
                }
            } else if tag == "lookup"@ {
                match (
                    j.text_field("dimension"@),
                    j.text_field("output_name"@),
                    j.text_field("name"@),
                ) {
                    (Some(dimension), Some(output_name), Some(name)) => Some(
                        DimensionModel::Lookup {
                            dimension,
                            output_name,
                            name,
                        },
                    ),
                    _ => None,
                }
            } else {
                None
            },
            None => None,
        }
    }

    /// What the required member `key` of `j` reads as.
    pub open spec fn parse_field(j: JsonModel, key: Seq<char>) -> Option<DimensionModel>
        decreases j, 0int,
    {
        match j.field(key) {
            Some(v) => {
                proof {
                    j.lemma_field_decreases(key);
                }
                Self::parse(v)
            },
            None => None,
        }
    }

    /// What the items of an array read as: `None` where one of them does not
    /// read.
    pub open spec fn parse_all(items: Seq<JsonModel>) -> Option<Seq<DimensionModel>> {
        if forall|i: int| 0 <= i < items.len() ==> Self::parse(#[trigger] items[i]) is Some {
            Some(Seq::new(items.len(), |i: int| Self::parse(items[i])->Some_0))
        } else {
            None
        }
    }

    /// What the required member `key` of `j` reads as where it is an array of
    /// values.
    pub open spec fn parse_all_field(j: JsonModel, key: Seq<char>) -> Option<Seq<DimensionModel>> {
        match j.field(key) {
            Some(JsonModel::Array(items)) => Self::parse_all(items),
            _ => None,
        }
    }

    /// The lengths and the letters that tell the names of this wire form apart.
    pub proof fn lemma_names()
        ensures
            "name"@.len() == 4,
            "type"@.len() == 4,
            "lookup"@.len() == 6,
            "prefix"@.len() == 6,
            "values"@.len() == 6,
            "default"@.len() == 7,
            "pattern"@.len() == 7,
            "delegate"@.len() == 8,
            "dimension"@.len() == 9,
            "lookupMap"@.len() == 9,
            "dimenstion"@.len() == 10,
            "extraction"@.len() == 10,
            "outputName"@.len() == 10,
            "outputType"@.len() == 10,
            "isWhitelist"@.len() == 11,
            "output_name"@.len() == 11,
            "extractionFn"@.len() == 12,
            "listFiltered"@.len() == 12,
            "regexFiltered"@.len() == 13,
            "prefixFiltered"@.len() == 14,
            "retainMissingValue"@.len() == 18,
            "replaceMissingValueWith"@.len() == 23,
            "name"@[0] == 'n',
            "type"@[0] == 't',
            "lookup"@[0] == 'l',
            "prefix"@[0] == 'p',
            "values"@[0] == 'v',
            "default"@[0] == 'd',
            "pattern"@[0] == 'p',
            "dimension"@[0] == 'd',
            "lookupMap"@[0] == 'l',
            "dimenstion"@[0] == 'd',
            "dimenstion"@[6] == 't',
            "extraction"@[0] == 'e',
            "extraction"@[6] == 't',
            "outputName"@[0] == 'o',
            "outputName"@[6] == 'N',
            "outputType"@[0] == 'o',
            "outputType"@[6] == 'T',
            "isWhitelist"@[0] == 'i',
            "output_name"@[0] == 'o',
            "extractionFn"@[0] == 'e',
            "listFiltered"@[0] == 'l',
    {
        reveal_strlit("name");
        reveal_strlit("type");
        reveal_strlit("lookup");
        reveal_strlit("prefix");
        reveal_strlit("values");
        reveal_strlit("default");
        reveal_strlit("pattern");
        reveal_strlit("delegate");
        reveal_strlit("dimension");
        reveal_strlit("lookupMap");
        reveal_strlit("dimenstion");
        reveal_strlit("extraction");
        reveal_strlit("outputName");
        reveal_strlit("outputType");
        reveal_strlit("isWhitelist");
        reveal_strlit("output_name");
        reveal_strlit("extractionFn");
        reveal_strlit("listFiltered");
        reveal_strlit("regexFiltered");
        reveal_strlit("prefixFiltered");
        reveal_strlit("retainMissingValue");
        reveal_strlit("replaceMissingValueWith");
    }

    /// Decoding the wire form of a value gives the value back.
    pub proof fn lemma_round_trip(self)
        ensures
            Self::parse(self.wire()) == Some(self),
        decreases self,
    {
        Self::lemma_names();
        reveal_with_fuel(JsonModel::find, 8);
        match self {
            DimensionModel::Default { dimension, output_name, output_type } => {
                output_type.lemma_round_trip();
            },
            DimensionModel::Extraction { dimenstion, output_name, output_type, extraction_fn } => {
                output_type.lemma_round_trip();
                extraction_fn.lemma_round_trip();
            },
            DimensionModel::ListFiltered { delegate, values, is_whitelist } => {
                delegate.lemma_round_trip();
                JsonModel::lemma_texts(values);
            },
            DimensionModel::RegexFiltered { delegate, pattern } => {
                delegate.lemma_round_trip();
            },
            DimensionModel::PrefixFiltered { delegate, prefix } => {
                delegate.lemma_round_trip();
            },
            DimensionModel::LookupMap {
                dimension,
                output_name,
                replace_missing_value_with,
                retain_missing_value,
                lookup,
            } => {
                lookup.lemma_round_trip();
            },
            DimensionModel::Lookup { .. } => {},
        }
    }

    /// Decoding the wire forms of a sequence of values gives the sequence back.
    pub proof fn lemma_round_trip_all(items: Seq<DimensionModel>)
        ensures
            Self::parse_all(Self::wire_all(items)) == Some(items),
    {
        assert forall|i: int| 0 <= i < items.len() implies Self::parse(
            #[trigger] Self::wire_all(items)[i],
        ) == Some(items[i]) by {
            items[i].lemma_round_trip();
        }
        assert(Self::parse_all(Self::wire_all(items))->Some_0 =~= items);
    }
}

impl Dimension {
    /// The column `dimension` as it is: handed out under its own name, as a string.
    pub fn default(dimension: &str) -> (d: Dimension)
        ensures
            d@ == (DimensionModel::Default {
                dimension: dimension@,
                output_name: dimension@,
                output_type: OutputType::STRING,
            }),
    {
        Dimension::Default {
            dimension: dimension.to_owned(),
            output_name: dimension.to_owned(),
            output_type: OutputType::STRING,
        }
    }

    /// The values of `dimension` that match `pattern`.
    pub fn regex(dimension: Dimension, pattern: &str) -> (d: Dimension)
        ensures
            d@ == (DimensionModel::RegexFiltered {
                delegate: Box::new(dimension@),
                pattern: pattern@,
            }),
    {
        Dimension::RegexFiltered { pattern: pattern.to_owned(), delegate: Box::new(dimension) }
    }

    /// The values of `dimension` that start with `prefix`.
    pub fn prefix(dimension: Dimension, prefix: &str) -> (d: Dimension)
        ensures
            d@ == (DimensionModel::PrefixFiltered {
                delegate: Box::new(dimension@),
                prefix: prefix@,
            }),
    {
        Dimension::PrefixFiltered { prefix: prefix.to_owned(), delegate: Box::new(dimension) }
    }

    /// The wire form of this value.
    pub fn to_json(&self) -> (j: Json)
        ensures
            j@ == self@.wire(),
        decreases self,
    {
        let mut w = ObjectWriter::new();
        match self {
            Dimension::Default { dimension, output_name, output_type } => {
                w.put("type", Json::text("default"));
                w.put("dimension", Json::text(dimension.as_str()));
                w.put("outputName", Json::text(output_name.as_str()));
                w.put("outputType", output_type.to_json());
            },
            Dimension::Extraction { dimenstion, output_name, output_type, extraction_fn } => {
                w.put("type", Json::text("extraction"));
                w.put("dimenstion", Json::text(dimenstion.as_str()));
                w.put("outputName", Json::text(output_name.as_str()));
                w.put("outputType", output_type.to_json());
                w.put("extractionFn", extraction_fn.to_json());
            },
            Dimension::ListFiltered { delegate, values, is_whitelist } => {
                w.put("type", Json::text("listFiltered"));
                w.put("delegate", delegate.to_json());
                w.put("values", Json::texts(values));
                w.put("isWhitelist", Json::Bool(*is_whitelist));
            },
            Dimension::RegexFiltered { delegate, pattern } => {
                w.put("type", Json::text("regexFiltered"));
                w.put("delegate", delegate.to_json());
                w.put("pattern", Json::text(pattern.as_str()));
            },
            Dimension::PrefixFiltered { delegate, prefix } => {
                w.put("type", Json::text("prefixFiltered"));
                w.put("delegate", delegate.to_json());
                w.put("prefix", Json::text(prefix.as_str()));
            },
            Dimension::LookupMap {
                dimension,
                output_name,
                replace_missing_value_with,
                retain_missing_value,
                lookup,
            } => {
                w.put("type", Json::text("lookup"));
                w.put("dimension", Json::text(dimension.as_str()));
                w.put("outputName", Json::text(output_name.as_str()));
                w.put("replaceMissingValueWith", Json::text(replace_missing_value_with.as_str()));
                w.put("retainMissingValue", Json::Bool(*retain_missing_value));
                w.put("lookup", lookup.to_json());
            },
            Dimension::Lookup { dimension, output_name, name } => {
                w.put("type", Json::text("lookup"));
                w.put("dimension", Json::text(dimension.as_str()));
                w.put("output_name", Json::text(output_name.as_str()));
                w.put("name", Json::text(name.as_str()));
            },
        }
        w.finish()
    }

    /// The wire form of a sequence of values: the array of their wire forms.
    pub fn all_to_json(items: &Vec<Dimension>) -> (j: Json)
        ensures
            j@ == JsonModel::Array(DimensionModel::wire_all(Dimension::models(items@))),
    {
        let mut out: Vec<Json> = Vec::new();
        let mut i: usize = 0;
        while i < items.len()
            invariant
                i <= items.len(),
                out@.len() == i,
                forall|k: int| 0 <= k < i ==> (#[trigger] out@[k])@ == items@[k]@.wire(),
            decreases items.len() - i,
        {
            out.push(items[i].to_json());
            i += 1;
        }
        proof {
            assert(Json::models(out@) =~= DimensionModel::wire_all(Dimension::models(items@)));
        }
        Json::Array(out)
    }

    /// Reads a value from JSON: `None` where `j` does not read as a value of
    /// this type.
    pub fn from_json(j: &Json) -> (r: Option<Dimension>)
        ensures
            match r {
                Some(v) => DimensionModel::parse(j@) == Some(v@),
                None => DimensionModel::parse(j@) is None,
            },
        decreases j@, 1int,
    {
        let tag = j.text_field("type")?;
        if same_text(tag.as_str(), "default") {
            let dimension = j.text_field("dimension")?;
            let output_name = j.text_field("outputName")?;
            let output_type = OutputType::field_from_json(j, "outputType")?;
            Some(Dimension::Default { dimension, output_name, output_type })
        } else if same_text(tag.as_str(), "extraction") {
            let dimenstion = j.text_field("dimenstion")?;
            let output_name = j.text_field("outputName")?;
            let output_type = OutputType::field_from_json(j, "outputType")?;
            let extraction_fn = ExtractFN::field_from_json(j, "extractionFn")?;
            Some(Dimension::Extraction { dimenstion, output_name, output_type, extraction_fn })
        } else if same_text(tag.as_str(), "listFiltered") {
            let delegate = Dimension::field_from_json(j, "delegate")?;
            let values = j.texts_field("values")?;
            let is_whitelist = j.bool_field("isWhitelist")?;
            Some(Dimension::ListFiltered { delegate: Box::new(delegate), values, is_whitelist })
        } else if same_text(tag.as_str(), "regexFiltered") {
            let delegate = Dimension::field_from_json(j, "delegate")?;
            let pattern = j.text_field("pattern")?;
            Some(Dimension::RegexFiltered { delegate: Box::new(delegate), pattern })
        } else if same_text(tag.as_str(), "prefixFiltered") {
            let delegate = Dimension::field_from_json(j, "delegate")?;
            let prefix = j.text_field("prefix")?;
            Some(Dimension::PrefixFiltered { delegate: Box::new(delegate), prefix })
        } else if (same_text(tag.as_str(), "lookup") && j.get("lookup").is_some())
            || same_text(tag.as_str(), "lookupMap") {
            let dimension = j.text_field("dimension")?;
            let output_name = j.text_field("outputName")?;
            let replace_missing_value_with = j.text_field("replaceMissingValueWith")?;
            let retain_missing_value = j.bool_field("retainMissingValue")?;
            let lookup = LookupMap::field_from_json(j, "lookup")?;
            Some(Dimension::LookupMap {
                dimension,
                output_name,
                replace_missing_value_with,
                retain_missing_value,
                lookup,
            })
        } else if same_text(tag.as_str(), "lookup") {
            let dimension = j.text_field("dimension")?;
            let output_name = j.text_field("output_name")?;
            let name = j.text_field("name")?;
            Some(Dimension::Lookup { dimension, output_name, name })
        } else {
            None
        }
    }

    /// Reads the required member `key` of `j`.
    pub fn field_from_json(j: &Json, key: &str) -> (r: Option<Dimension>)
        ensures
            match r {
                Some(v) => DimensionModel::parse_field(j@, key@) == Some(v@),
                None => DimensionModel::parse_field(j@, key@) is None,
            },
        decreases j@, 0int,
    {
        match j.get(key) {
            Some(v) => {
                proof {
                    j@.lemma_field_decreases(key@);
                }
                Self::from_json(v)
            },
            None => None,
        }
    }

    /// Reads the items of an array: `None` where one of them does not read.
    pub fn all_from_json(items: &Vec<Json>) -> (r: Option<Vec<Dimension>>)
        ensures
            match r {
                Some(v) => DimensionModel::parse_all(Json::models(items@))
                    == Some(Dimension::models(v@)),
                None => DimensionModel::parse_all(Json::models(items@)) is None,
            },
    {
        let mut out: Vec<Dimension> = Vec::new();
        let mut i: usize = 0;
        while i < items.len()
            invariant
                i <= items.len(),
                out@.len() == i,
                forall|k: int|
                    0 <= k < i ==>
                        DimensionModel::parse(#[trigger] Json::models(items@)[k]) == Some(out@[k]@),
            decreases items.len() - i,
        {
            match Self::from_json(&items[i]) {
                Some(v) => {
                    out.push(v);
                },
                None => {
                    assert(DimensionModel::parse(Json::models(items@)[i as int]) is None);
                    return None;
                },
            }
            i += 1;
        }
        proof {
            assert(DimensionModel::parse_all(Json::models(items@))->Some_0
                =~= Dimension::models(out@));
        }
        Some(out)
    }

    /// Reads the required member `key` of `j` where it is an array of values.
    pub fn all_field_from_json(j: &Json, key: &str) -> (r: Option<Vec<Dimension>>)
        ensures
            match r {
                Some(v) => DimensionModel::parse_all_field(j@, key@) == Some(Dimension::models(v@)),
                None => DimensionModel::parse_all_field(j@, key@) is None,
            },
    {
        match j.get(key) {
            Some(Json::Array(items)) => Self::all_from_json(items),
            _ => None,
        }
    }
}

/// What a search filter looks for in the values of a dimension.
#[derive(Debug, PartialEq)]
pub enum FilterQuerySpec {
    /// The values that contain `value`.
    Contains { value: String, case_sensitive: bool },
    InsensitiveContains { value: String },
    Fragment { values: Vec<String>, case_sensitive: bool },
}

/// The mathematical model of a [`FilterQuerySpec`].
#[verifier::ext_equal]
pub enum FilterQuerySpecModel {
    Contains { value: Seq<char>, case_sensitive: bool },
    InsensitiveContains { value: Seq<char> },
    Fragment { values: Seq<Seq<char>>, case_sensitive: bool },
}

impl FilterQuerySpec {
    /// The mathematical model of this value.
    pub open spec fn model(self) -> FilterQuerySpecModel {
        match self {
            FilterQuerySpec::Contains { value, case_sensitive } => FilterQuerySpecModel::Contains {
                value: value@,
                case_sensitive,
            },
            FilterQuerySpec::InsensitiveContains {
                value,
            } => FilterQuerySpecModel::InsensitiveContains {
                value: value@,
            },
            FilterQuerySpec::Fragment { values, case_sensitive } => FilterQuerySpecModel::Fragment {
                values: text_views(values@),
                case_sensitive,
            },
        }
    }
}

impl View for FilterQuerySpec {
    type V = FilterQuerySpecModel;

    open spec fn view(&self) -> FilterQuerySpecModel {
        self.model()
    }
}

impl FilterQuerySpecModel {
    /// The wire form of this value.
    pub open spec fn wire(self) -> JsonModel {
        match self {
            FilterQuerySpecModel::Contains { value, case_sensitive } => {
                JsonModel::Object(
                    Seq::empty()
                        .push(("type"@, JsonModel::Str("contains"@)))
                        .push(("value"@, JsonModel::Str(value)))
                        .push(("caseSensitive"@, JsonModel::Bool(case_sensitive))),
                )
            },
            FilterQuerySpecModel::InsensitiveContains { value } => {
                JsonModel::Object(
                    Seq::empty()
                        .push(("type"@, JsonModel::Str("insensitive_contains"@)))
                        .push(("value"@, JsonModel::Str(value))),
                )
            },
            FilterQuerySpecModel::Fragment { values, case_sensitive } => {
                JsonModel::Object(
                    Seq::empty()
                        .push(("type"@, JsonModel::Str("fragment"@)))
                        .push(("values"@, JsonModel::texts(values)))
                        .push(("caseSensitive"@, JsonModel::Bool(case_sensitive))),
                )
            },
        }
    }

    /// What a JSON value reads as: `None` where it does not read as a value of
    /// this type. The members of an object are found by their names, in
    /// whatever order they stand, and members of other names are passed over.
    pub open spec fn parse(j: JsonModel) -> Option<FilterQuerySpecModel> {
        match j.text_field("type"@) {
            Some(tag) => if tag == "contains"@ {
                match (
                    j.text_field("value"@),
                    j.bool_field("caseSensitive"@),
                ) {
                    (Some(value), Some(case_sensitive)) => Some(
                        FilterQuerySpecModel::Contains {
                            value,
                            case_sensitive,
                        },
                    ),
                    _ => None,
                }
            } else if tag == "insensitive_contains"@ {
                match j.text_field("value"@) {
                    Some(value) => Some(FilterQuerySpecModel::InsensitiveContains { value }),
                    None => None,
                }
            } else if tag == "fragment"@ {
                match (
                    j.texts_field("values"@),
                    j.bool_field("caseSensitive"@),
                ) {
                    (Some(values), Some(case_sensitive)) => Some(
                        FilterQuerySpecModel::Fragment {
                            values,
                            case_sensitive,
                        },
                    ),
                    _ => None,
                }
            } else {
                None
            },
            None => None,
        }
    }

    /// What the required member `key` of `j` reads as.
    pub open spec fn parse_field(j: JsonModel, key: Seq<char>) -> Option<FilterQuerySpecModel> {
        match j.field(key) {
            Some(v) => Self::parse(v),
            None => None,
        }
    }

    /// The lengths and the letters that tell the names of this wire form apart.
    pub proof fn lemma_names()
        ensures
            "type"@.len() == 4,
            "value"@.len() == 5,
            "values"@.len() == 6,
            "contains"@.len() == 8,
            "fragment"@.len() == 8,
            "caseSensitive"@.len() == 13,
            "insensitive_contains"@.len() == 20,
            "contains"@[0] == 'c',
            "fragment"@[0] == 'f',
    {
        reveal_strlit("type");
        reveal_strlit("value");
        reveal_strlit("values");
        reveal_strlit("contains");
        reveal_strlit("fragment");
        reveal_strlit("caseSensitive");
        reveal_strlit("insensitive_contains");
    }

    /// Decoding the wire form of a value gives the value back.
    pub proof fn lemma_round_trip(self)
        ensures
            Self::parse(self.wire()) == Some(self),
    {
        Self::lemma_names();
        reveal_with_fuel(JsonModel::find, 5);
        match self {
            FilterQuerySpecModel::Contains { .. } => {},
            FilterQuerySpecModel::InsensitiveContains { .. } => {},
            FilterQuerySpecModel::Fragment { values, case_sensitive } => {
                JsonModel::lemma_texts(values);
            },
        }
    }
}

impl FilterQuerySpec {
    /// The wire form of this value.
    pub fn to_json(&self) -> (j: Json)
        ensures
            j@ == self@.wire(),
    {
        let mut w = ObjectWriter::new();
        match self {
            FilterQuerySpec::Contains { value, case_sensitive } => {
                w.put("type", Json::text("contains"));
                w.put("value", Json::text(value.as_str()));
                w.put("caseSensitive", Json::Bool(*case_sensitive));
            },
            FilterQuerySpec::InsensitiveContains { value } => {
                w.put("type", Json::text("insensitive_contains"));
                w.put("value", Json::text(value.as_str()));
            },
            FilterQuerySpec::Fragment { values, case_sensitive } => {
                w.put("type", Json::text("fragment"));
                w.put("values", Json::texts(values));
                w.put("caseSensitive", Json::Bool(*case_sensitive));
            },
        }
        w.finish()
    }

    /// Reads a value from JSON: `None` where `j` does not read as a value of
    /// this type.
    pub fn from_json(j: &Json) -> (r: Option<FilterQuerySpec>)
        ensures
            match r {
                Some(v) => FilterQuerySpecModel::parse(j@) == Some(v@),
                None => FilterQuerySpecModel::parse(j@) is None,
            },
    {
        let tag = j.text_field("type")?;
        if same_text(tag.as_str(), "contains") {
            let value = j.text_field("value")?;
            let case_sensitive = j.bool_field("caseSensitive")?;
            Some(FilterQuerySpec::Contains { value, case_sensitive })
        } else if same_text(tag.as_str(), "insensitive_contains") {
            let value = j.text_field("value")?;
            Some(FilterQuerySpec::InsensitiveContains { value })
        } else if same_text(tag.as_str(), "fragment") {
            let values = j.texts_field("values")?;
            let case_sensitive = j.bool_field("caseSensitive")?;
            Some(FilterQuerySpec::Fragment { values, case_sensitive })
        } else {
            None
        }
    }

    /// Reads the required member `key` of `j`.
    pub fn field_from_json(j: &Json, key: &str) -> (r: Option<FilterQuerySpec>)
        ensures
            match r {
                Some(v) => FilterQuerySpecModel::parse_field(j@, key@) == Some(v@),
                None => FilterQuerySpecModel::parse_field(j@, key@) is None,
            },
    {
        match j.get(key) {
            Some(v) => Self::from_json(v),
            None => None,
        }
    }
}

/// A condition on the rows that a query reads. `And` and `Or` may hold no
/// condition at all.
#[derive(Debug, PartialEq)]
pub enum Filter {
    /// The rows in which `dimension` has the value `value`.
    Selector { dimension: String, value: String, extract_fn: Option<ExtractFN> },
    /// The rows in which the columns hold the same value.
    ColumnComparison { dimensions: Vec<String> },
    /// The rows in which the value of `dimension` matches `pattern`.
    Regex { dimension: String, pattern: String },
    /// The rows that all of `fields` let through.
    And { fields: Vec<Filter> },
    /// The rows that one of `fields` lets through.
    Or { fields: Vec<Filter> },
    /// The rows that `field` does not let through.
    Not { field: Box<Filter> },
    /// The rows for whose value of `dimension` the function holds.
    Javascript { dimension: String, function: String },
    /// The rows in whose value of `dimension` the search finds something.
    Search { dimension: String, query: FilterQuerySpec },
    /// The rows in which `dimension` has one of `values`.
    In { dimension: String, values: Vec<String> },
    /// The rows in which the value of `dimension` is like `pattern`, as SQL has
    /// it.
    Like {
        dimension: String,
        pattern: String,
        escape: Option<String>,
        extraction_fn: Option<ExtractFN>,
    },
    /// The rows in which the value of `dimension` lies between `lower` and
    /// `upper`.
    Bound {
        dimension: String,
        lower: String,
        upper: String,
        lower_strict: bool,
        upper_strict: bool,
        ordering: SortingOrder,
        extraction_fn: Option<ExtractFN>,
    },
    /// The rows in which the time held by `dimension` lies in one of
    /// `intervals`.
    Interval { dimension: String, intervals: Vec<String>, extraction_fn: Option<ExtractFN> },
    /// Every row.
    True,
}

/// The mathematical model of a [`Filter`].
#[verifier::ext_equal]
pub enum FilterModel {
    Selector { dimension: Seq<char>, value: Seq<char>, extract_fn: Option<ExtractFNModel> },
    ColumnComparison { dimensions: Seq<Seq<char>> },
    Regex { dimension: Seq<char>, pattern: Seq<char> },
    And { fields: Seq<FilterModel> },
    Or { fields: Seq<FilterModel> },
    Not { field: Box<FilterModel> },
    Javascript { dimension: Seq<char>, function: Seq<char> },
    Search { dimension: Seq<char>, query: FilterQuerySpecModel },
    In { dimension: Seq<char>, values: Seq<Seq<char>> },
    Like {
        dimension: Seq<char>,
        pattern: Seq<char>,
        escape: Option<Seq<char>>,
        extraction_fn: Option<ExtractFNModel>,
    },
    Bound {
        dimension: Seq<char>,
        lower: Seq<char>,
        upper: Seq<char>,
        lower_strict: bool,
        upper_strict: bool,
        ordering: SortingOrder,
        extraction_fn: Option<ExtractFNModel>,
    },
    Interval {
        dimension: Seq<char>,
        intervals: Seq<Seq<char>>,
        extraction_fn: Option<ExtractFNModel>,
    },
    True,
}

impl Filter {
    /// The mathematical model of this value.
    pub open spec fn model(self) -> FilterModel
        decreases self,
    {
        match self {
            Filter::Selector { dimension, value, extract_fn } => FilterModel::Selector {
                dimension: dimension@,
                value: value@,
                extract_fn: ExtractFN::optional_model(extract_fn),
            },
            Filter::ColumnComparison { dimensions } => FilterModel::ColumnComparison {
                dimensions: text_views(dimensions@),
            },
            Filter::Regex { dimension, pattern } => FilterModel::Regex {
                dimension: dimension@,
                pattern: pattern@,
            },
            Filter::And { fields } => FilterModel::And { fields: Filter::models(fields@) },
            Filter::Or { fields } => FilterModel::Or { fields: Filter::models(fields@) },
            Filter::Not { field } => FilterModel::Not { field: Box::new(field.model()) },
            Filter::Javascript { dimension, function } => FilterModel::Javascript {
                dimension: dimension@,
                function: function@,
            },
            Filter::Search { dimension, query } => FilterModel::Search {
                dimension: dimension@,
                query: query.model(),
            },
            Filter::In { dimension, values } => FilterModel::In {
                dimension: dimension@,
                values: text_views(values@),
            },
            Filter::Like { dimension, pattern, escape, extraction_fn } => FilterModel::Like {
                dimension: dimension@,
                pattern: pattern@,
                escape: optional_text_view(escape),
                extraction_fn: ExtractFN::optional_model(extraction_fn),
            },
            Filter::Bound {
                dimension,
                lower,
                upper,
                lower_strict,
                upper_strict,
                ordering,
                extraction_fn,
            } => FilterModel::Bound {
                dimension: dimension@,
                lower: lower@,
                upper: upper@,
                lower_strict,
                upper_strict,
                ordering,
                extraction_fn: ExtractFN::optional_model(extraction_fn),
            },
            Filter::Interval { dimension, intervals, extraction_fn } => FilterModel::Interval {
                dimension: dimension@,
                intervals: text_views(intervals@),
                extraction_fn: ExtractFN::optional_model(extraction_fn),
            },
            Filter::True => FilterModel::True,
        }
    }

    /// The models of a sequence of values.
    pub open spec fn models(items: Seq<Filter>) -> Seq<FilterModel>
        decreases items,
    {
        Seq::new(
            items.len(),
            |i: int|
                if 0 <= i < items.len() {
                    items[i].model()
                } else {
                    arbitrary()
                },
        )
    }

    /// The model of a value that may be absent.
    pub open spec fn optional_model(item: Option<Filter>) -> Option<FilterModel> {
        match item {
            Some(v) => Some(v.model()),
            None => None,
        }
    }
}

impl View for Filter {
    type V = FilterModel;

    open spec fn view(&self) -> FilterModel {
        self.model()
    }
}

impl FilterModel {
    /// The wire form of this value.
    pub open spec fn wire(self) -> JsonModel
        decreases self,
    {
        match self {
            FilterModel::Selector { dimension, value, extract_fn } => {
                JsonModel::Object(
                    Seq::empty()
                        .push(("type"@, JsonModel::Str("selector"@)))
                        .push(("dimension"@, JsonModel::Str(dimension)))
                        .push(("value"@, JsonModel::Str(value)))
                        .push(("extractFn"@, ExtractFNModel::wire_optional(extract_fn))),
                )
            },
            FilterModel::ColumnComparison { dimensions } => {
                JsonModel::Object(
                    Seq::empty()
                        .push(("type"@, JsonModel::Str("columnComparison"@)))
                        .push(("dimensions"@, JsonModel::texts(dimensions))),
                )
            },
            FilterModel::Regex { dimension, pattern } => {
                JsonModel::Object(
                    Seq::empty()
                        .push(("type"@, JsonModel::Str("regex"@)))
                        .push(("dimension"@, JsonModel::Str(dimension)))
                        .push(("pattern"@, JsonModel::Str(pattern))),
                )
            },
            FilterModel::And { fields } => {
                JsonModel::Object(
                    Seq::empty()
                        .push(("type"@, JsonModel::Str("and"@)))
                        .push(("fields"@, JsonModel::Array(FilterModel::wire_all(fields)))),
                )
            },
            FilterModel::Or { fields } => {
                JsonModel::Object(
                    Seq::empty()
                        .push(("type"@, JsonModel::Str("or"@)))
                        .push(("fields"@, JsonModel::Array(FilterModel::wire_all(fields)))),
                )
            },
            FilterModel::Not { field } => {
                JsonModel::Object(
                    Seq::empty()
                        .push(("type"@, JsonModel::Str("not"@)))
                        .push(("field"@, field.wire())),
                )
            },
            FilterModel::Javascript { dimension, function } => {
                JsonModel::Object(
                    Seq::empty()
                        .push(("type"@, JsonModel::Str("javascript"@)))
                        .push(("dimension"@, JsonModel::Str(dimension)))
                        .push(("function"@, JsonModel::Str(function))),
                )
            },
            FilterModel::Search { dimension, query } => {
                JsonModel::Object(
                    Seq::empty()
                        .push(("type"@, JsonModel::Str("search"@)))
                        .push(("dimension"@, JsonModel::Str(dimension)))
                        .push(("query"@, query.wire())),
                )
            },
            FilterModel::In { dimension, values } => {
                JsonModel::Object(
                    Seq::empty()
                        .push(("type"@, JsonModel::Str("in"@)))
                        .push(("dimension"@, JsonModel::Str(dimension)))
                        .push(("values"@, JsonModel::texts(values))),
                )
            },
            FilterModel::Like { dimension, pattern, escape, extraction_fn } => {
                JsonModel::Object(
                    Seq::empty()
                        .push(("type"@, JsonModel::Str("like"@)))
                        .push(("dimension"@, JsonModel::Str(dimension)))
                        .push(("pattern"@, JsonModel::Str(pattern)))
                        .push(("escape"@, JsonModel::optional_text(escape)))
                        .push(("extractionFn"@, ExtractFNModel::wire_optional(extraction_fn))),
                )
            },
            FilterModel::Bound {
                dimension,
                lower,
                upper,
                lower_strict,
                upper_strict,
                ordering,
                extraction_fn,
            } => {
                JsonModel::Object(
                    Seq::empty()
                        .push(("type"@, JsonModel::Str("bound"@)))
                        .push(("dimension"@, JsonModel::Str(dimension)))
                        .push(("lower"@, JsonModel::Str(lower)))
                        .push(("upper"@, JsonModel::Str(upper)))
                        .push(("lowerStrict"@, JsonModel::Bool(lower_strict)))
                        .push(("upperStrict"@, JsonModel::Bool(upper_strict)))
                        .push(("ordering"@, ordering.wire()))
                        .push(("extractionFn"@, ExtractFNModel::wire_optional(extraction_fn))),
                )
            },
            FilterModel::Interval { dimension, intervals, extraction_fn } => {
                JsonModel::Object(
                    Seq::empty()
                        .push(("type"@, JsonModel::Str("interval"@)))
                        .push(("dimension"@, JsonModel::Str(dimension)))
                        .push(("intervals"@, JsonModel::texts(intervals)))
                        .push(("extractionFn"@, ExtractFNModel::wire_optional(extraction_fn))),
                )
            },
            FilterModel::True => {
                JsonModel::Object(
                    Seq::empty()
                        .push(("type"@, JsonModel::Str("true"@))),
                )
            },
        }
    }

    /// The wire forms of a sequence of values.
    pub open spec fn wire_all(items: Seq<FilterModel>) -> Seq<JsonModel>
        decreases items,
    {
        Seq::new(
            items.len(),
            |i: int|
                if 0 <= i < items.len() {
                    items[i].wire()
                } else {
                    JsonModel::Null
                },
        )
    }

    /// The wire form of a value that may be absent: `null` where it is.
    pub open spec fn wire_optional(item: Option<FilterModel>) -> JsonModel {
        match item {
            Some(v) => v.wire(),
            None => JsonModel::Null,
        }
    }

    /// What a JSON value reads as: `None` where it does not read as a value of
    /// this type. The members of an object are found by their names, in
    /// whatever order they stand, and members of other names are passed over.
    pub open spec fn parse(j: JsonModel) -> Option<FilterModel>
        decreases j, 1int,
    {
        match j.text_field("type"@) {
            Some(tag) => if tag == "selector"@ {
                match (
                    j.text_field("dimension"@),
                    j.text_field("value"@),
                    ExtractFNModel::parse_optional_field(j, "extractFn"@),
                ) {
                    (Some(dimension), Some(value), Some(extract_fn)) => Some(
                        FilterModel::Selector {
                            dimension,
                            value,
                            extract_fn,
                        },
                    ),
                    _ => None,
                }
            } else if tag == "columnComparison"@ {
                match j.texts_field("dimensions"@) {
                    Some(dimensions) => Some(FilterModel::ColumnComparison { dimensions }),
                    None => None,
                }
            } else if tag == "regex"@ {
                match (
                    j.text_field("dimension"@),
                    j.text_field("pattern"@),
                ) {
                    (Some(dimension), Some(pattern)) => Some(
                        FilterModel::Regex {
                            dimension,
                            pattern,
                        },
                    ),
                    _ => None,
                }
            } else if tag == "and"@ {
                match FilterModel::parse_all_field(j, "fields"@) {
                    Some(fields) => Some(FilterModel::And { fields }),
                    None => None,
                }
            } else if tag == "or"@ {
                match FilterModel::parse_all_field(j, "fields"@) {
                    Some(fields) => Some(FilterModel::Or { fields }),
                    None => None,
                }
            } else if tag == "not"@ {
                match FilterModel::parse_field(j, "field"@) {
                    Some(field) => Some(FilterModel::Not { field: Box::new(field) }),
                    None => None,
                }
            } else if tag == "javascript"@ {
                match (
                    j.text_field("dimension"@),
                    j.text_field("function"@),
                ) {
                    (Some(dimension), Some(function)) => Some(
                        FilterModel::Javascript {
                            dimension,
                            function,
                        },
                    ),
                    _ => None,
                }
            } else if tag == "search"@ {
                match (
                    j.text_field("dimension"@),
                    FilterQuerySpecModel::parse_field(j, "query"@),
                ) {
                    (Some(dimension), Some(query)) => Some(
                        FilterModel::Search {
                            dimension,
                            query,
                        },
                    ),
                    _ => None,
                }
            } else if tag == "in"@ {
                match (
                    j.text_field("dimension"@),
                    j.texts_field("values"@),
                ) {
                    (Some(dimension), Some(values)) => Some(
                        FilterModel::In {
                            dimension,
                            values,
                        },
                    ),
                    _ => None,
                }
            } else if tag == "like"@ {
                match (
                    j.text_field("dimension"@),
                    j.text_field("pattern"@),
                    j.optional_text_field("escape"@),
                    ExtractFNModel::parse_optional_field(j, "extractionFn"@),
                ) {
                    (
                        Some(dimension),
                        Some(pattern),
                        Some(escape),
                        Some(extraction_fn),
                    ) => Some(
                        FilterModel::Like {
                            dimension,
                            pattern,
                            escape,
                            extraction_fn,
                        },
                    ),
                    _ => None,
                }
            } else if tag == "bound"@ {
                match (
                    j.text_field("dimension"@),
                    j.text_field("lower"@),
                    j.text_field("upper"@),
                    j.bool_field("lowerStrict"@),
                    j.bool_field("upperStrict"@),
                    SortingOrder::parse_field(j, "ordering"@),
                    ExtractFNModel::parse_optional_field(j, "extractionFn"@),
                ) {
                    (
                        Some(dimension),
                        Some(lower),
                        Some(upper),
                        Some(lower_strict),
                        Some(upper_strict),
                        Some(ordering),
                        Some(extraction_fn),
                    ) => Some(
                        FilterModel::Bound {
                            dimension,
                            lower,
                            upper,
                            lower_strict,
                            upper_strict,
                            ordering,
                            extraction_fn,
                        },
                    ),
                    _ => None,
                }
            } else if tag == "interval"@ {
                match (
                    j.text_field("dimension"@),
                    j.texts_field("intervals"@),
                    ExtractFNModel::parse_optional_field(j, "extractionFn"@),
                ) {
                    (Some(dimension), Some(intervals), Some(extraction_fn)) => Some(
                        FilterModel::Interval {
                            dimension,
                            intervals,
                            extraction_fn,
                        },
                    ),
                    _ => None,
                }
            } else if tag == "true"@ {
                Some(FilterModel::True)
            } else {
                None
            },
            None => None,
        }
    }

    /// What the required member `key` of `j` reads as.
    pub open spec fn parse_field(j: JsonModel, key: Seq<char>) -> Option<FilterModel>
        decreases j, 0int,
    {
        match j.field(key) {
            Some(v) => {
                proof {
                    j.lemma_field_decreases(key);
                }
                Self::parse(v)
            },
            None => None,
        }
    }

    /// What the member `key` of `j` reads as where it may be absent: an absent
    /// member and `null` read as no value.
    pub open spec fn parse_optional_field(
        j: JsonModel,
        key: Seq<char>,
    ) -> Option<Option<FilterModel>>
    {
        match j.optional(key) {
            Some(v) => {
                match Self::parse(v) {
                    Some(x) => Some(Some(x)),
                    None => None,
                }
            },
            None => Some(None),
        }
    }

    /// What the items of an array read as: `None` where one of them does not
    /// read.
    pub open spec fn parse_all(items: Seq<JsonModel>) -> Option<Seq<FilterModel>>
        decreases items, 0int,
    {
        if forall|i: int| 0 <= i < items.len() ==> Self::parse(#[trigger] items[i]) is Some {
            Some(
                Seq::new(
                    items.len(),
                    |i: int|
                        if 0 <= i < items.len() {
                            Self::parse(items[i])->Some_0
                        } else {
                            arbitrary()
                        },
                ),
            )
        } else {
            None
        }
    }

    /// What the required member `key` of `j` reads as where it is an array of
    /// values.
    pub open spec fn parse_all_field(j: JsonModel, key: Seq<char>) -> Option<Seq<FilterModel>>
        decreases j, 0int,
    {
        match j.field(key) {
            Some(JsonModel::Array(items)) => {
                proof {
                    j.lemma_field_decreases(key);
                    let member = j.field(key)->Some_0;
                    assert(decreases_to!(member => member->Array_0));
                }
                Self::parse_all(items)
            },
            _ => None,
        }
    }

    /// The lengths and the letters that tell the names of this wire form apart.
    pub proof fn lemma_names()
        ensures
            "in"@.len() == 2,
            "or"@.len() == 2,
            "and"@.len() == 3,
            "not"@.len() == 3,
            "like"@.len() == 4,
            "true"@.len() == 4,
            "type"@.len() == 4,
            "bound"@.len() == 5,
            "field"@.len() == 5,
            "lower"@.len() == 5,
            "query"@.len() == 5,
            "regex"@.len() == 5,
            "upper"@.len() == 5,
            "value"@.len() == 5,
            "escape"@.len() == 6,
            "fields"@.len() == 6,
            "search"@.len() == 6,
            "values"@.len() == 6,
            "pattern"@.len() == 7,
            "function"@.len() == 8,
            "interval"@.len() == 8,
            "ordering"@.len() == 8,
            "selector"@.len() == 8,
            "dimension"@.len() == 9,
            "extractFn"@.len() == 9,
            "intervals"@.len() == 9,
            "dimensions"@.len() == 10,
            "javascript"@.len() == 10,
            "lowerStrict"@.len() == 11,
            "upperStrict"@.len() == 11,
            "extractionFn"@.len() == 12,
            "columnComparison"@.len() == 16,
            "in"@[0] == 'i',
            "or"@[0] == 'o',
            "and"@[0] == 'a',
            "not"@[0] == 'n',
            "like"@[1] == 'i',
            "true"@[1] == 'r',
            "type"@[1] == 'y',
            "bound"@[0] == 'b',
            "field"@[0] == 'f',
            "lower"@[0] == 'l',
            "query"@[0] == 'q',
            "regex"@[0] == 'r',
            "upper"@[0] == 'u',
            "value"@[0] == 'v',
            "escape"@[0] == 'e',
            "fields"@[0] == 'f',
            "search"@[0] == 's',
            "values"@[0] == 'v',
            "function"@[0] == 'f',
            "interval"@[0] == 'i',
            "ordering"@[0] == 'o',
            "selector"@[0] == 's',
            "dimension"@[0] == 'd',
            "extractFn"@[0] == 'e',
            "intervals"@[0] == 'i',
            "dimensions"@[0] == 'd',
            "javascript"@[0] == 'j',
            "lowerStrict"@[0] == 'l',
            "upperStrict"@[0] == 'u',
    {
        reveal_strlit("in");
        reveal_strlit("or");
        reveal_strlit("and");
        reveal_strlit("not");
        reveal_strlit("like");
        reveal_strlit("true");
        reveal_strlit("type");
        reveal_strlit("bound");
        reveal_strlit("field");
        reveal_strlit("lower");
        reveal_strlit("query");
        reveal_strlit("regex");
        reveal_strlit("upper");
        reveal_strlit("value");
        reveal_strlit("escape");
        reveal_strlit("fields");
        reveal_strlit("search");
        reveal_strlit("values");
        reveal_strlit("pattern");
        reveal_strlit("function");
        reveal_strlit("interval");
        reveal_strlit("ordering");
        reveal_strlit("selector");
        reveal_strlit("dimension");
        reveal_strlit("extractFn");
        reveal_strlit("intervals");
        reveal_strlit("dimensions");
        reveal_strlit("javascript");
        reveal_strlit("lowerStrict");
        reveal_strlit("upperStrict");
        reveal_strlit("extractionFn");
        reveal_strlit("columnComparison");
    }

    /// Decoding the wire form of a `Selector` gives it back.
    proof fn lemma_round_trip_selector(self)
        requires
            self is Selector,
        ensures
            Self::parse(self.wire()) == Some(self),
        decreases self, 0int,
    {
        Self::lemma_names();
        reveal_with_fuel(JsonModel::find, 10);
        match self {
            FilterModel::Selector { dimension, value, extract_fn } => {
                ExtractFNModel::lemma_round_trip_optional(extract_fn);
            },
            _ => {},
        }
    }

    /// Decoding the wire form of a `ColumnComparison` gives it back.
    proof fn lemma_round_trip_column_comparison(self)
        requires
            self is ColumnComparison,
        ensures
            Self::parse(self.wire()) == Some(self),
        decreases self, 0int,
    {
        Self::lemma_names();
        reveal_with_fuel(JsonModel::find, 10);
        match self {
            FilterModel::ColumnComparison { dimensions } => {
                JsonModel::lemma_texts(dimensions);
            },
            _ => {},
        }
    }

    /// Decoding the wire form of a `Regex` gives it back.
    proof fn lemma_round_trip_regex(self)
        requires
            self is Regex,
        ensures
            Self::parse(self.wire()) == Some(self),
        decreases self, 0int,
    {
        Self::lemma_names();
        reveal_with_fuel(JsonModel::find, 10);
        match self {
            FilterModel::Regex { dimension, pattern } => {
            },
            _ => {},
        }
    }

    /// Decoding the wire form of a `And` gives it back.
    proof fn lemma_round_trip_and(self)
        requires
            self is And,
        ensures
            Self::parse(self.wire()) == Some(self),
        decreases self, 0int,
    {
        Self::lemma_names();
        reveal_with_fuel(JsonModel::find, 10);
        match self {
            FilterModel::And { fields } => {
                FilterModel::lemma_round_trip_all(fields);
            },
            _ => {},
        }
    }

    /// Decoding the wire form of a `Or` gives it back.
    proof fn lemma_round_trip_or(self)
        requires
            self is Or,
        ensures
            Self::parse(self.wire()) == Some(self),
        decreases self, 0int,
    {
        Self::lemma_names();
        reveal_with_fuel(JsonModel::find, 10);
        match self {
            FilterModel::Or { fields } => {
                FilterModel::lemma_round_trip_all(fields);
            },
            _ => {},
        }
    }

    /// Decoding the wire form of a `Not` gives it back.
    proof fn lemma_round_trip_not(self)
        requires
            self is Not,
        ensures
            Self::parse(self.wire()) == Some(self),
        decreases self, 0int,
    {
        Self::lemma_names();
        reveal_with_fuel(JsonModel::find, 10);
        match self {
            FilterModel::Not { field } => {
                field.lemma_round_trip();
            },
            _ => {},
        }
    }

    /// Decoding the wire form of a `Javascript` gives it back.
    proof fn lemma_round_trip_javascript(self)
        requires
            self is Javascript,
        ensures
            Self::parse(self.wire()) == Some(self),
        decreases self, 0int,
    {
        Self::lemma_names();
        reveal_with_fuel(JsonModel::find, 10);
        match self {
            FilterModel::Javascript { dimension, function } => {
            },
            _ => {},
        }
    }

    /// Decoding the wire form of a `Search` gives it back.
    proof fn lemma_round_trip_search(self)
        requires
            self is Search,
        ensures
            Self::parse(self.wire()) == Some(self),
        decreases self, 0int,
    {
        Self::lemma_names();
        reveal_with_fuel(JsonModel::find, 10);
        match self {
            FilterModel::Search { dimension, query } => {
                query.lemma_round_trip();
            },
            _ => {},
        }
    }

    /// Decoding the wire form of a `In` gives it back.
    proof fn lemma_round_trip_in(self)
        requires
            self is In,
        ensures
            Self::parse(self.wire()) == Some(self),
        decreases self, 0int,
    {
        Self::lemma_names();
        reveal_with_fuel(JsonModel::find, 10);
        match self {
            FilterModel::In { dimension, values } => {
                JsonModel::lemma_texts(values);
            },
            _ => {},
        }
    }

    /// Decoding the wire form of a `Like` gives it back.
    proof fn lemma_round_trip_like(self)
        requires
            self is Like,
        ensures
            Self::parse(self.wire()) == Some(self),
        decreases self, 0int,
    {
        Self::lemma_names();
        reveal_with_fuel(JsonModel::find, 10);
        match self {
            FilterModel::Like { dimension, pattern, escape, extraction_fn } => {
                ExtractFNModel::lemma_round_trip_optional(extraction_fn);
            },
            _ => {},
        }
    }

    /// Decoding the wire form of a `Bound` gives it back.
    proof fn lemma_round_trip_bound(self)
        requires
            self is Bound,
        ensures
            Self::parse(self.wire()) == Some(self),
        decreases self, 0int,
    {
        Self::lemma_names();
        reveal_with_fuel(JsonModel::find, 10);
        match self {
            FilterModel::Bound {
                dimension,
                lower,
                upper,
                lower_strict,
                upper_strict,
                ordering,
                extraction_fn,
            } => {
                ordering.lemma_round_trip();
                ExtractFNModel::lemma_round_trip_optional(extraction_fn);
            },
            _ => {},
        }
    }

    /// Decoding the wire form of a `Interval` gives it back.
    proof fn lemma_round_trip_interval(self)
        requires
            self is Interval,
        ensures
            Self::parse(self.wire()) == Some(self),
        decreases self, 0int,
    {
        Self::lemma_names();
        reveal_with_fuel(JsonModel::find, 10);
        match self {
            FilterModel::Interval { dimension, intervals, extraction_fn } => {
                JsonModel::lemma_texts(intervals);
                ExtractFNModel::lemma_round_trip_optional(extraction_fn);
            },
            _ => {},
        }
    }

    /// Decoding the wire form of a `True` gives it back.
    proof fn lemma_round_trip_true(self)
        requires
            self is True,
        ensures
            Self::parse(self.wire()) == Some(self),
        decreases self, 0int,
    {
        Self::lemma_names();
        reveal_with_fuel(JsonModel::find, 10);
        match self {
            FilterModel::True => {
            },
            _ => {},
        }
    }

    /// Decoding the wire form of a value gives the value back.
    pub proof fn lemma_round_trip(self)
        ensures
            Self::parse(self.wire()) == Some(self),
        decreases self, 1int,
    {
        match self {
            FilterModel::Selector { .. } => self.lemma_round_trip_selector(),
            FilterModel::ColumnComparison { .. } => self.lemma_round_trip_column_comparison(),
            FilterModel::Regex { .. } => self.lemma_round_trip_regex(),
            FilterModel::And { .. } => self.lemma_round_trip_and(),
            FilterModel::Or { .. } => self.lemma_round_trip_or(),
            FilterModel::Not { .. } => self.lemma_round_trip_not(),
            FilterModel::Javascript { .. } => self.lemma_round_trip_javascript(),
            FilterModel::Search { .. } => self.lemma_round_trip_search(),
            FilterModel::In { .. } => self.lemma_round_trip_in(),
            FilterModel::Like { .. } => self.lemma_round_trip_like(),
            FilterModel::Bound { .. } => self.lemma_round_trip_bound(),
            FilterModel::Interval { .. } => self.lemma_round_trip_interval(),
            FilterModel::True => self.lemma_round_trip_true(),
        }
    }

    /// Decoding the wire forms of a sequence of values gives the sequence back.
    pub proof fn lemma_round_trip_all(items: Seq<FilterModel>)
        ensures
            Self::parse_all(Self::wire_all(items)) == Some(items),
        decreases items, 2int,
    {
        assert forall|i: int| 0 <= i < items.len() implies Self::parse(
            #[trigger] Self::wire_all(items)[i],
        ) == Some(items[i]) by {
            items[i].lemma_round_trip();
        }
        assert(Self::parse_all(Self::wire_all(items))->Some_0 =~= items);
    }

    /// The wire form of a value that is there is not `null`, and decoding it
    /// gives the value back.
    pub proof fn lemma_round_trip_optional(item: Option<FilterModel>)
        ensures
            match item {
                Some(v) => Self::wire_optional(item) == v.wire() && !(v.wire() is Null)
                    && Self::parse(v.wire()) == Some(v),
                None => Self::wire_optional(item) is Null,
            },
    {
        if let Some(v) = item {
            v.lemma_round_trip();
        }
    }
}

impl Filter {
    /// The rows in which `dimension` has the value `value`.
    pub fn selector(dimension: &str, value: &str) -> (f: Filter)
        ensures
            f@ == (FilterModel::Selector {
                dimension: dimension@,
                value: value@,
                extract_fn: None,
            }),
    {
        Filter::Selector {
            dimension: dimension.to_owned(),
            value: value.to_owned(),
            extract_fn: None,
        }
    }

    /// The rows in which the columns `dimensions` hold the same value.
    pub fn column_comparison(dimensions: Vec<&str>) -> (f: Filter)
        ensures
            f@ == (FilterModel::ColumnComparison { dimensions: slice_views(dimensions@) }),
    {
        Filter::ColumnComparison { dimensions: owned_texts(&dimensions) }
    }

    /// The rows in which the value of `dimension` matches `pattern`.
    pub fn regex(dimension: &str, pattern: &str) -> (f: Filter)
        ensures
            f@ == (FilterModel::Regex { dimension: dimension@, pattern: pattern@ }),
    {
        Filter::Regex { dimension: dimension.to_owned(), pattern: pattern.to_owned() }
    }

    /// The rows for whose value of `dimension` the function `javascript` holds.
    pub fn javascript(dimension: &str, javascript: &str) -> (f: Filter)
        ensures
            f@ == (FilterModel::Javascript { dimension: dimension@, function: javascript@ }),
    {
        Filter::Javascript { dimension: dimension.to_owned(), function: javascript.to_owned() }
    }

    /// The rows in which `dimension` has one of `values`.
    pub fn in_values(dimension: &str, values: Vec<&str>) -> (f: Filter)
        ensures
            f@ == (FilterModel::In { dimension: dimension@, values: slice_views(values@) }),
    {
        Filter::In { dimension: dimension.to_owned(), values: owned_texts(&values) }
    }

    /// The rows in which the value of `dimension` is like `pattern`.
    pub fn like(dimension: &str, pattern: &str) -> (f: Filter)
        ensures
            f@ == (FilterModel::Like {
                dimension: dimension@,
                pattern: pattern@,
                escape: None,
                extraction_fn: None,
            }),
    {
        Filter::Like {
            dimension: dimension.to_owned(),
            pattern: pattern.to_owned(),
            escape: None,
            extraction_fn: None,
        }
    }

    /// The wire form of this value.
    pub fn to_json(&self) -> (j: Json)
        ensures
            j@ == self@.wire(),
        decreases self,
    {
        let mut w = ObjectWriter::new();
        match self {
            Filter::Selector { dimension, value, extract_fn } => {
                w.put("type", Json::text("selector"));
                w.put("dimension", Json::text(dimension.as_str()));
                w.put("value", Json::text(value.as_str()));
                w.put("extractFn", ExtractFN::optional_to_json(extract_fn));
            },
            Filter::ColumnComparison { dimensions } => {
                w.put("type", Json::text("columnComparison"));
                w.put("dimensions", Json::texts(dimensions));
            },
            Filter::Regex { dimension, pattern } => {
                w.put("type", Json::text("regex"));
                w.put("dimension", Json::text(dimension.as_str()));
                w.put("pattern", Json::text(pattern.as_str()));
            },
            Filter::And { fields } => {
                w.put("type", Json::text("and"));
                w.put("fields", Filter::all_to_json(fields));
            },
            Filter::Or { fields } => {
                w.put("type", Json::text("or"));
                w.put("fields", Filter::all_to_json(fields));
            },
            Filter::Not { field } => {
                w.put("type", Json::text("not"));
                w.put("field", field.to_json());
            },
            Filter::Javascript { dimension, function } => {
                w.put("type", Json::text("javascript"));
                w.put("dimension", Json::text(dimension.as_str()));
                w.put("function", Json::text(function.as_str()));
            },
            Filter::Search { dimension, query } => {
                w.put("type", Json::text("search"));
                w.put("dimension", Json::text(dimension.as_str()));
                w.put("query", query.to_json());
            },
            Filter::In { dimension, values } => {
                w.put("type", Json::text("in"));
                w.put("dimension", Json::text(dimension.as_str()));
                w.put("values", Json::texts(values));
            },
            Filter::Like { dimension, pattern, escape, extraction_fn } => {
                w.put("type", Json::text("like"));
                w.put("dimension", Json::text(dimension.as_str()));
                w.put("pattern", Json::text(pattern.as_str()));
                w.put("escape", Json::optional_text(escape));
                w.put("extractionFn", ExtractFN::optional_to_json(extraction_fn));
            },
            Filter::Bound {
                dimension,
                lower,
                upper,
                lower_strict,
                upper_strict,
                ordering,
                extraction_fn,
            } => {
                w.put("type", Json::text("bound"));
                w.put("dimension", Json::text(dimension.as_str()));
                w.put("lower", Json::text(lower.as_str()));
                w.put("upper", Json::text(upper.as_str()));
                w.put("lowerStrict", Json::Bool(*lower_strict));
                w.put("upperStrict", Json::Bool(*upper_strict));
                w.put("ordering", ordering.to_json());
                w.put("extractionFn", ExtractFN::optional_to_json(extraction_fn));
            },
            Filter::Interval { dimension, intervals, extraction_fn } => {
                w.put("type", Json::text("interval"));
                w.put("dimension", Json::text(dimension.as_str()));
                w.put("intervals", Json::texts(intervals));
                w.put("extractionFn", ExtractFN::optional_to_json(extraction_fn));
            },
            Filter::True => {
                w.put("type", Json::text("true"));
            },
        }
        w.finish()
    }

    /// The wire form of a sequence of values: the array of their wire forms.
    pub fn all_to_json(items: &Vec<Filter>) -> (j: Json)
        ensures
            j@ == JsonModel::Array(FilterModel::wire_all(Filter::models(items@))),
        decreases items,
    {
        let mut out: Vec<Json> = Vec::new();
        let mut i: usize = 0;
        while i < items.len()
            invariant
                i <= items.len(),
                out@.len() == i,
                forall|k: int| 0 <= k < i ==> (#[trigger] out@[k])@ == items@[k]@.wire(),
            decreases items.len() - i,
        {
            out.push(items[i].to_json());
            i += 1;
        }
        proof {
            assert(Json::models(out@) =~= FilterModel::wire_all(Filter::models(items@)));
        }
        Json::Array(out)
    }

    /// The wire form of a value that may be absent: `null` where it is.
    pub fn optional_to_json(item: &Option<Filter>) -> (j: Json)
        ensures
            j@ == FilterModel::wire_optional(Filter::optional_model(*item)),
    {
        match item {
            Some(v) => v.to_json(),
            None => Json::Null,
        }
    }

    /// Reads a value from JSON: `None` where `j` does not read as a value of
    /// this type.
    pub fn from_json(j: &Json) -> (r: Option<Filter>)
        ensures
            match r {
                Some(v) => FilterModel::parse(j@) == Some(v@),
                None => FilterModel::parse(j@) is None,
            },
        decreases j@, 1int,
    {
        let tag = j.text_field("type")?;
        if same_text(tag.as_str(), "selector") {
            let dimension = j.text_field("dimension")?;
            let value = j.text_field("value")?;
            let extract_fn = ExtractFN::optional_field_from_json(j, "extractFn")?;
            Some(Filter::Selector { dimension, value, extract_fn })
        } else if same_text(tag.as_str(), "columnComparison") {
            let dimensions = j.texts_field("dimensions")?;
            Some(Filter::ColumnComparison { dimensions })
        } else if same_text(tag.as_str(), "regex") {
            let dimension = j.text_field("dimension")?;
            let pattern = j.text_field("pattern")?;
            Some(Filter::Regex { dimension, pattern })
        } else if same_text(tag.as_str(), "and") {
            let fields = Filter::all_field_from_json(j, "fields")?;
            Some(Filter::And { fields })
        } else if same_text(tag.as_str(), "or") {
            let fields = Filter::all_field_from_json(j, "fields")?;
            Some(Filter::Or { fields })
        } else if same_text(tag.as_str(), "not") {
            let field = Filter::field_from_json(j, "field")?;
            Some(Filter::Not { field: Box::new(field) })
        } else if same_text(tag.as_str(), "javascript") {
            let dimension = j.text_field("dimension")?;
            let function = j.text_field("function")?;
            Some(Filter::Javascript { dimension, function })
        } else if same_text(tag.as_str(), "search") {
            let dimension = j.text_field("dimension")?;
            let query = FilterQuerySpec::field_from_json(j, "query")?;
            Some(Filter::Search { dimension, query })
        } else if same_text(tag.as_str(), "in") {
            let dimension = j.text_field("dimension")?;
            let values = j.texts_field("values")?;
            Some(Filter::In { dimension, values })
        } else if same_text(tag.as_str(), "like") {
            let dimension = j.text_field("dimension")?;
            let pattern = j.text_field("pattern")?;
            let escape = j.optional_text_field("escape")?;
            let extraction_fn = ExtractFN::optional_field_from_json(j, "extractionFn")?;
            Some(Filter::Like { dimension, pattern, escape, extraction_fn })
        } else if same_text(tag.as_str(), "bound") {
            let dimension = j.text_field("dimension")?;
            let lower = j.text_field("lower")?;
            let upper = j.text_field("upper")?;
            let lower_strict = j.bool_field("lowerStrict")?;
            let upper_strict = j.bool_field("upperStrict")?;
            let ordering = SortingOrder::field_from_json(j, "ordering")?;
            let extraction_fn = ExtractFN::optional_field_from_json(j, "extractionFn")?;
            Some(Filter::Bound {
                dimension,
                lower,
                upper,
                lower_strict,
                upper_strict,
                ordering,
                extraction_fn,
            })
        } else if same_text(tag.as_str(), "interval") {
            let dimension = j.text_field("dimension")?;
            let intervals = j.texts_field("intervals")?;
            let extraction_fn = ExtractFN::optional_field_from_json(j, "extractionFn")?;
            Some(Filter::Interval { dimension, intervals, extraction_fn })
        } else if same_text(tag.as_str(), "true") {
            Some(Filter::True)
        } else {
            None
        }
    }

    /// Reads the required member `key` of `j`.
    pub fn field_from_json(j: &Json, key: &str) -> (r: Option<Filter>)
        ensures
            match r {
                Some(v) => FilterModel::parse_field(j@, key@) == Some(v@),
                None => FilterModel::parse_field(j@, key@) is None,
            },
        decreases j@, 0int,
    {
        match j.get(key) {
            Some(v) => {
                proof {
                    j@.lemma_field_decreases(key@);
                }
                Self::from_json(v)
            },
            None => None,
        }
    }

    /// Reads the member `key` of `j` where it may be absent: an absent member
    /// and `null` read as no value.
    pub fn optional_field_from_json(j: &Json, key: &str) -> (r: Option<Option<Filter>>)
        ensures
            match r {
                Some(v) => FilterModel::parse_optional_field(j@, key@)
                    == Some(Filter::optional_model(v)),
                None => FilterModel::parse_optional_field(j@, key@) is None,
            },
    {
        match j.get_optional(key) {
            Some(v) => {
                match Self::from_json(v) {
                    Some(x) => Some(Some(x)),
                    None => None,
                }
            },
            None => Some(None),
        }
    }

    /// Reads the items of an array: `None` where one of them does not read.
    pub fn all_from_json(items: &Vec<Json>) -> (r: Option<Vec<Filter>>)
        ensures
            match r {
                Some(v) => FilterModel::parse_all(Json::models(items@)) == Some(Filter::models(v@)),
                None => FilterModel::parse_all(Json::models(items@)) is None,
            },
        decreases Json::models(items@), 0int,
    {
        let mut out: Vec<Filter> = Vec::new();
        let mut i: usize = 0;
        while i < items.len()
            invariant
                i <= items.len(),
                out@.len() == i,
                forall|k: int|
                    0 <= k < i ==>
                        FilterModel::parse(#[trigger] Json::models(items@)[k]) == Some(out@[k]@),
            decreases items.len() - i,
        {
            proof {
                assert(decreases_to!(Json::models(items@) => Json::models(items@)[i as int]));
            }
            match Self::from_json(&items[i]) {
                Some(v) => {
                    out.push(v);
                },
                None => {
                    assert(FilterModel::parse(Json::models(items@)[i as int]) is None);
                    return None;
                },
            }
            i += 1;
        }
        proof {
            assert(FilterModel::parse_all(Json::models(items@))->Some_0 =~= Filter::models(out@));
        }
        Some(out)
    }

    /// Reads the required member `key` of `j` where it is an array of values.
    pub fn all_field_from_json(j: &Json, key: &str) -> (r: Option<Vec<Filter>>)
        ensures
            match r {
                Some(v) => FilterModel::parse_all_field(j@, key@) == Some(Filter::models(v@)),
                None => FilterModel::parse_all_field(j@, key@) is None,
            },
        decreases j@, 0int,
    {
        match j.get(key) {
            Some(Json::Array(items)) => {
                proof {
                    j@.lemma_field_decreases(key@);
                    let member = j@.field(key@)->Some_0;
                    assert(decreases_to!(member => member->Array_0));
                }
                Self::all_from_json(items)
            },
            _ => None,
        }
    }
}

/// A value that a query computes over the rows of a bucket. Each aggregation
/// names the column under which its result is handed out.
#[derive(Debug, PartialEq)]
pub enum Aggregation {
    /// The number of rows.
    Count { name: String },
    /// The sum of a column, as a 64-bit integer.
    LongSum { name: String, field_name: String },
    /// The sum of a column, as a double.
    DoubleSum { name: String, field_name: String },
    /// The sum of a column, as a float.
    FloatSum { name: String, field_name: String },
    /// The greatest value of a column, as a 64-bit integer.
    LongMax { name: String, field_name: String },
    /// The greatest value of a column, as a double.
    DoubleMax { name: String, field_name: String },
    /// The greatest value of a column, as a float.
    FloatMax { name: String, field_name: String },
    /// The least value of a column, as a 64-bit integer.
    LongMin { name: String, field_name: String },
    /// The least value of a column, as a float.
    FloatMin { name: String, field_name: String },
    /// The least value of a column, as a double.
    DoubleMin { name: String, field_name: String },
    /// The earliest value of a column, as a 64-bit integer.
    LongFirst { name: String, field_name: String },
    /// The earliest value of a column, as a float.
    FloatFirst { name: String, field_name: String },
    /// The earliest value of a column, as a double.
    DoubleFirst { name: String, field_name: String },
    /// The latest value of a column, as a 64-bit integer.
    LongLast { name: String, field_name: String },
    /// The latest value of a column, as a float.
    FloatLast { name: String, field_name: String },
    /// The latest value of a column, as a double.
    DoubleLast { name: String, field_name: String },
    /// The earliest value of a column, as a string of at most
    /// `max_string_bytes` bytes.
    StringFirst { name: String, field_name: String, max_string_bytes: usize },
    /// The latest value of a column, as a string of at most `max_string_bytes`
    /// bytes.
    StringLast { name: String, field_name: String, max_string_bytes: usize },
    /// Any value of a column, as a double.
    DoubleAny { name: String, field_name: String },
    /// Any value of a column, as a float.
    FloatAny { name: String, field_name: String },
    /// Any value of a column, as a 64-bit integer.
    LongAny { name: String, field_name: String },
    /// Any value of a column, as a string.
    StringAny { name: String, field_name: String },
    /// What three functions make of the rows.
    Javascript {
        name: String,
        field_names: Vec<String>,
        fn_aggregate: String,
        fn_combine: String,
        fn_reset: String,
    },
    /// A theta sketch of a column.
    ThetaSketch { name: String, field_name: String, is_input_theta_sketch: bool, size: usize },
    /// An HLL sketch of a column.
    HLLSketchBuild {
        name: String,
        field_name: String,
        lg_k: usize,
        lgt_hll_type: HllType,
        round: bool,
    },
    /// The number of distinct values of the columns.
    Cardinality { name: String, fields: Vec<String>, by_row: bool, round: bool },
    /// The number of distinct values of a column, from a hyper-unique column.
    HyperUnique { name: String, field_name: String, is_input_hyper_unique: bool, round: bool },
    /// An aggregation over the rows that a filter lets through.
    Filtered { filter: Filter, aggregator: Box<Aggregation> },
}

/// The mathematical model of a [`Aggregation`].
#[verifier::ext_equal]
pub enum AggregationModel {
    Count { name: Seq<char> },
    LongSum { name: Seq<char>, field_name: Seq<char> },
    DoubleSum { name: Seq<char>, field_name: Seq<char> },
    FloatSum { name: Seq<char>, field_name: Seq<char> },
    LongMax { name: Seq<char>, field_name: Seq<char> },
    DoubleMax { name: Seq<char>, field_name: Seq<char> },
    FloatMax { name: Seq<char>, field_name: Seq<char> },
    LongMin { name: Seq<char>, field_name: Seq<char> },
    FloatMin { name: Seq<char>, field_name: Seq<char> },
    DoubleMin { name: Seq<char>, field_name: Seq<char> },
    LongFirst { name: Seq<char>, field_name: Seq<char> },
    FloatFirst { name: Seq<char>, field_name: Seq<char> },
    DoubleFirst { name: Seq<char>, field_name: Seq<char> },
    LongLast { name: Seq<char>, field_name: Seq<char> },
    FloatLast { name: Seq<char>, field_name: Seq<char> },
    DoubleLast { name: Seq<char>, field_name: Seq<char> },
    StringFirst { name: Seq<char>, field_name: Seq<char>, max_string_bytes: usize },
    StringLast { name: Seq<char>, field_name: Seq<char>, max_string_bytes: usize },
    DoubleAny { name: Seq<char>, field_name: Seq<char> },
    FloatAny { name: Seq<char>, field_name: Seq<char> },
    LongAny { name: Seq<char>, field_name: Seq<char> },
    StringAny { name: Seq<char>, field_name: Seq<char> },
    Javascript {
        name: Seq<char>,
        field_names: Seq<Seq<char>>,
        fn_aggregate: Seq<char>,
        fn_combine: Seq<char>,
        fn_reset: Seq<char>,
    },
    ThetaSketch {
        name: Seq<char>,
        field_name: Seq<char>,
        is_input_theta_sketch: bool,
        size: usize,
    },
    HLLSketchBuild {
        name: Seq<char>,
        field_name: Seq<char>,
        lg_k: usize,
        lgt_hll_type: HllType,
        round: bool,
    },
    Cardinality { name: Seq<char>, fields: Seq<Seq<char>>, by_row: bool, round: bool },
    HyperUnique {
        name: Seq<char>,
        field_name: Seq<char>,
        is_input_hyper_unique: bool,
        round: bool,
    },
    Filtered { filter: FilterModel, aggregator: Box<AggregationModel> },
}

impl Aggregation {
    /// The mathematical model of this value.
    pub open spec fn model(self) -> AggregationModel
        decreases self,
    {
        match self {
            Aggregation::Count { name } => AggregationModel::Count { name: name@ },
            Aggregation::LongSum { name, field_name } => AggregationModel::LongSum {
                name: name@,
                field_name: field_name@,
            },
            Aggregation::DoubleSum { name, field_name } => AggregationModel::DoubleSum {
                name: name@,
                field_name: field_name@,
            },
            Aggregation::FloatSum { name, field_name } => AggregationModel::FloatSum {
                name: name@,
                field_name: field_name@,
            },
            Aggregation::LongMax { name, field_name } => AggregationModel::LongMax {
                name: name@,
                field_name: field_name@,
            },
            Aggregation::DoubleMax { name, field_name } => AggregationModel::DoubleMax {
                name: name@,
                field_name: field_name@,
            },
            Aggregation::FloatMax { name, field_name } => AggregationModel::FloatMax {
                name: name@,
                field_name: field_name@,
            },
            Aggregation::LongMin { name, field_name } => AggregationModel::LongMin {
                name: name@,
                field_name: field_name@,
            },
            Aggregation::FloatMin { name, field_name } => AggregationModel::FloatMin {
                name: name@,
                field_name: field_name@,
            },
            Aggregation::DoubleMin { name, field_name } => AggregationModel::DoubleMin {
                name: name@,
                field_name: field_name@,
            },
            Aggregation::LongFirst { name, field_name } => AggregationModel::LongFirst {
                name: name@,
                field_name: field_name@,
            },
            Aggregation::FloatFirst { name, field_name } => AggregationModel::FloatFirst {
                name: name@,
                field_name: field_name@,
            },
            Aggregation::DoubleFirst { name, field_name } => AggregationModel::DoubleFirst {
                name: name@,
                field_name: field_name@,
            },
            Aggregation::LongLast { name, field_name } => AggregationModel::LongLast {
                name: name@,
                field_name: field_name@,
            },
            Aggregation::FloatLast { name, field_name } => AggregationModel::FloatLast {
                name: name@,
                field_name: field_name@,
            },
            Aggregation::DoubleLast { name, field_name } => AggregationModel::DoubleLast {
                name: name@,
                field_name: field_name@,
            },
            Aggregation::StringFirst {
                name,
                field_name,
                max_string_bytes,
            } => AggregationModel::StringFirst {
                name: name@,
                field_name: field_name@,
                max_string_bytes,
            },
            Aggregation::StringLast {
                name,
                field_name,
                max_string_bytes,
            } => AggregationModel::StringLast {
                name: name@,
                field_name: field_name@,
                max_string_bytes,
            },
            Aggregation::DoubleAny { name, field_name } => AggregationModel::DoubleAny {
                name: name@,
                field_name: field_name@,
            },
            Aggregation::FloatAny { name, field_name } => AggregationModel::FloatAny {
                name: name@,
                field_name: field_name@,
            },
            Aggregation::LongAny { name, field_name } => AggregationModel::LongAny {
                name: name@,
                field_name: field_name@,
            },
            Aggregation::StringAny { name, field_name } => AggregationModel::StringAny {
                name: name@,
                field_name: field_name@,
            },
            Aggregation::Javascript {
                name,
                field_names,
                fn_aggregate,
                fn_combine,
                fn_reset,
            } => AggregationModel::Javascript {
                name: name@,
                field_names: text_views(field_names@),
                fn_aggregate: fn_aggregate@,
                fn_combine: fn_combine@,
                fn_reset: fn_reset@,
            },
            Aggregation::ThetaSketch {
                name,
                field_name,
                is_input_theta_sketch,
                size,
            } => AggregationModel::ThetaSketch {
                name: name@,
                field_name: field_name@,
                is_input_theta_sketch,
                size,
            },
            Aggregation::HLLSketchBuild {
                name,
                field_name,
                lg_k,
                lgt_hll_type,
                round,
            } => AggregationModel::HLLSketchBuild {
                name: name@,
                field_name: field_name@,
                lg_k,
                lgt_hll_type,
                round,
            },
            Aggregation::Cardinality {
                name,
                fields,
                by_row,
                round,
            } => AggregationModel::Cardinality {
                name: name@,
                fields: text_views(fields@),
                by_row,
                round,
            },
            Aggregation::HyperUnique {
                name,
                field_name,
                is_input_hyper_unique,
                round,
            } => AggregationModel::HyperUnique {
                name: name@,
                field_name: field_name@,
                is_input_hyper_unique,
                round,
            },
            Aggregation::Filtered { filter, aggregator } => AggregationModel::Filtered {
                filter: filter.model(),
                aggregator: Box::new(aggregator.model()),
            },
        }
    }

    /// The models of a sequence of values.
    pub open spec fn models(items: Seq<Aggregation>) -> Seq<AggregationModel> {
        Seq::new(items.len(), |i: int| items[i].model())
    }
}

impl View for Aggregation {
    type V = AggregationModel;

    open spec fn view(&self) -> AggregationModel {
        self.model()
    }
}

impl AggregationModel {
    /// The wire form of this value.
    pub open spec fn wire(self) -> JsonModel
        decreases self,
    {
        match self {
            AggregationModel::Count { name } => {
                JsonModel::Object(
                    Seq::empty()
                        .push(("type"@, JsonModel::Str("count"@)))
                        .push(("name"@, JsonModel::Str(name))),
                )
            },
            AggregationModel::LongSum { name, field_name } => {
                JsonModel::Object(
                    Seq::empty()
                        .push(("type"@, JsonModel::Str("longSum"@)))
                        .push(("name"@, JsonModel::Str(name)))
                        .push(("fieldName"@, JsonModel::Str(field_name))),
                )
            },
            AggregationModel::DoubleSum { name, field_name } => {
                JsonModel::Object(
                    Seq::empty()
                        .push(("type"@, JsonModel::Str("doubleSum"@)))
                        .push(("name"@, JsonModel::Str(name)))
                        .push(("fieldName"@, JsonModel::Str(field_name))),
                )
            },
            AggregationModel::FloatSum { name, field_name } => {
                JsonModel::Object(
                    Seq::empty()
                        .push(("type"@, JsonModel::Str("floatSum"@)))
                        .push(("name"@, JsonModel::Str(name)))
                        .push(("fieldName"@, JsonModel::Str(field_name))),
                )
            },
            AggregationModel::LongMax { name, field_name } => {
                JsonModel::Object(
                    Seq::empty()
                        .push(("type"@, JsonModel::Str("longMax"@)))
                        .push(("name"@, JsonModel::Str(name)))
                        .push(("fieldName"@, JsonModel::Str(field_name))),
                )
            },
            AggregationModel::DoubleMax { name, field_name } => {
                JsonModel::Object(
                    Seq::empty()
                        .push(("type"@, JsonModel::Str("doubleMax"@)))
                        .push(("name"@, JsonModel::Str(name)))
                        .push(("fieldName"@, JsonModel::Str(field_name))),
                )
            },
            AggregationModel::FloatMax { name, field_name } => {
                JsonModel::Object(
                    Seq::empty()
                        .push(("type"@, JsonModel::Str("floatMax"@)))
                        .push(("name"@, JsonModel::Str(name)))
                        .push(("fieldName"@, JsonModel::Str(field_name))),
                )
            },
            AggregationModel::LongMin { name, field_name } => {
                JsonModel::Object(
                    Seq::empty()
                        .push(("type"@, JsonModel::Str("longMin"@)))
                        .push(("name"@, JsonModel::Str(name)))
                        .push(("fieldName"@, JsonModel::Str(field_name))),
                )
            },
            AggregationModel::FloatMin { name, field_name } => {
                JsonModel::Object(
                    Seq::empty()
                        .push(("type"@, JsonModel::Str("floatMin"@)))
                        .push(("name"@, JsonModel::Str(name)))
                        .push(("fieldName"@, JsonModel::Str(field_name))),
                )
            },
            AggregationModel::DoubleMin { name, field_name } => {
                JsonModel::Object(
                    Seq::empty()
                        .push(("type"@, JsonModel::Str("doubleMin"@)))
                        .push(("name"@, JsonModel::Str(name)))
                        .push(("fieldName"@, JsonModel::Str(field_name))),
                )
            },
            AggregationModel::LongFirst { name, field_name } => {
                JsonModel::Object(
                    Seq::empty()
                        .push(("type"@, JsonModel::Str("longFirst"@)))
                        .push(("name"@, JsonModel::Str(name)))
                        .push(("fieldName"@, JsonModel::Str(field_name))),
                )
            },
            AggregationModel::FloatFirst { name, field_name } => {
                JsonModel::Object(
                    Seq::empty()
                        .push(("type"@, JsonModel::Str("floatFirst"@)))
                        .push(("name"@, JsonModel::Str(name)))
                        .push(("fieldName"@, JsonModel::Str(field_name))),
                )
            },
            AggregationModel::DoubleFirst { name, field_name } => {
                JsonModel::Object(
                    Seq::empty()
                        .push(("type"@, JsonModel::Str("doubleFirst"@)))
                        .push(("name"@, JsonModel::Str(name)))
                        .push(("fieldName"@, JsonModel::Str(field_name))),
                )
            },
            AggregationModel::LongLast { name, field_name } => {
                JsonModel::Object(
                    Seq::empty()
                        .push(("type"@, JsonModel::Str("longLast"@)))
                        .push(("name"@, JsonModel::Str(name)))
                        .push(("fieldName"@, JsonModel::Str(field_name))),
                )
            },
            AggregationModel::FloatLast { name, field_name } => {
                JsonModel::Object(
                    Seq::empty()
                        .push(("type"@, JsonModel::Str("floatLast"@)))
                        .push(("name"@, JsonModel::Str(name)))
                        .push(("fieldName"@, JsonModel::Str(field_name))),
                )
            },
            AggregationModel::DoubleLast { name, field_name } => {
                JsonModel::Object(
                    Seq::empty()
                        .push(("type"@, JsonModel::Str("doubleLast"@)))
                        .push(("name"@, JsonModel::Str(name)))
                        .push(("fieldName"@, JsonModel::Str(field_name))),
                )
            },
            AggregationModel::StringFirst { name, field_name, max_string_bytes } => {
                JsonModel::Object(
                    Seq::empty()
                        .push(("type"@, JsonModel::Str("stringFirst"@)))
                        .push(("name"@, JsonModel::Str(name)))
                        .push(("fieldName"@, JsonModel::Str(field_name)))
                        .push(("maxStringBytes"@, JsonModel::integer(max_string_bytes as int))),
                )
            },
            AggregationModel::StringLast { name, field_name, max_string_bytes } => {
                JsonModel::Object(
                    Seq::empty()
                        .push(("type"@, JsonModel::Str("stringLast"@)))
                        .push(("name"@, JsonModel::Str(name)))
                        .push(("fieldName"@, JsonModel::Str(field_name)))
                        .push(("maxStringBytes"@, JsonModel::integer(max_string_bytes as int))),
                )
            },
            AggregationModel::DoubleAny { name, field_name } => {
                JsonModel::Object(
                    Seq::empty()
                        .push(("type"@, JsonModel::Str("doubleAny"@)))
                        .push(("name"@, JsonModel::Str(name)))
                        .push(("fieldName"@, JsonModel::Str(field_name))),
                )
            },
            AggregationModel::FloatAny { name, field_name } => {
                JsonModel::Object(
                    Seq::empty()
                        .push(("type"@, JsonModel::Str("floatAny"@)))
                        .push(("name"@, JsonModel::Str(name)))
                        .push(("fieldName"@, JsonModel::Str(field_name))),
                )
            },
            AggregationModel::LongAny { name, field_name } => {
                JsonModel::Object(
                    Seq::empty()
                        .push(("type"@, JsonModel::Str("longAny"@)))
                        .push(("name"@, JsonModel::Str(name)))
                        .push(("fieldName"@, JsonModel::Str(field_name))),
                )
            },
            AggregationModel::StringAny { name, field_name } => {
                JsonModel::Object(
                    Seq::empty()
                        .push(("type"@, JsonModel::Str("stringAny"@)))
                        .push(("name"@, JsonModel::Str(name)))
                        .push(("fieldName"@, JsonModel::Str(field_name))),
                )
            },
            AggregationModel::Javascript {
                name,
                field_names,
                fn_aggregate,
                fn_combine,
                fn_reset,
            } => {
                JsonModel::Object(
                    Seq::empty()
                        .push(("type"@, JsonModel::Str("javascript"@)))
                        .push(("name"@, JsonModel::Str(name)))
                        .push(("fieldNames"@, JsonModel::texts(field_names)))
                        .push(("fnAggregate"@, JsonModel::Str(fn_aggregate)))
                        .push(("fnCombine"@, JsonModel::Str(fn_combine)))
                        .push(("fnReset"@, JsonModel::Str(fn_reset))),
                )
            },
            AggregationModel::ThetaSketch { name, field_name, is_input_theta_sketch, size } => {
                JsonModel::Object(
                    Seq::empty()
                        .push(("type"@, JsonModel::Str("thetaSketch"@)))
                        .push(("name"@, JsonModel::Str(name)))
                        .push(("fieldName"@, JsonModel::Str(field_name)))
                        .push(("isInputThetaSketch"@, JsonModel::Bool(is_input_theta_sketch)))
                        .push(("size"@, JsonModel::integer(size as int))),
                )
            },
            AggregationModel::HLLSketchBuild { name, field_name, lg_k, lgt_hll_type, round } => {
                JsonModel::Object(
                    Seq::empty()
                        .push(("type"@, JsonModel::Str("hLLSketchBuild"@)))
                        .push(("name"@, JsonModel::Str(name)))
                        .push(("fieldName"@, JsonModel::Str(field_name)))
                        .push(("lgK"@, JsonModel::integer(lg_k as int)))
                        .push(("lgtHllType"@, lgt_hll_type.wire()))
                        .push(("round"@, JsonModel::Bool(round))),
                )
            },
            AggregationModel::Cardinality { name, fields, by_row, round } => {
                JsonModel::Object(
                    Seq::empty()
                        .push(("type"@, JsonModel::Str("cardinality"@)))
                        .push(("name"@, JsonModel::Str(name)))
                        .push(("fields"@, JsonModel::texts(fields)))
                        .push(("byRow"@, JsonModel::Bool(by_row)))
                        .push(("round"@, JsonModel::Bool(round))),
                )
            },
            AggregationModel::HyperUnique { name, field_name, is_input_hyper_unique, round } => {
                JsonModel::Object(
                    Seq::empty()
                        .push(("type"@, JsonModel::Str("hyperUnique"@)))
                        .push(("name"@, JsonModel::Str(name)))
                        .push(("fieldName"@, JsonModel::Str(field_name)))
                        .push(("isInputHyperUnique"@, JsonModel::Bool(is_input_hyper_unique)))
                        .push(("round"@, JsonModel::Bool(round))),
                )
            },
            AggregationModel::Filtered { filter, aggregator } => {
                JsonModel::Object(
                    Seq::empty()
                        .push(("type"@, JsonModel::Str("filtered"@)))
                        .push(("filter"@, filter.wire()))
                        .push(("aggregator"@, aggregator.wire())),
                )
            },
        }
    }

    /// The wire forms of a sequence of values.
    pub open spec fn wire_all(items: Seq<AggregationModel>) -> Seq<JsonModel> {
        Seq::new(items.len(), |i: int| items[i].wire())
    }

    /// What a JSON value reads as: `None` where it does not read as a value of
    /// this type. The members of an object are found by their names, in
    /// whatever order they stand, and members of other names are passed over.
    pub open spec fn parse(j: JsonModel) -> Option<AggregationModel>
        decreases j, 1int,
    {
        match j.text_field("type"@) {
            Some(tag) => if tag == "count"@ {
                match j.text_field("name"@) {
                    Some(name) => Some(AggregationModel::Count { name }),
                    None => None,
                }
            } else if tag == "longSum"@ {
                match (
                    j.text_field("name"@),
                    j.text_field("fieldName"@),
                ) {
                    (Some(name), Some(field_name)) => Some(
                        AggregationModel::LongSum {
                            name,
                            field_name,
                        },
                    ),
                    _ => None,
                }
            } else if tag == "doubleSum"@ {
                match (
                    j.text_field("name"@),
                    j.text_field("fieldName"@),
                ) {
                    (Some(name), Some(field_name)) => Some(
                        AggregationModel::DoubleSum {
                            name,
                            field_name,
                        },
                    ),
                    _ => None,
                }
            } else if tag == "floatSum"@ {
                match (
                    j.text_field("name"@),
                    j.text_field("fieldName"@),
                ) {
                    (Some(name), Some(field_name)) => Some(
                        AggregationModel::FloatSum {
                            name,
                            field_name,
                        },
                    ),
                    _ => None,
                }
            } else if tag == "longMax"@ {
                match (
                    j.text_field("name"@),
                    j.text_field("fieldName"@),
                ) {
                    (Some(name), Some(field_name)) => Some(
                        AggregationModel::LongMax {
                            name,
                            field_name,
                        },
                    ),
                    _ => None,
                }
            } else if tag == "doubleMax"@ {
                match (
                    j.text_field("name"@),
                    j.text_field("fieldName"@),
                ) {
                    (Some(name), Some(field_name)) => Some(
                        AggregationModel::DoubleMax {
                            name,
                            field_name,
                        },
                    ),
                    _ => None,
                }
            } else if tag == "floatMax"@ {
                match (
                    j.text_field("name"@),
                    j.text_field("fieldName"@),
                ) {
                    (Some(name), Some(field_name)) => Some(
                        AggregationModel::FloatMax {
                            name,
                            field_name,
                        },
                    ),
                    _ => None,
                }
            } else if tag == "longMin"@ {
                match (
                    j.text_field("name"@),
                    j.text_field("fieldName"@),
                ) {
                    (Some(name), Some(field_name)) => Some(
                        AggregationModel::LongMin {
                            name,
                            field_name,
                        },
                    ),
                    _ => None,
                }
            } else if tag == "floatMin"@ {
                match (
                    j.text_field("name"@),
                    j.text_field("fieldName"@),
                ) {
                    (Some(name), Some(field_name)) => Some(
                        AggregationModel::FloatMin {
                            name,
                            field_name,
                        },
                    ),
                    _ => None,
                }
            } else if tag == "doubleMin"@ {
                match (
                    j.text_field("name"@),
                    j.text_field("fieldName"@),
                ) {
                    (Some(name), Some(field_name)) => Some(
                        AggregationModel::DoubleMin {
                            name,
                            field_name,
                        },
                    ),
                    _ => None,
                }
            } else if tag == "longFirst"@ {
                match (
                    j.text_field("name"@),
                    j.text_field("fieldName"@),
                ) {
                    (Some(name), Some(field_name)) => Some(
                        AggregationModel::LongFirst {
                            name,
                            field_name,
                        },
                    ),
                    _ => None,
                }
            } else if tag == "floatFirst"@ {
                match (
                    j.text_field("name"@),
                    j.text_field("fieldName"@),
                ) {
                    (Some(name), Some(field_name)) => Some(
                        AggregationModel::FloatFirst {
                            name,
                            field_name,
                        },
                    ),
                    _ => None,
                }
            } else if tag == "doubleFirst"@ {
                match (
                    j.text_field("name"@),
                    j.text_field("fieldName"@),
                ) {
                    (Some(name), Some(field_name)) => Some(
                        AggregationModel::DoubleFirst {
                            name,
                            field_name,
                        },
                    ),
                    _ => None,
                }
            } else if tag == "longLast"@ {
                match (
                    j.text_field("name"@),
                    j.text_field("fieldName"@),
                ) {
                    (Some(name), Some(field_name)) => Some(
                        AggregationModel::LongLast {
                            name,
                            field_name,
                        },
                    ),
                    _ => None,
                }
            } else if tag == "floatLast"@ {
                match (
                    j.text_field("name"@),
                    j.text_field("fieldName"@),
                ) {
                    (Some(name), Some(field_name)) => Some(
                        AggregationModel::FloatLast {
                            name,
                            field_name,
                        },
                    ),
                    _ => None,
                }
            } else if tag == "doubleLast"@ {
                match (
                    j.text_field("name"@),
                    j.text_field("fieldName"@),
                ) {
                    (Some(name), Some(field_name)) => Some(
                        AggregationModel::DoubleLast {
                            name,
                            field_name,
                        },
                    ),
                    _ => None,
                }
            } else if tag == "stringFirst"@ {
                match (
                    j.text_field("name"@),
                    j.text_field("fieldName"@),
                    j.usize_field("maxStringBytes"@),
                ) {
                    (Some(name), Some(field_name), Some(max_string_bytes)) => Some(
                        AggregationModel::StringFirst {
                            name,
                            field_name,
                            max_string_bytes,
                        },
                    ),
                    _ => None,
                }
            } else if tag == "stringLast"@ {
                match (
                    j.text_field("name"@),
                    j.text_field("fieldName"@),
                    j.usize_field("maxStringBytes"@),
                ) {
                    (Some(name), Some(field_name), Some(max_string_bytes)) => Some(
                        AggregationModel::StringLast {
                            name,
                            field_name,
                            max_string_bytes,
                        },
                    ),
                    _ => None,
                }
            } else if tag == "doubleAny"@ {
                match (
                    j.text_field("name"@),
                    j.text_field("fieldName"@),
                ) {
                    (Some(name), Some(field_name)) => Some(
                        AggregationModel::DoubleAny {
                            name,
                            field_name,
                        },
                    ),
                    _ => None,
                }
            } else if tag == "floatAny"@ {
                match (
                    j.text_field("name"@),
                    j.text_field("fieldName"@),
                ) {
                    (Some(name), Some(field_name)) => Some(
                        AggregationModel::FloatAny {
                            name,
                            field_name,
                        },
                    ),
                    _ => None,
                }
            } else if tag == "longAny"@ {
                match (
                    j.text_field("name"@),
                    j.text_field("fieldName"@),
                ) {
                    (Some(name), Some(field_name)) => Some(
                        AggregationModel::LongAny {
                            name,
                            field_name,
                        },
                    ),
                    _ => None,
                }
            } else if tag == "stringAny"@ {
                match (
                    j.text_field("name"@),
                    j.text_field("fieldName"@),
                ) {
                    (Some(name), Some(field_name)) => Some(
                        AggregationModel::StringAny {
                            name,
                            field_name,
                        },
                    ),
                    _ => None,
                }
            } else if tag == "javascript"@ {
                match (
                    j.text_field("name"@),
                    j.texts_field("fieldNames"@),
                    j.text_field("fnAggregate"@),
                    j.text_field("fnCombine"@),
                    j.text_field("fnReset"@),
                ) {
                    (
                        Some(name),
                        Some(field_names),
                        Some(fn_aggregate),
                        Some(fn_combine),
                        Some(fn_reset),
                    ) => Some(
                        AggregationModel::Javascript {
                            name,
                            field_names,
                            fn_aggregate,
                            fn_combine,
                            fn_reset,
                        },
                    ),
                    _ => None,
                }
            } else if tag == "thetaSketch"@ {
                match (
                    j.text_field("name"@),
                    j.text_field("fieldName"@),
                    j.bool_field("isInputThetaSketch"@),
                    j.usize_field("size"@),
                ) {
                    (
                        Some(name),
                        Some(field_name),
                        Some(is_input_theta_sketch),
                        Some(size),
                    ) => Some(
                        AggregationModel::ThetaSketch {
                            name,
                            field_name,
                            is_input_theta_sketch,
                            size,
                        },
                    ),
                    _ => None,
                }
            } else if tag == "hLLSketchBuild"@ {
                match (
                    j.text_field("name"@),
                    j.text_field("fieldName"@),
                    j.usize_field("lgK"@),
                    HllType::parse_field(j, "lgtHllType"@),
                    j.bool_field("round"@),
                ) {
                    (
                        Some(name),
                        Some(field_name),
                        Some(lg_k),
                        Some(lgt_hll_type),
                        Some(round),
                    ) => Some(
                        AggregationModel::HLLSketchBuild {
                            name,
                            field_name,
                            lg_k,
                            lgt_hll_type,
                            round,
                        },
                    ),
                    _ => None,
                }
            } else if tag == "cardinality"@ {
                match (
                    j.text_field("name"@),
                    j.texts_field("fields"@),
                    j.bool_field("byRow"@),
                    j.bool_field("round"@),
                ) {
                    (Some(name), Some(fields), Some(by_row), Some(round)) => Some(
                        AggregationModel::Cardinality {
                            name,
                            fields,
                            by_row,
                            round,
                        },
                    ),
                    _ => None,
                }
            } else if tag == "hyperUnique"@ {
                match (
                    j.text_field("name"@),
                    j.text_field("fieldName"@),
                    j.bool_field("isInputHyperUnique"@),
                    j.bool_field("round"@),
                ) {
                    (
                        Some(name),
                        Some(field_name),
                        Some(is_input_hyper_unique),
                        Some(round),
                    ) => Some(
                        AggregationModel::HyperUnique {
                            name,
                            field_name,
                            is_input_hyper_unique,
                            round,
                        },
                    ),
                    _ => None,
                }
            } else if tag == "filtered"@ {
                match (
                    FilterModel::parse_field(j, "filter"@),
                    AggregationModel::parse_field(j, "aggregator"@),
                ) {
                    (Some(filter), Some(aggregator)) => Some(
                        AggregationModel::Filtered {
                            filter,
                            aggregator: Box::new(aggregator),
                        },
                    ),
                    _ => None,
                }
            } else {
                None
            },
            None => None,
        }
    }

    /// What the required member `key` of `j` reads as.
    pub open spec fn parse_field(j: JsonModel, key: Seq<char>) -> Option<AggregationModel>
        decreases j, 0int,
    {
        match j.field(key) {
            Some(v) => {
                proof {
                    j.lemma_field_decreases(key);
                }
                Self::parse(v)
            },
            None => None,
        }
    }

    /// What the items of an array read as: `None` where one of them does not
    /// read.
    pub open spec fn parse_all(items: Seq<JsonModel>) -> Option<Seq<AggregationModel>> {
        if forall|i: int| 0 <= i < items.len() ==> Self::parse(#[trigger] items[i]) is Some {
            Some(Seq::new(items.len(), |i: int| Self::parse(items[i])->Some_0))
        } else {
            None
        }
    }

    /// What the required member `key` of `j` reads as where it is an array of
    /// values.
    pub open spec fn parse_all_field(j: JsonModel, key: Seq<char>) -> Option<Seq<AggregationModel>>
    {
        match j.field(key) {
            Some(JsonModel::Array(items)) => Self::parse_all(items),
            _ => None,
        }
    }

    /// The lengths and the letters that tell the names of this wire form apart.
    pub proof fn lemma_names()
        ensures
            "lgK"@.len() == 3,
            "name"@.len() == 4,
            "size"@.len() == 4,
            "type"@.len() == 4,
            "byRow"@.len() == 5,
            "count"@.len() == 5,
            "round"@.len() == 5,
            "fields"@.len() == 6,
            "filter"@.len() == 6,
            "fnReset"@.len() == 7,
            "longAny"@.len() == 7,
            "longMax"@.len() == 7,
            "longMin"@.len() == 7,
            "longSum"@.len() == 7,
            "filtered"@.len() == 8,
            "floatAny"@.len() == 8,
            "floatMax"@.len() == 8,
            "floatMin"@.len() == 8,
            "floatSum"@.len() == 8,
            "longLast"@.len() == 8,
            "doubleAny"@.len() == 9,
            "doubleMax"@.len() == 9,
            "doubleMin"@.len() == 9,
            "doubleSum"@.len() == 9,
            "fieldName"@.len() == 9,
            "floatLast"@.len() == 9,
            "fnCombine"@.len() == 9,
            "longFirst"@.len() == 9,
            "stringAny"@.len() == 9,
            "aggregator"@.len() == 10,
            "doubleLast"@.len() == 10,
            "fieldNames"@.len() == 10,
            "floatFirst"@.len() == 10,
            "javascript"@.len() == 10,
            "lgtHllType"@.len() == 10,
            "stringLast"@.len() == 10,
            "cardinality"@.len() == 11,
            "doubleFirst"@.len() == 11,
            "fnAggregate"@.len() == 11,
            "hyperUnique"@.len() == 11,
            "stringFirst"@.len() == 11,
            "thetaSketch"@.len() == 11,
            "hLLSketchBuild"@.len() == 14,
            "maxStringBytes"@.len() == 14,
            "isInputHyperUnique"@.len() == 18,
            "isInputThetaSketch"@.len() == 18,
            "name"@[0] == 'n',
            "size"@[0] == 's',
            "type"@[0] == 't',
            "byRow"@[0] == 'b',
            "count"@[0] == 'c',
            "round"@[0] == 'r',
            "fields"@[2] == 'e',
            "filter"@[2] == 'l',
            "fnReset"@[5] == 'e',
            "longAny"@[5] == 'n',
            "longMax"@[5] == 'a',
            "longMin"@[5] == 'i',
            "longSum"@[5] == 'u',
            "filtered"@[6] == 'e',
            "floatAny"@[6] == 'n',
            "floatMax"@[6] == 'a',
            "floatMin"@[6] == 'i',
            "floatSum"@[6] == 'u',
            "longLast"@[6] == 's',
            "doubleAny"@[1] == 'o',
            "doubleAny"@[6] == 'A',
            "doubleAny"@[7] == 'n',
            "doubleMax"@[1] == 'o',
            "doubleMax"@[6] == 'M',
            "doubleMax"@[7] == 'a',
            "doubleMin"@[1] == 'o',
            "doubleMin"@[6] == 'M',
            "doubleMin"@[7] == 'i',
            "doubleSum"@[1] == 'o',
            "doubleSum"@[6] == 'S',
            "doubleSum"@[7] == 'u',
            "fieldName"@[1] == 'i',
            "fieldName"@[6] == 'a',
            "fieldName"@[7] == 'm',
            "floatLast"@[1] == 'l',
            "floatLast"@[6] == 'a',
            "floatLast"@[7] == 's',
            "fnCombine"@[1] == 'n',
            "fnCombine"@[6] == 'i',
            "fnCombine"@[7] == 'n',
            "longFirst"@[1] == 'o',
            "longFirst"@[6] == 'r',
            "longFirst"@[7] == 's',
            "stringAny"@[1] == 't',
            "stringAny"@[6] == 'A',
            "stringAny"@[7] == 'n',
            "aggregator"@[2] == 'g',
            "doubleLast"@[2] == 'u',
            "fieldNames"@[2] == 'e',
            "floatFirst"@[2] == 'o',
            "javascript"@[2] == 'v',
            "lgtHllType"@[2] == 't',
            "stringLast"@[2] == 'r',
            "cardinality"@[0] == 'c',
            "doubleFirst"@[0] == 'd',
            "fnAggregate"@[0] == 'f',
            "hyperUnique"@[0] == 'h',
            "stringFirst"@[0] == 's',
            "thetaSketch"@[0] == 't',
            "hLLSketchBuild"@[0] == 'h',
            "maxStringBytes"@[0] == 'm',
            "isInputHyperUnique"@[7] == 'H',
            "isInputThetaSketch"@[7] == 'T',
    {
        reveal_strlit("lgK");
        reveal_strlit("name");
        reveal_strlit("size");
        reveal_strlit("type");
        reveal_strlit("byRow");
        reveal_strlit("count");
        reveal_strlit("round");
        reveal_strlit("fields");
        reveal_strlit("filter");
        reveal_strlit("fnReset");
        reveal_strlit("longAny");
        reveal_strlit("longMax");
        reveal_strlit("longMin");
        reveal_strlit("longSum");
        reveal_strlit("filtered");
        reveal_strlit("floatAny");
        reveal_strlit("floatMax");
        reveal_strlit("floatMin");
        reveal_strlit("floatSum");
        reveal_strlit("longLast");
        reveal_strlit("doubleAny");
        reveal_strlit("doubleMax");
        reveal_strlit("doubleMin");
        reveal_strlit("doubleSum");
        reveal_strlit("fieldName");
        reveal_strlit("floatLast");
        reveal_strlit("fnCombine");
        reveal_strlit("longFirst");
        reveal_strlit("stringAny");
        reveal_strlit("aggregator");
        reveal_strlit("doubleLast");
        reveal_strlit("fieldNames");
        reveal_strlit("floatFirst");
        reveal_strlit("javascript");
        reveal_strlit("lgtHllType");
        reveal_strlit("stringLast");
        reveal_strlit("cardinality");
        reveal_strlit("doubleFirst");
        reveal_strlit("fnAggregate");
        reveal_strlit("hyperUnique");
        reveal_strlit("stringFirst");
        reveal_strlit("thetaSketch");
        reveal_strlit("hLLSketchBuild");
        reveal_strlit("maxStringBytes");
        reveal_strlit("isInputHyperUnique");
        reveal_strlit("isInputThetaSketch");
    }

    /// Decoding the wire form of a `Count` gives it back.
    proof fn lemma_round_trip_count(self)
        requires
            self is Count,
        ensures
            Self::parse(self.wire()) == Some(self),
        decreases self, 0int,
    {
        Self::lemma_names();
        reveal_with_fuel(JsonModel::find, 8);
        match self {
            AggregationModel::Count { name } => {
            },
            _ => {},
        }
    }

    /// Decoding the wire form of a `LongSum` gives it back.
    proof fn lemma_round_trip_long_sum(self)
        requires
            self is LongSum,
        ensures
            Self::parse(self.wire()) == Some(self),
        decreases self, 0int,
    {
        Self::lemma_names();
        reveal_with_fuel(JsonModel::find, 8);
        match self {
            AggregationModel::LongSum { name, field_name } => {
            },
            _ => {},
        }
    }

    /// Decoding the wire form of a `DoubleSum` gives it back.
    proof fn lemma_round_trip_double_sum(self)
        requires
            self is DoubleSum,
        ensures
            Self::parse(self.wire()) == Some(self),
        decreases self, 0int,
    {
        Self::lemma_names();
        reveal_with_fuel(JsonModel::find, 8);
        match self {
            AggregationModel::DoubleSum { name, field_name } => {
            },
            _ => {},
        }
    }

    /// Decoding the wire form of a `FloatSum` gives it back.
    proof fn lemma_round_trip_float_sum(self)
        requires
            self is FloatSum,
        ensures
            Self::parse(self.wire()) == Some(self),
        decreases self, 0int,
    {
        Self::lemma_names();
        reveal_with_fuel(JsonModel::find, 8);
        match self {
            AggregationModel::FloatSum { name, field_name } => {
            },
            _ => {},
        }
    }

    /// Decoding the wire form of a `LongMax` gives it back.
    proof fn lemma_round_trip_long_max(self)
        requires
            self is LongMax,
        ensures
            Self::parse(self.wire()) == Some(self),
        decreases self, 0int,
    {
        Self::lemma_names();
        reveal_with_fuel(JsonModel::find, 8);
        match self {
            AggregationModel::LongMax { name, field_name } => {
            },
            _ => {},
        }
    }

    /// Decoding the wire form of a `DoubleMax` gives it back.
    proof fn lemma_round_trip_double_max(self)
        requires
            self is DoubleMax,
        ensures
            Self::parse(self.wire()) == Some(self),
        decreases self, 0int,
    {
        Self::lemma_names();
        reveal_with_fuel(JsonModel::find, 8);
        match self {
            AggregationModel::DoubleMax { name, field_name } => {
            },
            _ => {},
        }
    }

    /// Decoding the wire form of a `FloatMax` gives it back.
    proof fn lemma_round_trip_float_max(self)
        requires
            self is FloatMax,
        ensures
            Self::parse(self.wire()) == Some(self),
        decreases self, 0int,
    {
        Self::lemma_names();
        reveal_with_fuel(JsonModel::find, 8);
        match self {
            AggregationModel::FloatMax { name, field_name } => {
            },
            _ => {},
        }
    }

    /// Decoding the wire form of a `LongMin` gives it back.
    proof fn lemma_round_trip_long_min(self)
        requires
            self is LongMin,
        ensures
            Self::parse(self.wire()) == Some(self),
        decreases self, 0int,
    {
        Self::lemma_names();
        reveal_with_fuel(JsonModel::find, 8);
        match self {
            AggregationModel::LongMin { name, field_name } => {
            },
            _ => {},
        }
    }

    /// Decoding the wire form of a `FloatMin` gives it back.
    proof fn lemma_round_trip_float_min(self)
        requires
            self is FloatMin,
        ensures
            Self::parse(self.wire()) == Some(self),
        decreases self, 0int,
    {
        Self::lemma_names();
        reveal_with_fuel(JsonModel::find, 8);
        match self {
            AggregationModel::FloatMin { name, field_name } => {
            },
            _ => {},
        }
    }

    /// Decoding the wire form of a `DoubleMin` gives it back.
    proof fn lemma_round_trip_double_min(self)
        requires
            self is DoubleMin,
        ensures
            Self::parse(self.wire()) == Some(self),
        decreases self, 0int,
    {
        Self::lemma_names();
        reveal_with_fuel(JsonModel::find, 8);
        match self {
            AggregationModel::DoubleMin { name, field_name } => {
            },
            _ => {},
        }
    }

    /// Decoding the wire form of a `LongFirst` gives it back.
    proof fn lemma_round_trip_long_first(self)
        requires
            self is LongFirst,
        ensures
            Self::parse(self.wire()) == Some(self),
        decreases self, 0int,
    {
        Self::lemma_names();
        reveal_with_fuel(JsonModel::find, 8);
        match self {
            AggregationModel::LongFirst { name, field_name } => {
            },
            _ => {},
        }
    }

    /// Decoding the wire form of a `FloatFirst` gives it back.
    proof fn lemma_round_trip_float_first(self)
        requires
            self is FloatFirst,
        ensures
            Self::parse(self.wire()) == Some(self),
        decreases self, 0int,
    {
        Self::lemma_names();
        reveal_with_fuel(JsonModel::find, 8);
        match self {
            AggregationModel::FloatFirst { name, field_name } => {
            },
            _ => {},
        }
    }

    /// Decoding the wire form of a `DoubleFirst` gives it back.
    proof fn lemma_round_trip_double_first(self)
        requires
            self is DoubleFirst,
        ensures
            Self::parse(self.wire()) == Some(self),
        decreases self, 0int,
    {
        Self::lemma_names();
        reveal_with_fuel(JsonModel::find, 8);
        match self {
            AggregationModel::DoubleFirst { name, field_name } => {
            },
            _ => {},
        }
    }

    /// Decoding the wire form of a `LongLast` gives it back.
    proof fn lemma_round_trip_long_last(self)
        requires
            self is LongLast,
        ensures
            Self::parse(self.wire()) == Some(self),
        decreases self, 0int,
    {
        Self::lemma_names();
        reveal_with_fuel(JsonModel::find, 8);
        match self {
            AggregationModel::LongLast { name, field_name } => {
            },
            _ => {},
        }
    }

    /// Decoding the wire form of a `FloatLast` gives it back.
    proof fn lemma_round_trip_float_last(self)
        requires
            self is FloatLast,
        ensures
            Self::parse(self.wire()) == Some(self),
        decreases self, 0int,
    {
        Self::lemma_names();
        reveal_with_fuel(JsonModel::find, 8);
        match self {
            AggregationModel::FloatLast { name, field_name } => {
            },
            _ => {},
        }
    }

    /// Decoding the wire form of a `DoubleLast` gives it back.
    proof fn lemma_round_trip_double_last(self)
        requires
            self is DoubleLast,
        ensures
            Self::parse(self.wire()) == Some(self),
        decreases self, 0int,
    {
        Self::lemma_names();
        reveal_with_fuel(JsonModel::find, 8);
        match self {
            AggregationModel::DoubleLast { name, field_name } => {
            },
            _ => {},
        }
    }

    /// Decoding the wire form of a `StringFirst` gives it back.
    proof fn lemma_round_trip_string_first(self)
        requires
            self is StringFirst,
        ensures
            Self::parse(self.wire()) == Some(self),
        decreases self, 0int,
    {
        Self::lemma_names();
        reveal_with_fuel(JsonModel::find, 8);
        match self {
            AggregationModel::StringFirst { name, field_name, max_string_bytes } => {
            },
            _ => {},
        }
    }

    /// Decoding the wire form of a `StringLast` gives it back.
    proof fn lemma_round_trip_string_last(self)
        requires
            self is StringLast,
        ensures
            Self::parse(self.wire()) == Some(self),
        decreases self, 0int,
    {
        Self::lemma_names();
        reveal_with_fuel(JsonModel::find, 8);
        match self {
            AggregationModel::StringLast { name, field_name, max_string_bytes } => {
            },
            _ => {},
        }
    }

    /// Decoding the wire form of a `DoubleAny` gives it back.
    proof fn lemma_round_trip_double_any(self)
        requires
            self is DoubleAny,
        ensures
            Self::parse(self.wire()) == Some(self),
        decreases self, 0int,
    {
        Self::lemma_names();
        reveal_with_fuel(JsonModel::find, 8);
        match self {
            AggregationModel::DoubleAny { name, field_name } => {
            },
            _ => {},
        }
    }

    /// Decoding the wire form of a `FloatAny` gives it back.
    proof fn lemma_round_trip_float_any(self)
        requires
            self is FloatAny,
        ensures
            Self::parse(self.wire()) == Some(self),
        decreases self, 0int,
    {
        Self::lemma_names();
        reveal_with_fuel(JsonModel::find, 8);
        match self {
            AggregationModel::FloatAny { name, field_name } => {
            },
            _ => {},
        }
    }

    /// Decoding the wire form of a `LongAny` gives it back.
    proof fn lemma_round_trip_long_any(self)
        requires
            self is LongAny,
        ensures
            Self::parse(self.wire()) == Some(self),
        decreases self, 0int,
    {
        Self::lemma_names();
        reveal_with_fuel(JsonModel::find, 8);
        match self {
            AggregationModel::LongAny { name, field_name } => {
            },
            _ => {},
        }
    }

    /// Decoding the wire form of a `StringAny` gives it back.
    proof fn lemma_round_trip_string_any(self)
        requires
            self is StringAny,
        ensures
            Self::parse(self.wire()) == Some(self),
        decreases self, 0int,
    {
        Self::lemma_names();
        reveal_with_fuel(JsonModel::find, 8);
        match self {
            AggregationModel::StringAny { name, field_name } => {
            },
            _ => {},
        }
    }

    /// Decoding the wire form of a `Javascript` gives it back.
    proof fn lemma_round_trip_javascript(self)
        requires
            self is Javascript,
        ensures
            Self::parse(self.wire()) == Some(self),
        decreases self, 0int,
    {
        Self::lemma_names();
        reveal_with_fuel(JsonModel::find, 8);
        match self {
            AggregationModel::Javascript {
                name,
                field_names,
                fn_aggregate,
                fn_combine,
                fn_reset,
            } => {
                JsonModel::lemma_texts(field_names);
            },
            _ => {},
        }
    }

    /// Decoding the wire form of a `ThetaSketch` gives it back.
    proof fn lemma_round_trip_theta_sketch(self)
        requires
            self is ThetaSketch,
        ensures
            Self::parse(self.wire()) == Some(self),
        decreases self, 0int,
    {
        Self::lemma_names();
        reveal_with_fuel(JsonModel::find, 8);
        match self {
            AggregationModel::ThetaSketch { name, field_name, is_input_theta_sketch, size } => {
            },
            _ => {},
        }
    }

    /// Decoding the wire form of a `HLLSketchBuild` gives it back.
    proof fn lemma_round_trip_hllsketch_build(self)
        requires
            self is HLLSketchBuild,
        ensures
            Self::parse(self.wire()) == Some(self),
        decreases self, 0int,
    {
        Self::lemma_names();
        reveal_with_fuel(JsonModel::find, 8);
        match self {
            AggregationModel::HLLSketchBuild { name, field_name, lg_k, lgt_hll_type, round } => {
                lgt_hll_type.lemma_round_trip();
            },
            _ => {},
        }
    }

    /// Decoding the wire form of a `Cardinality` gives it back.
    proof fn lemma_round_trip_cardinality(self)
        requires
            self is Cardinality,
        ensures
            Self::parse(self.wire()) == Some(self),
        decreases self, 0int,
    {
        Self::lemma_names();
        reveal_with_fuel(JsonModel::find, 8);
        match self {
            AggregationModel::Cardinality { name, fields, by_row, round } => {
                JsonModel::lemma_texts(fields);
            },
            _ => {},
        }
    }

    /// Decoding the wire form of a `HyperUnique` gives it back.
    proof fn lemma_round_trip_hyper_unique(self)
        requires
            self is HyperUnique,
        ensures
            Self::parse(self.wire()) == Some(self),
        decreases self, 0int,
    {
        Self::lemma_names();
        reveal_with_fuel(JsonModel::find, 8);
        match self {
            AggregationModel::HyperUnique { name, field_name, is_input_hyper_unique, round } => {
            },
            _ => {},
        }
    }

    /// Decoding the wire form of a `Filtered` gives it back.
    proof fn lemma_round_trip_filtered(self)
        requires
            self is Filtered,
        ensures
            Self::parse(self.wire()) == Some(self),
        decreases self, 0int,
    {
        Self::lemma_names();
        reveal_with_fuel(JsonModel::find, 8);
        match self {
            AggregationModel::Filtered { filter, aggregator } => {
                filter.lemma_round_trip();
                aggregator.lemma_round_trip();
            },
            _ => {},
        }
    }

    /// Decoding the wire form of a value gives the value back.
    pub proof fn lemma_round_trip(self)
        ensures
            Self::parse(self.wire()) == Some(self),
        decreases self, 1int,
    {
        match self {
            AggregationModel::Count { .. } => self.lemma_round_trip_count(),
            AggregationModel::LongSum { .. } => self.lemma_round_trip_long_sum(),
            AggregationModel::DoubleSum { .. } => self.lemma_round_trip_double_sum(),
            AggregationModel::FloatSum { .. } => self.lemma_round_trip_float_sum(),
            AggregationModel::LongMax { .. } => self.lemma_round_trip_long_max(),
            AggregationModel::DoubleMax { .. } => self.lemma_round_trip_double_max(),
            AggregationModel::FloatMax { .. } => self.lemma_round_trip_float_max(),
            AggregationModel::LongMin { .. } => self.lemma_round_trip_long_min(),
            AggregationModel::FloatMin { .. } => self.lemma_round_trip_float_min(),
            AggregationModel::DoubleMin { .. } => self.lemma_round_trip_double_min(),
            AggregationModel::LongFirst { .. } => self.lemma_round_trip_long_first(),
            AggregationModel::FloatFirst { .. } => self.lemma_round_trip_float_first(),
            AggregationModel::DoubleFirst { .. } => self.lemma_round_trip_double_first(),
            AggregationModel::LongLast { .. } => self.lemma_round_trip_long_last(),
            AggregationModel::FloatLast { .. } => self.lemma_round_trip_float_last(),
            AggregationModel::DoubleLast { .. } => self.lemma_round_trip_double_last(),
            AggregationModel::StringFirst { .. } => self.lemma_round_trip_string_first(),
            AggregationModel::StringLast { .. } => self.lemma_round_trip_string_last(),
            AggregationModel::DoubleAny { .. } => self.lemma_round_trip_double_any(),
            AggregationModel::FloatAny { .. } => self.lemma_round_trip_float_any(),
            AggregationModel::LongAny { .. } => self.lemma_round_trip_long_any(),
            AggregationModel::StringAny { .. } => self.lemma_round_trip_string_any(),
            AggregationModel::Javascript { .. } => self.lemma_round_trip_javascript(),
            AggregationModel::ThetaSketch { .. } => self.lemma_round_trip_theta_sketch(),
            AggregationModel::HLLSketchBuild { .. } => self.lemma_round_trip_hllsketch_build(),
            AggregationModel::Cardinality { .. } => self.lemma_round_trip_cardinality(),
            AggregationModel::HyperUnique { .. } => self.lemma_round_trip_hyper_unique(),
            AggregationModel::Filtered { .. } => self.lemma_round_trip_filtered(),
        }
    }

    /// Decoding the wire forms of a sequence of values gives the sequence back.
    pub proof fn lemma_round_trip_all(items: Seq<AggregationModel>)
        ensures
            Self::parse_all(Self::wire_all(items)) == Some(items),
    {
        assert forall|i: int| 0 <= i < items.len() implies Self::parse(
            #[trigger] Self::wire_all(items)[i],
        ) == Some(items[i]) by {
            items[i].lemma_round_trip();
        }
        assert(Self::parse_all(Self::wire_all(items))->Some_0 =~= items);
    }
}

impl Aggregation {
    /// The number of rows, handed out as `name`.
    pub fn count(name: &str) -> (a: Aggregation)
        ensures
            a@ == (AggregationModel::Count { name: name@ }),
    {
        Aggregation::Count { name: name.to_owned() }
    }

    /// The sum of `field_name` as a 64-bit integer, handed out as `name`.
    pub fn long_sum(name: &str, field_name: &str) -> (a: Aggregation)
        ensures
            a@ == (AggregationModel::LongSum { name: name@, field_name: field_name@ }),
    {
        Aggregation::LongSum { name: name.to_owned(), field_name: field_name.to_owned() }
    }

    /// The sum of `field_name` as a double, handed out as `name`.
    pub fn double_sum(name: &str, field_name: &str) -> (a: Aggregation)
        ensures
            a@ == (AggregationModel::DoubleSum { name: name@, field_name: field_name@ }),
    {
        Aggregation::DoubleSum { name: name.to_owned(), field_name: field_name.to_owned() }
    }

    /// The sum of `field_name` as a float, handed out as `name`.
    pub fn float_sum(name: &str, field_name: &str) -> (a: Aggregation)
        ensures
            a@ == (AggregationModel::FloatSum { name: name@, field_name: field_name@ }),
    {
        Aggregation::FloatSum { name: name.to_owned(), field_name: field_name.to_owned() }
    }

    /// The greatest `field_name` as a 64-bit integer, handed out as `name`.
    pub fn long_max(name: &str, field_name: &str) -> (a: Aggregation)
        ensures
            a@ == (AggregationModel::LongMax { name: name@, field_name: field_name@ }),
    {
        Aggregation::LongMax { name: name.to_owned(), field_name: field_name.to_owned() }
    }

    /// The greatest `field_name` as a double, handed out as `name`.
    pub fn double_max(name: &str, field_name: &&str) -> (a: Aggregation)
        ensures
            a@ == (AggregationModel::DoubleMax { name: name@, field_name: field_name@ }),
    {
        Aggregation::DoubleMax { name: name.to_owned(), field_name: (*field_name).to_owned() }
    }

    /// The greatest `field_name` as a float, handed out as `name`.
    pub fn float_max(name: &str, field_name: &str) -> (a: Aggregation)
        ensures
            a@ == (AggregationModel::FloatMax { name: name@, field_name: field_name@ }),
    {
        Aggregation::FloatMax { name: name.to_owned(), field_name: field_name.to_owned() }
    }

    /// The least `field_name` as a 64-bit integer, handed out as `name`.
    pub fn long_min(name: &str, field_name: &str) -> (a: Aggregation)
        ensures
            a@ == (AggregationModel::LongMin { name: name@, field_name: field_name@ }),
    {
        Aggregation::LongMin { name: name.to_owned(), field_name: field_name.to_owned() }
    }

    /// The least `field_name` as a float, handed out as `name`.
    pub fn float_min(name: &str, field_name: &str) -> (a: Aggregation)
        ensures
            a@ == (AggregationModel::FloatMin { name: name@, field_name: field_name@ }),
    {
        Aggregation::FloatMin { name: name.to_owned(), field_name: field_name.to_owned() }
    }

    /// The least `field_name` as a double, handed out as `name`.
    pub fn double_min(name: &str, field_name: &str) -> (a: Aggregation)
        ensures
            a@ == (AggregationModel::DoubleMin { name: name@, field_name: field_name@ }),
    {
        Aggregation::DoubleMin { name: name.to_owned(), field_name: field_name.to_owned() }
    }

    /// The earliest `field_name` as a 64-bit integer, handed out as `name`.
    pub fn long_first(name: &str, field_name: &str) -> (a: Aggregation)
        ensures
            a@ == (AggregationModel::LongFirst { name: name@, field_name: field_name@ }),
    {
        Aggregation::LongFirst { name: name.to_owned(), field_name: field_name.to_owned() }
    }

    /// The earliest `field_name` as a float, handed out as `name`.
    pub fn float_first(name: &str, field_name: &str) -> (a: Aggregation)
        ensures
            a@ == (AggregationModel::FloatFirst { name: name@, field_name: field_name@ }),
    {
        Aggregation::FloatFirst { name: name.to_owned(), field_name: field_name.to_owned() }
    }

    /// The wire form of this value.
    pub fn to_json(&self) -> (j: Json)
        ensures
            j@ == self@.wire(),
        decreases self,
    {
        let mut w = ObjectWriter::new();
        match self {
            Aggregation::Count { name } => {
                w.put("type", Json::text("count"));
                w.put("name", Json::text(name.as_str()));
            },
            Aggregation::LongSum { name, field_name } => {
                w.put("type", Json::text("longSum"));
                w.put("name", Json::text(name.as_str()));
                w.put("fieldName", Json::text(field_name.as_str()));
            },
            Aggregation::DoubleSum { name, field_name } => {
                w.put("type", Json::text("doubleSum"));
                w.put("name", Json::text(name.as_str()));
                w.put("fieldName", Json::text(field_name.as_str()));
            },
            Aggregation::FloatSum { name, field_name } => {
                w.put("type", Json::text("floatSum"));
                w.put("name", Json::text(name.as_str()));
                w.put("fieldName", Json::text(field_name.as_str()));
            },
            Aggregation::LongMax { name, field_name } => {
                w.put("type", Json::text("longMax"));
                w.put("name", Json::text(name.as_str()));
                w.put("fieldName", Json::text(field_name.as_str()));
            },
            Aggregation::DoubleMax { name, field_name } => {
                w.put("type", Json::text("doubleMax"));
                w.put("name", Json::text(name.as_str()));
                w.put("fieldName", Json::text(field_name.as_str()));
            },
            Aggregation::FloatMax { name, field_name } => {
                w.put("type", Json::text("floatMax"));
                w.put("name", Json::text(name.as_str()));
                w.put("fieldName", Json::text(field_name.as_str()));
            },
            Aggregation::LongMin { name, field_name } => {
                w.put("type", Json::text("longMin"));
                w.put("name", Json::text(name.as_str()));
                w.put("fieldName", Json::text(field_name.as_str()));
            },
            Aggregation::FloatMin { name, field_name } => {
                w.put("type", Json::text("floatMin"));
                w.put("name", Json::text(name.as_str()));
                w.put("fieldName", Json::text(field_name.as_str()));
            },
            Aggregation::DoubleMin { name, field_name } => {
                w.put("type", Json::text("doubleMin"));
                w.put("name", Json::text(name.as_str()));
                w.put("fieldName", Json::text(field_name.as_str()));
            },
            Aggregation::LongFirst { name, field_name } => {
                w.put("type", Json::text("longFirst"));
                w.put("name", Json::text(name.as_str()));
                w.put("fieldName", Json::text(field_name.as_str()));
            },
            Aggregation::FloatFirst { name, field_name } => {
                w.put("type", Json::text("floatFirst"));
                w.put("name", Json::text(name.as_str()));
                w.put("fieldName", Json::text(field_name.as_str()));
            },
            Aggregation::DoubleFirst { name, field_name } => {
                w.put("type", Json::text("doubleFirst"));
                w.put("name", Json::text(name.as_str()));
                w.put("fieldName", Json::text(field_name.as_str()));
            },
            Aggregation::LongLast { name, field_name } => {
                w.put("type", Json::text("longLast"));
                w.put("name", Json::text(name.as_str()));
                w.put("fieldName", Json::text(field_name.as_str()));
            },
            Aggregation::FloatLast { name, field_name } => {
                w.put("type", Json::text("floatLast"));
                w.put("name", Json::text(name.as_str()));
                w.put("fieldName", Json::text(field_name.as_str()));
            },
            Aggregation::DoubleLast { name, field_name } => {
                w.put("type", Json::text("doubleLast"));
                w.put("name", Json::text(name.as_str()));
                w.put("fieldName", Json::text(field_name.as_str()));
            },
            Aggregation::StringFirst { name, field_name, max_string_bytes } => {
                w.put("type", Json::text("stringFirst"));
                w.put("name", Json::text(name.as_str()));
                w.put("fieldName", Json::text(field_name.as_str()));
                w.put("maxStringBytes", Json::from_usize(*max_string_bytes));
            },
            Aggregation::StringLast { name, field_name, max_string_bytes } => {
                w.put("type", Json::text("stringLast"));
                w.put("name", Json::text(name.as_str()));
                w.put("fieldName", Json::text(field_name.as_str()));
                w.put("maxStringBytes", Json::from_usize(*max_string_bytes));
            },
            Aggregation::DoubleAny { name, field_name } => {
                w.put("type", Json::text("doubleAny"));
                w.put("name", Json::text(name.as_str()));
                w.put("fieldName", Json::text(field_name.as_str()));
            },
            Aggregation::FloatAny { name, field_name } => {
                w.put("type", Json::text("floatAny"));
                w.put("name", Json::text(name.as_str()));
                w.put("fieldName", Json::text(field_name.as_str()));
            },
            Aggregation::LongAny { name, field_name } => {
                w.put("type", Json::text("longAny"));
                w.put("name", Json::text(name.as_str()));
                w.put("fieldName", Json::text(field_name.as_str()));
            },
            Aggregation::StringAny { name, field_name } => {
                w.put("type", Json::text("stringAny"));
                w.put("name", Json::text(name.as_str()));
                w.put("fieldName", Json::text(field_name.as_str()));
            },
            Aggregation::Javascript { name, field_names, fn_aggregate, fn_combine, fn_reset } => {
                w.put("type", Json::text("javascript"));
                w.put("name", Json::text(name.as_str()));
                w.put("fieldNames", Json::texts(field_names));
                w.put("fnAggregate", Json::text(fn_aggregate.as_str()));
                w.put("fnCombine", Json::text(fn_combine.as_str()));
                w.put("fnReset", Json::text(fn_reset.as_str()));
            },
            Aggregation::ThetaSketch { name, field_name, is_input_theta_sketch, size } => {
                w.put("type", Json::text("thetaSketch"));
                w.put("name", Json::text(name.as_str()));
                w.put("fieldName", Json::text(field_name.as_str()));
                w.put("isInputThetaSketch", Json::Bool(*is_input_theta_sketch));
                w.put("size", Json::from_usize(*size));
            },
            Aggregation::HLLSketchBuild { name, field_name, lg_k, lgt_hll_type, round } => {
                w.put("type", Json::text("hLLSketchBuild"));
                w.put("name", Json::text(name.as_str()));
                w.put("fieldName", Json::text(field_name.as_str()));
                w.put("lgK", Json::from_usize(*lg_k));
                w.put("lgtHllType", lgt_hll_type.to_json());
                w.put("round", Json::Bool(*round));
            },
            Aggregation::Cardinality { name, fields, by_row, round } => {
                w.put("type", Json::text("cardinality"));
                w.put("name", Json::text(name.as_str()));
                w.put("fields", Json::texts(fields));
                w.put("byRow", Json::Bool(*by_row));
                w.put("round", Json::Bool(*round));
            },
            Aggregation::HyperUnique { name, field_name, is_input_hyper_unique, round } => {
                w.put("type", Json::text("hyperUnique"));
                w.put("name", Json::text(name.as_str()));
                w.put("fieldName", Json::text(field_name.as_str()));
                w.put("isInputHyperUnique", Json::Bool(*is_input_hyper_unique));
                w.put("round", Json::Bool(*round));
            },
            Aggregation::Filtered { filter, aggregator } => {
                w.put("type", Json::text("filtered"));
                w.put("filter", filter.to_json());
                w.put("aggregator", aggregator.to_json());
            },
        }
        w.finish()
    }

    /// The wire form of a sequence of values: the array of their wire forms.
    pub fn all_to_json(items: &Vec<Aggregation>) -> (j: Json)
        ensures
            j@ == JsonModel::Array(AggregationModel::wire_all(Aggregation::models(items@))),
    {
        let mut out: Vec<Json> = Vec::new();
        let mut i: usize = 0;
        while i < items.len()
            invariant
                i <= items.len(),
                out@.len() == i,
                forall|k: int| 0 <= k < i ==> (#[trigger] out@[k])@ == items@[k]@.wire(),
            decreases items.len() - i,
        {
            out.push(items[i].to_json());
            i += 1;
        }
        proof {
            assert(Json::models(out@) =~= AggregationModel::wire_all(Aggregation::models(items@)));
        }
        Json::Array(out)
    }

    /// Reads a value from JSON: `None` where `j` does not read as a value of
    /// this type.
    pub fn from_json(j: &Json) -> (r: Option<Aggregation>)
        ensures
            match r {
                Some(v) => AggregationModel::parse(j@) == Some(v@),
                None => AggregationModel::parse(j@) is None,
            },
        decreases j@, 1int,
    {
        let tag = j.text_field("type")?;
        if same_text(tag.as_str(), "count") {
            let name = j.text_field("name")?;
            Some(Aggregation::Count { name })
        } else if same_text(tag.as_str(), "longSum") {
            let name = j.text_field("name")?;
            let field_name = j.text_field("fieldName")?;
            Some(Aggregation::LongSum { name, field_name })
        } else if same_text(tag.as_str(), "doubleSum") {
            let name = j.text_field("name")?;
            let field_name = j.text_field("fieldName")?;
            Some(Aggregation::DoubleSum { name, field_name })
        } else if same_text(tag.as_str(), "floatSum") {
            let name = j.text_field("name")?;
            let field_name = j.text_field("fieldName")?;
            Some(Aggregation::FloatSum { name, field_name })
        } else if same_text(tag.as_str(), "longMax") {
            let name = j.text_field("name")?;
            let field_name = j.text_field("fieldName")?;
            Some(Aggregation::LongMax { name, field_name })
        } else if same_text(tag.as_str(), "doubleMax") {
            let name = j.text_field("name")?;
            let field_name = j.text_field("fieldName")?;
            Some(Aggregation::DoubleMax { name, field_name })
        } else if same_text(tag.as_str(), "floatMax") {
            let name = j.text_field("name")?;
            let field_name = j.text_field("fieldName")?;
            Some(Aggregation::FloatMax { name, field_name })
        } else if same_text(tag.as_str(), "longMin") {
            let name = j.text_field("name")?;
            let field_name = j.text_field("fieldName")?;
            Some(Aggregation::LongMin { name, field_name })
        } else if same_text(tag.as_str(), "floatMin") {
            let name = j.text_field("name")?;
            let field_name = j.text_field("fieldName")?;
            Some(Aggregation::FloatMin { name, field_name })
        } else if same_text(tag.as_str(), "doubleMin") {
            let name = j.text_field("name")?;
            let field_name = j.text_field("fieldName")?;
            Some(Aggregation::DoubleMin { name, field_name })
        } else if same_text(tag.as_str(), "longFirst") {
            let name = j.text_field("name")?;
            let field_name = j.text_field("fieldName")?;
            Some(Aggregation::LongFirst { name, field_name })
        } else if same_text(tag.as_str(), "floatFirst") {
            let name = j.text_field("name")?;
            let field_name = j.text_field("fieldName")?;
            Some(Aggregation::FloatFirst { name, field_name })
        } else if same_text(tag.as_str(), "doubleFirst") {
            let name = j.text_field("name")?;
            let field_name = j.text_field("fieldName")?;
            Some(Aggregation::DoubleFirst { name, field_name })
        } else if same_text(tag.as_str(), "longLast") {
            let name = j.text_field("name")?;
            let field_name = j.text_field("fieldName")?;
            Some(Aggregation::LongLast { name, field_name })
        } else if same_text(tag.as_str(), "floatLast") {
            let name = j.text_field("name")?;
            let field_name = j.text_field("fieldName")?;
            Some(Aggregation::FloatLast { name, field_name })
        } else if same_text(tag.as_str(), "doubleLast") {
            let name = j.text_field("name")?;
            let field_name = j.text_field("fieldName")?;
            Some(Aggregation::DoubleLast { name, field_name })
        } else if same_text(tag.as_str(), "stringFirst") {
            let name = j.text_field("name")?;
            let field_name = j.text_field("fieldName")?;
            let max_string_bytes = j.usize_field("maxStringBytes")?;
            Some(Aggregation::StringFirst { name, field_name, max_string_bytes })
        } else if same_text(tag.as_str(), "stringLast") {
            let name = j.text_field("name")?;
            let field_name = j.text_field("fieldName")?;
            let max_string_bytes = j.usize_field("maxStringBytes")?;
            Some(Aggregation::StringLast { name, field_name, max_string_bytes })
        } else if same_text(tag.as_str(), "doubleAny") {
            let name = j.text_field("name")?;
            let field_name = j.text_field("fieldName")?;
            Some(Aggregation::DoubleAny { name, field_name })
        } else if same_text(tag.as_str(), "floatAny") {
            let name = j.text_field("name")?;
            let field_name = j.text_field("fieldName")?;
            Some(Aggregation::FloatAny { name, field_name })
        } else if same_text(tag.as_str(), "longAny") {
            let name = j.text_field("name")?;
            let field_name = j.text_field("fieldName")?;
            Some(Aggregation::LongAny { name, field_name })
        } else if same_text(tag.as_str(), "stringAny") {
            let name = j.text_field("name")?;
            let field_name = j.text_field("fieldName")?;
            Some(Aggregation::StringAny { name, field_name })
        } else if same_text(tag.as_str(), "javascript") {
            let name = j.text_field("name")?;
            let field_names = j.texts_field("fieldNames")?;
            let fn_aggregate = j.text_field("fnAggregate")?;
            let fn_combine = j.text_field("fnCombine")?;
            let fn_reset = j.text_field("fnReset")?;
            Some(Aggregation::Javascript { name, field_names, fn_aggregate, fn_combine, fn_reset })
        } else if same_text(tag.as_str(), "thetaSketch") {
            let name = j.text_field("name")?;
            let field_name = j.text_field("fieldName")?;
            let is_input_theta_sketch = j.bool_field("isInputThetaSketch")?;
            let size = j.usize_field("size")?;
            Some(Aggregation::ThetaSketch { name, field_name, is_input_theta_sketch, size })
        } else if same_text(tag.as_str(), "hLLSketchBuild") {
            let name = j.text_field("name")?;
            let field_name = j.text_field("fieldName")?;
            let lg_k = j.usize_field("lgK")?;
            let lgt_hll_type = HllType::field_from_json(j, "lgtHllType")?;
            let round = j.bool_field("round")?;
            Some(Aggregation::HLLSketchBuild { name, field_name, lg_k, lgt_hll_type, round })
        } else if same_text(tag.as_str(), "cardinality") {
            let name = j.text_field("name")?;
            let fields = j.texts_field("fields")?;
            let by_row = j.bool_field("byRow")?;
            let round = j.bool_field("round")?;
            Some(Aggregation::Cardinality { name, fields, by_row, round })
        } else if same_text(tag.as_str(), "hyperUnique") {
            let name = j.text_field("name")?;
            let field_name = j.text_field("fieldName")?;
            let is_input_hyper_unique = j.bool_field("isInputHyperUnique")?;
            let round = j.bool_field("round")?;
            Some(Aggregation::HyperUnique { name, field_name, is_input_hyper_unique, round })
        } else if same_text(tag.as_str(), "filtered") {
            let filter = Filter::field_from_json(j, "filter")?;
            let aggregator = Aggregation::field_from_json(j, "aggregator")?;
            Some(Aggregation::Filtered { filter, aggregator: Box::new(aggregator) })
        } else {
            None
        }
    }

    /// Reads the required member `key` of `j`.
    pub fn field_from_json(j: &Json, key: &str) -> (r: Option<Aggregation>)
        ensures
            match r {
                Some(v) => AggregationModel::parse_field(j@, key@) == Some(v@),
                None => AggregationModel::parse_field(j@, key@) is None,
            },
        decreases j@, 0int,
    {
        match j.get(key) {
            Some(v) => {
                proof {
                    j@.lemma_field_decreases(key@);
                }
                Self::from_json(v)
            },
            None => None,
        }
    }

    /// Reads the items of an array: `None` where one of them does not read.
    pub fn all_from_json(items: &Vec<Json>) -> (r: Option<Vec<Aggregation>>)
        ensures
            match r {
                Some(v) => AggregationModel::parse_all(Json::models(items@))
                    == Some(Aggregation::models(v@)),
                None => AggregationModel::parse_all(Json::models(items@)) is None,
            },
    {
        let mut out: Vec<Aggregation> = Vec::new();
        let mut i: usize = 0;
        while i < items.len()
            invariant
                i <= items.len(),
                out@.len() == i,
                forall|k: int|
                    0 <= k < i ==>
                        AggregationModel::parse(#[trigger] Json::models(items@)[k])
                            == Some(out@[k]@),
            decreases items.len() - i,
        {
            match Self::from_json(&items[i]) {
                Some(v) => {
                    out.push(v);
                },
                None => {
                    assert(AggregationModel::parse(Json::models(items@)[i as int]) is None);
                    return None;
                },
            }
            i += 1;
        }
        proof {
            assert(AggregationModel::parse_all(Json::models(items@))->Some_0
                =~= Aggregation::models(out@));
        }
        Some(out)
    }

    /// Reads the required member `key` of `j` where it is an array of values.
    pub fn all_field_from_json(j: &Json, key: &str) -> (r: Option<Vec<Aggregation>>)
        ensures
            match r {
                Some(v) => AggregationModel::parse_all_field(j@, key@)
                    == Some(Aggregation::models(v@)),
                None => AggregationModel::parse_all_field(j@, key@) is None,
            },
    {
        match j.get(key) {
            Some(Json::Array(items)) => Self::all_from_json(items),
            _ => None,
        }
    }
}

/// The texts of a sequence of string slices.
pub open spec fn slice_views(s: Seq<&str>) -> Seq<Seq<char>> {
    Seq::new(s.len(), |i: int| s[i]@)
}

/// The strings that hold the texts of `v`.
pub fn owned_texts(v: &Vec<&str>) -> (r: Vec<String>)
    ensures
        text_views(r@) == slice_views(v@),
{
    let mut out: Vec<String> = Vec::new();
    let mut i: usize = 0;
    while i < v.len()
        invariant
            i <= v.len(),
            out@.len() == i,
            forall|k: int| 0 <= k < i ==> (#[trigger] out@[k])@ == v@[k]@,
        decreases v.len() - i,
    {
        out.push(v[i].to_owned());
        i += 1;
    }
    assert(text_views(out@) =~= slice_views(v@));
    out
}

} // verus!
