//! The timeBoundary query.

use crate::json::{same_text, Json, JsonModel, ObjectWriter};
use crate::string_map::{StringMap, StringMapModel};
use crate::query::{DataSource, DataSourceModel};
use crate::query::definitions::{Filter, FilterModel};
use vstd::prelude::*;

verus! {

/// Which end of the time of a data source a time boundary query asks for.
#[derive(Debug, Clone, Copy, PartialEq, Eq)]
pub enum TimeBoundType {
    MaxTime,
    MinTime,
    MinMaxTime,
}

impl TimeBoundType {
    /// The wire form of this value.
    pub open spec fn wire(self) -> JsonModel {
        match self {
            TimeBoundType::MaxTime => JsonModel::Str("maxTime"@),
            TimeBoundType::MinTime => JsonModel::Str("minTime"@),
            TimeBoundType::MinMaxTime => JsonModel::Str("minMaxTime"@),
        }
    }

    /// What a JSON value reads as: `None` where it does not read as a value of
    /// this type.
    pub open spec fn parse(j: JsonModel) -> Option<TimeBoundType> {
        match j {
            JsonModel::Str(tag) => if tag == "maxTime"@ {
                Some(TimeBoundType::MaxTime)
            } else if tag == "minTime"@ {
                Some(TimeBoundType::MinTime)
            } else if tag == "minMaxTime"@ {
                Some(TimeBoundType::MinMaxTime)
            } else {
                None
            },
            _ => None,
        }
    }

    /// What the required member `key` of `j` reads as.
    pub open spec fn parse_field(j: JsonModel, key: Seq<char>) -> Option<TimeBoundType> {
        match j.field(key) {
            Some(v) => Self::parse(v),
            None => None,
        }
    }

    /// The lengths and the letters that tell the names of this wire form apart.
    pub proof fn lemma_names()
        ensures
            "maxTime"@.len() == 7,
            "minTime"@.len() == 7,
            "minMaxTime"@.len() == 10,
            "maxTime"@[1] == 'a',
            "minTime"@[1] == 'i',
    {
        reveal_strlit("maxTime");
        reveal_strlit("minTime");
        reveal_strlit("minMaxTime");
    }

    /// Decoding the wire form of a value gives the value back.
    pub proof fn lemma_round_trip(self)
        ensures
            Self::parse(self.wire()) == Some(self),
    {
        Self::lemma_names();
        reveal_with_fuel(JsonModel::find, 3);
        match self {
            TimeBoundType::MaxTime => {},
            TimeBoundType::MinTime => {},
            TimeBoundType::MinMaxTime => {},
        }
    }
}

impl TimeBoundType {
    /// Whether both ends are asked for.
    pub fn is_both(&self) -> (b: bool)
        ensures
            b == (*self == TimeBoundType::MinMaxTime),
    {
        match self {
            TimeBoundType::MinMaxTime => true,
            _ => false,
        }
    }

    /// The wire form of this value.
    pub fn to_json(&self) -> (j: Json)
        ensures
            j@ == self.wire(),
    {
        match self {
            TimeBoundType::MaxTime => Json::text("maxTime"),
            TimeBoundType::MinTime => Json::text("minTime"),
            TimeBoundType::MinMaxTime => Json::text("minMaxTime"),
        }
    }

    /// Reads a value from JSON: `None` where `j` does not read as a value of
    /// this type.
    pub fn from_json(j: &Json) -> (r: Option<TimeBoundType>)
        ensures
            r == TimeBoundType::parse(j@),
    {
        match j {
            Json::Str(tag) => {
                if same_text(tag.as_str(), "maxTime") {
                    Some(TimeBoundType::MaxTime)
                } else if same_text(tag.as_str(), "minTime") {
                    Some(TimeBoundType::MinTime)
                } else if same_text(tag.as_str(), "minMaxTime") {
                    Some(TimeBoundType::MinMaxTime)
                } else {
                    None
                }
            },
            _ => None,
        }
    }

    /// Reads the required member `key` of `j`.
    pub fn field_from_json(j: &Json, key: &str) -> (r: Option<TimeBoundType>)
        ensures
            r == TimeBoundType::parse_field(j@, key@),
    {
        match j.get(key) {
            Some(v) => Self::from_json(v),
            None => None,
        }
    }
}

/// The query for the earliest and the latest time of a data source. The member
/// `bound` is left out where both ends are asked for, which is what the engine
/// takes where it is not there; left out, it reads as both.
#[derive(Debug, PartialEq)]
pub struct TimeBoundary {
    pub data_source: DataSource,
    pub bound: TimeBoundType,
    pub filter: Option<Filter>,
    pub context: StringMap,
}

/// The mathematical model of a [`TimeBoundary`].
#[verifier::ext_equal]
pub struct TimeBoundaryModel {
    pub data_source: DataSourceModel,
    pub bound: TimeBoundType,
    pub filter: Option<FilterModel>,
    pub context: StringMapModel,
}

impl TimeBoundary {
    /// The mathematical model of this value.
    pub open spec fn model(self) -> TimeBoundaryModel
        decreases self,
    {
        TimeBoundaryModel {
            data_source: self.data_source.model(),
            bound: self.bound,
            filter: Filter::optional_model(self.filter),
            context: self.context@,
        }
    }
}

impl View for TimeBoundary {
    type V = TimeBoundaryModel;

    open spec fn view(&self) -> TimeBoundaryModel {
        self.model()
    }
}

impl TimeBoundaryModel {
    /// The wire form of this value.
    pub open spec fn wire(self) -> JsonModel
        decreases self,
    {
        if self.bound == TimeBoundType::MinMaxTime {
            JsonModel::Object(
                Seq::empty()
                    .push(("queryType"@, JsonModel::Str("timeBoundary"@)))
                    .push(("dataSource"@, self.data_source.wire()))
                    .push(("filter"@, FilterModel::wire_optional(self.filter)))
                    .push(("context"@, self.context.wire())),
            )
        } else {
            JsonModel::Object(
                Seq::empty()
                    .push(("queryType"@, JsonModel::Str("timeBoundary"@)))
                    .push(("dataSource"@, self.data_source.wire()))
                    .push(("bound"@, self.bound.wire()))
                    .push(("filter"@, FilterModel::wire_optional(self.filter)))
                    .push(("context"@, self.context.wire())),
            )
        }
    }

    /// What a JSON value reads as: `None` where it does not read as a value of
    /// this type. The members of an object are found by their names, in
    /// whatever order they stand, and members of other names are passed over.
    pub open spec fn parse(j: JsonModel) -> Option<TimeBoundaryModel>
        decreases j, 1int,
    {
        match (
            DataSourceModel::parse_field(j, "dataSource"@),
            (match j.optional("bound"@) {
                Some(v) => TimeBoundType::parse(v),
                None => Some(TimeBoundType::MinMaxTime),
            }),
            FilterModel::parse_optional_field(j, "filter"@),
            StringMapModel::parse_field(j, "context"@),
        ) {
            (Some(data_source), Some(bound), Some(filter), Some(context)) => Some(
                TimeBoundaryModel {
                    data_source,
                    bound,
                    filter,
                    context,
                },
            ),
            _ => None,
        }
    }

    /// The lengths and the letters that tell the names of this wire form apart.
    pub proof fn lemma_names()
        ensures
            "bound"@.len() == 5,
            "filter"@.len() == 6,
            "context"@.len() == 7,
            "queryType"@.len() == 9,
            "dataSource"@.len() == 10,
            "timeBoundary"@.len() == 12,
    {
        reveal_strlit("bound");
        reveal_strlit("filter");
        reveal_strlit("context");
        reveal_strlit("queryType");
        reveal_strlit("dataSource");
        reveal_strlit("timeBoundary");
    }

    /// Decoding the wire form of a value gives the value back.
    pub proof fn lemma_round_trip(self)
        ensures
            Self::parse(self.wire()) == Some(self),
        decreases self,
    {
        Self::lemma_names();
        reveal_with_fuel(JsonModel::find, 7);
        self.data_source.lemma_round_trip();
        self.bound.lemma_round_trip();
        FilterModel::lemma_round_trip_optional(self.filter);
        self.context.lemma_round_trip();
    }
}

impl TimeBoundary {
    /// The wire form of this value.
    pub fn to_json(&self) -> (j: Json)
        ensures
            j@ == self@.wire(),
            j@.field("queryType"@) == Some(JsonModel::Str("timeBoundary"@)),
        decreases self,
    {
        proof {
            reveal_with_fuel(JsonModel::find, 2);
        }
        let mut w = ObjectWriter::new();
        w.put("queryType", Json::text("timeBoundary"));
        w.put("dataSource", self.data_source.to_json());
        if !self.bound.is_both() {
            w.put("bound", self.bound.to_json());
        }
        w.put("filter", Filter::optional_to_json(&self.filter));
        w.put("context", self.context.to_json());
        w.finish()
    }

    /// Reads a value from JSON: `None` where `j` does not read as a value of
    /// this type.
    pub fn from_json(j: &Json) -> (r: Option<TimeBoundary>)
        ensures
            match r {
                Some(v) => TimeBoundaryModel::parse(j@) == Some(v@),
                None => TimeBoundaryModel::parse(j@) is None,
            },
        decreases j@, 1int,
    {
        let data_source = DataSource::field_from_json(j, "dataSource")?;
        let bound = match j.get_optional("bound") {
            Some(v) => TimeBoundType::from_json(v)?,
            None => TimeBoundType::MinMaxTime,
        };
        let filter = Filter::optional_field_from_json(j, "filter")?;
        let context = StringMap::field_from_json(j, "context")?;
        Some(TimeBoundary { data_source, bound, filter, context })
    }
}

} // verus!
