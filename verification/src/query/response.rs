//! The answers of the engine, read from JSON.
//!
//! The rows of an answer come in a type that the caller chooses. The library
//! reads the envelope and keeps each row as the JSON value that it came as.

use crate::json::{optional_text_view, text_views, Json, JsonModel};
use crate::query::{JsonAny, JsonAnyModel, JsonNumber, JsonNumberModel};
use crate::serialization::{default_for_null, present_or};
use crate::string_map::{StringMap, StringMapModel};
use vstd::prelude::*;

verus! {

/// An answer that carries the rows of one time.
#[derive(Debug, PartialEq)]
pub struct DruidListResponse<T> {
    pub timestamp: String,
    pub result: Vec<T>,
}

/// The mathematical model of a [`DruidListResponse`].
#[verifier::ext_equal]
pub struct DruidListResponseModel<R> {
    pub timestamp: Seq<char>,
    pub result: Seq<R>,
}

/// An answer that carries one value for one time.
#[derive(Debug, PartialEq)]
pub struct MetadataResponse<T> {
    pub timestamp: String,
    pub result: T,
}

/// The mathematical model of a [`MetadataResponse`].
#[verifier::ext_equal]
pub struct MetadataResponseModel<R> {
    pub timestamp: Seq<char>,
    pub result: R,
}

/// One row of the answer to a grouping query.
#[derive(Debug, PartialEq)]
pub struct GroupByResponse<T> {
    pub timestamp: String,
    pub event: T,
}

/// The mathematical model of a [`GroupByResponse`].
#[verifier::ext_equal]
pub struct GroupByResponseModel<R> {
    pub timestamp: Seq<char>,
    pub event: R,
}

/// The rows that a scan read from one segment.
#[derive(Debug, PartialEq)]
pub struct ScanResponse<T> {
    pub segment_id: String,
    pub columns: Vec<String>,
    pub events: Vec<T>,
}

/// The mathematical model of a [`ScanResponse`].
#[verifier::ext_equal]
pub struct ScanResponseModel<R> {
    pub segment_id: Seq<char>,
    pub columns: Seq<Seq<char>>,
    pub events: Seq<R>,
}

/// The answer to a topN query.
pub type TopNResponse<T> = DruidListResponse<T>;

/// The answer to a timeseries query.
pub type TimeseriesResponse<T> = MetadataResponse<T>;

/// The answer to a search query.
pub type SearchResponse = DruidListResponse<DimValue>;

/// The mathematical model of a [`SearchResponse`].
pub type SearchResponseModel = DruidListResponseModel<DimValueModel>;

/// The answer to a data source metadata query.
pub type DataSourceMetadataResponse = MetadataResponse<StringMap>;

/// The mathematical model of a [`DataSourceMetadataResponse`].
pub type DataSourceMetadataResponseModel = MetadataResponseModel<StringMapModel>;

/// A list answer whose rows are held as JSON, for the caller to read in a
/// type of its own.
pub type RawListResponse = DruidListResponse<Json>;

/// The mathematical model of a [`RawListResponse`].
pub type RawListResponseModel = DruidListResponseModel<JsonModel>;

/// A single-value answer whose value is held as JSON.
pub type RawMetadataResponse = MetadataResponse<Json>;

/// The mathematical model of a [`RawMetadataResponse`].
pub type RawMetadataResponseModel = MetadataResponseModel<JsonModel>;

/// A row of a grouping whose event is held as JSON.
pub type RawGroupByResponse = GroupByResponse<Json>;

/// The mathematical model of a [`RawGroupByResponse`].
pub type RawGroupByResponseModel = GroupByResponseModel<JsonModel>;

/// The rows of a scan, each held as JSON.
pub type RawScanResponse = ScanResponse<Json>;

/// The mathematical model of a [`RawScanResponse`].
pub type RawScanResponseModel = ScanResponseModel<JsonModel>;

/// One value that a search found, with the dimension it belongs to and the
/// number of rows that hold it.
#[derive(Debug, PartialEq)]
pub struct DimValue {
    pub dimension: String,
    pub value: JsonAny,
    pub count: usize,
}

/// The mathematical model of a [`DimValue`].
#[verifier::ext_equal]
pub struct DimValueModel {
    pub dimension: Seq<char>,
    pub value: JsonAnyModel,
    pub count: usize,
}

impl DimValue {
    /// The mathematical model of this value.
    pub open spec fn model(self) -> DimValueModel {
        DimValueModel {
            dimension: self.dimension@,
            value: self.value@,
            count: self.count,
        }
    }

    /// The models of a sequence of values.
    pub open spec fn models(items: Seq<DimValue>) -> Seq<DimValueModel> {
        Seq::new(items.len(), |i: int| items[i].model())
    }
}

impl View for DimValue {
    type V = DimValueModel;

    open spec fn view(&self) -> DimValueModel {
        self.model()
    }
}

impl DimValueModel {
    /// What a JSON value reads as: `None` where it does not read as a value of
    /// this type. The members of an object are found by their names, in
    /// whatever order they stand, and members of other names are passed over.
    pub open spec fn parse(j: JsonModel) -> Option<DimValueModel> {
        match (
            j.text_field("dimension"@),
            JsonAnyModel::parse_field(j, "value"@),
            j.usize_field("count"@),
        ) {
            (Some(dimension), Some(value), Some(count)) => Some(
                DimValueModel {
                    dimension,
                    value,
                    count,
                },
            ),
            _ => None,
        }
    }

    /// What the items of an array read as: `None` where one of them does not
    /// read.
    pub open spec fn parse_all(items: Seq<JsonModel>) -> Option<Seq<DimValueModel>> {
        if forall|i: int| 0 <= i < items.len() ==> Self::parse(#[trigger] items[i]) is Some {
            Some(Seq::new(items.len(), |i: int| Self::parse(items[i])->Some_0))
        } else {
            None
        }
    }

    /// What the required member `key` of `j` reads as where it is an array of
    /// values.
    pub open spec fn parse_all_field(j: JsonModel, key: Seq<char>) -> Option<Seq<DimValueModel>> {
        match j.field(key) {
            Some(JsonModel::Array(items)) => Self::parse_all(items),
            _ => None,
        }
    }
}

impl DimValue {
    /// Reads a value from JSON: `None` where `j` does not read as a value of
    /// this type.
    pub fn from_json(j: &Json) -> (r: Option<DimValue>)
        ensures
            match r {
                Some(v) => DimValueModel::parse(j@) == Some(v@),
                None => DimValueModel::parse(j@) is None,
            },
    {
        let dimension = j.text_field("dimension")?;
        let value = JsonAny::field_from_json(j, "value")?;
        let count = j.usize_field("count")?;
        Some(DimValue { dimension, value, count })
    }

    /// Reads the items of an array: `None` where one of them does not read.
    pub fn all_from_json(items: &Vec<Json>) -> (r: Option<Vec<DimValue>>)
        ensures
            match r {
                Some(v) => DimValueModel::parse_all(Json::models(items@))
                    == Some(DimValue::models(v@)),
                None => DimValueModel::parse_all(Json::models(items@)) is None,
            },
    {
        let mut out: Vec<DimValue> = Vec::new();
        let mut i: usize = 0;
        while i < items.len()
            invariant
                i <= items.len(),
                out@.len() == i,
                forall|k: int|
                    0 <= k < i ==>
                        DimValueModel::parse(#[trigger] Json::models(items@)[k]) == Some(out@[k]@),
            decreases items.len() - i,
        {
            match Self::from_json(&items[i]) {
                Some(v) => {
                    out.push(v);
                },
                None => {
                    assert(DimValueModel::parse(Json::models(items@)[i as int]) is None);
                    return None;
                },
            }
            i += 1;
        }
        proof {
            assert(DimValueModel::parse_all(Json::models(items@))->Some_0
                =~= DimValue::models(out@));
        }
        Some(out)
    }

    /// Reads the required member `key` of `j` where it is an array of values.
    pub fn all_field_from_json(j: &Json, key: &str) -> (r: Option<Vec<DimValue>>)
        ensures
            match r {
                Some(v) => DimValueModel::parse_all_field(j@, key@) == Some(DimValue::models(v@)),
                None => DimValueModel::parse_all_field(j@, key@) is None,
            },
    {
        match j.get(key) {
            Some(Json::Array(items)) => Self::all_from_json(items),
            _ => None,
        }
    }
}

/// The earliest and the latest time of a data source, as far as they were asked
/// for.
#[derive(Debug, PartialEq)]
pub struct MinMaxTime {
    pub max_time: Option<String>,
    pub min_time: Option<String>,
}

/// The mathematical model of a [`MinMaxTime`].
#[verifier::ext_equal]
pub struct MinMaxTimeModel {
    pub max_time: Option<Seq<char>>,
    pub min_time: Option<Seq<char>>,
}

impl MinMaxTime {
    /// The mathematical model of this value.
    pub open spec fn model(self) -> MinMaxTimeModel {
        MinMaxTimeModel {
            max_time: optional_text_view(self.max_time),
            min_time: optional_text_view(self.min_time),
        }
    }
}

impl View for MinMaxTime {
    type V = MinMaxTimeModel;

    open spec fn view(&self) -> MinMaxTimeModel {
        self.model()
    }
}

impl MinMaxTimeModel {
    /// What a JSON value reads as: `None` where it does not read as a value of
    /// this type. The members of an object are found by their names, in
    /// whatever order they stand, and members of other names are passed over.
    pub open spec fn parse(j: JsonModel) -> Option<MinMaxTimeModel> {
        match (
            j.optional_text_field("maxTime"@),
            j.optional_text_field("minTime"@),
        ) {
            (Some(max_time), Some(min_time)) => Some(MinMaxTimeModel { max_time, min_time }),
            _ => None,
        }
    }

    /// What the required member `key` of `j` reads as.
    pub open spec fn parse_field(j: JsonModel, key: Seq<char>) -> Option<MinMaxTimeModel> {
        match j.field(key) {
            Some(v) => Self::parse(v),
            None => None,
        }
    }
}

impl MinMaxTime {
    /// Reads a value from JSON: `None` where `j` does not read as a value of
    /// this type.
    pub fn from_json(j: &Json) -> (r: Option<MinMaxTime>)
        ensures
            match r {
                Some(v) => MinMaxTimeModel::parse(j@) == Some(v@),
                None => MinMaxTimeModel::parse(j@) is None,
            },
    {
        let max_time = j.optional_text_field("maxTime")?;
        let min_time = j.optional_text_field("minTime")?;
        Some(MinMaxTime { max_time, min_time })
    }

    /// Reads the required member `key` of `j`.
    pub fn field_from_json(j: &Json, key: &str) -> (r: Option<MinMaxTime>)
        ensures
            match r {
                Some(v) => MinMaxTimeModel::parse_field(j@, key@) == Some(v@),
                None => MinMaxTimeModel::parse_field(j@, key@) is None,
            },
    {
        match j.get(key) {
            Some(v) => Self::from_json(v),
            None => None,
        }
    }
}

/// The answer to a time boundary query.
#[derive(Debug, PartialEq)]
pub struct TimeBoundaryResponse {
    pub timestamp: String,
    pub result: MinMaxTime,
}

/// The mathematical model of a [`TimeBoundaryResponse`].
#[verifier::ext_equal]
pub struct TimeBoundaryResponseModel {
    pub timestamp: Seq<char>,
    pub result: MinMaxTimeModel,
}

impl TimeBoundaryResponse {
    /// The mathematical model of this value.
    pub open spec fn model(self) -> TimeBoundaryResponseModel {
        TimeBoundaryResponseModel {
            timestamp: self.timestamp@,
            result: self.result.model(),
        }
    }

    /// The models of a sequence of values.
    pub open spec fn models(items: Seq<TimeBoundaryResponse>) -> Seq<TimeBoundaryResponseModel> {
        Seq::new(items.len(), |i: int| items[i].model())
    }
}

impl View for TimeBoundaryResponse {
    type V = TimeBoundaryResponseModel;

    open spec fn view(&self) -> TimeBoundaryResponseModel {
        self.model()
    }
}

impl TimeBoundaryResponseModel {
    /// What a JSON value reads as: `None` where it does not read as a value of
    /// this type. The members of an object are found by their names, in
    /// whatever order they stand, and members of other names are passed over.
    pub open spec fn parse(j: JsonModel) -> Option<TimeBoundaryResponseModel> {
        match (
            j.text_field("timestamp"@),
            MinMaxTimeModel::parse_field(j, "result"@),
        ) {
            (Some(timestamp), Some(result)) => Some(
                TimeBoundaryResponseModel {
                    timestamp,
                    result,
                },
            ),
            _ => None,
        }
    }

    /// What the items of an array read as: `None` where one of them does not
    /// read.
    pub open spec fn parse_all(items: Seq<JsonModel>) -> Option<Seq<TimeBoundaryResponseModel>> {
        if forall|i: int| 0 <= i < items.len() ==> Self::parse(#[trigger] items[i]) is Some {
            Some(Seq::new(items.len(), |i: int| Self::parse(items[i])->Some_0))
        } else {
            None
        }
    }

    /// What a whole reply reads as: the values that the items of an array read
    /// as, and `None` where the reply is no array or one of its items does not
    /// read.
    pub open spec fn parse_list(j: JsonModel) -> Option<Seq<TimeBoundaryResponseModel>> {
        match j {
            JsonModel::Array(items) => Self::parse_all(items),
            _ => None,
        }
    }
}

impl TimeBoundaryResponse {
    /// Reads a value from JSON: `None` where `j` does not read as a value of
    /// this type.
    pub fn from_json(j: &Json) -> (r: Option<TimeBoundaryResponse>)
        ensures
            match r {
                Some(v) => TimeBoundaryResponseModel::parse(j@) == Some(v@),
                None => TimeBoundaryResponseModel::parse(j@) is None,
            },
    {
        let timestamp = j.text_field("timestamp")?;
        let result = MinMaxTime::field_from_json(j, "result")?;
        Some(TimeBoundaryResponse { timestamp, result })
    }

    /// Reads the items of an array: `None` where one of them does not read.
    pub fn all_from_json(items: &Vec<Json>) -> (r: Option<Vec<TimeBoundaryResponse>>)
        ensures
            match r {
                Some(v) => TimeBoundaryResponseModel::parse_all(Json::models(items@))
                    == Some(TimeBoundaryResponse::models(v@)),
                None => TimeBoundaryResponseModel::parse_all(Json::models(items@)) is None,
            },
    {
        let mut out: Vec<TimeBoundaryResponse> = Vec::new();
        let mut i: usize = 0;
        while i < items.len()
            invariant
                i <= items.len(),
                out@.len() == i,
                forall|k: int|
                    0 <= k < i ==>
                        TimeBoundaryResponseModel::parse(#[trigger] Json::models(items@)[k])
                            == Some(out@[k]@),
            decreases items.len() - i,
        {
            match Self::from_json(&items[i]) {
                Some(v) => {
                    out.push(v);
                },
                None => {
                    assert(TimeBoundaryResponseModel::parse(Json::models(items@)[i as int])
                        is None);
                    return None;
                },
            }
            i += 1;
        }
        proof {
            assert(TimeBoundaryResponseModel::parse_all(Json::models(items@))->Some_0
                =~= TimeBoundaryResponse::models(out@));
        }
        Some(out)
    }

    /// Reads a whole reply: an array of values of this type.
    pub fn list_from_json(j: &Json) -> (r: Option<Vec<TimeBoundaryResponse>>)
        ensures
            match r {
                Some(v) => TimeBoundaryResponseModel::parse_list(j@)
                    == Some(TimeBoundaryResponse::models(v@)),
                None => TimeBoundaryResponseModel::parse_list(j@) is None,
            },
    {
        match j {
            Json::Array(items) => Self::all_from_json(items),
            _ => None,
        }
    }
}

/// What a segment metadata query reports on one column.
#[derive(Debug, PartialEq)]
pub struct ColumnDefinition {
    pub column_type: String,
    pub has_multiple_values: bool,
    pub size: usize,
    pub cardinality: Option<JsonNumber>,
    pub min_value: Option<JsonAny>,
    pub max_value: Option<JsonAny>,
    pub error_message: Option<String>,
}

/// The mathematical model of a [`ColumnDefinition`].
#[verifier::ext_equal]
pub struct ColumnDefinitionModel {
    pub column_type: Seq<char>,
    pub has_multiple_values: bool,
    pub size: usize,
    pub cardinality: Option<JsonNumberModel>,
    pub min_value: Option<JsonAnyModel>,
    pub max_value: Option<JsonAnyModel>,
    pub error_message: Option<Seq<char>>,
}

impl ColumnDefinition {
    /// The mathematical model of this value.
    pub open spec fn model(self) -> ColumnDefinitionModel {
        ColumnDefinitionModel {
            column_type: self.column_type@,
            has_multiple_values: self.has_multiple_values,
            size: self.size,
            cardinality: JsonNumber::optional_model(self.cardinality),
            min_value: JsonAny::optional_model(self.min_value),
            max_value: JsonAny::optional_model(self.max_value),
            error_message: optional_text_view(self.error_message),
        }
    }
}

impl View for ColumnDefinition {
    type V = ColumnDefinitionModel;

    open spec fn view(&self) -> ColumnDefinitionModel {
        self.model()
    }
}

impl ColumnDefinitionModel {
    /// What a JSON value reads as: `None` where it does not read as a value of
    /// this type. The members of an object are found by their names, in
    /// whatever order they stand, and members of other names are passed over.
    pub open spec fn parse(j: JsonModel) -> Option<ColumnDefinitionModel> {
        match (
            j.text_field("type"@),
            j.bool_field("hasMultipleValues"@),
            j.usize_field("size"@),
            JsonNumberModel::parse_optional_field(j, "cardinality"@),
            JsonAnyModel::parse_optional_field(j, "minValue"@),
            JsonAnyModel::parse_optional_field(j, "maxValue"@),
            j.optional_text_field("errorMessage"@),
        ) {
            (
                Some(column_type),
                Some(has_multiple_values),
                Some(size),
                Some(cardinality),
                Some(min_value),
                Some(max_value),
                Some(error_message),
            ) => Some(
                ColumnDefinitionModel {
                    column_type,
                    has_multiple_values,
                    size,
                    cardinality,
                    min_value,
                    max_value,
                    error_message,
                },
            ),
            _ => None,
        }
    }

    /// What the members of an object read as where each of them holds a value
    /// of this type: `None` where `j` is no object or one of its members does
    /// not read.
    pub open spec fn parse_entries(
        j: JsonModel,
    ) -> Option<Seq<(Seq<char>, ColumnDefinitionModel)>> {
        match j {
            JsonModel::Object(members) => if forall|i: int|
                0 <= i < members.len() ==> Self::parse((#[trigger] members[i]).1) is Some {
                Some(
                    Seq::new(
                        members.len(),
                        |i: int| (members[i].0, Self::parse(members[i].1)->Some_0),
                    ),
                )
            } else {
                None
            },
            _ => None,
        }
    }
}

impl ColumnDefinition {
    /// Reads a value from JSON: `None` where `j` does not read as a value of
    /// this type.
    pub fn from_json(j: &Json) -> (r: Option<ColumnDefinition>)
        ensures
            match r {
                Some(v) => ColumnDefinitionModel::parse(j@) == Some(v@),
                None => ColumnDefinitionModel::parse(j@) is None,
            },
    {
        let column_type = j.text_field("type")?;
        let has_multiple_values = j.bool_field("hasMultipleValues")?;
        let size = j.usize_field("size")?;
        let cardinality = JsonNumber::optional_field_from_json(j, "cardinality")?;
        let min_value = JsonAny::optional_field_from_json(j, "minValue")?;
        let max_value = JsonAny::optional_field_from_json(j, "maxValue")?;
        let error_message = j.optional_text_field("errorMessage")?;
        Some(ColumnDefinition {
            column_type,
            has_multiple_values,
            size,
            cardinality,
            min_value,
            max_value,
            error_message,
        })
    }

    /// The models of the members of an object.
    pub open spec fn entry_models(
        entries: Seq<(String, ColumnDefinition)>,
    ) -> Seq<(Seq<char>, ColumnDefinitionModel)> {
        Seq::new(entries.len(), |i: int| (entries[i].0@, entries[i].1@))
    }

    /// Reads the members of an object where each of them holds a value of this
    /// type.
    pub fn entries_from_json(j: &Json) -> (r: Option<Vec<(String, ColumnDefinition)>>)
        ensures
            match r {
                Some(v) => ColumnDefinitionModel::parse_entries(j@)
                    == Some(ColumnDefinition::entry_models(v@)),
                None => ColumnDefinitionModel::parse_entries(j@) is None,
            },
    {
        match j {
            Json::Object(members) => {
                let mut out: Vec<(String, ColumnDefinition)> = Vec::new();
                let mut i: usize = 0;
                while i < members.len()
                    invariant
                        i <= members.len(),
                        out@.len() == i,
                        j@ == JsonModel::Object(Json::member_models(members@)),
                        forall|k: int|
                            0 <= k < i ==> {
                                &&& (#[trigger] Json::member_models(members@)[k]).0 == out@[k].0@
                                &&& ColumnDefinitionModel::parse(Json::member_models(members@)[k].1)
                                    == Some(out@[k].1@)
                            },
                    decreases members.len() - i,
                {
                    match ColumnDefinition::from_json(&members[i].1) {
                        Some(v) => {
                            out.push((members[i].0.clone(), v));
                        },
                        None => {
                            proof {
                                let member = Json::member_models(members@)[i as int];
                                assert(ColumnDefinitionModel::parse(member.1) is None);
                            }
                            return None;
                        },
                    }
                    i += 1;
                }
                proof {
                    let all = Json::member_models(members@);
                    assert(forall|k: int|
                        0 <= k < all.len() ==>
                            ColumnDefinitionModel::parse((#[trigger] all[k]).1) is Some);
                    assert(ColumnDefinitionModel::parse_entries(j@)->Some_0
                        =~= ColumnDefinition::entry_models(out@));
                }
                Some(out)
            },
            _ => None,
        }
    }
}

/// What a segment metadata query reports on one aggregator.
#[derive(Debug, PartialEq)]
pub struct AggregatorDefinition {
    pub aggr_type: String,
    pub name: String,
    pub field_name: String,
    pub expression: Option<String>,
}

/// The mathematical model of a [`AggregatorDefinition`].
#[verifier::ext_equal]
pub struct AggregatorDefinitionModel {
    pub aggr_type: Seq<char>,
    pub name: Seq<char>,
    pub field_name: Seq<char>,
    pub expression: Option<Seq<char>>,
}

impl AggregatorDefinition {
    /// The mathematical model of this value.
    pub open spec fn model(self) -> AggregatorDefinitionModel {
        AggregatorDefinitionModel {
            aggr_type: self.aggr_type@,
            name: self.name@,
            field_name: self.field_name@,
            expression: optional_text_view(self.expression),
        }
    }
}

impl View for AggregatorDefinition {
    type V = AggregatorDefinitionModel;

    open spec fn view(&self) -> AggregatorDefinitionModel {
        self.model()
    }
}

impl AggregatorDefinitionModel {
    /// What a JSON value reads as: `None` where it does not read as a value of
    /// this type. The members of an object are found by their names, in
    /// whatever order they stand, and members of other names are passed over.
    pub open spec fn parse(j: JsonModel) -> Option<AggregatorDefinitionModel> {
        match (
            j.text_field("type"@),
            j.text_field("name"@),
            j.text_field("fieldName"@),
            j.optional_text_field("expression"@),
        ) {
            (Some(aggr_type), Some(name), Some(field_name), Some(expression)) => Some(
                AggregatorDefinitionModel {
                    aggr_type,
                    name,
                    field_name,
                    expression,
                },
            ),
            _ => None,
        }
    }

    /// What the members of an object read as where each of them holds a value
    /// of this type: `None` where `j` is no object or one of its members does
    /// not read.
    pub open spec fn parse_entries(
        j: JsonModel,
    ) -> Option<Seq<(Seq<char>, AggregatorDefinitionModel)>> {
        match j {
            JsonModel::Object(members) => if forall|i: int|
                0 <= i < members.len() ==> Self::parse((#[trigger] members[i]).1) is Some {
                Some(
                    Seq::new(
                        members.len(),
                        |i: int| (members[i].0, Self::parse(members[i].1)->Some_0),
                    ),
                )
            } else {
                None
            },
            _ => None,
        }
    }
}

impl AggregatorDefinition {
    /// Reads a value from JSON: `None` where `j` does not read as a value of
    /// this type.
    pub fn from_json(j: &Json) -> (r: Option<AggregatorDefinition>)
        ensures
            match r {
                Some(v) => AggregatorDefinitionModel::parse(j@) == Some(v@),
                None => AggregatorDefinitionModel::parse(j@) is None,
            },
    {
        let aggr_type = j.text_field("type")?;
        let name = j.text_field("name")?;
        let field_name = j.text_field("fieldName")?;
        let expression = j.optional_text_field("expression")?;
        Some(AggregatorDefinition { aggr_type, name, field_name, expression })
    }

    /// The models of the members of an object.
    pub open spec fn entry_models(
        entries: Seq<(String, AggregatorDefinition)>,
    ) -> Seq<(Seq<char>, AggregatorDefinitionModel)> {
        Seq::new(entries.len(), |i: int| (entries[i].0@, entries[i].1@))
    }

    /// Reads the members of an object where each of them holds a value of this
    /// type.
    pub fn entries_from_json(j: &Json) -> (r: Option<Vec<(String, AggregatorDefinition)>>)
        ensures
            match r {
                Some(v) => AggregatorDefinitionModel::parse_entries(j@)
                    == Some(AggregatorDefinition::entry_models(v@)),
                None => AggregatorDefinitionModel::parse_entries(j@) is None,
            },
    {
        match j {
            Json::Object(members) => {
                let mut out: Vec<(String, AggregatorDefinition)> = Vec::new();
                let mut i: usize = 0;
                while i < members.len()
                    invariant
                        i <= members.len(),
                        out@.len() == i,
                        j@ == JsonModel::Object(Json::member_models(members@)),
                        forall|k: int|
                            0 <= k < i ==> {
                                &&& (#[trigger] Json::member_models(members@)[k]).0 == out@[k].0@
                                &&& AggregatorDefinitionModel::parse(
                                    Json::member_models(members@)[k].1,
                                )
                                    == Some(out@[k].1@)
                            },
                    decreases members.len() - i,
                {
                    match AggregatorDefinition::from_json(&members[i].1) {
                        Some(v) => {
                            out.push((members[i].0.clone(), v));
                        },
                        None => {
                            proof {
                                let member = Json::member_models(members@)[i as int];
                                assert(AggregatorDefinitionModel::parse(member.1) is None);
                            }
                            return None;
                        },
                    }
                    i += 1;
                }
                proof {
                    let all = Json::member_models(members@);
                    assert(forall|k: int|
                        0 <= k < all.len() ==>
                            AggregatorDefinitionModel::parse((#[trigger] all[k]).1) is Some);
                    assert(AggregatorDefinitionModel::parse_entries(j@)->Some_0
                        =~= AggregatorDefinition::entry_models(out@));
                }
                Some(out)
            },
            _ => None,
        }
    }
}

/// How the time of a row is read from the data.
#[derive(Debug, PartialEq)]
pub struct TimestampSpec {
    pub column: String,
    pub format: String,
    pub missing_value: Option<String>,
}

/// The mathematical model of a [`TimestampSpec`].
#[verifier::ext_equal]
pub struct TimestampSpecModel {
    pub column: Seq<char>,
    pub format: Seq<char>,
    pub missing_value: Option<Seq<char>>,
}

impl TimestampSpec {
    /// The mathematical model of this value.
    pub open spec fn model(self) -> TimestampSpecModel {
        TimestampSpecModel {
            column: self.column@,
            format: self.format@,
            missing_value: optional_text_view(self.missing_value),
        }
    }
}

impl View for TimestampSpec {
    type V = TimestampSpecModel;

    open spec fn view(&self) -> TimestampSpecModel {
        self.model()
    }
}

impl TimestampSpecModel {
    /// What a JSON value reads as: `None` where it does not read as a value of
    /// this type. The members of an object are found by their names, in
    /// whatever order they stand, and members of other names are passed over.
    pub open spec fn parse(j: JsonModel) -> Option<TimestampSpecModel> {
        match (
            j.text_field("column"@),
            j.text_field("format"@),
            j.optional_text_field("missingValue"@),
        ) {
            (Some(column), Some(format), Some(missing_value)) => Some(
                TimestampSpecModel {
                    column,
                    format,
                    missing_value,
                },
            ),
            _ => None,
        }
    }

    /// What the required member `key` of `j` reads as.
    pub open spec fn parse_field(j: JsonModel, key: Seq<char>) -> Option<TimestampSpecModel> {
        match j.field(key) {
            Some(v) => Self::parse(v),
            None => None,
        }
    }
}

impl TimestampSpec {
    /// Reads a value from JSON: `None` where `j` does not read as a value of
    /// this type.
    pub fn from_json(j: &Json) -> (r: Option<TimestampSpec>)
        ensures
            match r {
                Some(v) => TimestampSpecModel::parse(j@) == Some(v@),
                None => TimestampSpecModel::parse(j@) is None,
            },
    {
        let column = j.text_field("column")?;
        let format = j.text_field("format")?;
        let missing_value = j.optional_text_field("missingValue")?;
        Some(TimestampSpec { column, format, missing_value })
    }

    /// Reads the required member `key` of `j`.
    pub fn field_from_json(j: &Json, key: &str) -> (r: Option<TimestampSpec>)
        ensures
            match r {
                Some(v) => TimestampSpecModel::parse_field(j@, key@) == Some(v@),
                None => TimestampSpecModel::parse_field(j@, key@) is None,
            },
    {
        match j.get(key) {
            Some(v) => Self::from_json(v),
            None => None,
        }
    }
}

impl RawListResponse {
    /// The mathematical model of this value.
    pub open spec fn model(self) -> RawListResponseModel {
        RawListResponseModel {
            timestamp: self.timestamp@,
            result: Json::models(self.result@),
        }
    }

    /// The models of a sequence of values.
    pub open spec fn models(items: Seq<RawListResponse>) -> Seq<RawListResponseModel> {
        Seq::new(items.len(), |i: int| items[i].model())
    }
}

impl View for RawListResponse {
    type V = RawListResponseModel;

    open spec fn view(&self) -> RawListResponseModel {
        self.model()
    }
}

impl RawListResponseModel {
    /// What a JSON value reads as: `None` where it does not read as a value of
    /// this type. The members of an object are found by their names, in
    /// whatever order they stand, and members of other names are passed over.
    pub open spec fn parse(j: JsonModel) -> Option<RawListResponseModel> {
        match (
            j.text_field("timestamp"@),
            j.array_field("result"@),
        ) {
            (Some(timestamp), Some(result)) => Some(RawListResponseModel { timestamp, result }),
            _ => None,
        }
    }

    /// What the items of an array read as: `None` where one of them does not
    /// read.
    pub open spec fn parse_all(items: Seq<JsonModel>) -> Option<Seq<RawListResponseModel>> {
        if forall|i: int| 0 <= i < items.len() ==> Self::parse(#[trigger] items[i]) is Some {
            Some(Seq::new(items.len(), |i: int| Self::parse(items[i])->Some_0))
        } else {
            None
        }
    }

    /// What a whole reply reads as: the values that the items of an array read
    /// as, and `None` where the reply is no array or one of its items does not
    /// read.
    pub open spec fn parse_list(j: JsonModel) -> Option<Seq<RawListResponseModel>> {
        match j {
            JsonModel::Array(items) => Self::parse_all(items),
            _ => None,
        }
    }
}

impl RawListResponse {
    /// Reads a value from JSON: `None` where `j` does not read as a value of
    /// this type.
    pub fn from_json(j: &Json) -> (r: Option<RawListResponse>)
        ensures
            match r {
                Some(v) => RawListResponseModel::parse(j@) == Some(v@),
                None => RawListResponseModel::parse(j@) is None,
            },
    {
        let timestamp = j.text_field("timestamp")?;
        let result = j.array_field("result")?;
        Some(RawListResponse { timestamp, result })
    }

    /// Reads the items of an array: `None` where one of them does not read.
    pub fn all_from_json(items: &Vec<Json>) -> (r: Option<Vec<RawListResponse>>)
        ensures
            match r {
                Some(v) => RawListResponseModel::parse_all(Json::models(items@))
                    == Some(RawListResponse::models(v@)),
                None => RawListResponseModel::parse_all(Json::models(items@)) is None,
            },
    {
        let mut out: Vec<RawListResponse> = Vec::new();
        let mut i: usize = 0;
        while i < items.len()
            invariant
                i <= items.len(),
                out@.len() == i,
                forall|k: int|
                    0 <= k < i ==>
                        RawListResponseModel::parse(#[trigger] Json::models(items@)[k])
                            == Some(out@[k]@),
            decreases items.len() - i,
        {
            match Self::from_json(&items[i]) {
                Some(v) => {
                    out.push(v);
                },
                None => {
                    assert(RawListResponseModel::parse(Json::models(items@)[i as int]) is None);
                    return None;
                },
            }
            i += 1;
        }
        proof {
            assert(RawListResponseModel::parse_all(Json::models(items@))->Some_0
                =~= RawListResponse::models(out@));
        }
        Some(out)
    }

    /// Reads a whole reply: an array of values of this type.
    pub fn list_from_json(j: &Json) -> (r: Option<Vec<RawListResponse>>)
        ensures
            match r {
                Some(v) => RawListResponseModel::parse_list(j@)
                    == Some(RawListResponse::models(v@)),
                None => RawListResponseModel::parse_list(j@) is None,
            },
    {
        match j {
            Json::Array(items) => Self::all_from_json(items),
            _ => None,
        }
    }
}

impl SearchResponse {
    /// The mathematical model of this value.
    pub open spec fn model(self) -> SearchResponseModel {
        SearchResponseModel {
            timestamp: self.timestamp@,
            result: DimValue::models(self.result@),
        }
    }

    /// The models of a sequence of values.
    pub open spec fn models(items: Seq<SearchResponse>) -> Seq<SearchResponseModel> {
        Seq::new(items.len(), |i: int| items[i].model())
    }
}

impl View for SearchResponse {
    type V = SearchResponseModel;

    open spec fn view(&self) -> SearchResponseModel {
        self.model()
    }
}

impl SearchResponseModel {
    /// What a JSON value reads as: `None` where it does not read as a value of
    /// this type. The members of an object are found by their names, in
    /// whatever order they stand, and members of other names are passed over.
    pub open spec fn parse(j: JsonModel) -> Option<SearchResponseModel> {
        match (
            j.text_field("timestamp"@),
            DimValueModel::parse_all_field(j, "result"@),
        ) {
            (Some(timestamp), Some(result)) => Some(SearchResponseModel { timestamp, result }),
            _ => None,
        }
    }

    /// What the items of an array read as: `None` where one of them does not
    /// read.
    pub open spec fn parse_all(items: Seq<JsonModel>) -> Option<Seq<SearchResponseModel>> {
        if forall|i: int| 0 <= i < items.len() ==> Self::parse(#[trigger] items[i]) is Some {
            Some(Seq::new(items.len(), |i: int| Self::parse(items[i])->Some_0))
        } else {
            None
        }
    }

    /// What a whole reply reads as: the values that the items of an array read
    /// as, and `None` where the reply is no array or one of its items does not
    /// read.
    pub open spec fn parse_list(j: JsonModel) -> Option<Seq<SearchResponseModel>> {
        match j {
            JsonModel::Array(items) => Self::parse_all(items),
            _ => None,
        }
    }
}

impl SearchResponse {
    /// Reads a value from JSON: `None` where `j` does not read as a value of
    /// this type.
    pub fn from_json(j: &Json) -> (r: Option<SearchResponse>)
        ensures
            match r {
                Some(v) => SearchResponseModel::parse(j@) == Some(v@),
                None => SearchResponseModel::parse(j@) is None,
            },
    {
        let timestamp = j.text_field("timestamp")?;
        let result = DimValue::all_field_from_json(j, "result")?;
        Some(SearchResponse { timestamp, result })
    }

    /// Reads the items of an array: `None` where one of them does not read.
    pub fn all_from_json(items: &Vec<Json>) -> (r: Option<Vec<SearchResponse>>)
        ensures
            match r {
                Some(v) => SearchResponseModel::parse_all(Json::models(items@))
                    == Some(SearchResponse::models(v@)),
                None => SearchResponseModel::parse_all(Json::models(items@)) is None,
            },
    {
        let mut out: Vec<SearchResponse> = Vec::new();
        let mut i: usize = 0;
        while i < items.len()
            invariant
                i <= items.len(),
                out@.len() == i,
                forall|k: int|
                    0 <= k < i ==>
                        SearchResponseModel::parse(#[trigger] Json::models(items@)[k])
                            == Some(out@[k]@),
            decreases items.len() - i,
        {
            match Self::from_json(&items[i]) {
                Some(v) => {
                    out.push(v);
                },
                None => {
                    assert(SearchResponseModel::parse(Json::models(items@)[i as int]) is None);
                    return None;
                },
            }
            i += 1;
        }
        proof {
            assert(SearchResponseModel::parse_all(Json::models(items@))->Some_0
                =~= SearchResponse::models(out@));
        }
        Some(out)
    }

    /// Reads a whole reply: an array of values of this type.
    pub fn list_from_json(j: &Json) -> (r: Option<Vec<SearchResponse>>)
        ensures
            match r {
                Some(v) => SearchResponseModel::parse_list(j@) == Some(SearchResponse::models(v@)),
                None => SearchResponseModel::parse_list(j@) is None,
            },
    {
        match j {
            Json::Array(items) => Self::all_from_json(items),
            _ => None,
        }
    }
}

impl RawMetadataResponse {
    /// The mathematical model of this value.
    pub open spec fn model(self) -> RawMetadataResponseModel {
        RawMetadataResponseModel {
            timestamp: self.timestamp@,
            result: self.result@,
        }
    }

    /// The models of a sequence of values.
    pub open spec fn models(items: Seq<RawMetadataResponse>) -> Seq<RawMetadataResponseModel> {
        Seq::new(items.len(), |i: int| items[i].model())
    }
}

impl View for RawMetadataResponse {
    type V = RawMetadataResponseModel;

    open spec fn view(&self) -> RawMetadataResponseModel {
        self.model()
    }
}

impl RawMetadataResponseModel {
    /// What a JSON value reads as: `None` where it does not read as a value of
    /// this type. The members of an object are found by their names, in
    /// whatever order they stand, and members of other names are passed over.
    pub open spec fn parse(j: JsonModel) -> Option<RawMetadataResponseModel> {
        match (
            j.text_field("timestamp"@),
            j.field("result"@),
        ) {
            (Some(timestamp), Some(result)) => Some(RawMetadataResponseModel { timestamp, result }),
            _ => None,
        }
    }

    /// What the items of an array read as: `None` where one of them does not
    /// read.
    pub open spec fn parse_all(items: Seq<JsonModel>) -> Option<Seq<RawMetadataResponseModel>> {
        if forall|i: int| 0 <= i < items.len() ==> Self::parse(#[trigger] items[i]) is Some {
            Some(Seq::new(items.len(), |i: int| Self::parse(items[i])->Some_0))
        } else {
            None
        }
    }

    /// What a whole reply reads as: the values that the items of an array read
    /// as, and `None` where the reply is no array or one of its items does not
    /// read.
    pub open spec fn parse_list(j: JsonModel) -> Option<Seq<RawMetadataResponseModel>> {
        match j {
            JsonModel::Array(items) => Self::parse_all(items),
            _ => None,
        }
    }
}

impl RawMetadataResponse {
    /// Reads a value from JSON: `None` where `j` does not read as a value of
    /// this type.
    pub fn from_json(j: &Json) -> (r: Option<RawMetadataResponse>)
        ensures
            match r {
                Some(v) => RawMetadataResponseModel::parse(j@) == Some(v@),
                None => RawMetadataResponseModel::parse(j@) is None,
            },
    {
        let timestamp = j.text_field("timestamp")?;
        let result = j.field_duplicate("result")?;
        Some(RawMetadataResponse { timestamp, result })
    }

    /// Reads the items of an array: `None` where one of them does not read.
    pub fn all_from_json(items: &Vec<Json>) -> (r: Option<Vec<RawMetadataResponse>>)
        ensures
            match r {
                Some(v) => RawMetadataResponseModel::parse_all(Json::models(items@))
                    == Some(RawMetadataResponse::models(v@)),
                None => RawMetadataResponseModel::parse_all(Json::models(items@)) is None,
            },
    {
        let mut out: Vec<RawMetadataResponse> = Vec::new();
        let mut i: usize = 0;
        while i < items.len()
            invariant
                i <= items.len(),
                out@.len() == i,
                forall|k: int|
                    0 <= k < i ==>
                        RawMetadataResponseModel::parse(#[trigger] Json::models(items@)[k])
                            == Some(out@[k]@),
            decreases items.len() - i,
        {
            match Self::from_json(&items[i]) {
                Some(v) => {
                    out.push(v);
                },
                None => {
                    assert(RawMetadataResponseModel::parse(Json::models(items@)[i as int]) is None);
                    return None;
                },
            }
            i += 1;
        }
        proof {
            assert(RawMetadataResponseModel::parse_all(Json::models(items@))->Some_0
                =~= RawMetadataResponse::models(out@));
        }
        Some(out)
    }

    /// Reads a whole reply: an array of values of this type.
    pub fn list_from_json(j: &Json) -> (r: Option<Vec<RawMetadataResponse>>)
        ensures
            match r {
                Some(v) => RawMetadataResponseModel::parse_list(j@)
                    == Some(RawMetadataResponse::models(v@)),
                None => RawMetadataResponseModel::parse_list(j@) is None,
            },
    {
        match j {
            Json::Array(items) => Self::all_from_json(items),
            _ => None,
        }
    }
}

impl DataSourceMetadataResponse {
    /// The mathematical model of this value.
    pub open spec fn model(self) -> DataSourceMetadataResponseModel {
        DataSourceMetadataResponseModel {
            timestamp: self.timestamp@,
            result: self.result@,
        }
    }

    /// The models of a sequence of values.
    pub open spec fn models(
        items: Seq<DataSourceMetadataResponse>,
    ) -> Seq<DataSourceMetadataResponseModel>
    {
        Seq::new(items.len(), |i: int| items[i].model())
    }
}

impl View for DataSourceMetadataResponse {
    type V = DataSourceMetadataResponseModel;

    open spec fn view(&self) -> DataSourceMetadataResponseModel {
        self.model()
    }
}

impl DataSourceMetadataResponseModel {
    /// What a JSON value reads as: `None` where it does not read as a value of
    /// this type. The members of an object are found by their names, in
    /// whatever order they stand, and members of other names are passed over.
    pub open spec fn parse(j: JsonModel) -> Option<DataSourceMetadataResponseModel> {
        match (
            j.text_field("timestamp"@),
            StringMapModel::parse_field(j, "result"@),
        ) {
            (Some(timestamp), Some(result)) => Some(
                DataSourceMetadataResponseModel {
                    timestamp,
                    result,
                },
            ),
            _ => None,
        }
    }

    /// What the items of an array read as: `None` where one of them does not
    /// read.
    pub open spec fn parse_all(
        items: Seq<JsonModel>,
    ) -> Option<Seq<DataSourceMetadataResponseModel>>
    {
        if forall|i: int| 0 <= i < items.len() ==> Self::parse(#[trigger] items[i]) is Some {
            Some(Seq::new(items.len(), |i: int| Self::parse(items[i])->Some_0))
        } else {
            None
        }
    }

    /// What a whole reply reads as: the values that the items of an array read
    /// as, and `None` where the reply is no array or one of its items does not
    /// read.
    pub open spec fn parse_list(j: JsonModel) -> Option<Seq<DataSourceMetadataResponseModel>> {
        match j {
            JsonModel::Array(items) => Self::parse_all(items),
            _ => None,
        }
    }
}

impl DataSourceMetadataResponse {
    /// Reads a value from JSON: `None` where `j` does not read as a value of
    /// this type.
    pub fn from_json(j: &Json) -> (r: Option<DataSourceMetadataResponse>)
        ensures
            match r {
                Some(v) => DataSourceMetadataResponseModel::parse(j@) == Some(v@),
                None => DataSourceMetadataResponseModel::parse(j@) is None,
            },
    {
        let timestamp = j.text_field("timestamp")?;
        let result = StringMap::field_from_json(j, "result")?;
        Some(DataSourceMetadataResponse { timestamp, result })
    }

    /// Reads the items of an array: `None` where one of them does not read.
    pub fn all_from_json(items: &Vec<Json>) -> (r: Option<Vec<DataSourceMetadataResponse>>)
        ensures
            match r {
                Some(v) => DataSourceMetadataResponseModel::parse_all(Json::models(items@))
                    == Some(DataSourceMetadataResponse::models(v@)),
                None => DataSourceMetadataResponseModel::parse_all(Json::models(items@)) is None,
            },
    {
        let mut out: Vec<DataSourceMetadataResponse> = Vec::new();
        let mut i: usize = 0;
        while i < items.len()
            invariant
                i <= items.len(),
                out@.len() == i,
                forall|k: int|
                    0 <= k < i ==>
                        DataSourceMetadataResponseModel::parse(#[trigger] Json::models(items@)[k])
                            == Some(out@[k]@),
            decreases items.len() - i,
        {
            match Self::from_json(&items[i]) {
                Some(v) => {
                    out.push(v);
                },
                None => {
                    assert(DataSourceMetadataResponseModel::parse(Json::models(items@)[i as int])
                        is None);
                    return None;
                },
            }
            i += 1;
        }
        proof {
            assert(DataSourceMetadataResponseModel::parse_all(Json::models(items@))->Some_0
                =~= DataSourceMetadataResponse::models(out@));
        }
        Some(out)
    }

    /// Reads a whole reply: an array of values of this type.
    pub fn list_from_json(j: &Json) -> (r: Option<Vec<DataSourceMetadataResponse>>)
        ensures
            match r {
                Some(v) => DataSourceMetadataResponseModel::parse_list(j@)
                    == Some(DataSourceMetadataResponse::models(v@)),
                None => DataSourceMetadataResponseModel::parse_list(j@) is None,
            },
    {
        match j {
            Json::Array(items) => Self::all_from_json(items),
            _ => None,
        }
    }
}

impl RawGroupByResponse {
    /// The mathematical model of this value.
    pub open spec fn model(self) -> RawGroupByResponseModel {
        RawGroupByResponseModel {
            timestamp: self.timestamp@,
            event: self.event@,
        }
    }

    /// The models of a sequence of values.
    pub open spec fn models(items: Seq<RawGroupByResponse>) -> Seq<RawGroupByResponseModel> {
        Seq::new(items.len(), |i: int| items[i].model())
    }
}

impl View for RawGroupByResponse {
    type V = RawGroupByResponseModel;

    open spec fn view(&self) -> RawGroupByResponseModel {
        self.model()
    }
}

impl RawGroupByResponseModel {
    /// What a JSON value reads as: `None` where it does not read as a value of
    /// this type. The members of an object are found by their names, in
    /// whatever order they stand, and members of other names are passed over.
    pub open spec fn parse(j: JsonModel) -> Option<RawGroupByResponseModel> {
        match (
            j.text_field("timestamp"@),
            j.field("event"@),
        ) {
            (Some(timestamp), Some(event)) => Some(RawGroupByResponseModel { timestamp, event }),
            _ => None,
        }
    }

    /// What the items of an array read as: `None` where one of them does not
    /// read.
    pub open spec fn parse_all(items: Seq<JsonModel>) -> Option<Seq<RawGroupByResponseModel>> {
        if forall|i: int| 0 <= i < items.len() ==> Self::parse(#[trigger] items[i]) is Some {
            Some(Seq::new(items.len(), |i: int| Self::parse(items[i])->Some_0))
        } else {
            None
        }
    }

    /// What a whole reply reads as: the values that the items of an array read
    /// as, and `None` where the reply is no array or one of its items does not
    /// read.
    pub open spec fn parse_list(j: JsonModel) -> Option<Seq<RawGroupByResponseModel>> {
        match j {
            JsonModel::Array(items) => Self::parse_all(items),
            _ => None,
        }
    }
}

impl RawGroupByResponse {
    /// Reads a value from JSON: `None` where `j` does not read as a value of
    /// this type.
    pub fn from_json(j: &Json) -> (r: Option<RawGroupByResponse>)
        ensures
            match r {
                Some(v) => RawGroupByResponseModel::parse(j@) == Some(v@),
                None => RawGroupByResponseModel::parse(j@) is None,
            },
    {
        let timestamp = j.text_field("timestamp")?;
        let event = j.field_duplicate("event")?;
        Some(RawGroupByResponse { timestamp, event })
    }

    /// Reads the items of an array: `None` where one of them does not read.
    pub fn all_from_json(items: &Vec<Json>) -> (r: Option<Vec<RawGroupByResponse>>)
        ensures
            match r {
                Some(v) => RawGroupByResponseModel::parse_all(Json::models(items@))
                    == Some(RawGroupByResponse::models(v@)),
                None => RawGroupByResponseModel::parse_all(Json::models(items@)) is None,
            },
    {
        let mut out: Vec<RawGroupByResponse> = Vec::new();
        let mut i: usize = 0;
        while i < items.len()
            invariant
                i <= items.len(),
                out@.len() == i,
                forall|k: int|
                    0 <= k < i ==>
                        RawGroupByResponseModel::parse(#[trigger] Json::models(items@)[k])
                            == Some(out@[k]@),
            decreases items.len() - i,
        {
            match Self::from_json(&items[i]) {
                Some(v) => {
                    out.push(v);
                },
                None => {
                    assert(RawGroupByResponseModel::parse(Json::models(items@)[i as int]) is None);
                    return None;
                },
            }
            i += 1;
        }
        proof {
            assert(RawGroupByResponseModel::parse_all(Json::models(items@))->Some_0
                =~= RawGroupByResponse::models(out@));
        }
        Some(out)
    }

    /// Reads a whole reply: an array of values of this type.
    pub fn list_from_json(j: &Json) -> (r: Option<Vec<RawGroupByResponse>>)
        ensures
            match r {
                Some(v) => RawGroupByResponseModel::parse_list(j@)
                    == Some(RawGroupByResponse::models(v@)),
                None => RawGroupByResponseModel::parse_list(j@) is None,
            },
    {
        match j {
            Json::Array(items) => Self::all_from_json(items),
            _ => None,
        }
    }
}

impl RawScanResponse {
    /// The mathematical model of this value.
    pub open spec fn model(self) -> RawScanResponseModel {
        RawScanResponseModel {
            segment_id: self.segment_id@,
            columns: text_views(self.columns@),
            events: Json::models(self.events@),
        }
    }

    /// The models of a sequence of values.
    pub open spec fn models(items: Seq<RawScanResponse>) -> Seq<RawScanResponseModel> {
        Seq::new(items.len(), |i: int| items[i].model())
    }
}

impl View for RawScanResponse {
    type V = RawScanResponseModel;

    open spec fn view(&self) -> RawScanResponseModel {
        self.model()
    }
}

impl RawScanResponseModel {
    /// What a JSON value reads as: `None` where it does not read as a value of
    /// this type. The members of an object are found by their names, in
    /// whatever order they stand, and members of other names are passed over.
    pub open spec fn parse(j: JsonModel) -> Option<RawScanResponseModel> {
        match (
            j.text_field("segmentId"@),
            j.texts_field("columns"@),
            j.array_field("events"@),
        ) {
            (Some(segment_id), Some(columns), Some(events)) => Some(
                RawScanResponseModel {
                    segment_id,
                    columns,
                    events,
                },
            ),
            _ => None,
        }
    }

    /// What the items of an array read as: `None` where one of them does not
    /// read.
    pub open spec fn parse_all(items: Seq<JsonModel>) -> Option<Seq<RawScanResponseModel>> {
        if forall|i: int| 0 <= i < items.len() ==> Self::parse(#[trigger] items[i]) is Some {
            Some(Seq::new(items.len(), |i: int| Self::parse(items[i])->Some_0))
        } else {
            None
        }
    }

    /// What a whole reply reads as: the values that the items of an array read
    /// as, and `None` where the reply is no array or one of its items does not
    /// read.
    pub open spec fn parse_list(j: JsonModel) -> Option<Seq<RawScanResponseModel>> {
        match j {
            JsonModel::Array(items) => Self::parse_all(items),
            _ => None,
        }
    }
}

impl RawScanResponse {
    /// Reads a value from JSON: `None` where `j` does not read as a value of
    /// this type.
    pub fn from_json(j: &Json) -> (r: Option<RawScanResponse>)
        ensures
            match r {
                Some(v) => RawScanResponseModel::parse(j@) == Some(v@),
                None => RawScanResponseModel::parse(j@) is None,
            },
    {
        let segment_id = j.text_field("segmentId")?;
        let columns = j.texts_field("columns")?;
        let events = j.array_field("events")?;
        Some(RawScanResponse { segment_id, columns, events })
    }

    /// Reads the items of an array: `None` where one of them does not read.
    pub fn all_from_json(items: &Vec<Json>) -> (r: Option<Vec<RawScanResponse>>)
        ensures
            match r {
                Some(v) => RawScanResponseModel::parse_all(Json::models(items@))
                    == Some(RawScanResponse::models(v@)),
                None => RawScanResponseModel::parse_all(Json::models(items@)) is None,
            },
    {
        let mut out: Vec<RawScanResponse> = Vec::new();
        let mut i: usize = 0;
        while i < items.len()
            invariant
                i <= items.len(),
                out@.len() == i,
                forall|k: int|
                    0 <= k < i ==>
                        RawScanResponseModel::parse(#[trigger] Json::models(items@)[k])
                            == Some(out@[k]@),
            decreases items.len() - i,
        {
            match Self::from_json(&items[i]) {
                Some(v) => {
                    out.push(v);
                },
                None => {
                    assert(RawScanResponseModel::parse(Json::models(items@)[i as int]) is None);
                    return None;
                },
            }
            i += 1;
        }
        proof {
            assert(RawScanResponseModel::parse_all(Json::models(items@))->Some_0
                =~= RawScanResponse::models(out@));
        }
        Some(out)
    }

    /// Reads a whole reply: an array of values of this type.
    pub fn list_from_json(j: &Json) -> (r: Option<Vec<RawScanResponse>>)
        ensures
            match r {
                Some(v) => RawScanResponseModel::parse_list(j@)
                    == Some(RawScanResponse::models(v@)),
                None => RawScanResponseModel::parse_list(j@) is None,
            },
    {
        match j {
            Json::Array(items) => Self::all_from_json(items),
            _ => None,
        }
    }
}

/// The strings of a member that may come as `null` or not at all: none in
/// both cases, and otherwise what the member holds if it is an array of
/// strings.
pub open spec fn texts_or_empty(value: Option<JsonModel>) -> Option<Seq<Seq<char>>> {
    present_or(value, JsonModel::Array(Seq::empty())).as_texts()
}

/// A collection that arrives as `null`, or does not arrive, reads as the
/// empty collection: reading it does not fail.
pub proof fn lemma_null_reads_as_empty()
    ensures
        texts_or_empty(None) == Some(Seq::<Seq<char>>::empty()),
        texts_or_empty(Some(JsonModel::Null)) == Some(Seq::<Seq<char>>::empty()),
        AggregatorDefinitionModel::parse_entries(
            present_or(None, JsonModel::Object(Seq::empty())),
        ) == Some(Seq::<(Seq<char>, AggregatorDefinitionModel)>::empty()),
        AggregatorDefinitionModel::parse_entries(
            present_or(Some(JsonModel::Null), JsonModel::Object(Seq::empty())),
        ) == Some(Seq::<(Seq<char>, AggregatorDefinitionModel)>::empty()),
{
    assert(JsonModel::Array(Seq::empty()).as_texts()->Some_0 =~= Seq::<Seq<char>>::empty());
    assert(AggregatorDefinitionModel::parse_entries(JsonModel::Object(Seq::empty()))->Some_0
        =~= Seq::<(Seq<char>, AggregatorDefinitionModel)>::empty());
}

/// What a segment metadata query reports on the segments of a data source.
/// The columns and the aggregators come by name, in the order in which the
/// engine wrote them.
#[derive(Debug, PartialEq)]
pub struct SegmentMetadataResponse {
    pub id: String,
    pub intervals: Vec<String>,
    pub columns: Vec<(String, ColumnDefinition)>,
    pub query_granularity: Option<String>,
    pub rollup: Option<bool>,
    pub size: Option<usize>,
    pub num_rows: Option<usize>,
    pub timestamp_spec: TimestampSpec,
    pub aggregators: Vec<(String, AggregatorDefinition)>,
}

/// The mathematical model of a [`SegmentMetadataResponse`].
#[verifier::ext_equal]
pub struct SegmentMetadataResponseModel {
    pub id: Seq<char>,
    pub intervals: Seq<Seq<char>>,
    pub columns: Seq<(Seq<char>, ColumnDefinitionModel)>,
    pub query_granularity: Option<Seq<char>>,
    pub rollup: Option<bool>,
    pub size: Option<usize>,
    pub num_rows: Option<usize>,
    pub timestamp_spec: TimestampSpecModel,
    pub aggregators: Seq<(Seq<char>, AggregatorDefinitionModel)>,
}

impl SegmentMetadataResponse {
    /// The mathematical model of this value.
    pub open spec fn model(self) -> SegmentMetadataResponseModel {
        SegmentMetadataResponseModel {
            id: self.id@,
            intervals: text_views(self.intervals@),
            columns: ColumnDefinition::entry_models(self.columns@),
            query_granularity: optional_text_view(self.query_granularity),
            rollup: self.rollup,
            size: self.size,
            num_rows: self.num_rows,
            timestamp_spec: self.timestamp_spec.model(),
            aggregators: AggregatorDefinition::entry_models(self.aggregators@),
        }
    }

    /// The models of a sequence of values.
    pub open spec fn models(items: Seq<SegmentMetadataResponse>) -> Seq<
        SegmentMetadataResponseModel,
    > {
        Seq::new(items.len(), |i: int| items[i].model())
    }
}

impl View for SegmentMetadataResponse {
    type V = SegmentMetadataResponseModel;

    open spec fn view(&self) -> SegmentMetadataResponseModel {
        self.model()
    }
}

impl SegmentMetadataResponseModel {
    /// The columns that the member `columns` holds.
    pub open spec fn parse_columns(
        j: JsonModel,
    ) -> Option<Seq<(Seq<char>, ColumnDefinitionModel)>> {
        match j.field("columns"@) {
            Some(v) => ColumnDefinitionModel::parse_entries(v),
            None => None,
        }
    }

    /// The aggregators that the member `aggregators` holds: none where it is
    /// `null` or not there.
    pub open spec fn parse_aggregators(j: JsonModel) -> Option<
        Seq<(Seq<char>, AggregatorDefinitionModel)>,
    > {
        AggregatorDefinitionModel::parse_entries(
            present_or(j.field("aggregators"@), JsonModel::Object(Seq::empty())),
        )
    }

    /// What a JSON value reads as: `None` where it does not read as a value
    /// of this type. The members `intervals` and `aggregators` read as empty
    /// where they are `null` or not there.
    pub open spec fn parse(j: JsonModel) -> Option<SegmentMetadataResponseModel> {
        match (
            j.text_field("id"@),
            texts_or_empty(j.field("intervals"@)),
            Self::parse_columns(j),
            j.optional_text_field("queryGranularity"@),
            j.optional_bool_field("rollup"@),
            j.optional_usize_field("size"@),
            j.optional_usize_field("numRows"@),
            TimestampSpecModel::parse_field(j, "timestampSpec"@),
            Self::parse_aggregators(j),
        ) {
            (
                Some(id),
                Some(intervals),
                Some(columns),
                Some(query_granularity),
                Some(rollup),
                Some(size),
                Some(num_rows),
                Some(timestamp_spec),
                Some(aggregators),
            ) => Some(
                SegmentMetadataResponseModel {
                    id,
                    intervals,
                    columns,
                    query_granularity,
                    rollup,
                    size,
                    num_rows,
                    timestamp_spec,
                    aggregators,
                },
            ),
            _ => None,
        }
    }

    /// What the items of an array read as: `None` where one of them does not
    /// read.
    pub open spec fn parse_all(items: Seq<JsonModel>) -> Option<Seq<SegmentMetadataResponseModel>> {
        if forall|i: int| 0 <= i < items.len() ==> Self::parse(#[trigger] items[i]) is Some {
            Some(Seq::new(items.len(), |i: int| Self::parse(items[i])->Some_0))
        } else {
            None
        }
    }

    /// What a whole reply reads as: the values that the items of an array
    /// read as, and `None` where the reply is no array or one of its items
    /// does not read.
    pub open spec fn parse_list(j: JsonModel) -> Option<Seq<SegmentMetadataResponseModel>> {
        match j {
            JsonModel::Array(items) => Self::parse_all(items),
            _ => None,
        }
    }
}

impl SegmentMetadataResponse {
    /// Reads a value from JSON: `None` where `j` does not read as a value of
    /// this type.
    pub fn from_json(j: &Json) -> (r: Option<SegmentMetadataResponse>)
        ensures
            match r {
                Some(v) => SegmentMetadataResponseModel::parse(j@) == Some(v@),
                None => SegmentMetadataResponseModel::parse(j@) is None,
            },
    {
        let no_items = Json::Array(Vec::new());
        let no_members = Json::Object(Vec::new());
        proof {
            assert(no_items@->Array_0 =~= Seq::empty());
            assert(no_members@->Object_0 =~= Seq::empty());
        }
        let id = j.text_field("id")?;
        let intervals = default_for_null(j.get("intervals"), &no_items).as_texts()?;
        let columns = ColumnDefinition::entries_from_json(j.get("columns")?)?;
        let query_granularity = j.optional_text_field("queryGranularity")?;
        let rollup = j.optional_bool_field("rollup")?;
        let size = j.optional_usize_field("size")?;
        let num_rows = j.optional_usize_field("numRows")?;
        let timestamp_spec = TimestampSpec::field_from_json(j, "timestampSpec")?;
        let aggregators = AggregatorDefinition::entries_from_json(
            default_for_null(j.get("aggregators"), &no_members),
        )?;
        Some(
            SegmentMetadataResponse {
                id,
                intervals,
                columns,
                query_granularity,
                rollup,
                size,
                num_rows,
                timestamp_spec,
                aggregators,
            },
        )
    }

    /// Reads the items of an array: `None` where one of them does not read.
    pub fn all_from_json(items: &Vec<Json>) -> (r: Option<Vec<SegmentMetadataResponse>>)
        ensures
            match r {
                Some(v) => SegmentMetadataResponseModel::parse_all(Json::models(items@)) == Some(
                    SegmentMetadataResponse::models(v@),
                ),
                None => SegmentMetadataResponseModel::parse_all(Json::models(items@)) is None,
            },
    {
        let mut out: Vec<SegmentMetadataResponse> = Vec::new();
        let mut i: usize = 0;
        while i < items.len()
            invariant
                i <= items.len(),
                out@.len() == i,
                forall|k: int|
                    0 <= k < i ==> SegmentMetadataResponseModel::parse(
                        #[trigger] Json::models(items@)[k],
                    ) == Some(out@[k]@),
            decreases items.len() - i,
        {
            match Self::from_json(&items[i]) {
                Some(v) => {
                    out.push(v);
                },
                None => {
                    assert(SegmentMetadataResponseModel::parse(Json::models(items@)[i as int])
                        is None);
                    return None;
                },
            }
            i += 1;
        }
        proof {
            assert(SegmentMetadataResponseModel::parse_all(Json::models(items@))->Some_0
                =~= SegmentMetadataResponse::models(out@));
        }
        Some(out)
    }

    /// Reads a whole reply: an array of values of this type.
    pub fn list_from_json(j: &Json) -> (r: Option<Vec<SegmentMetadataResponse>>)
        ensures
            match r {
                Some(v) => SegmentMetadataResponseModel::parse_list(j@) == Some(
                    SegmentMetadataResponse::models(v@),
                ),
                None => SegmentMetadataResponseModel::parse_list(j@) is None,
            },
    {
        match j {
            Json::Array(items) => Self::all_from_json(items),
            _ => None,
        }
    }
}

} // verus!
