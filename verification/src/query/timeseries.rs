//! The timeseries query.

use crate::json::{text_views, Json, JsonModel, ObjectWriter};
use crate::string_map::{StringMap, StringMapModel};
use crate::query::{DataSource, DataSourceModel};
use crate::query::definitions::{Aggregation, AggregationModel, Filter, FilterModel, Granularity};
use crate::query::group_by::{PostAggregation, PostAggregationModel};
use vstd::prelude::*;

verus! {

/// The query that aggregates the rows of each time bucket.
#[derive(Debug, PartialEq)]
pub struct Timeseries {
    pub data_source: DataSource,
    pub granularity: Granularity,
    pub descending: bool,
    pub intervals: Vec<String>,
    pub filter: Option<Filter>,
    pub aggregations: Vec<Aggregation>,
    pub post_aggregations: Vec<PostAggregation>,
    pub limit: Option<usize>,
    pub context: StringMap,
}

/// The mathematical model of a [`Timeseries`].
#[verifier::ext_equal]
pub struct TimeseriesModel {
    pub data_source: DataSourceModel,
    pub granularity: Granularity,
    pub descending: bool,
    pub intervals: Seq<Seq<char>>,
    pub filter: Option<FilterModel>,
    pub aggregations: Seq<AggregationModel>,
    pub post_aggregations: Seq<PostAggregationModel>,
    pub limit: Option<usize>,
    pub context: StringMapModel,
}

impl Timeseries {
    /// The mathematical model of this value.
    pub open spec fn model(self) -> TimeseriesModel
        decreases self,
    {
        TimeseriesModel {
            data_source: self.data_source.model(),
            granularity: self.granularity,
            descending: self.descending,
            intervals: text_views(self.intervals@),
            filter: Filter::optional_model(self.filter),
            aggregations: Aggregation::models(self.aggregations@),
            post_aggregations: PostAggregation::models(self.post_aggregations@),
            limit: self.limit,
            context: self.context@,
        }
    }
}

impl View for Timeseries {
    type V = TimeseriesModel;

    open spec fn view(&self) -> TimeseriesModel {
        self.model()
    }
}

impl TimeseriesModel {
    /// The wire form of this value.
    pub open spec fn wire(self) -> JsonModel
        decreases self,
    {
        JsonModel::Object(
            Seq::empty()
                .push(("queryType"@, JsonModel::Str("timeseries"@)))
                .push(("dataSource"@, self.data_source.wire()))
                .push(("granularity"@, self.granularity.wire()))
                .push(("descending"@, JsonModel::Bool(self.descending)))
                .push(("intervals"@, JsonModel::texts(self.intervals)))
                .push(("filter"@, FilterModel::wire_optional(self.filter)))
                .push(
                    (
                        "aggregations"@,
                        JsonModel::Array(AggregationModel::wire_all(self.aggregations)),
                    ),
                )
                .push(
                    (
                        "postAggregations"@,
                        JsonModel::Array(PostAggregationModel::wire_all(self.post_aggregations)),
                    ),
                )
                .push(("limit"@, JsonModel::optional_usize(self.limit)))
                .push(("context"@, self.context.wire())),
        )
    }

    /// What a JSON value reads as: `None` where it does not read as a value of
    /// this type. The members of an object are found by their names, in
    /// whatever order they stand, and members of other names are passed over.
    pub open spec fn parse(j: JsonModel) -> Option<TimeseriesModel>
        decreases j, 1int,
    {
        match (
            DataSourceModel::parse_field(j, "dataSource"@),
            Granularity::parse_field(j, "granularity"@),
            j.bool_field("descending"@),
            j.texts_field("intervals"@),
            FilterModel::parse_optional_field(j, "filter"@),
            AggregationModel::parse_all_field(j, "aggregations"@),
            PostAggregationModel::parse_all_field(j, "postAggregations"@),
            j.optional_usize_field("limit"@),
            StringMapModel::parse_field(j, "context"@),
        ) {
            (
                Some(data_source),
                Some(granularity),
                Some(descending),
                Some(intervals),
                Some(filter),
                Some(aggregations),
                Some(post_aggregations),
                Some(limit),
                Some(context),
            ) => Some(
                TimeseriesModel {
                    data_source,
                    granularity,
                    descending,
                    intervals,
                    filter,
                    aggregations,
                    post_aggregations,
                    limit,
                    context,
                },
            ),
            _ => None,
        }
    }

    /// The lengths and the letters that tell the names of this wire form apart.
    pub proof fn lemma_names()
        ensures
            "limit"@.len() == 5,
            "filter"@.len() == 6,
            "context"@.len() == 7,
            "intervals"@.len() == 9,
            "queryType"@.len() == 9,
            "dataSource"@.len() == 10,
            "descending"@.len() == 10,
            "timeseries"@.len() == 10,
            "granularity"@.len() == 11,
            "aggregations"@.len() == 12,
            "postAggregations"@.len() == 16,
            "intervals"@[0] == 'i',
            "queryType"@[0] == 'q',
            "dataSource"@[1] == 'a',
            "descending"@[1] == 'e',
            "timeseries"@[1] == 'i',
    {
        reveal_strlit("limit");
        reveal_strlit("filter");
        reveal_strlit("context");
        reveal_strlit("intervals");
        reveal_strlit("queryType");
        reveal_strlit("dataSource");
        reveal_strlit("descending");
        reveal_strlit("timeseries");
        reveal_strlit("granularity");
        reveal_strlit("aggregations");
        reveal_strlit("postAggregations");
    }

    /// Decoding the wire form of a value gives the value back.
    pub proof fn lemma_round_trip(self)
        ensures
            Self::parse(self.wire()) == Some(self),
        decreases self,
    {
        Self::lemma_names();
        reveal_with_fuel(JsonModel::find, 12);
        self.data_source.lemma_round_trip();
        self.granularity.lemma_round_trip();
        JsonModel::lemma_texts(self.intervals);
        FilterModel::lemma_round_trip_optional(self.filter);
        AggregationModel::lemma_round_trip_all(self.aggregations);
        PostAggregationModel::lemma_round_trip_all(self.post_aggregations);
        self.context.lemma_round_trip();
    }
}

impl Timeseries {
    /// The wire form of this value.
    pub fn to_json(&self) -> (j: Json)
        ensures
            j@ == self@.wire(),
            j@.field("queryType"@) == Some(JsonModel::Str("timeseries"@)),
        decreases self,
    {
        proof {
            reveal_with_fuel(JsonModel::find, 2);
        }
        let mut w = ObjectWriter::new();
        w.put("queryType", Json::text("timeseries"));
        w.put("dataSource", self.data_source.to_json());
        w.put("granularity", self.granularity.to_json());
        w.put("descending", Json::Bool(self.descending));
        w.put("intervals", Json::texts(&self.intervals));
        w.put("filter", Filter::optional_to_json(&self.filter));
        w.put("aggregations", Aggregation::all_to_json(&self.aggregations));
        w.put("postAggregations", PostAggregation::all_to_json(&self.post_aggregations));
        w.put("limit", Json::optional_usize(&self.limit));
        w.put("context", self.context.to_json());
        w.finish()
    }

    /// Reads a value from JSON: `None` where `j` does not read as a value of
    /// this type.
    pub fn from_json(j: &Json) -> (r: Option<Timeseries>)
        ensures
            match r {
                Some(v) => TimeseriesModel::parse(j@) == Some(v@),
                None => TimeseriesModel::parse(j@) is None,
            },
        decreases j@, 1int,
    {
        let data_source = DataSource::field_from_json(j, "dataSource")?;
        let granularity = Granularity::field_from_json(j, "granularity")?;
        let descending = j.bool_field("descending")?;
        let intervals = j.texts_field("intervals")?;
        let filter = Filter::optional_field_from_json(j, "filter")?;
        let aggregations = Aggregation::all_field_from_json(j, "aggregations")?;
        let post_aggregations = PostAggregation::all_field_from_json(j, "postAggregations")?;
        let limit = j.optional_usize_field("limit")?;
        let context = StringMap::field_from_json(j, "context")?;
        Some(Timeseries {
            data_source,
            granularity,
            descending,
            intervals,
            filter,
            aggregations,
            post_aggregations,
            limit,
            context,
        })
    }
}

} // verus!
