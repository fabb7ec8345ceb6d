//! The topN query.

use crate::json::{text_views, Json, JsonModel, ObjectWriter};
use crate::string_map::{StringMap, StringMapModel};
use crate::query::{DataSource, DataSourceModel};
use crate::query::definitions::{
    Aggregation, AggregationModel, Dimension, DimensionModel, Granularity,
};
use vstd::prelude::*;

verus! {

/// The query for the values of one dimension that rank highest by a metric.
#[derive(Debug, PartialEq)]
pub struct TopN {
    pub data_source: DataSource,
    pub dimension: Dimension,
    pub threshold: usize,
    pub metric: String,
    pub aggregations: Vec<Aggregation>,
    pub intervals: Vec<String>,
    pub granularity: Granularity,
    pub context: StringMap,
}

/// The mathematical model of a [`TopN`].
#[verifier::ext_equal]
pub struct TopNModel {
    pub data_source: DataSourceModel,
    pub dimension: DimensionModel,
    pub threshold: usize,
    pub metric: Seq<char>,
    pub aggregations: Seq<AggregationModel>,
    pub intervals: Seq<Seq<char>>,
    pub granularity: Granularity,
    pub context: StringMapModel,
}

impl TopN {
    /// The mathematical model of this value.
    pub open spec fn model(self) -> TopNModel
        decreases self,
    {
        TopNModel {
            data_source: self.data_source.model(),
            dimension: self.dimension.model(),
            threshold: self.threshold,
            metric: self.metric@,
            aggregations: Aggregation::models(self.aggregations@),
            intervals: text_views(self.intervals@),
            granularity: self.granularity,
            context: self.context@,
        }
    }
}

impl View for TopN {
    type V = TopNModel;

    open spec fn view(&self) -> TopNModel {
        self.model()
    }
}

impl TopNModel {
    /// The wire form of this value.
    pub open spec fn wire(self) -> JsonModel
        decreases self,
    {
        JsonModel::Object(
            Seq::empty()
                .push(("queryType"@, JsonModel::Str("topN"@)))
                .push(("dataSource"@, self.data_source.wire()))
                .push(("dimension"@, self.dimension.wire()))
                .push(("threshold"@, JsonModel::integer(self.threshold as int)))
                .push(("metric"@, JsonModel::Str(self.metric)))
                .push(
                    (
                        "aggregations"@,
                        JsonModel::Array(AggregationModel::wire_all(self.aggregations)),
                    ),
                )
                .push(("intervals"@, JsonModel::texts(self.intervals)))
                .push(("granularity"@, self.granularity.wire()))
                .push(("context"@, self.context.wire())),
        )
    }

    /// What a JSON value reads as: `None` where it does not read as a value of
    /// this type. The members of an object are found by their names, in
    /// whatever order they stand, and members of other names are passed over.
    pub open spec fn parse(j: JsonModel) -> Option<TopNModel>
        decreases j, 1int,
    {
        match (
            DataSourceModel::parse_field(j, "dataSource"@),
            DimensionModel::parse_field(j, "dimension"@),
            j.usize_field("threshold"@),
            j.text_field("metric"@),
            AggregationModel::parse_all_field(j, "aggregations"@),
            j.texts_field("intervals"@),
            Granularity::parse_field(j, "granularity"@),
            StringMapModel::parse_field(j, "context"@),
        ) {
            (
                Some(data_source),
                Some(dimension),
                Some(threshold),
                Some(metric),
                Some(aggregations),
                Some(intervals),
                Some(granularity),
                Some(context),
            ) => Some(
                TopNModel {
                    data_source,
                    dimension,
                    threshold,
                    metric,
                    aggregations,
                    intervals,
                    granularity,
                    context,
                },
            ),
            _ => None,
        }
    }

    /// The lengths and the letters that tell the names of this wire form apart.
    pub proof fn lemma_names()
        ensures
            "topN"@.len() == 4,
            "metric"@.len() == 6,
            "context"@.len() == 7,
            "dimension"@.len() == 9,
            "intervals"@.len() == 9,
            "queryType"@.len() == 9,
            "threshold"@.len() == 9,
            "dataSource"@.len() == 10,
            "granularity"@.len() == 11,
            "aggregations"@.len() == 12,
            "dimension"@[0] == 'd',
            "intervals"@[0] == 'i',
            "queryType"@[0] == 'q',
            "threshold"@[0] == 't',
    {
        reveal_strlit("topN");
        reveal_strlit("metric");
        reveal_strlit("context");
        reveal_strlit("dimension");
        reveal_strlit("intervals");
        reveal_strlit("queryType");
        reveal_strlit("threshold");
        reveal_strlit("dataSource");
        reveal_strlit("granularity");
        reveal_strlit("aggregations");
    }

    /// Decoding the wire form of a value gives the value back.
    pub proof fn lemma_round_trip(self)
        ensures
            Self::parse(self.wire()) == Some(self),
        decreases self,
    {
        Self::lemma_names();
        reveal_with_fuel(JsonModel::find, 11);
        self.data_source.lemma_round_trip();
        self.dimension.lemma_round_trip();
        AggregationModel::lemma_round_trip_all(self.aggregations);
        JsonModel::lemma_texts(self.intervals);
        self.granularity.lemma_round_trip();
        self.context.lemma_round_trip();
    }
}

impl TopN {
    /// The wire form of this value.
    pub fn to_json(&self) -> (j: Json)
        ensures
            j@ == self@.wire(),
            j@.field("queryType"@) == Some(JsonModel::Str("topN"@)),
        decreases self,
    {
        proof {
            reveal_with_fuel(JsonModel::find, 2);
        }
        let mut w = ObjectWriter::new();
        w.put("queryType", Json::text("topN"));
        w.put("dataSource", self.data_source.to_json());
        w.put("dimension", self.dimension.to_json());
        w.put("threshold", Json::from_usize(self.threshold));
        w.put("metric", Json::text(self.metric.as_str()));
        w.put("aggregations", Aggregation::all_to_json(&self.aggregations));
        w.put("intervals", Json::texts(&self.intervals));
        w.put("granularity", self.granularity.to_json());
        w.put("context", self.context.to_json());
        w.finish()
    }

    /// Reads a value from JSON: `None` where `j` does not read as a value of
    /// this type.
    pub fn from_json(j: &Json) -> (r: Option<TopN>)
        ensures
            match r {
                Some(v) => TopNModel::parse(j@) == Some(v@),
                None => TopNModel::parse(j@) is None,
            },
        decreases j@, 1int,
    {
        let data_source = DataSource::field_from_json(j, "dataSource")?;
        let dimension = Dimension::field_from_json(j, "dimension")?;
        let threshold = j.usize_field("threshold")?;
        let metric = j.text_field("metric")?;
        let aggregations = Aggregation::all_field_from_json(j, "aggregations")?;
        let intervals = j.texts_field("intervals")?;
        let granularity = Granularity::field_from_json(j, "granularity")?;
        let context = StringMap::field_from_json(j, "context")?;
        Some(TopN {
            data_source,
            dimension,
            threshold,
            metric,
            aggregations,
            intervals,
            granularity,
            context,
        })
    }
}

} // verus!
