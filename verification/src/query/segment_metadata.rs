//! The segmentMetadata query.

use crate::json::{same_text, text_views, Json, JsonModel, ObjectWriter};
use crate::query::{DataSource, DataSourceModel};
use vstd::prelude::*;

verus! {

/// The columns that a segment metadata query reports on.
#[derive(Debug, PartialEq)]
pub enum ToInclude {
    All,
    Nothing,
    List { columns: Vec<String> },
}

/// The mathematical model of a [`ToInclude`].
#[verifier::ext_equal]
pub enum ToIncludeModel {
    All,
    Nothing,
    List { columns: Seq<Seq<char>> },
}

impl ToInclude {
    /// The mathematical model of this value.
    pub open spec fn model(self) -> ToIncludeModel {
        match self {
            ToInclude::All => ToIncludeModel::All,
            ToInclude::Nothing => ToIncludeModel::Nothing,
            ToInclude::List { columns } => ToIncludeModel::List { columns: text_views(columns@) },
        }
    }
}

impl View for ToInclude {
    type V = ToIncludeModel;

    open spec fn view(&self) -> ToIncludeModel {
        self.model()
    }
}

impl ToIncludeModel {
    /// The wire form of this value.
    pub open spec fn wire(self) -> JsonModel {
        match self {
            ToIncludeModel::All => {
                JsonModel::Object(
                    Seq::empty()
                        .push(("type"@, JsonModel::Str("all"@))),
                )
            },
            ToIncludeModel::Nothing => {
                JsonModel::Object(
                    Seq::empty()
                        .push(("type"@, JsonModel::Str("none"@))),
                )
            },
            ToIncludeModel::List { columns } => {
                JsonModel::Object(
                    Seq::empty()
                        .push(("type"@, JsonModel::Str("list"@)))
                        .push(("columns"@, JsonModel::texts(columns))),
                )
            },
        }
    }

    /// What a JSON value reads as: `None` where it does not read as a value of
    /// this type. The members of an object are found by their names, in
    /// whatever order they stand, and members of other names are passed over.
    pub open spec fn parse(j: JsonModel) -> Option<ToIncludeModel> {
        match j.text_field("type"@) {
            Some(tag) => if tag == "all"@ {
                Some(ToIncludeModel::All)
            } else if tag == "none"@ {
                Some(ToIncludeModel::Nothing)
            } else if tag == "list"@ {
                match j.texts_field("columns"@) {
                    Some(columns) => Some(ToIncludeModel::List { columns }),
                    None => None,
                }
            } else {
                None
            },
            None => None,
        }
    }

    /// What the required member `key` of `j` reads as.
    pub open spec fn parse_field(j: JsonModel, key: Seq<char>) -> Option<ToIncludeModel> {
        match j.field(key) {
            Some(v) => Self::parse(v),
            None => None,
        }
    }

    /// The lengths and the letters that tell the names of this wire form apart.
    pub proof fn lemma_names()
        ensures
            "all"@.len() == 3,
            "list"@.len() == 4,
            "none"@.len() == 4,
            "type"@.len() == 4,
            "columns"@.len() == 7,
            "list"@[0] == 'l',
            "none"@[0] == 'n',
            "type"@[0] == 't',
    {
        reveal_strlit("all");
        reveal_strlit("list");
        reveal_strlit("none");
        reveal_strlit("type");
        reveal_strlit("columns");
    }

    /// Decoding the wire form of a value gives the value back.
    pub proof fn lemma_round_trip(self)
        ensures
            Self::parse(self.wire()) == Some(self),
    {
        Self::lemma_names();
        reveal_with_fuel(JsonModel::find, 4);
        match self {
            ToIncludeModel::All => {},
            ToIncludeModel::Nothing => {},
            ToIncludeModel::List { columns } => {
                JsonModel::lemma_texts(columns);
            },
        }
    }
}

impl ToInclude {
    /// The wire form of this value.
    pub fn to_json(&self) -> (j: Json)
        ensures
            j@ == self@.wire(),
    {
        let mut w = ObjectWriter::new();
        match self {
            ToInclude::All => {
                w.put("type", Json::text("all"));
            },
            ToInclude::Nothing => {
                w.put("type", Json::text("none"));
            },
            ToInclude::List { columns } => {
                w.put("type", Json::text("list"));
                w.put("columns", Json::texts(columns));
            },
        }
        w.finish()
    }

    /// Reads a value from JSON: `None` where `j` does not read as a value of
    /// this type.
    pub fn from_json(j: &Json) -> (r: Option<ToInclude>)
        ensures
            match r {
                Some(v) => ToIncludeModel::parse(j@) == Some(v@),
                None => ToIncludeModel::parse(j@) is None,
            },
    {
        let tag = j.text_field("type")?;
        if same_text(tag.as_str(), "all") {
            Some(ToInclude::All)
        } else if same_text(tag.as_str(), "none") {
            Some(ToInclude::Nothing)
        } else if same_text(tag.as_str(), "list") {
            let columns = j.texts_field("columns")?;
            Some(ToInclude::List { columns })
        } else {
            None
        }
    }

    /// Reads the required member `key` of `j`.
    pub fn field_from_json(j: &Json, key: &str) -> (r: Option<ToInclude>)
        ensures
            match r {
                Some(v) => ToIncludeModel::parse_field(j@, key@) == Some(v@),
                None => ToIncludeModel::parse_field(j@, key@) is None,
            },
    {
        match j.get(key) {
            Some(v) => Self::from_json(v),
            None => None,
        }
    }
}

/// One thing that a segment metadata query finds out about a column or a
/// segment.
#[derive(Debug, Clone, Copy, PartialEq, Eq)]
pub enum AnalysisType {
    Cardinality,
    Minmax,
    Size,
    Interval,
    TimestampSpec,
    QueryGranularity,
    Aggregators,
    Rollup,
}

impl AnalysisType {
    /// The wire form of this value.
    pub open spec fn wire(self) -> JsonModel {
        match self {
            AnalysisType::Cardinality => JsonModel::Str("cardinality"@),
            AnalysisType::Minmax => JsonModel::Str("minmax"@),
            AnalysisType::Size => JsonModel::Str("size"@),
            AnalysisType::Interval => JsonModel::Str("interval"@),
            AnalysisType::TimestampSpec => JsonModel::Str("timestampSpec"@),
            AnalysisType::QueryGranularity => JsonModel::Str("queryGranularity"@),
            AnalysisType::Aggregators => JsonModel::Str("aggregators"@),
            AnalysisType::Rollup => JsonModel::Str("rollup"@),
        }
    }

    /// The wire forms of a sequence of values.
    pub open spec fn wire_all(items: Seq<AnalysisType>) -> Seq<JsonModel> {
        Seq::new(items.len(), |i: int| items[i].wire())
    }

    /// What a JSON value reads as: `None` where it does not read as a value of
    /// this type.
    pub open spec fn parse(j: JsonModel) -> Option<AnalysisType> {
        match j {
            JsonModel::Str(tag) => if tag == "cardinality"@ {
                Some(AnalysisType::Cardinality)
            } else if tag == "minmax"@ {
                Some(AnalysisType::Minmax)
            } else if tag == "size"@ {
                Some(AnalysisType::Size)
            } else if tag == "interval"@ {
                Some(AnalysisType::Interval)
            } else if tag == "timestampSpec"@ {
                Some(AnalysisType::TimestampSpec)
            } else if tag == "queryGranularity"@ {
                Some(AnalysisType::QueryGranularity)
            } else if tag == "aggregators"@ {
                Some(AnalysisType::Aggregators)
            } else if tag == "rollup"@ {
                Some(AnalysisType::Rollup)
            } else {
                None
            },
            _ => None,
        }
    }

    /// What the items of an array read as: `None` where one of them does not
    /// read.
    pub open spec fn parse_all(items: Seq<JsonModel>) -> Option<Seq<AnalysisType>> {
        if forall|i: int| 0 <= i < items.len() ==> Self::parse(#[trigger] items[i]) is Some {
            Some(Seq::new(items.len(), |i: int| Self::parse(items[i])->Some_0))
        } else {
            None
        }
    }

    /// What the required member `key` of `j` reads as where it is an array of
    /// values.
    pub open spec fn parse_all_field(j: JsonModel, key: Seq<char>) -> Option<Seq<AnalysisType>> {
        match j.field(key) {
            Some(JsonModel::Array(items)) => Self::parse_all(items),
            _ => None,
        }
    }

    /// The lengths and the letters that tell the names of this wire form apart.
    pub proof fn lemma_names()
        ensures
            "size"@.len() == 4,
            "minmax"@.len() == 6,
            "rollup"@.len() == 6,
            "interval"@.len() == 8,
            "aggregators"@.len() == 11,
            "cardinality"@.len() == 11,
            "timestampSpec"@.len() == 13,
            "queryGranularity"@.len() == 16,
            "minmax"@[0] == 'm',
            "rollup"@[0] == 'r',
            "aggregators"@[0] == 'a',
            "cardinality"@[0] == 'c',
    {
        reveal_strlit("size");
        reveal_strlit("minmax");
        reveal_strlit("rollup");
        reveal_strlit("interval");
        reveal_strlit("aggregators");
        reveal_strlit("cardinality");
        reveal_strlit("timestampSpec");
        reveal_strlit("queryGranularity");
    }

    /// Decoding the wire form of a value gives the value back.
    pub proof fn lemma_round_trip(self)
        ensures
            Self::parse(self.wire()) == Some(self),
    {
        Self::lemma_names();
        reveal_with_fuel(JsonModel::find, 3);
        match self {
            AnalysisType::Cardinality => {},
            AnalysisType::Minmax => {},
            AnalysisType::Size => {},
            AnalysisType::Interval => {},
            AnalysisType::TimestampSpec => {},
            AnalysisType::QueryGranularity => {},
            AnalysisType::Aggregators => {},
            AnalysisType::Rollup => {},
        }
    }

    /// Decoding the wire forms of a sequence of values gives the sequence back.
    pub proof fn lemma_round_trip_all(items: Seq<AnalysisType>)
        ensures
            Self::parse_all(Self::wire_all(items)) == Some(items),
    {
        assert forall|i: int| 0 <= i < items.len() implies Self::parse(
            #[trigger] Self::wire_all(items)[i],
        ) == Some(items[i]) by {
            items[i].lemma_round_trip();
        }
        assert(Self::parse_all(Self::wire_all(items))->Some_0 =~= items);
    }
}

impl AnalysisType {
    /// The wire form of this value.
    pub fn to_json(&self) -> (j: Json)
        ensures
            j@ == self.wire(),
    {
        match self {
            AnalysisType::Cardinality => Json::text("cardinality"),
            AnalysisType::Minmax => Json::text("minmax"),
            AnalysisType::Size => Json::text("size"),
            AnalysisType::Interval => Json::text("interval"),
            AnalysisType::TimestampSpec => Json::text("timestampSpec"),
            AnalysisType::QueryGranularity => Json::text("queryGranularity"),
            AnalysisType::Aggregators => Json::text("aggregators"),
            AnalysisType::Rollup => Json::text("rollup"),
        }
    }

    /// The wire form of a sequence of values: the array of their wire forms.
    pub fn all_to_json(items: &Vec<AnalysisType>) -> (j: Json)
        ensures
            j@ == JsonModel::Array(AnalysisType::wire_all(items@)),
    {
        let mut out: Vec<Json> = Vec::new();
        let mut i: usize = 0;
        while i < items.len()
            invariant
                i <= items.len(),
                out@.len() == i,
                forall|k: int| 0 <= k < i ==> (#[trigger] out@[k])@ == items@[k].wire(),
            decreases items.len() - i,
        {
            out.push(items[i].to_json());
            i += 1;
        }
        proof {
            assert(Json::models(out@) =~= AnalysisType::wire_all(items@));
        }
        Json::Array(out)
    }

    /// Reads a value from JSON: `None` where `j` does not read as a value of
    /// this type.
    pub fn from_json(j: &Json) -> (r: Option<AnalysisType>)
        ensures
            r == AnalysisType::parse(j@),
    {
        match j {
            Json::Str(tag) => {
                if same_text(tag.as_str(), "cardinality") {
                    Some(AnalysisType::Cardinality)
                } else if same_text(tag.as_str(), "minmax") {
                    Some(AnalysisType::Minmax)
                } else if same_text(tag.as_str(), "size") {
                    Some(AnalysisType::Size)
                } else if same_text(tag.as_str(), "interval") {
                    Some(AnalysisType::Interval)
                } else if same_text(tag.as_str(), "timestampSpec") {
                    Some(AnalysisType::TimestampSpec)
                } else if same_text(tag.as_str(), "queryGranularity") {
                    Some(AnalysisType::QueryGranularity)
                } else if same_text(tag.as_str(), "aggregators") {
                    Some(AnalysisType::Aggregators)
                } else if same_text(tag.as_str(), "rollup") {
                    Some(AnalysisType::Rollup)
                } else {
                    None
                }
            },
            _ => None,
        }
    }

    /// Reads the items of an array: `None` where one of them does not read.
    pub fn all_from_json(items: &Vec<Json>) -> (r: Option<Vec<AnalysisType>>)
        ensures
            match r {
                Some(v) => AnalysisType::parse_all(Json::models(items@)) == Some(v@),
                None => AnalysisType::parse_all(Json::models(items@)) is None,
            },
    {
        let mut out: Vec<AnalysisType> = Vec::new();
        let mut i: usize = 0;
        while i < items.len()
            invariant
                i <= items.len(),
                out@.len() == i,
                forall|k: int|
                    0 <= k < i ==>
                        AnalysisType::parse(#[trigger] Json::models(items@)[k]) == Some(out@[k]),
            decreases items.len() - i,
        {
            match Self::from_json(&items[i]) {
                Some(v) => {
                    out.push(v);
                },
                None => {
                    assert(AnalysisType::parse(Json::models(items@)[i as int]) is None);
                    return None;
                },
            }
            i += 1;
        }
        proof {
            assert(AnalysisType::parse_all(Json::models(items@))->Some_0 =~= out@);
        }
        Some(out)
    }

    /// Reads the required member `key` of `j` where it is an array of values.
    pub fn all_field_from_json(j: &Json, key: &str) -> (r: Option<Vec<AnalysisType>>)
        ensures
            match r {
                Some(v) => AnalysisType::parse_all_field(j@, key@) == Some(v@),
                None => AnalysisType::parse_all_field(j@, key@) is None,
            },
    {
        match j.get(key) {
            Some(Json::Array(items)) => Self::all_from_json(items),
            _ => None,
        }
    }
}

/// The query for what the segments of a data source hold. The member
/// `analysisTypes` is left out where no analysis is named, so that the engine
/// takes its own choice; left out, it reads as none.
#[derive(Debug, PartialEq)]
pub struct SegmentMetadata {
    pub data_source: DataSource,
    pub intervals: Vec<String>,
    pub to_include: ToInclude,
    pub merge: bool,
    pub analysis_types: Vec<AnalysisType>,
    pub lenient_aggregator_merge: bool,
}

/// The mathematical model of a [`SegmentMetadata`].
#[verifier::ext_equal]
pub struct SegmentMetadataModel {
    pub data_source: DataSourceModel,
    pub intervals: Seq<Seq<char>>,
    pub to_include: ToIncludeModel,
    pub merge: bool,
    pub analysis_types: Seq<AnalysisType>,
    pub lenient_aggregator_merge: bool,
}

impl SegmentMetadata {
    /// The mathematical model of this value.
    pub open spec fn model(self) -> SegmentMetadataModel
        decreases self,
    {
        SegmentMetadataModel {
            data_source: self.data_source.model(),
            intervals: text_views(self.intervals@),
            to_include: self.to_include.model(),
            merge: self.merge,
            analysis_types: self.analysis_types@,
            lenient_aggregator_merge: self.lenient_aggregator_merge,
        }
    }
}

impl View for SegmentMetadata {
    type V = SegmentMetadataModel;

    open spec fn view(&self) -> SegmentMetadataModel {
        self.model()
    }
}

impl SegmentMetadataModel {
    /// The wire form of this value.
    pub open spec fn wire(self) -> JsonModel
        decreases self,
    {
        if self.analysis_types.len() == 0 {
            JsonModel::Object(
                Seq::empty()
                    .push(("queryType"@, JsonModel::Str("segmentMetadata"@)))
                    .push(("dataSource"@, self.data_source.wire()))
                    .push(("intervals"@, JsonModel::texts(self.intervals)))
                    .push(("toInclude"@, self.to_include.wire()))
                    .push(("merge"@, JsonModel::Bool(self.merge)))
                    .push(
                        ("lenientAggregatorMerge"@, JsonModel::Bool(self.lenient_aggregator_merge)),
                    ),
            )
        } else {
            JsonModel::Object(
                Seq::empty()
                    .push(("queryType"@, JsonModel::Str("segmentMetadata"@)))
                    .push(("dataSource"@, self.data_source.wire()))
                    .push(("intervals"@, JsonModel::texts(self.intervals)))
                    .push(("toInclude"@, self.to_include.wire()))
                    .push(("merge"@, JsonModel::Bool(self.merge)))
                    .push(
                        (
                            "analysisTypes"@,
                            JsonModel::Array(AnalysisType::wire_all(self.analysis_types)),
                        ),
                    )
                    .push(
                        ("lenientAggregatorMerge"@, JsonModel::Bool(self.lenient_aggregator_merge)),
                    ),
            )
        }
    }

    /// What a JSON value reads as: `None` where it does not read as a value of
    /// this type. The members of an object are found by their names, in
    /// whatever order they stand, and members of other names are passed over.
    pub open spec fn parse(j: JsonModel) -> Option<SegmentMetadataModel>
        decreases j, 1int,
    {
        match (
            DataSourceModel::parse_field(j, "dataSource"@),
            j.texts_field("intervals"@),
            ToIncludeModel::parse_field(j, "toInclude"@),
            j.bool_field("merge"@),
            (match j.optional("analysisTypes"@) {
                Some(JsonModel::Array(items)) => AnalysisType::parse_all(items),
                Some(_) => None,
                None => Some(Seq::empty()),
            }),
            j.bool_field("lenientAggregatorMerge"@),
        ) {
            (
                Some(data_source),
                Some(intervals),
                Some(to_include),
                Some(merge),
                Some(analysis_types),
                Some(lenient_aggregator_merge),
            ) => Some(
                SegmentMetadataModel {
                    data_source,
                    intervals,
                    to_include,
                    merge,
                    analysis_types,
                    lenient_aggregator_merge,
                },
            ),
            _ => None,
        }
    }

    /// The lengths and the letters that tell the names of this wire form apart.
    pub proof fn lemma_names()
        ensures
            "merge"@.len() == 5,
            "intervals"@.len() == 9,
            "queryType"@.len() == 9,
            "toInclude"@.len() == 9,
            "dataSource"@.len() == 10,
            "analysisTypes"@.len() == 13,
            "segmentMetadata"@.len() == 15,
            "lenientAggregatorMerge"@.len() == 22,
            "intervals"@[0] == 'i',
            "queryType"@[0] == 'q',
            "toInclude"@[0] == 't',
    {
        reveal_strlit("merge");
        reveal_strlit("intervals");
        reveal_strlit("queryType");
        reveal_strlit("toInclude");
        reveal_strlit("dataSource");
        reveal_strlit("analysisTypes");
        reveal_strlit("segmentMetadata");
        reveal_strlit("lenientAggregatorMerge");
    }

    /// Decoding the wire form of a value gives the value back.
    pub proof fn lemma_round_trip(self)
        ensures
            Self::parse(self.wire()) == Some(self),
        decreases self,
    {
        Self::lemma_names();
        reveal_with_fuel(JsonModel::find, 9);
        self.data_source.lemma_round_trip();
        JsonModel::lemma_texts(self.intervals);
        self.to_include.lemma_round_trip();
        AnalysisType::lemma_round_trip_all(self.analysis_types);
        assert(self.analysis_types.len() == 0 ==> self.analysis_types =~= Seq::empty());
    }
}

impl SegmentMetadata {
    /// The wire form of this value.
    pub fn to_json(&self) -> (j: Json)
        ensures
            j@ == self@.wire(),
            j@.field("queryType"@) == Some(JsonModel::Str("segmentMetadata"@)),
        decreases self,
    {
        proof {
            reveal_with_fuel(JsonModel::find, 2);
        }
        let mut w = ObjectWriter::new();
        w.put("queryType", Json::text("segmentMetadata"));
        w.put("dataSource", self.data_source.to_json());
        w.put("intervals", Json::texts(&self.intervals));
        w.put("toInclude", self.to_include.to_json());
        w.put("merge", Json::Bool(self.merge));
        if !self.analysis_types.is_empty() {
            w.put("analysisTypes", AnalysisType::all_to_json(&self.analysis_types));
        }
        w.put("lenientAggregatorMerge", Json::Bool(self.lenient_aggregator_merge));
        w.finish()
    }

    /// Reads a value from JSON: `None` where `j` does not read as a value of
    /// this type.
    pub fn from_json(j: &Json) -> (r: Option<SegmentMetadata>)
        ensures
            match r {
                Some(v) => SegmentMetadataModel::parse(j@) == Some(v@),
                None => SegmentMetadataModel::parse(j@) is None,
            },
        decreases j@, 1int,
    {
        let data_source = DataSource::field_from_json(j, "dataSource")?;
        let intervals = j.texts_field("intervals")?;
        let to_include = ToInclude::field_from_json(j, "toInclude")?;
        let merge = j.bool_field("merge")?;
        let analysis_types = match j.get_optional("analysisTypes") {
            Some(Json::Array(items)) => AnalysisType::all_from_json(items)?,
            Some(_) => {
                return None;
            },
            None => Vec::new(),
        };
        let lenient_aggregator_merge = j.bool_field("lenientAggregatorMerge")?;
        Some(SegmentMetadata {
            data_source,
            intervals,
            to_include,
            merge,
            analysis_types,
            lenient_aggregator_merge,
        })
    }
}

} // verus!
