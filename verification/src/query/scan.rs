//! The scan query.

use crate::json::{same_text, text_views, Json, JsonModel, ObjectWriter};
use crate::string_map::{StringMap, StringMapModel};
use crate::query::{DataSource, DataSourceModel};
use crate::query::definitions::{Direction, Filter, FilterModel};
use vstd::prelude::*;

verus! {

/// The form in which a scan hands out its rows.
#[derive(Debug, Clone, Copy, PartialEq, Eq)]
pub enum ResultFormat {
    List,
    CompactedList,
    ValueVector,
}

impl ResultFormat {
    /// The wire form of this value.
    pub open spec fn wire(self) -> JsonModel {
        match self {
            ResultFormat::List => JsonModel::Str("list"@),
            ResultFormat::CompactedList => JsonModel::Str("compactedList"@),
            ResultFormat::ValueVector => JsonModel::Str("valueVector"@),
        }
    }

    /// What a JSON value reads as: `None` where it does not read as a value of
    /// this type.
    pub open spec fn parse(j: JsonModel) -> Option<ResultFormat> {
        match j {
            JsonModel::Str(tag) => if tag == "list"@ {
                Some(ResultFormat::List)
            } else if tag == "compactedList"@ {
                Some(ResultFormat::CompactedList)
            } else if tag == "valueVector"@ {
                Some(ResultFormat::ValueVector)
            } else {
                None
            },
            _ => None,
        }
    }

    /// What the required member `key` of `j` reads as.
    pub open spec fn parse_field(j: JsonModel, key: Seq<char>) -> Option<ResultFormat> {
        match j.field(key) {
            Some(v) => Self::parse(v),
            None => None,
        }
    }

    /// The lengths and the letters that tell the names of this wire form apart.
    pub proof fn lemma_names()
        ensures
            "list"@.len() == 4,
            "valueVector"@.len() == 11,
            "compactedList"@.len() == 13,
    {
        reveal_strlit("list");
        reveal_strlit("valueVector");
        reveal_strlit("compactedList");
    }

    /// Decoding the wire form of a value gives the value back.
    pub proof fn lemma_round_trip(self)
        ensures
            Self::parse(self.wire()) == Some(self),
    {
        Self::lemma_names();
        reveal_with_fuel(JsonModel::find, 3);
        match self {
            ResultFormat::List => {},
            ResultFormat::CompactedList => {},
            ResultFormat::ValueVector => {},
        }
    }
}

impl ResultFormat {
    /// The wire form of this value.
    pub fn to_json(&self) -> (j: Json)
        ensures
            j@ == self.wire(),
    {
        match self {
            ResultFormat::List => Json::text("list"),
            ResultFormat::CompactedList => Json::text("compactedList"),
            ResultFormat::ValueVector => Json::text("valueVector"),
        }
    }

    /// Reads a value from JSON: `None` where `j` does not read as a value of
    /// this type.
    pub fn from_json(j: &Json) -> (r: Option<ResultFormat>)
        ensures
            r == ResultFormat::parse(j@),
    {
        match j {
            Json::Str(tag) => {
                if same_text(tag.as_str(), "list") {
                    Some(ResultFormat::List)
                } else if same_text(tag.as_str(), "compactedList") {
                    Some(ResultFormat::CompactedList)
                } else if same_text(tag.as_str(), "valueVector") {
                    Some(ResultFormat::ValueVector)
                } else {
                    None
                }
            },
            _ => None,
        }
    }

    /// Reads the required member `key` of `j`.
    pub fn field_from_json(j: &Json, key: &str) -> (r: Option<ResultFormat>)
        ensures
            r == ResultFormat::parse_field(j@, key@),
    {
        match j.get(key) {
            Some(v) => Self::from_json(v),
            None => None,
        }
    }
}

/// The query that hands out rows as they are.
#[derive(Debug, PartialEq)]
pub struct Scan {
    pub data_source: DataSource,
    pub intervals: Vec<String>,
    pub result_format: ResultFormat,
    pub filter: Option<Filter>,
    pub columns: Vec<String>,
    pub batch_size: usize,
    pub limit: Option<usize>,
    pub ordering: Option<Direction>,
    pub context: StringMap,
}

/// The mathematical model of a [`Scan`].
#[verifier::ext_equal]
pub struct ScanModel {
    pub data_source: DataSourceModel,
    pub intervals: Seq<Seq<char>>,
    pub result_format: ResultFormat,
    pub filter: Option<FilterModel>,
    pub columns: Seq<Seq<char>>,
    pub batch_size: usize,
    pub limit: Option<usize>,
    pub ordering: Option<Direction>,
    pub context: StringMapModel,
}

impl Scan {
    /// The mathematical model of this value.
    pub open spec fn model(self) -> ScanModel
        decreases self,
    {
        ScanModel {
            data_source: self.data_source.model(),
            intervals: text_views(self.intervals@),
            result_format: self.result_format,
            filter: Filter::optional_model(self.filter),
            columns: text_views(self.columns@),
            batch_size: self.batch_size,
            limit: self.limit,
            ordering: self.ordering,
            context: self.context@,
        }
    }
}

impl View for Scan {
    type V = ScanModel;

    open spec fn view(&self) -> ScanModel {
        self.model()
    }
}

impl ScanModel {
    /// The wire form of this value.
    pub open spec fn wire(self) -> JsonModel
        decreases self,
    {
        JsonModel::Object(
            Seq::empty()
                .push(("queryType"@, JsonModel::Str("scan"@)))
                .push(("dataSource"@, self.data_source.wire()))
                .push(("intervals"@, JsonModel::texts(self.intervals)))
                .push(("resultFormat"@, self.result_format.wire()))
                .push(("filter"@, FilterModel::wire_optional(self.filter)))
                .push(("columns"@, JsonModel::texts(self.columns)))
                .push(("batchSize"@, JsonModel::integer(self.batch_size as int)))
                .push(("limit"@, JsonModel::optional_usize(self.limit)))
                .push(("ordering"@, Direction::wire_optional(self.ordering)))
                .push(("context"@, self.context.wire())),
        )
    }

    /// What a JSON value reads as: `None` where it does not read as a value of
    /// this type. The members of an object are found by their names, in
    /// whatever order they stand, and members of other names are passed over.
    pub open spec fn parse(j: JsonModel) -> Option<ScanModel>
        decreases j, 1int,
    {
        match (
            DataSourceModel::parse_field(j, "dataSource"@),
            j.texts_field("intervals"@),
            ResultFormat::parse_field(j, "resultFormat"@),
            FilterModel::parse_optional_field(j, "filter"@),
            j.texts_field("columns"@),
            j.usize_field("batchSize"@),
            j.optional_usize_field("limit"@),
            Direction::parse_optional_field(j, "ordering"@),
            StringMapModel::parse_field(j, "context"@),
        ) {
            (
                Some(data_source),
                Some(intervals),
                Some(result_format),
                Some(filter),
                Some(columns),
                Some(batch_size),
                Some(limit),
                Some(ordering),
                Some(context),
            ) => Some(
                ScanModel {
                    data_source,
                    intervals,
                    result_format,
                    filter,
                    columns,
                    batch_size,
                    limit,
                    ordering,
                    context,
                },
            ),
            _ => None,
        }
    }

    /// The lengths and the letters that tell the names of this wire form apart.
    pub proof fn lemma_names()
        ensures
            "scan"@.len() == 4,
            "limit"@.len() == 5,
            "filter"@.len() == 6,
            "columns"@.len() == 7,
            "context"@.len() == 7,
            "ordering"@.len() == 8,
            "batchSize"@.len() == 9,
            "intervals"@.len() == 9,
            "queryType"@.len() == 9,
            "dataSource"@.len() == 10,
            "resultFormat"@.len() == 12,
            "columns"@[2] == 'l',
            "context"@[2] == 'n',
            "batchSize"@[0] == 'b',
            "intervals"@[0] == 'i',
            "queryType"@[0] == 'q',
    {
        reveal_strlit("scan");
        reveal_strlit("limit");
        reveal_strlit("filter");
        reveal_strlit("columns");
        reveal_strlit("context");
        reveal_strlit("ordering");
        reveal_strlit("batchSize");
        reveal_strlit("intervals");
        reveal_strlit("queryType");
        reveal_strlit("dataSource");
        reveal_strlit("resultFormat");
    }

    /// Decoding the wire form of a value gives the value back.
    pub proof fn lemma_round_trip(self)
        ensures
            Self::parse(self.wire()) == Some(self),
        decreases self,
    {
        Self::lemma_names();
        reveal_with_fuel(JsonModel::find, 12);
        self.data_source.lemma_round_trip();
        JsonModel::lemma_texts(self.intervals);
        self.result_format.lemma_round_trip();
        FilterModel::lemma_round_trip_optional(self.filter);
        JsonModel::lemma_texts(self.columns);
        Direction::lemma_round_trip_optional(self.ordering);
        self.context.lemma_round_trip();
    }
}

impl Scan {
    /// The wire form of this value.
    pub fn to_json(&self) -> (j: Json)
        ensures
            j@ == self@.wire(),
            j@.field("queryType"@) == Some(JsonModel::Str("scan"@)),
        decreases self,
    {
        proof {
            reveal_with_fuel(JsonModel::find, 2);
        }
        let mut w = ObjectWriter::new();
        w.put("queryType", Json::text("scan"));
        w.put("dataSource", self.data_source.to_json());
        w.put("intervals", Json::texts(&self.intervals));
        w.put("resultFormat", self.result_format.to_json());
        w.put("filter", Filter::optional_to_json(&self.filter));
        w.put("columns", Json::texts(&self.columns));
        w.put("batchSize", Json::from_usize(self.batch_size));
        w.put("limit", Json::optional_usize(&self.limit));
        w.put("ordering", Direction::optional_to_json(&self.ordering));
        w.put("context", self.context.to_json());
        w.finish()
    }

    /// Reads a value from JSON: `None` where `j` does not read as a value of
    /// this type.
    pub fn from_json(j: &Json) -> (r: Option<Scan>)
        ensures
            match r {
                Some(v) => ScanModel::parse(j@) == Some(v@),
                None => ScanModel::parse(j@) is None,
            },
        decreases j@, 1int,
    {
        let data_source = DataSource::field_from_json(j, "dataSource")?;
        let intervals = j.texts_field("intervals")?;
        let result_format = ResultFormat::field_from_json(j, "resultFormat")?;
        let filter = Filter::optional_field_from_json(j, "filter")?;
        let columns = j.texts_field("columns")?;
        let batch_size = j.usize_field("batchSize")?;
        let limit = j.optional_usize_field("limit")?;
        let ordering = Direction::optional_field_from_json(j, "ordering")?;
        let context = StringMap::field_from_json(j, "context")?;
        Some(Scan {
            data_source,
            intervals,
            result_format,
            filter,
            columns,
            batch_size,
            limit,
            ordering,
            context,
        })
    }
}

} // verus!
