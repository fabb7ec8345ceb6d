//! The queries of the engine and what they are made of.
//!
//! A query is built by the caller, written once as JSON and sent. Every
//! type of the query language has a mathematical model, a wire form stated
//! over the model, and the proof that what was written reads back as the
//! same value.

pub mod definitions;
pub mod group_by;
pub mod response;
pub mod scan;
pub mod search;
pub mod segment_metadata;
pub mod time_boundary;
pub mod timeseries;
pub mod top_n;

use crate::json::{
    number_model, optional_text_view, same_text, text_row_views, text_views, Json, JsonModel,
    NumberModel, ObjectWriter,
};
use crate::query::definitions::{owned_texts, slice_views};
use crate::query::group_by::{GroupBy, GroupByModel};
use crate::query::scan::{Scan, ScanModel};
use crate::query::search::{Search, SearchModel};
use crate::query::segment_metadata::{SegmentMetadata, SegmentMetadataModel};
use crate::query::time_boundary::{TimeBoundary, TimeBoundaryModel};
use crate::query::timeseries::{Timeseries, TimeseriesModel};
use crate::query::top_n::{TopN, TopNModel};
use crate::string_map::{StringMap, StringMapModel};
use vstd::prelude::*;

verus! {

/// How the rows of the two sides of a join are matched.
#[derive(Debug, Clone, Copy, PartialEq, Eq)]
pub enum JoinType {
    Inner,
    Left,
}

impl JoinType {
    /// The wire form of this value.
    pub open spec fn wire(self) -> JsonModel {
        match self {
            JoinType::Inner => JsonModel::Str("INNER"@),
            JoinType::Left => JsonModel::Str("LEFT"@),
        }
    }

    /// What a JSON value reads as: `None` where it does not read as a value of
    /// this type.
    pub open spec fn parse(j: JsonModel) -> Option<JoinType> {
        match j {
            JsonModel::Str(tag) => if tag == "INNER"@ {
                Some(JoinType::Inner)
            } else if tag == "LEFT"@ {
                Some(JoinType::Left)
            } else {
                None
            },
            _ => None,
        }
    }

    /// What the required member `key` of `j` reads as.
    pub open spec fn parse_field(j: JsonModel, key: Seq<char>) -> Option<JoinType> {
        match j.field(key) {
            Some(v) => Self::parse(v),
            None => None,
        }
    }

    /// The lengths and the letters that tell the names of this wire form apart.
    pub proof fn lemma_names()
        ensures
            "LEFT"@.len() == 4,
            "INNER"@.len() == 5,
    {
        reveal_strlit("LEFT");
        reveal_strlit("INNER");
    }

    /// Decoding the wire form of a value gives the value back.
    pub proof fn lemma_round_trip(self)
        ensures
            Self::parse(self.wire()) == Some(self),
    {
        Self::lemma_names();
        reveal_with_fuel(JsonModel::find, 3);
        match self {
            JoinType::Inner => {},
            JoinType::Left => {},
        }
    }
}

impl JoinType {
    /// The wire form of this value.
    pub fn to_json(&self) -> (j: Json)
        ensures
            j@ == self.wire(),
    {
        match self {
            JoinType::Inner => Json::text("INNER"),
            JoinType::Left => Json::text("LEFT"),
        }
    }

    /// Reads a value from JSON: `None` where `j` does not read as a value of
    /// this type.
    pub fn from_json(j: &Json) -> (r: Option<JoinType>)
        ensures
            r == JoinType::parse(j@),
    {
        match j {
            Json::Str(tag) => {
                if same_text(tag.as_str(), "INNER") {
                    Some(JoinType::Inner)
                } else if same_text(tag.as_str(), "LEFT") {
                    Some(JoinType::Left)
                } else {
                    None
                }
            },
            _ => None,
        }
    }

    /// Reads the required member `key` of `j`.
    pub fn field_from_json(j: &Json, key: &str) -> (r: Option<JoinType>)
        ensures
            r == JoinType::parse_field(j@, key@),
    {
        match j.get(key) {
            Some(v) => Self::from_json(v),
            None => None,
        }
    }
}

/// What a query reads: a table, a lookup, a union of tables, rows written in
/// the query, the result of another query, or a join of two data sources.
#[derive(Debug, PartialEq)]
pub enum DataSource {
    /// A table.
    Table { name: String },
    /// A lookup table.
    Lookup { lookup: String },
    /// The rows of several tables.
    Union { data_sources: Vec<String> },
    /// Rows that are written in the query.
    Inline { column_names: Vec<String>, rows: Vec<Vec<String>> },
    /// The result of another query.
    Query { query: Box<Query> },
    /// The engine takes a lookup, a query or inline data as the right side; the
    /// model holds whatever the caller puts there.
    Join {
        left: Box<DataSource>,
        right: Box<DataSource>,
        right_prefix: String,
        condition: String,
        join_type: JoinType,
    },
}

/// The mathematical model of a [`DataSource`].
#[verifier::ext_equal]
pub enum DataSourceModel {
    Table { name: Seq<char> },
    Lookup { lookup: Seq<char> },
    Union { data_sources: Seq<Seq<char>> },
    Inline { column_names: Seq<Seq<char>>, rows: Seq<Seq<Seq<char>>> },
    Query { query: Box<QueryModel> },
    Join {
        left: Box<DataSourceModel>,
        right: Box<DataSourceModel>,
        right_prefix: Seq<char>,
        condition: Seq<char>,
        join_type: JoinType,
    },
}

impl DataSource {
    /// The mathematical model of this value.
    pub open spec fn model(self) -> DataSourceModel
        decreases self,
    {
        match self {
            DataSource::Table { name } => DataSourceModel::Table { name: name@ },
            DataSource::Lookup { lookup } => DataSourceModel::Lookup { lookup: lookup@ },
            DataSource::Union { data_sources } => DataSourceModel::Union {
                data_sources: text_views(data_sources@),
            },
            DataSource::Inline { column_names, rows } => DataSourceModel::Inline {
                column_names: text_views(column_names@),
                rows: text_row_views(rows@),
            },
            DataSource::Query { query } => DataSourceModel::Query {
                query: Box::new(query.model()),
            },
            DataSource::Join {
                left,
                right,
                right_prefix,
                condition,
                join_type,
            } => DataSourceModel::Join {
                left: Box::new(left.model()),
                right: Box::new(right.model()),
                right_prefix: right_prefix@,
                condition: condition@,
                join_type,
            },
        }
    }

    /// The model of a value that may be absent.
    pub open spec fn optional_model(item: Option<DataSource>) -> Option<DataSourceModel> {
        match item {
            Some(v) => Some(v.model()),
            None => None,
        }
    }
}

impl View for DataSource {
    type V = DataSourceModel;

    open spec fn view(&self) -> DataSourceModel {
        self.model()
    }
}

impl DataSourceModel {
    /// The wire form of this value.
    pub open spec fn wire(self) -> JsonModel
        decreases self,
    {
        match self {
            DataSourceModel::Table { name } => {
                JsonModel::Object(
                    Seq::empty()
                        .push(("type"@, JsonModel::Str("table"@)))
                        .push(("name"@, JsonModel::Str(name))),
                )
            },
            DataSourceModel::Lookup { lookup } => {
                JsonModel::Object(
                    Seq::empty()
                        .push(("type"@, JsonModel::Str("lookup"@)))
                        .push(("lookup"@, JsonModel::Str(lookup))),
                )
            },
            DataSourceModel::Union { data_sources } => {
                JsonModel::Object(
                    Seq::empty()
                        .push(("type"@, JsonModel::Str("union"@)))
                        .push(("dataSources"@, JsonModel::texts(data_sources))),
                )
            },
            DataSourceModel::Inline { column_names, rows } => {
                JsonModel::Object(
                    Seq::empty()
                        .push(("type"@, JsonModel::Str("inline"@)))
                        .push(("columnNames"@, JsonModel::texts(column_names)))
                        .push(("rows"@, JsonModel::text_rows(rows))),
                )
            },
            DataSourceModel::Query { query } => {
                JsonModel::Object(
                    Seq::empty()
                        .push(("type"@, JsonModel::Str("query"@)))
                        .push(("query"@, query.wire())),
                )
            },
            DataSourceModel::Join { left, right, right_prefix, condition, join_type } => {
                JsonModel::Object(
                    Seq::empty()
                        .push(("type"@, JsonModel::Str("join"@)))
                        .push(("left"@, left.wire()))
                        .push(("right"@, right.wire()))
                        .push(("rightPrefix"@, JsonModel::Str(right_prefix)))
                        .push(("condition"@, JsonModel::Str(condition)))
                        .push(("joinType"@, join_type.wire())),
                )
            },
        }
    }

    /// What a JSON value reads as: `None` where it does not read as a value of
    /// this type. The members of an object are found by their names, in
    /// whatever order they stand, and members of other names are passed over.
    pub open spec fn parse(j: JsonModel) -> Option<DataSourceModel>
        decreases j, 1int,
    {
        match j.text_field("type"@) {
            Some(tag) => if tag == "table"@ {
                match j.text_field("name"@) {
                    Some(name) => Some(DataSourceModel::Table { name }),
                    None => None,
                }
            } else if tag == "lookup"@ {
                match j.text_field("lookup"@) {
                    Some(lookup) => Some(DataSourceModel::Lookup { lookup }),
                    None => None,
                }
            } else if tag == "union"@ {
                match j.texts_field("dataSources"@) {
                    Some(data_sources) => Some(DataSourceModel::Union { data_sources }),
                    None => None,
                }
            } else if tag == "inline"@ {
                match (
                    j.texts_field("columnNames"@),
                    j.text_rows_field("rows"@),
                ) {
                    (Some(column_names), Some(rows)) => Some(
                        DataSourceModel::Inline {
                            column_names,
                            rows,
                        },
                    ),
                    _ => None,
                }
            } else if tag == "query"@ {
                match QueryModel::parse_field(j, "query"@) {
                    Some(query) => Some(DataSourceModel::Query { query: Box::new(query) }),
                    None => None,
                }
            } else if tag == "join"@ {
                match (
                    DataSourceModel::parse_field(j, "left"@),
                    DataSourceModel::parse_field(j, "right"@),
                    j.text_field("rightPrefix"@),
                    j.text_field("condition"@),
                    JoinType::parse_field(j, "joinType"@),
                ) {
                    (
                        Some(left),
                        Some(right),
                        Some(right_prefix),
                        Some(condition),
                        Some(join_type),
                    ) => Some(
                        DataSourceModel::Join {
                            left: Box::new(left),
                            right: Box::new(right),
                            right_prefix,
                            condition,
                            join_type,
                        },
                    ),
                    _ => None,
                }
            } else {
                None
            },
            None => None,
        }
    }

    /// What the required member `key` of `j` reads as.
    pub open spec fn parse_field(j: JsonModel, key: Seq<char>) -> Option<DataSourceModel>
        decreases j, 0int,
    {
        match j.field(key) {
            Some(v) => {
                proof {
                    j.lemma_field_decreases(key);
                }
                Self::parse(v)
            },
            None => None,
        }
    }

    /// The lengths and the letters that tell the names of this wire form apart.
    pub proof fn lemma_names()
        ensures
            "join"@.len() == 4,
            "left"@.len() == 4,
            "name"@.len() == 4,
            "rows"@.len() == 4,
            "type"@.len() == 4,
            "query"@.len() == 5,
            "right"@.len() == 5,
            "table"@.len() == 5,
            "union"@.len() == 5,
            "inline"@.len() == 6,
            "lookup"@.len() == 6,
            "joinType"@.len() == 8,
            "condition"@.len() == 9,
            "columnNames"@.len() == 11,
            "dataSources"@.len() == 11,
            "rightPrefix"@.len() == 11,
            "join"@[0] == 'j',
            "left"@[0] == 'l',
            "name"@[0] == 'n',
            "rows"@[0] == 'r',
            "type"@[0] == 't',
            "query"@[0] == 'q',
            "right"@[0] == 'r',
            "table"@[0] == 't',
            "union"@[0] == 'u',
            "inline"@[0] == 'i',
            "lookup"@[0] == 'l',
            "columnNames"@[0] == 'c',
            "dataSources"@[0] == 'd',
            "rightPrefix"@[0] == 'r',
    {
        reveal_strlit("join");
        reveal_strlit("left");
        reveal_strlit("name");
        reveal_strlit("rows");
        reveal_strlit("type");
        reveal_strlit("query");
        reveal_strlit("right");
        reveal_strlit("table");
        reveal_strlit("union");
        reveal_strlit("inline");
        reveal_strlit("lookup");
        reveal_strlit("joinType");
        reveal_strlit("condition");
        reveal_strlit("columnNames");
        reveal_strlit("dataSources");
        reveal_strlit("rightPrefix");
    }

    /// Decoding the wire form of a value gives the value back.
    pub proof fn lemma_round_trip(self)
        ensures
            Self::parse(self.wire()) == Some(self),
        decreases self,
    {
        Self::lemma_names();
        reveal_with_fuel(JsonModel::find, 8);
        match self {
            DataSourceModel::Table { .. } => {},
            DataSourceModel::Lookup { .. } => {},
            DataSourceModel::Union { data_sources } => {
                JsonModel::lemma_texts(data_sources);
            },
            DataSourceModel::Inline { column_names, rows } => {
                JsonModel::lemma_texts(column_names);
                JsonModel::lemma_text_rows(rows);
            },
            DataSourceModel::Query { query } => {
                query.lemma_round_trip();
            },
            DataSourceModel::Join { left, right, right_prefix, condition, join_type } => {
                left.lemma_round_trip();
                right.lemma_round_trip();
                join_type.lemma_round_trip();
            },
        }
    }
}

impl DataSource {
    /// The table `name`.
    pub fn table(name: &str) -> (d: DataSource)
        ensures
            d@ == (DataSourceModel::Table { name: name@ }),
    {
        DataSource::Table { name: name.to_owned() }
    }

    /// The lookup `name`.
    pub fn lookup(name: &str) -> (d: DataSource)
        ensures
            d@ == (DataSourceModel::Lookup { lookup: name@ }),
    {
        DataSource::Lookup { lookup: name.to_owned() }
    }

    /// The union of the tables `sources`.
    pub fn union(sources: Vec<&str>) -> (d: DataSource)
        ensures
            d@ == (DataSourceModel::Union { data_sources: slice_views(sources@) }),
    {
        DataSource::Union { data_sources: owned_texts(&sources) }
    }

    /// The result of `query`.
    pub fn query(query: Query) -> (d: DataSource)
        ensures
            d@ == (DataSourceModel::Query { query: Box::new(query@) }),
    {
        DataSource::Query { query: Box::new(query) }
    }

    /// A builder for a join of the kind `join_type`.
    pub fn join(join_type: JoinType) -> (b: JoinBuilder)
        ensures
            b@ == (JoinBuilderModel {
                left: None,
                right: None,
                right_prefix: None,
                condition: None,
                join_type,
            }),
    {
        JoinBuilder::new(join_type)
    }

    /// The wire form of this value.
    pub fn to_json(&self) -> (j: Json)
        ensures
            j@ == self@.wire(),
        decreases self,
    {
        let mut w = ObjectWriter::new();
        match self {
            DataSource::Table { name } => {
                w.put("type", Json::text("table"));
                w.put("name", Json::text(name.as_str()));
            },
            DataSource::Lookup { lookup } => {
                w.put("type", Json::text("lookup"));
                w.put("lookup", Json::text(lookup.as_str()));
            },
            DataSource::Union { data_sources } => {
                w.put("type", Json::text("union"));
                w.put("dataSources", Json::texts(data_sources));
            },
            DataSource::Inline { column_names, rows } => {
                w.put("type", Json::text("inline"));
                w.put("columnNames", Json::texts(column_names));
                w.put("rows", Json::text_rows(rows));
            },
            DataSource::Query { query } => {
                w.put("type", Json::text("query"));
                w.put("query", query.to_json());
            },
            DataSource::Join { left, right, right_prefix, condition, join_type } => {
                w.put("type", Json::text("join"));
                w.put("left", left.to_json());
                w.put("right", right.to_json());
                w.put("rightPrefix", Json::text(right_prefix.as_str()));
                w.put("condition", Json::text(condition.as_str()));
                w.put("joinType", join_type.to_json());
            },
        }
        w.finish()
    }

    /// Reads a value from JSON: `None` where `j` does not read as a value of
    /// this type.
    pub fn from_json(j: &Json) -> (r: Option<DataSource>)
        ensures
            match r {
                Some(v) => DataSourceModel::parse(j@) == Some(v@),
                None => DataSourceModel::parse(j@) is None,
            },
        decreases j@, 1int,
    {
        let tag = j.text_field("type")?;
        if same_text(tag.as_str(), "table") {
            let name = j.text_field("name")?;
            Some(DataSource::Table { name })
        } else if same_text(tag.as_str(), "lookup") {
            let lookup = j.text_field("lookup")?;
            Some(DataSource::Lookup { lookup })
        } else if same_text(tag.as_str(), "union") {
            let data_sources = j.texts_field("dataSources")?;
            Some(DataSource::Union { data_sources })
        } else if same_text(tag.as_str(), "inline") {
            let column_names = j.texts_field("columnNames")?;
            let rows = j.text_rows_field("rows")?;
            Some(DataSource::Inline { column_names, rows })
        } else if same_text(tag.as_str(), "query") {
            let query = Query::field_from_json(j, "query")?;
            Some(DataSource::Query { query: Box::new(query) })
        } else if same_text(tag.as_str(), "join") {
            let left = DataSource::field_from_json(j, "left")?;
            let right = DataSource::field_from_json(j, "right")?;
            let right_prefix = j.text_field("rightPrefix")?;
            let condition = j.text_field("condition")?;
            let join_type = JoinType::field_from_json(j, "joinType")?;
            Some(DataSource::Join {
                left: Box::new(left),
                right: Box::new(right),
                right_prefix,
                condition,
                join_type,
            })
        } else {
            None
        }
    }

    /// Reads the required member `key` of `j`.
    pub fn field_from_json(j: &Json, key: &str) -> (r: Option<DataSource>)
        ensures
            match r {
                Some(v) => DataSourceModel::parse_field(j@, key@) == Some(v@),
                None => DataSourceModel::parse_field(j@, key@) is None,
            },
        decreases j@, 0int,
    {
        match j.get(key) {
            Some(v) => {
                proof {
                    j@.lemma_field_decreases(key@);
                }
                Self::from_json(v)
            },
            None => None,
        }
    }
}

/// A join that is being put together: the two sides, the prefix of the right
/// side and the condition come one by one, and `build` hands out the join once
/// all four are there.
#[derive(Debug)]
pub struct JoinBuilder {
    left: Option<DataSource>,
    right: Option<DataSource>,
    right_prefix: Option<String>,
    condition: Option<String>,
    join_type: JoinType,
}

/// The mathematical model of a [`JoinBuilder`].
#[verifier::ext_equal]
pub struct JoinBuilderModel {
    pub left: Option<DataSourceModel>,
    pub right: Option<DataSourceModel>,
    pub right_prefix: Option<Seq<char>>,
    pub condition: Option<Seq<char>>,
    pub join_type: JoinType,
}

impl JoinBuilder {
    /// The mathematical model of this value.
    pub closed spec fn model(self) -> JoinBuilderModel {
        JoinBuilderModel {
            left: DataSource::optional_model(self.left),
            right: DataSource::optional_model(self.right),
            right_prefix: optional_text_view(self.right_prefix),
            condition: optional_text_view(self.condition),
            join_type: self.join_type,
        }
    }
}

impl View for JoinBuilder {
    type V = JoinBuilderModel;

    closed spec fn view(&self) -> JoinBuilderModel {
        self.model()
    }
}

impl JoinBuilder {
    /// A builder that holds the kind of the join and nothing else.
    pub fn new(join_type: JoinType) -> (b: JoinBuilder)
        ensures
            b@ == (JoinBuilderModel {
                left: None,
                right: None,
                right_prefix: None,
                condition: None,
                join_type,
            }),
    {
        JoinBuilder { left: None, right: None, right_prefix: None, condition: None, join_type }
    }

    /// The builder with `left` as the left side.
    pub fn left(self, left: DataSource) -> (b: JoinBuilder)
        ensures
            b@ == (JoinBuilderModel { left: Some(left@), ..self@ }),
    {
        let mut b = self;
        b.left = Some(left);
        b
    }

    /// The builder with `right` as the right side, its columns under
    /// `right_prefix`.
    pub fn right(self, right: DataSource, right_prefix: &str) -> (b: JoinBuilder)
        ensures
            b@ == (JoinBuilderModel {
                right: Some(right@),
                right_prefix: Some(right_prefix@),
                ..self@
            }),
    {
        let mut b = self;
        b.right = Some(right);
        b.right_prefix = Some(right_prefix.to_owned());
        b
    }

    /// The builder with `condition` as the condition of the join.
    pub fn condition(self, condition: &str) -> (b: JoinBuilder)
        ensures
            b@ == (JoinBuilderModel { condition: Some(condition@), ..self@ }),
    {
        let mut b = self;
        b.condition = Some(condition.to_owned());
        b
    }

    /// What `build` hands out for a builder: the join of its parts where the
    /// left side, the right side, the condition and the prefix are all there,
    /// and nothing where one of them is missing.
    pub open spec fn built(b: JoinBuilderModel) -> Option<DataSourceModel> {
        match (b.left, b.right, b.condition, b.right_prefix) {
            (Some(left), Some(right), Some(condition), Some(right_prefix)) => Some(
                DataSourceModel::Join {
                    left: Box::new(left),
                    right: Box::new(right),
                    right_prefix,
                    condition,
                    join_type: b.join_type,
                },
            ),
            _ => None,
        }
    }

    /// Hands out the join and empties the builder: the four parts are taken
    /// out of it whether the join could be made or not, and the kind of the
    /// join stays.
    pub fn build(&mut self) -> (r: Option<DataSource>)
        ensures
            match r {
                Some(d) => Self::built(old(self)@) == Some(d@),
                None => Self::built(old(self)@) is None,
            },
            final(self)@ == (JoinBuilderModel {
                left: None,
                right: None,
                right_prefix: None,
                condition: None,
                join_type: old(self)@.join_type,
            }),
    {
        let left = self.left.take();
        let right = self.right.take();
        let condition = self.condition.take();
        let right_prefix = self.right_prefix.take();
        match (left, right, condition, right_prefix) {
            (Some(left), Some(right), Some(condition), Some(right_prefix)) => Some(
                DataSource::Join {
                    join_type: self.join_type,
                    left: Box::new(left),
                    right: Box::new(right),
                    condition,
                    right_prefix,
                },
            ),
            _ => None,
        }
    }
}

/// A query of any kind. On the wire a query is told from the others by its
/// member `queryType`.
#[derive(Debug, PartialEq)]
pub enum Query {
    TopN(TopN),
    GroupBy(GroupBy),
    Scan(Scan),
    Search(Search),
    TimeBoundary(TimeBoundary),
    SegmentMetadata(SegmentMetadata),
    Timeseries(Timeseries),
}

/// The mathematical model of a [`Query`].
#[verifier::ext_equal]
pub enum QueryModel {
    TopN(TopNModel),
    GroupBy(GroupByModel),
    Scan(ScanModel),
    Search(SearchModel),
    TimeBoundary(TimeBoundaryModel),
    SegmentMetadata(SegmentMetadataModel),
    Timeseries(TimeseriesModel),
}

impl Query {
    /// The mathematical model of this value.
    pub open spec fn model(self) -> QueryModel
        decreases self,
    {
        match self {
            Query::TopN(q) => QueryModel::TopN(q.model()),
            Query::GroupBy(q) => QueryModel::GroupBy(q.model()),
            Query::Scan(q) => QueryModel::Scan(q.model()),
            Query::Search(q) => QueryModel::Search(q.model()),
            Query::TimeBoundary(q) => QueryModel::TimeBoundary(q.model()),
            Query::SegmentMetadata(q) => QueryModel::SegmentMetadata(q.model()),
            Query::Timeseries(q) => QueryModel::Timeseries(q.model()),
        }
    }
}

impl View for Query {
    type V = QueryModel;

    open spec fn view(&self) -> QueryModel {
        self.model()
    }
}

impl QueryModel {
    /// The wire form of this value.
    pub open spec fn wire(self) -> JsonModel
        decreases self,
    {
        match self {
            QueryModel::TopN(q) => q.wire(),
            QueryModel::GroupBy(q) => q.wire(),
            QueryModel::Scan(q) => q.wire(),
            QueryModel::Search(q) => q.wire(),
            QueryModel::TimeBoundary(q) => q.wire(),
            QueryModel::SegmentMetadata(q) => q.wire(),
            QueryModel::Timeseries(q) => q.wire(),
        }
    }

    /// The tag under which this kind of value travels.
    pub open spec fn tag(self) -> Seq<char> {
        match self {
            QueryModel::TopN(_) => "topN"@,
            QueryModel::GroupBy(_) => "groupBy"@,
            QueryModel::Scan(_) => "scan"@,
            QueryModel::Search(_) => "search"@,
            QueryModel::TimeBoundary(_) => "timeBoundary"@,
            QueryModel::SegmentMetadata(_) => "segmentMetadata"@,
            QueryModel::Timeseries(_) => "timeseries"@,
        }
    }

    /// What a JSON value reads as: `None` where it does not read as a value of
    /// this type. The members of an object are found by their names, in
    /// whatever order they stand, and members of other names are passed over.
    pub open spec fn parse(j: JsonModel) -> Option<QueryModel>
        decreases j, 2int,
    {
        match j.text_field("queryType"@) {
            Some(tag) => if tag == "topN"@ {
                match TopNModel::parse(j) {
                    Some(q) => Some(QueryModel::TopN(q)),
                    None => None,
                }
            } else if tag == "groupBy"@ {
                match GroupByModel::parse(j) {
                    Some(q) => Some(QueryModel::GroupBy(q)),
                    None => None,
                }
            } else if tag == "scan"@ {
                match ScanModel::parse(j) {
                    Some(q) => Some(QueryModel::Scan(q)),
                    None => None,
                }
            } else if tag == "search"@ {
                match SearchModel::parse(j) {
                    Some(q) => Some(QueryModel::Search(q)),
                    None => None,
                }
            } else if tag == "timeBoundary"@ {
                match TimeBoundaryModel::parse(j) {
                    Some(q) => Some(QueryModel::TimeBoundary(q)),
                    None => None,
                }
            } else if tag == "segmentMetadata"@ {
                match SegmentMetadataModel::parse(j) {
                    Some(q) => Some(QueryModel::SegmentMetadata(q)),
                    None => None,
                }
            } else if tag == "timeseries"@ {
                match TimeseriesModel::parse(j) {
                    Some(q) => Some(QueryModel::Timeseries(q)),
                    None => None,
                }
            } else {
                None
            },
            None => None,
        }
    }

    /// What the required member `key` of `j` reads as.
    pub open spec fn parse_field(j: JsonModel, key: Seq<char>) -> Option<QueryModel>
        decreases j, 0int,
    {
        match j.field(key) {
            Some(v) => {
                proof {
                    j.lemma_field_decreases(key);
                }
                Self::parse(v)
            },
            None => None,
        }
    }

    /// The lengths and the letters that tell the names of this wire form apart.
    pub proof fn lemma_names()
        ensures
            "scan"@.len() == 4,
            "topN"@.len() == 4,
            "search"@.len() == 6,
            "groupBy"@.len() == 7,
            "queryType"@.len() == 9,
            "timeseries"@.len() == 10,
            "timeBoundary"@.len() == 12,
            "segmentMetadata"@.len() == 15,
            "scan"@[0] == 's',
            "topN"@[0] == 't',
    {
        reveal_strlit("scan");
        reveal_strlit("topN");
        reveal_strlit("search");
        reveal_strlit("groupBy");
        reveal_strlit("queryType");
        reveal_strlit("timeseries");
        reveal_strlit("timeBoundary");
        reveal_strlit("segmentMetadata");
    }

    /// The wire form carries the tag of its kind in the member `queryType`.
    pub proof fn lemma_tag(self)
        ensures
            self.wire().field("queryType"@) == Some(JsonModel::Str(self.tag())),
    {
        reveal_with_fuel(JsonModel::find, 2);
    }

    /// Decoding the wire form of a value gives the value back.
    pub proof fn lemma_round_trip(self)
        ensures
            Self::parse(self.wire()) == Some(self),
        decreases self,
    {
        Self::lemma_names();
        self.lemma_tag();
        match self {
            QueryModel::TopN(q) => q.lemma_round_trip(),
            QueryModel::GroupBy(q) => q.lemma_round_trip(),
            QueryModel::Scan(q) => q.lemma_round_trip(),
            QueryModel::Search(q) => q.lemma_round_trip(),
            QueryModel::TimeBoundary(q) => q.lemma_round_trip(),
            QueryModel::SegmentMetadata(q) => q.lemma_round_trip(),
            QueryModel::Timeseries(q) => q.lemma_round_trip(),
        }
    }
}

impl Query {
    /// The wire form of this value.
    pub fn to_json(&self) -> (j: Json)
        ensures
            j@ == self@.wire(),
            j@.field("queryType"@) == Some(JsonModel::Str(self@.tag())),
        decreases self,
    {
        proof {
            self@.lemma_tag();
        }
        match self {
            Query::TopN(q) => q.to_json(),
            Query::GroupBy(q) => q.to_json(),
            Query::Scan(q) => q.to_json(),
            Query::Search(q) => q.to_json(),
            Query::TimeBoundary(q) => q.to_json(),
            Query::SegmentMetadata(q) => q.to_json(),
            Query::Timeseries(q) => q.to_json(),
        }
    }

    /// Reads a value from JSON: `None` where `j` does not read as a value of
    /// this type.
    pub fn from_json(j: &Json) -> (r: Option<Query>)
        ensures
            match r {
                Some(v) => QueryModel::parse(j@) == Some(v@),
                None => QueryModel::parse(j@) is None,
            },
        decreases j@, 2int,
    {
        let tag = j.text_field("queryType")?;
        if same_text(tag.as_str(), "topN") {
            match TopN::from_json(j) {
                Some(q) => Some(Query::TopN(q)),
                None => None,
            }
        } else if same_text(tag.as_str(), "groupBy") {
            match GroupBy::from_json(j) {
                Some(q) => Some(Query::GroupBy(q)),
                None => None,
            }
        } else if same_text(tag.as_str(), "scan") {
            match Scan::from_json(j) {
                Some(q) => Some(Query::Scan(q)),
                None => None,
            }
        } else if same_text(tag.as_str(), "search") {
            match Search::from_json(j) {
                Some(q) => Some(Query::Search(q)),
                None => None,
            }
        } else if same_text(tag.as_str(), "timeBoundary") {
            match TimeBoundary::from_json(j) {
                Some(q) => Some(Query::TimeBoundary(q)),
                None => None,
            }
        } else if same_text(tag.as_str(), "segmentMetadata") {
            match SegmentMetadata::from_json(j) {
                Some(q) => Some(Query::SegmentMetadata(q)),
                None => None,
            }
        } else if same_text(tag.as_str(), "timeseries") {
            match Timeseries::from_json(j) {
                Some(q) => Some(Query::Timeseries(q)),
                None => None,
            }
        } else {
            None
        }
    }

    /// Reads the required member `key` of `j`.
    pub fn field_from_json(j: &Json, key: &str) -> (r: Option<Query>)
        ensures
            match r {
                Some(v) => QueryModel::parse_field(j@, key@) == Some(v@),
                None => QueryModel::parse_field(j@, key@) is None,
            },
        decreases j@, 0int,
    {
        match j.get(key) {
            Some(v) => {
                proof {
                    j@.lemma_field_decreases(key@);
                }
                Self::from_json(v)
            },
            None => None,
        }
    }
}

/// The query for what the engine knows of a data source.
#[derive(Debug, PartialEq)]
pub struct DataSourceMetadata {
    pub data_source: DataSource,
    pub context: StringMap,
}

/// The mathematical model of a [`DataSourceMetadata`].
#[verifier::ext_equal]
pub struct DataSourceMetadataModel {
    pub data_source: DataSourceModel,
    pub context: StringMapModel,
}

impl DataSourceMetadata {
    /// The mathematical model of this value.
    pub open spec fn model(self) -> DataSourceMetadataModel {
        DataSourceMetadataModel {
            data_source: self.data_source.model(),
            context: self.context@,
        }
    }
}

impl View for DataSourceMetadata {
    type V = DataSourceMetadataModel;

    open spec fn view(&self) -> DataSourceMetadataModel {
        self.model()
    }
}

impl DataSourceMetadataModel {
    /// The wire form of this value.
    pub open spec fn wire(self) -> JsonModel {
        JsonModel::Object(
            Seq::empty()
                .push(("queryType"@, JsonModel::Str("dataSourceMetadata"@)))
                .push(("dataSource"@, self.data_source.wire()))
                .push(("context"@, self.context.wire())),
        )
    }

    /// What a JSON value reads as: `None` where it does not read as a value of
    /// this type. The members of an object are found by their names, in
    /// whatever order they stand, and members of other names are passed over.
    pub open spec fn parse(j: JsonModel) -> Option<DataSourceMetadataModel> {
        match (
            DataSourceModel::parse_field(j, "dataSource"@),
            StringMapModel::parse_field(j, "context"@),
        ) {
            (Some(data_source), Some(context)) => Some(
                DataSourceMetadataModel {
                    data_source,
                    context,
                },
            ),
            _ => None,
        }
    }

    /// The lengths and the letters that tell the names of this wire form apart.
    pub proof fn lemma_names()
        ensures
            "context"@.len() == 7,
            "queryType"@.len() == 9,
            "dataSource"@.len() == 10,
            "dataSourceMetadata"@.len() == 18,
    {
        reveal_strlit("context");
        reveal_strlit("queryType");
        reveal_strlit("dataSource");
        reveal_strlit("dataSourceMetadata");
    }

    /// Decoding the wire form of a value gives the value back.
    pub proof fn lemma_round_trip(self)
        ensures
            Self::parse(self.wire()) == Some(self),
    {
        Self::lemma_names();
        reveal_with_fuel(JsonModel::find, 5);
        self.data_source.lemma_round_trip();
        self.context.lemma_round_trip();
    }
}

impl DataSourceMetadata {
    /// The wire form of this value.
    pub fn to_json(&self) -> (j: Json)
        ensures
            j@ == self@.wire(),
            j@.field("queryType"@) == Some(JsonModel::Str("dataSourceMetadata"@)),
    {
        proof {
            reveal_with_fuel(JsonModel::find, 2);
        }
        let mut w = ObjectWriter::new();
        w.put("queryType", Json::text("dataSourceMetadata"));
        w.put("dataSource", self.data_source.to_json());
        w.put("context", self.context.to_json());
        w.finish()
    }

    /// Reads a value from JSON: `None` where `j` does not read as a value of
    /// this type.
    pub fn from_json(j: &Json) -> (r: Option<DataSourceMetadata>)
        ensures
            match r {
                Some(v) => DataSourceMetadataModel::parse(j@) == Some(v@),
                None => DataSourceMetadataModel::parse(j@) is None,
            },
    {
        let data_source = DataSource::field_from_json(j, "dataSource")?;
        let context = StringMap::field_from_json(j, "context")?;
        Some(DataSourceMetadata { data_source, context })
    }
}

/// A JSON number that is not an integer, held as `serde_json` holds it.
#[derive(Debug, PartialEq)]
pub struct Real {
    number: serde_json::Number,
}

impl View for Real {
    type V = u64;

    /// The bit pattern of the double.
    closed spec fn view(&self) -> u64 {
        number_model(self.number)->Real_0
    }
}

impl Clone for Real {
    fn clone(&self) -> (r: Real)
        ensures
            r@ == self@,
    {
        proof {
            use_type_invariant(self);
        }
        Real { number: self.number.clone() }
    }
}

impl Real {
    #[verifier::type_invariant]
    spec fn is_real(self) -> bool {
        number_model(self.number) is Real
    }

    /// The number as a `Real`, where it is not an integer.
    pub fn new(number: serde_json::Number) -> (r: Option<Real>)
        ensures
            match r {
                Some(x) => number_model(number) == NumberModel::Real(x@),
                None => number_model(number) is Int,
            },
    {
        let unsigned = number.as_u64();
        let signed = number.as_i64();
        if unsigned.is_none() && signed.is_none() {
            Some(Real { number })
        } else {
            None
        }
    }

    /// The number as `serde_json` holds it.
    pub fn to_number(&self) -> (n: serde_json::Number)
        ensures
            number_model(n) == NumberModel::Real(self@),
    {
        proof {
            use_type_invariant(self);
        }
        self.number.clone()
    }
}

/// A number of JSON: a real one or an integer.
#[derive(Debug, Clone, PartialEq)]
pub enum JsonNumber {
    Float(Real),
    Integer(isize),
}

/// The mathematical model of a [`JsonNumber`].
pub enum JsonNumberModel {
    Float(u64),
    Integer(isize),
}

impl JsonNumber {
    /// The model of a number that may be absent.
    pub open spec fn optional_model(item: Option<JsonNumber>) -> Option<JsonNumberModel> {
        match item {
            Some(v) => Some(v@),
            None => None,
        }
    }
}

impl View for JsonNumber {
    type V = JsonNumberModel;

    open spec fn view(&self) -> JsonNumberModel {
        match self {
            JsonNumber::Float(x) => JsonNumberModel::Float(x@),
            JsonNumber::Integer(i) => JsonNumberModel::Integer(*i),
        }
    }
}

impl JsonNumberModel {
    /// The wire form: the number itself.
    pub open spec fn wire(self) -> JsonModel {
        match self {
            JsonNumberModel::Float(bits) => JsonModel::Number(NumberModel::Real(bits)),
            JsonNumberModel::Integer(i) => JsonModel::integer(i as int),
        }
    }

    /// The wire form of a number that may be absent: `null` where it is.
    pub open spec fn wire_optional(item: Option<JsonNumberModel>) -> JsonModel {
        match item {
            Some(v) => v.wire(),
            None => JsonModel::Null,
        }
    }

    /// What a JSON value reads as. The variants are tried in the order in
    /// which they are declared: a number that is not an integer is a
    /// `Float`, an integer that fits in `isize` is an `Integer`, and nothing
    /// else is a number.
    pub open spec fn parse(j: JsonModel) -> Option<JsonNumberModel> {
        match j {
            JsonModel::Number(NumberModel::Real(bits)) => Some(JsonNumberModel::Float(bits)),
            JsonModel::Number(NumberModel::Int(i)) => if isize::MIN <= i <= isize::MAX {
                Some(JsonNumberModel::Integer(i as isize))
            } else {
                None
            },
            _ => None,
        }
    }

    /// What the required member `key` of `j` reads as.
    pub open spec fn parse_field(j: JsonModel, key: Seq<char>) -> Option<JsonNumberModel> {
        match j.field(key) {
            Some(v) => Self::parse(v),
            None => None,
        }
    }

    /// What the member `key` of `j` reads as where it may be absent: an
    /// absent member and `null` read as no value.
    pub open spec fn parse_optional_field(j: JsonModel, key: Seq<char>) -> Option<
        Option<JsonNumberModel>,
    > {
        match j.optional(key) {
            Some(v) => match Self::parse(v) {
                Some(x) => Some(Some(x)),
                None => None,
            },
            None => Some(None),
        }
    }

    /// Decoding the wire form of a number gives the number back.
    pub proof fn lemma_round_trip(self)
        ensures
            Self::parse(self.wire()) == Some(self),
    {
    }

    /// The wire form of a number that is there is not `null`, and decoding it
    /// gives the number back.
    pub proof fn lemma_round_trip_optional(item: Option<JsonNumberModel>)
        ensures
            match item {
                Some(v) => Self::wire_optional(item) == v.wire() && !(v.wire() is Null)
                    && Self::parse(v.wire()) == Some(v),
                None => Self::wire_optional(item) is Null,
            },
    {
    }
}

impl JsonNumber {
    /// The wire form of this number.
    pub fn to_json(&self) -> (j: Json)
        ensures
            j@ == self@.wire(),
    {
        match self {
            JsonNumber::Float(x) => Json::Number(x.to_number()),
            JsonNumber::Integer(i) => Json::from_isize(*i),
        }
    }

    /// The wire form of a number that may be absent: `null` where it is.
    pub fn optional_to_json(item: &Option<JsonNumber>) -> (j: Json)
        ensures
            j@ == JsonNumberModel::wire_optional(JsonNumber::optional_model(*item)),
    {
        match item {
            Some(v) => v.to_json(),
            None => Json::Null,
        }
    }

    /// Reads a number from its wire form.
    pub fn from_json(j: &Json) -> (r: Option<JsonNumber>)
        ensures
            match r {
                Some(v) => JsonNumberModel::parse(j@) == Some(v@),
                None => JsonNumberModel::parse(j@) is None,
            },
    {
        match j {
            Json::Number(n) => match j.as_isize() {
                Some(i) => Some(JsonNumber::Integer(i)),
                None => match Real::new(n.clone()) {
                    Some(x) => Some(JsonNumber::Float(x)),
                    None => None,
                },
            },
            _ => None,
        }
    }

    /// Reads the required member `key` of `j`.
    pub fn field_from_json(j: &Json, key: &str) -> (r: Option<JsonNumber>)
        ensures
            match r {
                Some(v) => JsonNumberModel::parse_field(j@, key@) == Some(v@),
                None => JsonNumberModel::parse_field(j@, key@) is None,
            },
    {
        match j.get(key) {
            Some(v) => Self::from_json(v),
            None => None,
        }
    }

    /// Reads the member `key` of `j` where it may be absent: an absent
    /// member and `null` read as no value.
    pub fn optional_field_from_json(j: &Json, key: &str) -> (r: Option<Option<JsonNumber>>)
        ensures
            match r {
                Some(v) => JsonNumberModel::parse_optional_field(j@, key@) == Some(
                    JsonNumber::optional_model(v),
                ),
                None => JsonNumberModel::parse_optional_field(j@, key@) is None,
            },
    {
        match j.get_optional(key) {
            Some(v) => match Self::from_json(v) {
                Some(x) => Some(Some(x)),
                None => None,
            },
            None => Some(None),
        }
    }
}

impl From<isize> for JsonNumber {
    fn from(integer: isize) -> (n: JsonNumber) {
        JsonNumber::Integer(integer)
    }
}

impl vstd::std_specs::convert::FromSpecImpl<isize> for JsonNumber {
    open spec fn obeys_from_spec() -> bool {
        true
    }

    open spec fn from_spec(integer: isize) -> JsonNumber {
        JsonNumber::Integer(integer)
    }
}

impl From<Real> for JsonNumber {
    fn from(value: Real) -> (n: JsonNumber) {
        JsonNumber::Float(value)
    }
}

impl vstd::std_specs::convert::FromSpecImpl<Real> for JsonNumber {
    open spec fn obeys_from_spec() -> bool {
        true
    }

    open spec fn from_spec(value: Real) -> JsonNumber {
        JsonNumber::Float(value)
    }
}

/// Any scalar of JSON: a real number, an integer, a string or a boolean.
#[derive(Debug, Clone, PartialEq)]
pub enum JsonAny {
    Float(Real),
    Integer(isize),
    STRING(String),
    Boolean(bool),
}

/// The mathematical model of a [`JsonAny`].
pub enum JsonAnyModel {
    Float(u64),
    Integer(isize),
    STRING(Seq<char>),
    Boolean(bool),
}

impl JsonAny {
    /// The model of a scalar that may be absent.
    pub open spec fn optional_model(item: Option<JsonAny>) -> Option<JsonAnyModel> {
        match item {
            Some(v) => Some(v@),
            None => None,
        }
    }
}

impl View for JsonAny {
    type V = JsonAnyModel;

    open spec fn view(&self) -> JsonAnyModel {
        match self {
            JsonAny::Float(x) => JsonAnyModel::Float(x@),
            JsonAny::Integer(i) => JsonAnyModel::Integer(*i),
            JsonAny::STRING(s) => JsonAnyModel::STRING(s@),
            JsonAny::Boolean(b) => JsonAnyModel::Boolean(*b),
        }
    }
}

impl JsonAnyModel {
    /// The wire form: the scalar itself.
    pub open spec fn wire(self) -> JsonModel {
        match self {
            JsonAnyModel::Float(bits) => JsonModel::Number(NumberModel::Real(bits)),
            JsonAnyModel::Integer(i) => JsonModel::integer(i as int),
            JsonAnyModel::STRING(s) => JsonModel::Str(s),
            JsonAnyModel::Boolean(b) => JsonModel::Bool(b),
        }
    }

    /// The wire form of a scalar that may be absent: `null` where it is.
    pub open spec fn wire_optional(item: Option<JsonAnyModel>) -> JsonModel {
        match item {
            Some(v) => v.wire(),
            None => JsonModel::Null,
        }
    }

    /// What a JSON value reads as. The variants are tried in the order in
    /// which they are declared, the numbers before the string and the
    /// boolean: a number that is not an integer is a `Float`, an integer
    /// that fits in `isize` is an `Integer`, a string is a `STRING`, a
    /// boolean is a `Boolean`, and nothing else is a scalar.
    pub open spec fn parse(j: JsonModel) -> Option<JsonAnyModel> {
        match j {
            JsonModel::Number(NumberModel::Real(bits)) => Some(JsonAnyModel::Float(bits)),
            JsonModel::Number(NumberModel::Int(i)) => if isize::MIN <= i <= isize::MAX {
                Some(JsonAnyModel::Integer(i as isize))
            } else {
                None
            },
            JsonModel::Str(s) => Some(JsonAnyModel::STRING(s)),
            JsonModel::Bool(b) => Some(JsonAnyModel::Boolean(b)),
            _ => None,
        }
    }

    /// What the required member `key` of `j` reads as.
    pub open spec fn parse_field(j: JsonModel, key: Seq<char>) -> Option<JsonAnyModel> {
        match j.field(key) {
            Some(v) => Self::parse(v),
            None => None,
        }
    }

    /// What the member `key` of `j` reads as where it may be absent: an
    /// absent member and `null` read as no value.
    pub open spec fn parse_optional_field(j: JsonModel, key: Seq<char>) -> Option<
        Option<JsonAnyModel>,
    > {
        match j.optional(key) {
            Some(v) => match Self::parse(v) {
                Some(x) => Some(Some(x)),
                None => None,
            },
            None => Some(None),
        }
    }

    /// Decoding the wire form of a scalar gives the scalar back.
    pub proof fn lemma_round_trip(self)
        ensures
            Self::parse(self.wire()) == Some(self),
    {
    }

    /// The wire form of a scalar that is there is not `null`, and decoding it
    /// gives the scalar back.
    pub proof fn lemma_round_trip_optional(item: Option<JsonAnyModel>)
        ensures
            match item {
                Some(v) => Self::wire_optional(item) == v.wire() && !(v.wire() is Null)
                    && Self::parse(v.wire()) == Some(v),
                None => Self::wire_optional(item) is Null,
            },
    {
    }
}

impl JsonAny {
    /// The wire form of this scalar.
    pub fn to_json(&self) -> (j: Json)
        ensures
            j@ == self@.wire(),
    {
        match self {
            JsonAny::Float(x) => Json::Number(x.to_number()),
            JsonAny::Integer(i) => Json::from_isize(*i),
            JsonAny::STRING(s) => Json::text(s.as_str()),
            JsonAny::Boolean(b) => Json::Bool(*b),
        }
    }

    /// The wire form of a scalar that may be absent: `null` where it is.
    pub fn optional_to_json(item: &Option<JsonAny>) -> (j: Json)
        ensures
            j@ == JsonAnyModel::wire_optional(JsonAny::optional_model(*item)),
    {
        match item {
            Some(v) => v.to_json(),
            None => Json::Null,
        }
    }

    /// Reads a scalar from its wire form.
    pub fn from_json(j: &Json) -> (r: Option<JsonAny>)
        ensures
            match r {
                Some(v) => JsonAnyModel::parse(j@) == Some(v@),
                None => JsonAnyModel::parse(j@) is None,
            },
    {
        match j {
            Json::Number(n) => match j.as_isize() {
                Some(i) => Some(JsonAny::Integer(i)),
                None => match Real::new(n.clone()) {
                    Some(x) => Some(JsonAny::Float(x)),
                    None => None,
                },
            },
            Json::Str(s) => Some(JsonAny::STRING(s.clone())),
            Json::Bool(b) => Some(JsonAny::Boolean(*b)),
            _ => None,
        }
    }

    /// Reads the required member `key` of `j`.
    pub fn field_from_json(j: &Json, key: &str) -> (r: Option<JsonAny>)
        ensures
            match r {
                Some(v) => JsonAnyModel::parse_field(j@, key@) == Some(v@),
                None => JsonAnyModel::parse_field(j@, key@) is None,
            },
    {
        match j.get(key) {
            Some(v) => Self::from_json(v),
            None => None,
        }
    }

    /// Reads the member `key` of `j` where it may be absent: an absent
    /// member and `null` read as no value.
    pub fn optional_field_from_json(j: &Json, key: &str) -> (r: Option<Option<JsonAny>>)
        ensures
            match r {
                Some(v) => JsonAnyModel::parse_optional_field(j@, key@) == Some(
                    JsonAny::optional_model(v),
                ),
                None => JsonAnyModel::parse_optional_field(j@, key@) is None,
            },
    {
        match j.get_optional(key) {
            Some(v) => match Self::from_json(v) {
                Some(x) => Some(Some(x)),
                None => None,
            },
            None => Some(None),
        }
    }
}

impl From<Real> for JsonAny {
    fn from(value: Real) -> (a: JsonAny) {
        JsonAny::Float(value)
    }
}

impl vstd::std_specs::convert::FromSpecImpl<Real> for JsonAny {
    open spec fn obeys_from_spec() -> bool {
        true
    }

    open spec fn from_spec(value: Real) -> JsonAny {
        JsonAny::Float(value)
    }
}

impl From<isize> for JsonAny {
    fn from(integer: isize) -> (a: JsonAny) {
        JsonAny::Integer(integer)
    }
}

impl vstd::std_specs::convert::FromSpecImpl<isize> for JsonAny {
    open spec fn obeys_from_spec() -> bool {
        true
    }

    open spec fn from_spec(integer: isize) -> JsonAny {
        JsonAny::Integer(integer)
    }
}

impl From<bool> for JsonAny {
    fn from(boolean: bool) -> (a: JsonAny) {
        JsonAny::Boolean(boolean)
    }
}

impl vstd::std_specs::convert::FromSpecImpl<bool> for JsonAny {
    open spec fn obeys_from_spec() -> bool {
        true
    }

    open spec fn from_spec(boolean: bool) -> JsonAny {
        JsonAny::Boolean(boolean)
    }
}

impl From<String> for JsonAny {
    fn from(str: String) -> (a: JsonAny) {
        JsonAny::STRING(str)
    }
}

impl vstd::std_specs::convert::FromSpecImpl<String> for JsonAny {
    open spec fn obeys_from_spec() -> bool {
        true
    }

    open spec fn from_spec(str: String) -> JsonAny {
        JsonAny::STRING(str)
    }
}

impl From<TopN> for Query {
    fn from(query: TopN) -> (q: Query) {
        Query::TopN(query)
    }
}

impl vstd::std_specs::convert::FromSpecImpl<TopN> for Query {
    open spec fn obeys_from_spec() -> bool {
        true
    }

    open spec fn from_spec(query: TopN) -> Query {
        Query::TopN(query)
    }
}

impl From<GroupBy> for Query {
    fn from(query: GroupBy) -> (q: Query) {
        Query::GroupBy(query)
    }
}

impl vstd::std_specs::convert::FromSpecImpl<GroupBy> for Query {
    open spec fn obeys_from_spec() -> bool {
        true
    }

    open spec fn from_spec(query: GroupBy) -> Query {
        Query::GroupBy(query)
    }
}

impl From<Scan> for Query {
    fn from(scan: Scan) -> (q: Query) {
        Query::Scan(scan)
    }
}

impl vstd::std_specs::convert::FromSpecImpl<Scan> for Query {
    open spec fn obeys_from_spec() -> bool {
        true
    }

    open spec fn from_spec(scan: Scan) -> Query {
        Query::Scan(scan)
    }
}

impl From<Search> for Query {
    fn from(query: Search) -> (q: Query) {
        Query::Search(query)
    }
}

impl vstd::std_specs::convert::FromSpecImpl<Search> for Query {
    open spec fn obeys_from_spec() -> bool {
        true
    }

    open spec fn from_spec(query: Search) -> Query {
        Query::Search(query)
    }
}

impl From<TimeBoundary> for Query {
    fn from(query: TimeBoundary) -> (q: Query) {
        Query::TimeBoundary(query)
    }
}

impl vstd::std_specs::convert::FromSpecImpl<TimeBoundary> for Query {
    open spec fn obeys_from_spec() -> bool {
        true
    }

    open spec fn from_spec(query: TimeBoundary) -> Query {
        Query::TimeBoundary(query)
    }
}

impl From<SegmentMetadata> for Query {
    fn from(query: SegmentMetadata) -> (q: Query) {
        Query::SegmentMetadata(query)
    }
}

impl vstd::std_specs::convert::FromSpecImpl<SegmentMetadata> for Query {
    open spec fn obeys_from_spec() -> bool {
        true
    }

    open spec fn from_spec(query: SegmentMetadata) -> Query {
        Query::SegmentMetadata(query)
    }
}

impl From<Timeseries> for Query {
    fn from(query: Timeseries) -> (q: Query) {
        Query::Timeseries(query)
    }
}

impl vstd::std_specs::convert::FromSpecImpl<Timeseries> for Query {
    open spec fn obeys_from_spec() -> bool {
        true
    }

    open spec fn from_spec(query: Timeseries) -> Query {
        Query::Timeseries(query)
    }
}

} // verus!
