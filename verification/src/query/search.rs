//! The search query.

use crate::json::{same_text, text_views, Json, JsonModel, ObjectWriter};
use crate::string_map::{StringMap, StringMapModel};
use crate::query::{DataSource, DataSourceModel};
use crate::query::definitions::{
    owned_texts, slice_views, Filter, FilterModel, Granularity, SortingOrder,
};
use vstd::prelude::*;

verus! {

/// What a search query looks for in the values of the dimensions.
#[derive(Debug, PartialEq)]
pub enum SearchQuerySpec {
    /// The values that contain `value`, whatever the case of the letters.
    InsensitiveContains { value: String },
    /// The values that contain every one of `values`.
    Fragment { case_sensitive: bool, values: Vec<String> },
    /// The values that contain `value`.
    Contains { case_sensitive: bool, value: String },
    /// The values that match `pattern`.
    Regex { pattern: String },
}

/// The mathematical model of a [`SearchQuerySpec`].
#[verifier::ext_equal]
pub enum SearchQuerySpecModel {
    InsensitiveContains { value: Seq<char> },
    Fragment { case_sensitive: bool, values: Seq<Seq<char>> },
    Contains { case_sensitive: bool, value: Seq<char> },
    Regex { pattern: Seq<char> },
}

impl SearchQuerySpec {
    /// The mathematical model of this value.
    pub open spec fn model(self) -> SearchQuerySpecModel {
        match self {
            SearchQuerySpec::InsensitiveContains {
                value,
            } => SearchQuerySpecModel::InsensitiveContains {
                value: value@,
            },
            SearchQuerySpec::Fragment { case_sensitive, values } => SearchQuerySpecModel::Fragment {
                case_sensitive,
                values: text_views(values@),
            },
            SearchQuerySpec::Contains { case_sensitive, value } => SearchQuerySpecModel::Contains {
                case_sensitive,
                value: value@,
            },
            SearchQuerySpec::Regex { pattern } => SearchQuerySpecModel::Regex { pattern: pattern@ },
        }
    }
}

impl View for SearchQuerySpec {
    type V = SearchQuerySpecModel;

    open spec fn view(&self) -> SearchQuerySpecModel {
        self.model()
    }
}

impl SearchQuerySpecModel {
    /// The wire form of this value.
    pub open spec fn wire(self) -> JsonModel {
        match self {
            SearchQuerySpecModel::InsensitiveContains { value } => {
                JsonModel::Object(
                    Seq::empty()
                        .push(("type"@, JsonModel::Str("insensitive_contains"@)))
                        .push(("value"@, JsonModel::Str(value))),
                )
            },
            SearchQuerySpecModel::Fragment { case_sensitive, values } => {
                JsonModel::Object(
                    Seq::empty()
                        .push(("type"@, JsonModel::Str("fragment"@)))
                        .push(("caseSensitive"@, JsonModel::Bool(case_sensitive)))
                        .push(("values"@, JsonModel::texts(values))),
                )
            },
            SearchQuerySpecModel::Contains { case_sensitive, value } => {
                JsonModel::Object(
                    Seq::empty()
                        .push(("type"@, JsonModel::Str("contains"@)))
                        .push(("caseSensitive"@, JsonModel::Bool(case_sensitive)))
                        .push(("value"@, JsonModel::Str(value))),
                )
            },
            SearchQuerySpecModel::Regex { pattern } => {
                JsonModel::Object(
                    Seq::empty()
                        .push(("type"@, JsonModel::Str("regex"@)))
                        .push(("pattern"@, JsonModel::Str(pattern))),
                )
            },
        }
    }

    /// What a JSON value reads as: `None` where it does not read as a value of
    /// this type. The members of an object are found by their names, in
    /// whatever order they stand, and members of other names are passed over.
    pub open spec fn parse(j: JsonModel) -> Option<SearchQuerySpecModel> {
        match j.text_field("type"@) {
            Some(tag) => if tag == "insensitive_contains"@ {
                match j.text_field("value"@) {
                    Some(value) => Some(SearchQuerySpecModel::InsensitiveContains { value }),
                    None => None,
                }
            } else if tag == "fragment"@ {
                match (
                    j.bool_field("caseSensitive"@),
                    j.texts_field("values"@),
                ) {
                    (Some(case_sensitive), Some(values)) => Some(
                        SearchQuerySpecModel::Fragment {
                            case_sensitive,
                            values,
                        },
                    ),
                    _ => None,
                }
            } else if tag == "contains"@ {
                match (
                    j.bool_field("caseSensitive"@),
                    j.text_field("value"@),
                ) {
                    (Some(case_sensitive), Some(value)) => Some(
                        SearchQuerySpecModel::Contains {
                            case_sensitive,
                            value,
                        },
                    ),
                    _ => None,
                }
            } else if tag == "regex"@ {
                match j.text_field("pattern"@) {
                    Some(pattern) => Some(SearchQuerySpecModel::Regex { pattern }),
                    None => None,
                }
            } else {
                None
            },
            None => None,
        }
    }

    /// What the required member `key` of `j` reads as.
    pub open spec fn parse_field(j: JsonModel, key: Seq<char>) -> Option<SearchQuerySpecModel> {
        match j.field(key) {
            Some(v) => Self::parse(v),
            None => None,
        }
    }

    /// The lengths and the letters that tell the names of this wire form apart.
    pub proof fn lemma_names()
        ensures
            "type"@.len() == 4,
            "regex"@.len() == 5,
            "value"@.len() == 5,
            "values"@.len() == 6,
            "pattern"@.len() == 7,
            "contains"@.len() == 8,
            "fragment"@.len() == 8,
            "caseSensitive"@.len() == 13,
            "insensitive_contains"@.len() == 20,
            "regex"@[0] == 'r',
            "value"@[0] == 'v',
            "contains"@[0] == 'c',
            "fragment"@[0] == 'f',
    {
        reveal_strlit("type");
        reveal_strlit("regex");
        reveal_strlit("value");
        reveal_strlit("values");
        reveal_strlit("pattern");
        reveal_strlit("contains");
        reveal_strlit("fragment");
        reveal_strlit("caseSensitive");
        reveal_strlit("insensitive_contains");
    }

    /// Decoding the wire form of a value gives the value back.
    pub proof fn lemma_round_trip(self)
        ensures
            Self::parse(self.wire()) == Some(self),
    {
        Self::lemma_names();
        reveal_with_fuel(JsonModel::find, 5);
        match self {
            SearchQuerySpecModel::InsensitiveContains { .. } => {},
            SearchQuerySpecModel::Fragment { case_sensitive, values } => {
                JsonModel::lemma_texts(values);
            },
            SearchQuerySpecModel::Contains { .. } => {},
            SearchQuerySpecModel::Regex { .. } => {},
        }
    }
}

impl SearchQuerySpec {
    /// The values that contain `value`, whatever the case of the letters.
    pub fn contains_insensitive(value: &str) -> (s: SearchQuerySpec)
        ensures
            s@ == (SearchQuerySpecModel::InsensitiveContains { value: value@ }),
    {
        SearchQuerySpec::InsensitiveContains { value: value.to_owned() }
    }

    /// The values that contain `value`.
    pub fn constain(value: &str, case_sensitive: bool) -> (s: SearchQuerySpec)
        ensures
            s@ == (SearchQuerySpecModel::Contains { case_sensitive, value: value@ }),
    {
        SearchQuerySpec::Contains { value: value.to_owned(), case_sensitive }
    }

    /// The values that contain every one of `values`.
    pub fn fragment(values: Vec<&str>, case_sensitive: bool) -> (s: SearchQuerySpec)
        ensures
            s@ == (SearchQuerySpecModel::Fragment { case_sensitive, values: slice_views(values@) }),
    {
        SearchQuerySpec::Fragment { values: owned_texts(&values), case_sensitive }
    }

    /// The values that match `pattern`.
    pub fn regrex(pattern: &str) -> (s: SearchQuerySpec)
        ensures
            s@ == (SearchQuerySpecModel::Regex { pattern: pattern@ }),
    {
        SearchQuerySpec::Regex { pattern: pattern.to_owned() }
    }

    /// The wire form of this value.
    pub fn to_json(&self) -> (j: Json)
        ensures
            j@ == self@.wire(),
    {
        let mut w = ObjectWriter::new();
        match self {
            SearchQuerySpec::InsensitiveContains { value } => {
                w.put("type", Json::text("insensitive_contains"));
                w.put("value", Json::text(value.as_str()));
            },
            SearchQuerySpec::Fragment { case_sensitive, values } => {
                w.put("type", Json::text("fragment"));
                w.put("caseSensitive", Json::Bool(*case_sensitive));
                w.put("values", Json::texts(values));
            },
            SearchQuerySpec::Contains { case_sensitive, value } => {
                w.put("type", Json::text("contains"));
                w.put("caseSensitive", Json::Bool(*case_sensitive));
                w.put("value", Json::text(value.as_str()));
            },
            SearchQuerySpec::Regex { pattern } => {
                w.put("type", Json::text("regex"));
                w.put("pattern", Json::text(pattern.as_str()));
            },
        }
        w.finish()
    }

    /// Reads a value from JSON: `None` where `j` does not read as a value of
    /// this type.
    pub fn from_json(j: &Json) -> (r: Option<SearchQuerySpec>)
        ensures
            match r {
                Some(v) => SearchQuerySpecModel::parse(j@) == Some(v@),
                None => SearchQuerySpecModel::parse(j@) is None,
            },
    {
        let tag = j.text_field("type")?;
        if same_text(tag.as_str(), "insensitive_contains") {
            let value = j.text_field("value")?;
            Some(SearchQuerySpec::InsensitiveContains { value })
        } else if same_text(tag.as_str(), "fragment") {
            let case_sensitive = j.bool_field("caseSensitive")?;
            let values = j.texts_field("values")?;
            Some(SearchQuerySpec::Fragment { case_sensitive, values })
        } else if same_text(tag.as_str(), "contains") {
            let case_sensitive = j.bool_field("caseSensitive")?;
            let value = j.text_field("value")?;
            Some(SearchQuerySpec::Contains { case_sensitive, value })
        } else if same_text(tag.as_str(), "regex") {
            let pattern = j.text_field("pattern")?;
            Some(SearchQuerySpec::Regex { pattern })
        } else {
            None
        }
    }

    /// Reads the required member `key` of `j`.
    pub fn field_from_json(j: &Json, key: &str) -> (r: Option<SearchQuerySpec>)
        ensures
            match r {
                Some(v) => SearchQuerySpecModel::parse_field(j@, key@) == Some(v@),
                None => SearchQuerySpecModel::parse_field(j@, key@) is None,
            },
    {
        match j.get(key) {
            Some(v) => Self::from_json(v),
            None => None,
        }
    }
}

/// The query for the values of dimensions that match a search.
#[derive(Debug, PartialEq)]
pub struct Search {
    pub data_source: DataSource,
    pub granularity: Granularity,
    pub filter: Option<Filter>,
    pub limit: usize,
    pub intervals: Vec<String>,
    pub search_dimensions: Vec<String>,
    pub query: SearchQuerySpec,
    pub sort: Option<SortingOrder>,
    pub context: StringMap,
}

/// The mathematical model of a [`Search`].
#[verifier::ext_equal]
pub struct SearchModel {
    pub data_source: DataSourceModel,
    pub granularity: Granularity,
    pub filter: Option<FilterModel>,
    pub limit: usize,
    pub intervals: Seq<Seq<char>>,
    pub search_dimensions: Seq<Seq<char>>,
    pub query: SearchQuerySpecModel,
    pub sort: Option<SortingOrder>,
    pub context: StringMapModel,
}

impl Search {
    /// The mathematical model of this value.
    pub open spec fn model(self) -> SearchModel
        decreases self,
    {
        SearchModel {
            data_source: self.data_source.model(),
            granularity: self.granularity,
            filter: Filter::optional_model(self.filter),
            limit: self.limit,
            intervals: text_views(self.intervals@),
            search_dimensions: text_views(self.search_dimensions@),
            query: self.query.model(),
            sort: self.sort,
            context: self.context@,
        }
    }
}

impl View for Search {
    type V = SearchModel;

    open spec fn view(&self) -> SearchModel {
        self.model()
    }
}

impl SearchModel {
    /// The wire form of this value.
    pub open spec fn wire(self) -> JsonModel
        decreases self,
    {
        JsonModel::Object(
            Seq::empty()
                .push(("queryType"@, JsonModel::Str("search"@)))
                .push(("dataSource"@, self.data_source.wire()))
                .push(("granularity"@, self.granularity.wire()))
                .push(("filter"@, FilterModel::wire_optional(self.filter)))
                .push(("limit"@, JsonModel::integer(self.limit as int)))
                .push(("intervals"@, JsonModel::texts(self.intervals)))
                .push(("searchDimensions"@, JsonModel::texts(self.search_dimensions)))
                .push(("query"@, self.query.wire()))
                .push(("sort"@, SortingOrder::wire_optional(self.sort)))
                .push(("context"@, self.context.wire())),
        )
    }

    /// What a JSON value reads as: `None` where it does not read as a value of
    /// this type. The members of an object are found by their names, in
    /// whatever order they stand, and members of other names are passed over.
    pub open spec fn parse(j: JsonModel) -> Option<SearchModel>
        decreases j, 1int,
    {
        match (
            DataSourceModel::parse_field(j, "dataSource"@),
            Granularity::parse_field(j, "granularity"@),
            FilterModel::parse_optional_field(j, "filter"@),
            j.usize_field("limit"@),
            j.texts_field("intervals"@),
            j.texts_field("searchDimensions"@),
            SearchQuerySpecModel::parse_field(j, "query"@),
            SortingOrder::parse_optional_field(j, "sort"@),
            StringMapModel::parse_field(j, "context"@),
        ) {
            (
                Some(data_source),
                Some(granularity),
                Some(filter),
                Some(limit),
                Some(intervals),
                Some(search_dimensions),
                Some(query),
                Some(sort),
                Some(context),
            ) => Some(
                SearchModel {
                    data_source,
                    granularity,
                    filter,
                    limit,
                    intervals,
                    search_dimensions,
                    query,
                    sort,
                    context,
                },
            ),
            _ => None,
        }
    }

    /// The lengths and the letters that tell the names of this wire form apart.
    pub proof fn lemma_names()
        ensures
            "sort"@.len() == 4,
            "limit"@.len() == 5,
            "query"@.len() == 5,
            "filter"@.len() == 6,
            "search"@.len() == 6,
            "context"@.len() == 7,
            "intervals"@.len() == 9,
            "queryType"@.len() == 9,
            "dataSource"@.len() == 10,
            "granularity"@.len() == 11,
            "searchDimensions"@.len() == 16,
            "limit"@[0] == 'l',
            "query"@[0] == 'q',
            "filter"@[0] == 'f',
            "search"@[0] == 's',
            "intervals"@[0] == 'i',
            "queryType"@[0] == 'q',
    {
        reveal_strlit("sort");
        reveal_strlit("limit");
        reveal_strlit("query");
        reveal_strlit("filter");
        reveal_strlit("search");
        reveal_strlit("context");
        reveal_strlit("intervals");
        reveal_strlit("queryType");
        reveal_strlit("dataSource");
        reveal_strlit("granularity");
        reveal_strlit("searchDimensions");
    }

    /// Decoding the wire form of a value gives the value back.
    pub proof fn lemma_round_trip(self)
        ensures
            Self::parse(self.wire()) == Some(self),
        decreases self,
    {
        Self::lemma_names();
        reveal_with_fuel(JsonModel::find, 12);
        self.data_source.lemma_round_trip();
        self.granularity.lemma_round_trip();
        FilterModel::lemma_round_trip_optional(self.filter);
        JsonModel::lemma_texts(self.intervals);
        JsonModel::lemma_texts(self.search_dimensions);
        self.query.lemma_round_trip();
        SortingOrder::lemma_round_trip_optional(self.sort);
        self.context.lemma_round_trip();
    }
}

impl Search {
    /// The wire form of this value.
    pub fn to_json(&self) -> (j: Json)
        ensures
            j@ == self@.wire(),
            j@.field("queryType"@) == Some(JsonModel::Str("search"@)),
        decreases self,
    {
        proof {
            reveal_with_fuel(JsonModel::find, 2);
        }
        let mut w = ObjectWriter::new();
        w.put("queryType", Json::text("search"));
        w.put("dataSource", self.data_source.to_json());
        w.put("granularity", self.granularity.to_json());
        w.put("filter", Filter::optional_to_json(&self.filter));
        w.put("limit", Json::from_usize(self.limit));
        w.put("intervals", Json::texts(&self.intervals));
        w.put("searchDimensions", Json::texts(&self.search_dimensions));
        w.put("query", self.query.to_json());
        w.put("sort", SortingOrder::optional_to_json(&self.sort));
        w.put("context", self.context.to_json());
        w.finish()
    }

    /// Reads a value from JSON: `None` where `j` does not read as a value of
    /// this type.
    pub fn from_json(j: &Json) -> (r: Option<Search>)
        ensures
            match r {
                Some(v) => SearchModel::parse(j@) == Some(v@),
                None => SearchModel::parse(j@) is None,
            },
        decreases j@, 1int,
    {
        let data_source = DataSource::field_from_json(j, "dataSource")?;
        let granularity = Granularity::field_from_json(j, "granularity")?;
        let filter = Filter::optional_field_from_json(j, "filter")?;
        let limit = j.usize_field("limit")?;
        let intervals = j.texts_field("intervals")?;
        let search_dimensions = j.texts_field("searchDimensions")?;
        let query = SearchQuerySpec::field_from_json(j, "query")?;
        let sort = SortingOrder::optional_field_from_json(j, "sort")?;
        let context = StringMap::field_from_json(j, "context")?;
        Some(Search {
            data_source,
            granularity,
            filter,
            limit,
            intervals,
            search_dimensions,
            query,
            sort,
            context,
        })
    }
}

} // verus!
