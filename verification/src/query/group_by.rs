//! The groupBy query, its limits, its conditions on groups and its post-aggregations.

use crate::json::{
    optional_text_view, same_text, text_row_views, text_views, Json, JsonModel, ObjectWriter,
};
use crate::string_map::{StringMap, StringMapModel};
use crate::query::{DataSource, DataSourceModel};
use crate::query::definitions::{
    owned_texts, slice_views, Aggregation, AggregationModel, Dimension, DimensionModel, Direction,
    Filter, FilterModel, Granularity, SortingOrder,
};
use crate::query::{JsonAny, JsonAnyModel, JsonNumber, JsonNumberModel};
use vstd::prelude::*;

verus! {

/// One column by which the rows of a grouping are ordered.
#[derive(Debug, PartialEq)]
pub struct OrderByColumnSpec {
    pub dimension: String,
    pub direction: Direction,
    pub dimension_order: SortingOrder,
}

/// The mathematical model of a [`OrderByColumnSpec`].
#[verifier::ext_equal]
pub struct OrderByColumnSpecModel {
    pub dimension: Seq<char>,
    pub direction: Direction,
    pub dimension_order: SortingOrder,
}

impl OrderByColumnSpec {
    /// The mathematical model of this value.
    pub open spec fn model(self) -> OrderByColumnSpecModel {
        OrderByColumnSpecModel {
            dimension: self.dimension@,
            direction: self.direction,
            dimension_order: self.dimension_order,
        }
    }

    /// The models of a sequence of values.
    pub open spec fn models(items: Seq<OrderByColumnSpec>) -> Seq<OrderByColumnSpecModel> {
        Seq::new(items.len(), |i: int| items[i].model())
    }
}

impl View for OrderByColumnSpec {
    type V = OrderByColumnSpecModel;

    open spec fn view(&self) -> OrderByColumnSpecModel {
        self.model()
    }
}

impl OrderByColumnSpecModel {
    /// The wire form of this value.
    pub open spec fn wire(self) -> JsonModel {
        JsonModel::Object(
            Seq::empty()
                .push(("dimension"@, JsonModel::Str(self.dimension)))
                .push(("direction"@, self.direction.wire()))
                .push(("dimensionOrder"@, self.dimension_order.wire())),
        )
    }

    /// The wire forms of a sequence of values.
    pub open spec fn wire_all(items: Seq<OrderByColumnSpecModel>) -> Seq<JsonModel> {
        Seq::new(items.len(), |i: int| items[i].wire())
    }

    /// What a JSON value reads as: `None` where it does not read as a value of
    /// this type. The members of an object are found by their names, in
    /// whatever order they stand, and members of other names are passed over.
    pub open spec fn parse(j: JsonModel) -> Option<OrderByColumnSpecModel> {
        match (
            j.text_field("dimension"@),
            Direction::parse_field(j, "direction"@),
            SortingOrder::parse_field(j, "dimensionOrder"@),
        ) {
            (Some(dimension), Some(direction), Some(dimension_order)) => Some(
                OrderByColumnSpecModel {
                    dimension,
                    direction,
                    dimension_order,
                },
            ),
            _ => None,
        }
    }

    /// What the items of an array read as: `None` where one of them does not
    /// read.
    pub open spec fn parse_all(items: Seq<JsonModel>) -> Option<Seq<OrderByColumnSpecModel>> {
        if forall|i: int| 0 <= i < items.len() ==> Self::parse(#[trigger] items[i]) is Some {
            Some(Seq::new(items.len(), |i: int| Self::parse(items[i])->Some_0))
        } else {
            None
        }
    }

    /// What the required member `key` of `j` reads as where it is an array of
    /// values.
    pub open spec fn parse_all_field(
        j: JsonModel,
        key: Seq<char>,
    ) -> Option<Seq<OrderByColumnSpecModel>>
    {
        match j.field(key) {
            Some(JsonModel::Array(items)) => Self::parse_all(items),
            _ => None,
        }
    }

    /// The lengths and the letters that tell the names of this wire form apart.
    pub proof fn lemma_names()
        ensures
            "dimension"@.len() == 9,
            "direction"@.len() == 9,
            "dimensionOrder"@.len() == 14,
            "dimension"@[2] == 'm',
            "direction"@[2] == 'r',
    {
        reveal_strlit("dimension");
        reveal_strlit("direction");
        reveal_strlit("dimensionOrder");
    }

    /// Decoding the wire form of a value gives the value back.
    pub proof fn lemma_round_trip(self)
        ensures
            Self::parse(self.wire()) == Some(self),
    {
        Self::lemma_names();
        reveal_with_fuel(JsonModel::find, 6);
        self.direction.lemma_round_trip();
        self.dimension_order.lemma_round_trip();
    }

    /// Decoding the wire forms of a sequence of values gives the sequence back.
    pub proof fn lemma_round_trip_all(items: Seq<OrderByColumnSpecModel>)
        ensures
            Self::parse_all(Self::wire_all(items)) == Some(items),
    {
        assert forall|i: int| 0 <= i < items.len() implies Self::parse(
            #[trigger] Self::wire_all(items)[i],
        ) == Some(items[i]) by {
            items[i].lemma_round_trip();
        }
        assert(Self::parse_all(Self::wire_all(items))->Some_0 =~= items);
    }
}

impl OrderByColumnSpec {
    /// The column `dimension`, ordered in `direction` as `dimension_order` compares.
    pub fn new(dimension: &str, direction: Direction, dimension_order: SortingOrder) -> (c:
        OrderByColumnSpec)
        ensures
            c@ == (OrderByColumnSpecModel { dimension: dimension@, direction, dimension_order }),
    {
        OrderByColumnSpec { dimension: dimension.to_owned(), direction, dimension_order }
    }

    /// The wire form of this value.
    pub fn to_json(&self) -> (j: Json)
        ensures
            j@ == self@.wire(),
    {
        let mut w = ObjectWriter::new();
        w.put("dimension", Json::text(self.dimension.as_str()));
        w.put("direction", self.direction.to_json());
        w.put("dimensionOrder", self.dimension_order.to_json());
        w.finish()
    }

    /// The wire form of a sequence of values: the array of their wire forms.
    pub fn all_to_json(items: &Vec<OrderByColumnSpec>) -> (j: Json)
        ensures
            j@ == JsonModel::Array(
                OrderByColumnSpecModel::wire_all(OrderByColumnSpec::models(items@)),
            ),
    {
        let mut out: Vec<Json> = Vec::new();
        let mut i: usize = 0;
        while i < items.len()
            invariant
                i <= items.len(),
                out@.len() == i,
                forall|k: int| 0 <= k < i ==> (#[trigger] out@[k])@ == items@[k]@.wire(),
            decreases items.len() - i,
        {
            out.push(items[i].to_json());
            i += 1;
        }
        proof {
            assert(Json::models(out@)
                =~= OrderByColumnSpecModel::wire_all(OrderByColumnSpec::models(items@)));
        }
        Json::Array(out)
    }

    /// Reads a value from JSON: `None` where `j` does not read as a value of
    /// this type.
    pub fn from_json(j: &Json) -> (r: Option<OrderByColumnSpec>)
        ensures
            match r {
                Some(v) => OrderByColumnSpecModel::parse(j@) == Some(v@),
                None => OrderByColumnSpecModel::parse(j@) is None,
            },
    {
        let dimension = j.text_field("dimension")?;
        let direction = Direction::field_from_json(j, "direction")?;
        let dimension_order = SortingOrder::field_from_json(j, "dimensionOrder")?;
        Some(OrderByColumnSpec { dimension, direction, dimension_order })
    }

    /// Reads the items of an array: `None` where one of them does not read.
    pub fn all_from_json(items: &Vec<Json>) -> (r: Option<Vec<OrderByColumnSpec>>)
        ensures
            match r {
                Some(v) => OrderByColumnSpecModel::parse_all(Json::models(items@))
                    == Some(OrderByColumnSpec::models(v@)),
                None => OrderByColumnSpecModel::parse_all(Json::models(items@)) is None,
            },
    {
        let mut out: Vec<OrderByColumnSpec> = Vec::new();
        let mut i: usize = 0;
        while i < items.len()
            invariant
                i <= items.len(),
                out@.len() == i,
                forall|k: int|
                    0 <= k < i ==>
                        OrderByColumnSpecModel::parse(#[trigger] Json::models(items@)[k])
                            == Some(out@[k]@),
            decreases items.len() - i,
        {
            match Self::from_json(&items[i]) {
                Some(v) => {
                    out.push(v);
                },
                None => {
                    assert(OrderByColumnSpecModel::parse(Json::models(items@)[i as int]) is None);
                    return None;
                },
            }
            i += 1;
        }
        proof {
            assert(OrderByColumnSpecModel::parse_all(Json::models(items@))->Some_0
                =~= OrderByColumnSpec::models(out@));
        }
        Some(out)
    }

    /// Reads the required member `key` of `j` where it is an array of values.
    pub fn all_field_from_json(j: &Json, key: &str) -> (r: Option<Vec<OrderByColumnSpec>>)
        ensures
            match r {
                Some(v) => OrderByColumnSpecModel::parse_all_field(j@, key@)
                    == Some(OrderByColumnSpec::models(v@)),
                None => OrderByColumnSpecModel::parse_all_field(j@, key@) is None,
            },
    {
        match j.get(key) {
            Some(Json::Array(items)) => Self::all_from_json(items),
            _ => None,
        }
    }
}

/// How many rows of a grouping are handed out, and in which order.
#[derive(Debug, PartialEq)]
pub struct LimitSpec {
    pub limit: usize,
    pub columns: Vec<OrderByColumnSpec>,
}

/// The mathematical model of a [`LimitSpec`].
#[verifier::ext_equal]
pub struct LimitSpecModel {
    pub limit: usize,
    pub columns: Seq<OrderByColumnSpecModel>,
}

impl LimitSpec {
    /// The mathematical model of this value.
    pub open spec fn model(self) -> LimitSpecModel {
        LimitSpecModel {
            limit: self.limit,
            columns: OrderByColumnSpec::models(self.columns@),
        }
    }

    /// The model of a value that may be absent.
    pub open spec fn optional_model(item: Option<LimitSpec>) -> Option<LimitSpecModel> {
        match item {
            Some(v) => Some(v.model()),
            None => None,
        }
    }
}

impl View for LimitSpec {
    type V = LimitSpecModel;

    open spec fn view(&self) -> LimitSpecModel {
        self.model()
    }
}

impl LimitSpecModel {
    /// The wire form of this value.
    pub open spec fn wire(self) -> JsonModel {
        JsonModel::Object(
            Seq::empty()
                .push(("type"@, JsonModel::Str("default"@)))
                .push(("limit"@, JsonModel::integer(self.limit as int)))
                .push(
                    ("columns"@, JsonModel::Array(OrderByColumnSpecModel::wire_all(self.columns))),
                ),
        )
    }

    /// The wire form of a value that may be absent: `null` where it is.
    pub open spec fn wire_optional(item: Option<LimitSpecModel>) -> JsonModel {
        match item {
            Some(v) => v.wire(),
            None => JsonModel::Null,
        }
    }

    /// What a JSON value reads as: `None` where it does not read as a value of
    /// this type. The members of an object are found by their names, in
    /// whatever order they stand, and members of other names are passed over.
    pub open spec fn parse(j: JsonModel) -> Option<LimitSpecModel> {
        match (
            j.usize_field("limit"@),
            OrderByColumnSpecModel::parse_all_field(j, "columns"@),
        ) {
            (Some(limit), Some(columns)) => Some(LimitSpecModel { limit, columns }),
            _ => None,
        }
    }

    /// What the member `key` of `j` reads as where it may be absent: an absent
    /// member and `null` read as no value.
    pub open spec fn parse_optional_field(
        j: JsonModel,
        key: Seq<char>,
    ) -> Option<Option<LimitSpecModel>>
    {
        match j.optional(key) {
            Some(v) => {
                match Self::parse(v) {
                    Some(x) => Some(Some(x)),
                    None => None,
                }
            },
            None => Some(None),
        }
    }

    /// The lengths and the letters that tell the names of this wire form apart.
    pub proof fn lemma_names()
        ensures
            "type"@.len() == 4,
            "limit"@.len() == 5,
            "columns"@.len() == 7,
            "default"@.len() == 7,
            "columns"@[0] == 'c',
            "default"@[0] == 'd',
    {
        reveal_strlit("type");
        reveal_strlit("limit");
        reveal_strlit("columns");
        reveal_strlit("default");
    }

    /// Decoding the wire form of a value gives the value back.
    pub proof fn lemma_round_trip(self)
        ensures
            Self::parse(self.wire()) == Some(self),
    {
        Self::lemma_names();
        reveal_with_fuel(JsonModel::find, 5);
        OrderByColumnSpecModel::lemma_round_trip_all(self.columns);
    }

    /// The wire form of a value that is there is not `null`, and decoding it
    /// gives the value back.
    pub proof fn lemma_round_trip_optional(item: Option<LimitSpecModel>)
        ensures
            match item {
                Some(v) => Self::wire_optional(item) == v.wire() && !(v.wire() is Null)
                    && Self::parse(v.wire()) == Some(v),
                None => Self::wire_optional(item) is Null,
            },
    {
        if let Some(v) = item {
            v.lemma_round_trip();
        }
    }
}

impl LimitSpec {
    /// The wire form of this value.
    pub fn to_json(&self) -> (j: Json)
        ensures
            j@ == self@.wire(),
    {
        let mut w = ObjectWriter::new();
        w.put("type", Json::text("default"));
        w.put("limit", Json::from_usize(self.limit));
        w.put("columns", OrderByColumnSpec::all_to_json(&self.columns));
        w.finish()
    }

    /// The wire form of a value that may be absent: `null` where it is.
    pub fn optional_to_json(item: &Option<LimitSpec>) -> (j: Json)
        ensures
            j@ == LimitSpecModel::wire_optional(LimitSpec::optional_model(*item)),
    {
        match item {
            Some(v) => v.to_json(),
            None => Json::Null,
        }
    }

    /// Reads a value from JSON: `None` where `j` does not read as a value of
    /// this type.
    pub fn from_json(j: &Json) -> (r: Option<LimitSpec>)
        ensures
            match r {
                Some(v) => LimitSpecModel::parse(j@) == Some(v@),
                None => LimitSpecModel::parse(j@) is None,
            },
    {
        let limit = j.usize_field("limit")?;
        let columns = OrderByColumnSpec::all_field_from_json(j, "columns")?;
        Some(LimitSpec { limit, columns })
    }

    /// Reads the member `key` of `j` where it may be absent: an absent member
    /// and `null` read as no value.
    pub fn optional_field_from_json(j: &Json, key: &str) -> (r: Option<Option<LimitSpec>>)
        ensures
            match r {
                Some(v) => LimitSpecModel::parse_optional_field(j@, key@)
                    == Some(LimitSpec::optional_model(v)),
                None => LimitSpecModel::parse_optional_field(j@, key@) is None,
            },
    {
        match j.get_optional(key) {
            Some(v) => {
                match Self::from_json(v) {
                    Some(x) => Some(Some(x)),
                    None => None,
                }
            },
            None => Some(None),
        }
    }
}

/// A condition on the rows of a grouping, applied after the rows were grouped.
#[derive(Debug, PartialEq)]
#[allow(inconsistent_fields)]
pub enum HavingSpec {
    /// The groups that a filter lets through.
    Filter { filter: Filter },
    /// The groups in which an aggregation is greater than `value`.
    GreaterThan { aggregation: String, value: JsonNumber },
    /// The groups in which an aggregation equals `value`.
    EqualTo { aggregation: String, value: JsonNumber },
    /// The groups in which an aggregation is less than `value`.
    LessThan { aggregation: String, value: JsonNumber },
    /// The groups in which a dimension has the value `value`.
    DimSelector { dimension: Dimension, value: JsonAny },
    /// The groups that all of `having_specs` let through.
    And { having_specs: Vec<HavingSpec> },
    /// The groups that one of `having_specs` lets through.
    Or { having_specs: Vec<HavingSpec> },
    /// The groups that `having_specs` does not let through.
    Not { having_specs: Box<HavingSpec> },
}

/// The mathematical model of a [`HavingSpec`].
#[verifier::ext_equal]
#[allow(inconsistent_fields)]
pub enum HavingSpecModel {
    Filter { filter: FilterModel },
    GreaterThan { aggregation: Seq<char>, value: JsonNumberModel },
    EqualTo { aggregation: Seq<char>, value: JsonNumberModel },
    LessThan { aggregation: Seq<char>, value: JsonNumberModel },
    DimSelector { dimension: DimensionModel, value: JsonAnyModel },
    And { having_specs: Seq<HavingSpecModel> },
    Or { having_specs: Seq<HavingSpecModel> },
    Not { having_specs: Box<HavingSpecModel> },
}

impl HavingSpec {
    /// The mathematical model of this value.
    pub open spec fn model(self) -> HavingSpecModel
        decreases self,
    {
        match self {
            HavingSpec::Filter { filter } => HavingSpecModel::Filter { filter: filter.model() },
            HavingSpec::GreaterThan { aggregation, value } => HavingSpecModel::GreaterThan {
                aggregation: aggregation@,
                value: value@,
            },
            HavingSpec::EqualTo { aggregation, value } => HavingSpecModel::EqualTo {
                aggregation: aggregation@,
                value: value@,
            },
            HavingSpec::LessThan { aggregation, value } => HavingSpecModel::LessThan {
                aggregation: aggregation@,
                value: value@,
            },
            HavingSpec::DimSelector { dimension, value } => HavingSpecModel::DimSelector {
                dimension: dimension.model(),
                value: value@,
            },
            HavingSpec::And { having_specs } => HavingSpecModel::And {
                having_specs: HavingSpec::models(having_specs@),
            },
            HavingSpec::Or { having_specs } => HavingSpecModel::Or {
                having_specs: HavingSpec::models(having_specs@),
            },
            HavingSpec::Not { having_specs } => HavingSpecModel::Not {
                having_specs: Box::new(having_specs.model()),
            },
        }
    }

    /// The models of a sequence of values.
    pub open spec fn models(items: Seq<HavingSpec>) -> Seq<HavingSpecModel>
        decreases items,
    {
        Seq::new(
            items.len(),
            |i: int|
                if 0 <= i < items.len() {
                    items[i].model()
                } else {
                    arbitrary()
                },
        )
    }

    /// The model of a value that may be absent.
    pub open spec fn optional_model(item: Option<HavingSpec>) -> Option<HavingSpecModel> {
        match item {
            Some(v) => Some(v.model()),
            None => None,
        }
    }
}

impl View for HavingSpec {
    type V = HavingSpecModel;

    open spec fn view(&self) -> HavingSpecModel {
        self.model()
    }
}

impl HavingSpecModel {
    /// The wire form of this value.
    pub open spec fn wire(self) -> JsonModel
        decreases self,
    {
        match self {
            HavingSpecModel::Filter { filter } => {
                JsonModel::Object(
                    Seq::empty()
                        .push(("type"@, JsonModel::Str("filter"@)))
                        .push(("filter"@, filter.wire())),
                )
            },
            HavingSpecModel::GreaterThan { aggregation, value } => {
                JsonModel::Object(
                    Seq::empty()
                        .push(("type"@, JsonModel::Str("greaterThan"@)))
                        .push(("aggregation"@, JsonModel::Str(aggregation)))
                        .push(("value"@, value.wire())),
                )
            },
            HavingSpecModel::EqualTo { aggregation, value } => {
                JsonModel::Object(
                    Seq::empty()
                        .push(("type"@, JsonModel::Str("equalTo"@)))
                        .push(("aggregation"@, JsonModel::Str(aggregation)))
                        .push(("value"@, value.wire())),
                )
            },
            HavingSpecModel::LessThan { aggregation, value } => {
                JsonModel::Object(
                    Seq::empty()
                        .push(("type"@, JsonModel::Str("lessThan"@)))
                        .push(("aggregation"@, JsonModel::Str(aggregation)))
                        .push(("value"@, value.wire())),
                )
            },
            HavingSpecModel::DimSelector { dimension, value } => {
                JsonModel::Object(
                    Seq::empty()
                        .push(("type"@, JsonModel::Str("dimSelector"@)))
                        .push(("dimension"@, dimension.wire()))
                        .push(("value"@, value.wire())),
                )
            },
            HavingSpecModel::And { having_specs } => {
                JsonModel::Object(
                    Seq::empty()
                        .push(("type"@, JsonModel::Str("and"@)))
                        .push(
                            (
                                "havingSpecs"@,
                                JsonModel::Array(HavingSpecModel::wire_all(having_specs)),
                            ),
                        ),
                )
            },
            HavingSpecModel::Or { having_specs } => {
                JsonModel::Object(
                    Seq::empty()
                        .push(("type"@, JsonModel::Str("or"@)))
                        .push(
                            (
                                "havingSpecs"@,
                                JsonModel::Array(HavingSpecModel::wire_all(having_specs)),
                            ),
                        ),
                )
            },
            HavingSpecModel::Not { having_specs } => {
                JsonModel::Object(
                    Seq::empty()
                        .push(("type"@, JsonModel::Str("not"@)))
                        .push(("havingSpecs"@, having_specs.wire())),
                )
            },
        }
    }

    /// The wire forms of a sequence of values.
    pub open spec fn wire_all(items: Seq<HavingSpecModel>) -> Seq<JsonModel>
        decreases items,
    {
        Seq::new(
            items.len(),
            |i: int|
                if 0 <= i < items.len() {
                    items[i].wire()
                } else {
                    JsonModel::Null
                },
        )
    }

    /// The wire form of a value that may be absent: `null` where it is.
    pub open spec fn wire_optional(item: Option<HavingSpecModel>) -> JsonModel {
        match item {
            Some(v) => v.wire(),
            None => JsonModel::Null,
        }
    }

    /// What a JSON value reads as: `None` where it does not read as a value of
    /// this type. The members of an object are found by their names, in
    /// whatever order they stand, and members of other names are passed over.
    pub open spec fn parse(j: JsonModel) -> Option<HavingSpecModel>
        decreases j, 1int,
    {
        match j.text_field("type"@) {
            Some(tag) => if tag == "filter"@ {
                match FilterModel::parse_field(j, "filter"@) {
                    Some(filter) => Some(HavingSpecModel::Filter { filter }),
                    None => None,
                }
            } else if tag == "greaterThan"@ {
                match (
                    j.text_field("aggregation"@),
                    JsonNumberModel::parse_field(j, "value"@),
                ) {
                    (Some(aggregation), Some(value)) => Some(
                        HavingSpecModel::GreaterThan {
                            aggregation,
                            value,
                        },
                    ),
                    _ => None,
                }
            } else if tag == "equalTo"@ {
                match (
                    j.text_field("aggregation"@),
                    JsonNumberModel::parse_field(j, "value"@),
                ) {
                    (Some(aggregation), Some(value)) => Some(
                        HavingSpecModel::EqualTo {
                            aggregation,
                            value,
                        },
                    ),
                    _ => None,
                }
            } else if tag == "lessThan"@ {
                match (
                    j.text_field("aggregation"@),
                    JsonNumberModel::parse_field(j, "value"@),
                ) {
                    (Some(aggregation), Some(value)) => Some(
                        HavingSpecModel::LessThan {
                            aggregation,
                            value,
                        },
                    ),
                    _ => None,
                }
            } else if tag == "dimSelector"@ {
                match (
                    DimensionModel::parse_field(j, "dimension"@),
                    JsonAnyModel::parse_field(j, "value"@),
                ) {
                    (Some(dimension), Some(value)) => Some(
                        HavingSpecModel::DimSelector {
                            dimension,
                            value,
                        },
                    ),
                    _ => None,
                }
            } else if tag == "and"@ {
                match HavingSpecModel::parse_all_field(j, "havingSpecs"@) {
                    Some(having_specs) => Some(HavingSpecModel::And { having_specs }),
                    None => None,
                }
            } else if tag == "or"@ {
                match HavingSpecModel::parse_all_field(j, "havingSpecs"@) {
                    Some(having_specs) => Some(HavingSpecModel::Or { having_specs }),
                    None => None,
                }
            } else if tag == "not"@ {
                match HavingSpecModel::parse_field(j, "havingSpecs"@) {
                    Some(having_specs) => Some(HavingSpecModel::Not {
                        having_specs: Box::new(having_specs),
                    }),
                    None => None,
                }
            } else {
                None
            },
            None => None,
        }
    }

    /// What the required member `key` of `j` reads as.
    pub open spec fn parse_field(j: JsonModel, key: Seq<char>) -> Option<HavingSpecModel>
        decreases j, 0int,
    {
        match j.field(key) {
            Some(v) => {
                proof {
                    j.lemma_field_decreases(key);
                }
                Self::parse(v)
            },
            None => None,
        }
    }

    /// What the member `key` of `j` reads as where it may be absent: an absent
    /// member and `null` read as no value.
    pub open spec fn parse_optional_field(
        j: JsonModel,
        key: Seq<char>,
    ) -> Option<Option<HavingSpecModel>>
    {
        match j.optional(key) {
            Some(v) => {
                match Self::parse(v) {
                    Some(x) => Some(Some(x)),
                    None => None,
                }
            },
            None => Some(None),
        }
    }

    /// What the items of an array read as: `None` where one of them does not
    /// read.
    pub open spec fn parse_all(items: Seq<JsonModel>) -> Option<Seq<HavingSpecModel>>
        decreases items, 0int,
    {
        if forall|i: int| 0 <= i < items.len() ==> Self::parse(#[trigger] items[i]) is Some {
            Some(
                Seq::new(
                    items.len(),
                    |i: int|
                        if 0 <= i < items.len() {
                            Self::parse(items[i])->Some_0
                        } else {
                            arbitrary()
                        },
                ),
            )
        } else {
            None
        }
    }

    /// What the required member `key` of `j` reads as where it is an array of
    /// values.
    pub open spec fn parse_all_field(j: JsonModel, key: Seq<char>) -> Option<Seq<HavingSpecModel>>
        decreases j, 0int,
    {
        match j.field(key) {
            Some(JsonModel::Array(items)) => {
                proof {
                    j.lemma_field_decreases(key);
                    let member = j.field(key)->Some_0;
                    assert(decreases_to!(member => member->Array_0));
                }
                Self::parse_all(items)
            },
            _ => None,
        }
    }

    /// The lengths and the letters that tell the names of this wire form apart.
    pub proof fn lemma_names()
        ensures
            "or"@.len() == 2,
            "and"@.len() == 3,
            "not"@.len() == 3,
            "type"@.len() == 4,
            "value"@.len() == 5,
            "filter"@.len() == 6,
            "equalTo"@.len() == 7,
            "lessThan"@.len() == 8,
            "dimension"@.len() == 9,
            "aggregation"@.len() == 11,
            "dimSelector"@.len() == 11,
            "greaterThan"@.len() == 11,
            "havingSpecs"@.len() == 11,
            "and"@[0] == 'a',
            "not"@[0] == 'n',
            "aggregation"@[0] == 'a',
            "dimSelector"@[0] == 'd',
            "greaterThan"@[0] == 'g',
            "havingSpecs"@[0] == 'h',
    {
        reveal_strlit("or");
        reveal_strlit("and");
        reveal_strlit("not");
        reveal_strlit("type");
        reveal_strlit("value");
        reveal_strlit("filter");
        reveal_strlit("equalTo");
        reveal_strlit("lessThan");
        reveal_strlit("dimension");
        reveal_strlit("aggregation");
        reveal_strlit("dimSelector");
        reveal_strlit("greaterThan");
        reveal_strlit("havingSpecs");
    }

    /// Decoding the wire form of a value gives the value back.
    pub proof fn lemma_round_trip(self)
        ensures
            Self::parse(self.wire()) == Some(self),
        decreases self,
    {
        Self::lemma_names();
        reveal_with_fuel(JsonModel::find, 5);
        match self {
            HavingSpecModel::Filter { filter } => {
                filter.lemma_round_trip();
            },
            HavingSpecModel::GreaterThan { aggregation, value } => {
                value.lemma_round_trip();
            },
            HavingSpecModel::EqualTo { aggregation, value } => {
                value.lemma_round_trip();
            },
            HavingSpecModel::LessThan { aggregation, value } => {
                value.lemma_round_trip();
            },
            HavingSpecModel::DimSelector { dimension, value } => {
                dimension.lemma_round_trip();
                value.lemma_round_trip();
            },
            HavingSpecModel::And { having_specs } => {
                HavingSpecModel::lemma_round_trip_all(having_specs);
            },
            HavingSpecModel::Or { having_specs } => {
                HavingSpecModel::lemma_round_trip_all(having_specs);
            },
            HavingSpecModel::Not { having_specs } => {
                having_specs.lemma_round_trip();
            },
        }
    }

    /// Decoding the wire forms of a sequence of values gives the sequence back.
    pub proof fn lemma_round_trip_all(items: Seq<HavingSpecModel>)
        ensures
            Self::parse_all(Self::wire_all(items)) == Some(items),
        decreases items,
    {
        assert forall|i: int| 0 <= i < items.len() implies Self::parse(
            #[trigger] Self::wire_all(items)[i],
        ) == Some(items[i]) by {
            items[i].lemma_round_trip();
        }
        assert(Self::parse_all(Self::wire_all(items))->Some_0 =~= items);
    }

    /// The wire form of a value that is there is not `null`, and decoding it
    /// gives the value back.
    pub proof fn lemma_round_trip_optional(item: Option<HavingSpecModel>)
        ensures
            match item {
                Some(v) => Self::wire_optional(item) == v.wire() && !(v.wire() is Null)
                    && Self::parse(v.wire()) == Some(v),
                None => Self::wire_optional(item) is Null,
            },
    {
        if let Some(v) = item {
            v.lemma_round_trip();
        }
    }
}

impl HavingSpec {
    /// The groups that `filter` lets through.
    pub fn filter(filter: Filter) -> (h: HavingSpec)
        ensures
            h@ == (HavingSpecModel::Filter { filter: filter@ }),
    {
        HavingSpec::Filter { filter }
    }

    /// The groups in which `aggregation` is greater than `value`.
    pub fn greater_than(aggregation: &str, value: JsonNumber) -> (h: HavingSpec)
        ensures
            h@ == (HavingSpecModel::GreaterThan { aggregation: aggregation@, value: value@ }),
    {
        HavingSpec::GreaterThan { aggregation: aggregation.to_owned(), value }
    }

    /// The groups in which `aggregation` equals `value`.
    pub fn equal_to(aggregation: &str, value: JsonNumber) -> (h: HavingSpec)
        ensures
            h@ == (HavingSpecModel::EqualTo { aggregation: aggregation@, value: value@ }),
    {
        HavingSpec::EqualTo { aggregation: aggregation.to_owned(), value }
    }

    /// The groups in which `aggregation` is less than `value`.
    pub fn less_than(aggregation: &str, value: JsonNumber) -> (h: HavingSpec)
        ensures
            h@ == (HavingSpecModel::LessThan { aggregation: aggregation@, value: value@ }),
    {
        HavingSpec::LessThan { aggregation: aggregation.to_owned(), value }
    }

    /// The wire form of this value.
    pub fn to_json(&self) -> (j: Json)
        ensures
            j@ == self@.wire(),
        decreases self,
    {
        let mut w = ObjectWriter::new();
        match self {
            HavingSpec::Filter { filter } => {
                w.put("type", Json::text("filter"));
                w.put("filter", filter.to_json());
            },
            HavingSpec::GreaterThan { aggregation, value } => {
                w.put("type", Json::text("greaterThan"));
                w.put("aggregation", Json::text(aggregation.as_str()));
                w.put("value", value.to_json());
            },
            HavingSpec::EqualTo { aggregation, value } => {
                w.put("type", Json::text("equalTo"));
                w.put("aggregation", Json::text(aggregation.as_str()));
                w.put("value", value.to_json());
            },
            HavingSpec::LessThan { aggregation, value } => {
                w.put("type", Json::text("lessThan"));
                w.put("aggregation", Json::text(aggregation.as_str()));
                w.put("value", value.to_json());
            },
            HavingSpec::DimSelector { dimension, value } => {
                w.put("type", Json::text("dimSelector"));
                w.put("dimension", dimension.to_json());
                w.put("value", value.to_json());
            },
            HavingSpec::And { having_specs } => {
                w.put("type", Json::text("and"));
                w.put("havingSpecs", HavingSpec::all_to_json(having_specs));
            },
            HavingSpec::Or { having_specs } => {
                w.put("type", Json::text("or"));
                w.put("havingSpecs", HavingSpec::all_to_json(having_specs));
            },
            HavingSpec::Not { having_specs } => {
                w.put("type", Json::text("not"));
                w.put("havingSpecs", having_specs.to_json());
            },
        }
        w.finish()
    }

    /// The wire form of a sequence of values: the array of their wire forms.
    pub fn all_to_json(items: &Vec<HavingSpec>) -> (j: Json)
        ensures
            j@ == JsonModel::Array(HavingSpecModel::wire_all(HavingSpec::models(items@))),
        decreases items,
    {
        let mut out: Vec<Json> = Vec::new();
        let mut i: usize = 0;
        while i < items.len()
            invariant
                i <= items.len(),
                out@.len() == i,
                forall|k: int| 0 <= k < i ==> (#[trigger] out@[k])@ == items@[k]@.wire(),
            decreases items.len() - i,
        {
            out.push(items[i].to_json());
            i += 1;
        }
        proof {
            assert(Json::models(out@) =~= HavingSpecModel::wire_all(HavingSpec::models(items@)));
        }
        Json::Array(out)
    }

    /// The wire form of a value that may be absent: `null` where it is.
    pub fn optional_to_json(item: &Option<HavingSpec>) -> (j: Json)
        ensures
            j@ == HavingSpecModel::wire_optional(HavingSpec::optional_model(*item)),
    {
        match item {
            Some(v) => v.to_json(),
            None => Json::Null,
        }
    }

    /// Reads a value from JSON: `None` where `j` does not read as a value of
    /// this type.
    pub fn from_json(j: &Json) -> (r: Option<HavingSpec>)
        ensures
            match r {
                Some(v) => HavingSpecModel::parse(j@) == Some(v@),
                None => HavingSpecModel::parse(j@) is None,
            },
        decreases j@, 1int,
    {
        let tag = j.text_field("type")?;
        if same_text(tag.as_str(), "filter") {
            let filter = Filter::field_from_json(j, "filter")?;
            Some(HavingSpec::Filter { filter })
        } else if same_text(tag.as_str(), "greaterThan") {
            let aggregation = j.text_field("aggregation")?;
            let value = JsonNumber::field_from_json(j, "value")?;
            Some(HavingSpec::GreaterThan { aggregation, value })
        } else if same_text(tag.as_str(), "equalTo") {
            let aggregation = j.text_field("aggregation")?;
            let value = JsonNumber::field_from_json(j, "value")?;
            Some(HavingSpec::EqualTo { aggregation, value })
        } else if same_text(tag.as_str(), "lessThan") {
            let aggregation = j.text_field("aggregation")?;
            let value = JsonNumber::field_from_json(j, "value")?;
            Some(HavingSpec::LessThan { aggregation, value })
        } else if same_text(tag.as_str(), "dimSelector") {
            let dimension = Dimension::field_from_json(j, "dimension")?;
            let value = JsonAny::field_from_json(j, "value")?;
            Some(HavingSpec::DimSelector { dimension, value })
        } else if same_text(tag.as_str(), "and") {
            let having_specs = HavingSpec::all_field_from_json(j, "havingSpecs")?;
            Some(HavingSpec::And { having_specs })
        } else if same_text(tag.as_str(), "or") {
            let having_specs = HavingSpec::all_field_from_json(j, "havingSpecs")?;
            Some(HavingSpec::Or { having_specs })
        } else if same_text(tag.as_str(), "not") {
            let having_specs = HavingSpec::field_from_json(j, "havingSpecs")?;
            Some(HavingSpec::Not { having_specs: Box::new(having_specs) })
        } else {
            None
        }
    }

    /// Reads the required member `key` of `j`.
    pub fn field_from_json(j: &Json, key: &str) -> (r: Option<HavingSpec>)
        ensures
            match r {
                Some(v) => HavingSpecModel::parse_field(j@, key@) == Some(v@),
                None => HavingSpecModel::parse_field(j@, key@) is None,
            },
        decreases j@, 0int,
    {
        match j.get(key) {
            Some(v) => {
                proof {
                    j@.lemma_field_decreases(key@);
                }
                Self::from_json(v)
            },
            None => None,
        }
    }

    /// Reads the member `key` of `j` where it may be absent: an absent member
    /// and `null` read as no value.
    pub fn optional_field_from_json(j: &Json, key: &str) -> (r: Option<Option<HavingSpec>>)
        ensures
            match r {
                Some(v) => HavingSpecModel::parse_optional_field(j@, key@)
                    == Some(HavingSpec::optional_model(v)),
                None => HavingSpecModel::parse_optional_field(j@, key@) is None,
            },
    {
        match j.get_optional(key) {
            Some(v) => {
                match Self::from_json(v) {
                    Some(x) => Some(Some(x)),
                    None => None,
                }
            },
            None => Some(None),
        }
    }

    /// Reads the items of an array: `None` where one of them does not read.
    pub fn all_from_json(items: &Vec<Json>) -> (r: Option<Vec<HavingSpec>>)
        ensures
            match r {
                Some(v) => HavingSpecModel::parse_all(Json::models(items@))
                    == Some(HavingSpec::models(v@)),
                None => HavingSpecModel::parse_all(Json::models(items@)) is None,
            },
        decreases Json::models(items@), 0int,
    {
        let mut out: Vec<HavingSpec> = Vec::new();
        let mut i: usize = 0;
        while i < items.len()
            invariant
                i <= items.len(),
                out@.len() == i,
                forall|k: int|
                    0 <= k < i ==>
                        HavingSpecModel::parse(#[trigger] Json::models(items@)[k])
                            == Some(out@[k]@),
            decreases items.len() - i,
        {
            proof {
                assert(decreases_to!(Json::models(items@) => Json::models(items@)[i as int]));
            }
            match Self::from_json(&items[i]) {
                Some(v) => {
                    out.push(v);
                },
                None => {
                    assert(HavingSpecModel::parse(Json::models(items@)[i as int]) is None);
                    return None;
                },
            }
            i += 1;
        }
        proof {
            assert(HavingSpecModel::parse_all(Json::models(items@))->Some_0
                =~= HavingSpec::models(out@));
        }
        Some(out)
    }

    /// Reads the required member `key` of `j` where it is an array of values.
    pub fn all_field_from_json(j: &Json, key: &str) -> (r: Option<Vec<HavingSpec>>)
        ensures
            match r {
                Some(v) => HavingSpecModel::parse_all_field(j@, key@)
                    == Some(HavingSpec::models(v@)),
                None => HavingSpecModel::parse_all_field(j@, key@) is None,
            },
        decreases j@, 0int,
    {
        match j.get(key) {
            Some(Json::Array(items)) => {
                proof {
                    j@.lemma_field_decreases(key@);
                    let member = j@.field(key@)->Some_0;
                    assert(decreases_to!(member => member->Array_0));
                }
                Self::all_from_json(items)
            },
            _ => None,
        }
    }
}

/// One operand of an arithmetic post-aggregation: the result of an aggregation,
/// or a constant.
#[derive(Debug, PartialEq)]
pub enum PostAggregator {
    /// The result of an aggregation as it stands.
    FieldAccess { name: String, field_name: String },
    /// The result of an aggregation in its final form.
    FinalizingFieldAccess { name: String, field_name: String },
    /// A constant.
    Constant { name: String, value: JsonAny },
    /// The cardinality that a hyper-unique aggregation found.
    HyperUniqueCardinality { field_name: String },
}

/// The mathematical model of a [`PostAggregator`].
#[verifier::ext_equal]
pub enum PostAggregatorModel {
    FieldAccess { name: Seq<char>, field_name: Seq<char> },
    FinalizingFieldAccess { name: Seq<char>, field_name: Seq<char> },
    Constant { name: Seq<char>, value: JsonAnyModel },
    HyperUniqueCardinality { field_name: Seq<char> },
}

impl PostAggregator {
    /// The mathematical model of this value.
    pub open spec fn model(self) -> PostAggregatorModel {
        match self {
            PostAggregator::FieldAccess { name, field_name } => PostAggregatorModel::FieldAccess {
                name: name@,
                field_name: field_name@,
            },
            PostAggregator::FinalizingFieldAccess {
                name,
                field_name,
            } => PostAggregatorModel::FinalizingFieldAccess {
                name: name@,
                field_name: field_name@,
            },
            PostAggregator::Constant { name, value } => PostAggregatorModel::Constant {
                name: name@,
                value: value@,
            },
            PostAggregator::HyperUniqueCardinality {
                field_name,
            } => PostAggregatorModel::HyperUniqueCardinality {
                field_name: field_name@,
            },
        }
    }

    /// The models of a sequence of values.
    pub open spec fn models(items: Seq<PostAggregator>) -> Seq<PostAggregatorModel> {
        Seq::new(items.len(), |i: int| items[i].model())
    }
}

impl View for PostAggregator {
    type V = PostAggregatorModel;

    open spec fn view(&self) -> PostAggregatorModel {
        self.model()
    }
}

impl PostAggregatorModel {
    /// The wire form of this value.
    pub open spec fn wire(self) -> JsonModel {
        match self {
            PostAggregatorModel::FieldAccess { name, field_name } => {
                JsonModel::Object(
                    Seq::empty()
                        .push(("type"@, JsonModel::Str("fieldAccess"@)))
                        .push(("name"@, JsonModel::Str(name)))
                        .push(("fieldName"@, JsonModel::Str(field_name))),
                )
            },
            PostAggregatorModel::FinalizingFieldAccess { name, field_name } => {
                JsonModel::Object(
                    Seq::empty()
                        .push(("type"@, JsonModel::Str("finalizingFieldAccess"@)))
                        .push(("name"@, JsonModel::Str(name)))
                        .push(("fieldName"@, JsonModel::Str(field_name))),
                )
            },
            PostAggregatorModel::Constant { name, value } => {
                JsonModel::Object(
                    Seq::empty()
                        .push(("type"@, JsonModel::Str("constant"@)))
                        .push(("name"@, JsonModel::Str(name)))
                        .push(("value"@, value.wire())),
                )
            },
            PostAggregatorModel::HyperUniqueCardinality { field_name } => {
                JsonModel::Object(
                    Seq::empty()
                        .push(("type"@, JsonModel::Str("hyperUniqueCardinality"@)))
                        .push(("fieldName"@, JsonModel::Str(field_name))),
                )
            },
        }
    }

    /// The wire forms of a sequence of values.
    pub open spec fn wire_all(items: Seq<PostAggregatorModel>) -> Seq<JsonModel> {
        Seq::new(items.len(), |i: int| items[i].wire())
    }

    /// What a JSON value reads as: `None` where it does not read as a value of
    /// this type. The members of an object are found by their names, in
    /// whatever order they stand, and members of other names are passed over.
    pub open spec fn parse(j: JsonModel) -> Option<PostAggregatorModel> {
        match j.text_field("type"@) {
            Some(tag) => if tag == "fieldAccess"@ {
                match (
                    j.text_field("name"@),
                    j.text_field("fieldName"@),
                ) {
                    (Some(name), Some(field_name)) => Some(
                        PostAggregatorModel::FieldAccess {
                            name,
                            field_name,
                        },
                    ),
                    _ => None,
                }
            } else if tag == "finalizingFieldAccess"@ {
                match (
                    j.text_field("name"@),
                    j.text_field("fieldName"@),
                ) {
                    (Some(name), Some(field_name)) => Some(
                        PostAggregatorModel::FinalizingFieldAccess {
                            name,
                            field_name,
                        },
                    ),
                    _ => None,
                }
            } else if tag == "constant"@ {
                match (
                    j.text_field("name"@),
                    JsonAnyModel::parse_field(j, "value"@),
                ) {
                    (Some(name), Some(value)) => Some(
                        PostAggregatorModel::Constant {
                            name,
                            value,
                        },
                    ),
                    _ => None,
                }
            } else if tag == "hyperUniqueCardinality"@ {
                match j.text_field("fieldName"@) {
                    Some(field_name) => Some(PostAggregatorModel::HyperUniqueCardinality {
                        field_name,
                    }),
                    None => None,
                }
            } else {
                None
            },
            None => None,
        }
    }

    /// What the items of an array read as: `None` where one of them does not
    /// read.
    pub open spec fn parse_all(items: Seq<JsonModel>) -> Option<Seq<PostAggregatorModel>> {
        if forall|i: int| 0 <= i < items.len() ==> Self::parse(#[trigger] items[i]) is Some {
            Some(Seq::new(items.len(), |i: int| Self::parse(items[i])->Some_0))
        } else {
            None
        }
    }

    /// What the required member `key` of `j` reads as where it is an array of
    /// values.
    pub open spec fn parse_all_field(
        j: JsonModel,
        key: Seq<char>,
    ) -> Option<Seq<PostAggregatorModel>>
    {
        match j.field(key) {
            Some(JsonModel::Array(items)) => Self::parse_all(items),
            _ => None,
        }
    }

    /// The lengths and the letters that tell the names of this wire form apart.
    pub proof fn lemma_names()
        ensures
            "name"@.len() == 4,
            "type"@.len() == 4,
            "value"@.len() == 5,
            "constant"@.len() == 8,
            "fieldName"@.len() == 9,
            "fieldAccess"@.len() == 11,
            "finalizingFieldAccess"@.len() == 21,
            "hyperUniqueCardinality"@.len() == 22,
            "name"@[0] == 'n',
            "type"@[0] == 't',
    {
        reveal_strlit("name");
        reveal_strlit("type");
        reveal_strlit("value");
        reveal_strlit("constant");
        reveal_strlit("fieldName");
        reveal_strlit("fieldAccess");
        reveal_strlit("finalizingFieldAccess");
        reveal_strlit("hyperUniqueCardinality");
    }

    /// Decoding the wire form of a value gives the value back.
    pub proof fn lemma_round_trip(self)
        ensures
            Self::parse(self.wire()) == Some(self),
    {
        Self::lemma_names();
        reveal_with_fuel(JsonModel::find, 5);
        match self {
            PostAggregatorModel::FieldAccess { .. } => {},
            PostAggregatorModel::FinalizingFieldAccess { .. } => {},
            PostAggregatorModel::Constant { name, value } => {
                value.lemma_round_trip();
            },
            PostAggregatorModel::HyperUniqueCardinality { .. } => {},
        }
    }

    /// Decoding the wire forms of a sequence of values gives the sequence back.
    pub proof fn lemma_round_trip_all(items: Seq<PostAggregatorModel>)
        ensures
            Self::parse_all(Self::wire_all(items)) == Some(items),
    {
        assert forall|i: int| 0 <= i < items.len() implies Self::parse(
            #[trigger] Self::wire_all(items)[i],
        ) == Some(items[i]) by {
            items[i].lemma_round_trip();
        }
        assert(Self::parse_all(Self::wire_all(items))->Some_0 =~= items);
    }
}

impl PostAggregator {
    /// The result of the aggregation `field_name`, as it stands.
    pub fn field_access(name: &str, field_name: &str) -> (p: PostAggregator)
        ensures
            p@ == (PostAggregatorModel::FieldAccess { name: name@, field_name: field_name@ }),
    {
        PostAggregator::FieldAccess { name: name.to_owned(), field_name: field_name.to_owned() }
    }

    /// The result of the aggregation `field_name`, brought into its final form.
    pub fn finalized_field_access(name: &str, field_name: &str) -> (p: PostAggregator)
        ensures
            p@ == (PostAggregatorModel::FinalizingFieldAccess {
                name: name@,
                field_name: field_name@,
            }),
    {
        PostAggregator::FinalizingFieldAccess {
            name: name.to_owned(),
            field_name: field_name.to_owned(),
        }
    }

    /// The constant `value`.
    pub fn constant(name: &str, value: JsonAny) -> (p: PostAggregator)
        ensures
            p@ == (PostAggregatorModel::Constant { name: name@, value: value@ }),
    {
        PostAggregator::Constant { name: name.to_owned(), value }
    }

    /// The cardinality that the hyper-unique aggregation `field_name` found.
    pub fn hyper_unique_cardinality(field_name: &str) -> (p: PostAggregator)
        ensures
            p@ == (PostAggregatorModel::HyperUniqueCardinality { field_name: field_name@ }),
    {
        PostAggregator::HyperUniqueCardinality { field_name: field_name.to_owned() }
    }

    /// The wire form of this value.
    pub fn to_json(&self) -> (j: Json)
        ensures
            j@ == self@.wire(),
    {
        let mut w = ObjectWriter::new();
        match self {
            PostAggregator::FieldAccess { name, field_name } => {
                w.put("type", Json::text("fieldAccess"));
                w.put("name", Json::text(name.as_str()));
                w.put("fieldName", Json::text(field_name.as_str()));
            },
            PostAggregator::FinalizingFieldAccess { name, field_name } => {
                w.put("type", Json::text("finalizingFieldAccess"));
                w.put("name", Json::text(name.as_str()));
                w.put("fieldName", Json::text(field_name.as_str()));
            },
            PostAggregator::Constant { name, value } => {
                w.put("type", Json::text("constant"));
                w.put("name", Json::text(name.as_str()));
                w.put("value", value.to_json());
            },
            PostAggregator::HyperUniqueCardinality { field_name } => {
                w.put("type", Json::text("hyperUniqueCardinality"));
                w.put("fieldName", Json::text(field_name.as_str()));
            },
        }
        w.finish()
    }

    /// The wire form of a sequence of values: the array of their wire forms.
    pub fn all_to_json(items: &Vec<PostAggregator>) -> (j: Json)
        ensures
            j@ == JsonModel::Array(PostAggregatorModel::wire_all(PostAggregator::models(items@))),
    {
        let mut out: Vec<Json> = Vec::new();
        let mut i: usize = 0;
        while i < items.len()
            invariant
                i <= items.len(),
                out@.len() == i,
                forall|k: int| 0 <= k < i ==> (#[trigger] out@[k])@ == items@[k]@.wire(),
            decreases items.len() - i,
        {
            out.push(items[i].to_json());
            i += 1;
        }
        proof {
            assert(Json::models(out@)
                =~= PostAggregatorModel::wire_all(PostAggregator::models(items@)));
        }
        Json::Array(out)
    }

    /// Reads a value from JSON: `None` where `j` does not read as a value of
    /// this type.
    pub fn from_json(j: &Json) -> (r: Option<PostAggregator>)
        ensures
            match r {
                Some(v) => PostAggregatorModel::parse(j@) == Some(v@),
                None => PostAggregatorModel::parse(j@) is None,
            },
    {
        let tag = j.text_field("type")?;
        if same_text(tag.as_str(), "fieldAccess") {
            let name = j.text_field("name")?;
            let field_name = j.text_field("fieldName")?;
            Some(PostAggregator::FieldAccess { name, field_name })
        } else if same_text(tag.as_str(), "finalizingFieldAccess") {
            let name = j.text_field("name")?;
            let field_name = j.text_field("fieldName")?;
            Some(PostAggregator::FinalizingFieldAccess { name, field_name })
        } else if same_text(tag.as_str(), "constant") {
            let name = j.text_field("name")?;
            let value = JsonAny::field_from_json(j, "value")?;
            Some(PostAggregator::Constant { name, value })
        } else if same_text(tag.as_str(), "hyperUniqueCardinality") {
            let field_name = j.text_field("fieldName")?;
            Some(PostAggregator::HyperUniqueCardinality { field_name })
        } else {
            None
        }
    }

    /// Reads the items of an array: `None` where one of them does not read.
    pub fn all_from_json(items: &Vec<Json>) -> (r: Option<Vec<PostAggregator>>)
        ensures
            match r {
                Some(v) => PostAggregatorModel::parse_all(Json::models(items@))
                    == Some(PostAggregator::models(v@)),
                None => PostAggregatorModel::parse_all(Json::models(items@)) is None,
            },
    {
        let mut out: Vec<PostAggregator> = Vec::new();
        let mut i: usize = 0;
        while i < items.len()
            invariant
                i <= items.len(),
                out@.len() == i,
                forall|k: int|
                    0 <= k < i ==>
                        PostAggregatorModel::parse(#[trigger] Json::models(items@)[k])
                            == Some(out@[k]@),
            decreases items.len() - i,
        {
            match Self::from_json(&items[i]) {
                Some(v) => {
                    out.push(v);
                },
                None => {
                    assert(PostAggregatorModel::parse(Json::models(items@)[i as int]) is None);
                    return None;
                },
            }
            i += 1;
        }
        proof {
            assert(PostAggregatorModel::parse_all(Json::models(items@))->Some_0
                =~= PostAggregator::models(out@));
        }
        Some(out)
    }

    /// Reads the required member `key` of `j` where it is an array of values.
    pub fn all_field_from_json(j: &Json, key: &str) -> (r: Option<Vec<PostAggregator>>)
        ensures
            match r {
                Some(v) => PostAggregatorModel::parse_all_field(j@, key@)
                    == Some(PostAggregator::models(v@)),
                None => PostAggregatorModel::parse_all_field(j@, key@) is None,
            },
    {
        match j.get(key) {
            Some(Json::Array(items)) => Self::all_from_json(items),
            _ => None,
        }
    }
}

/// A value that is computed from the results of the aggregations of a query.
#[derive(Debug, PartialEq)]
#[allow(inconsistent_fields)]
pub enum PostAggregation {
    /// The function is written as the member `fn`; it is read from `fn`, and
    /// from `function` where `fn` is not there.
    Arithmetic {
        name: String,
        function: String,
        fields: Vec<PostAggregator>,
        ordering: Option<String>,
    },
    /// The greatest of `fields`, as a double.
    DoubleGreatest { name: String, fields: Vec<PostAggregation> },
    /// The greatest of `fields`, as a 64-bit integer.
    LongGreatest { name: String, fields: Vec<PostAggregation> },
    /// The least of `fields`, as a 64-bit integer.
    LongLeast { name: String, fields: Vec<PostAggregation> },
    /// The least of `fields`, as a double.
    DoubleLeast { name: String, fields: Vec<PostAggregation> },
    /// What a function makes of the named results.
    Javascript { name: String, field_names: Vec<String>, function: String },
}

/// The mathematical model of a [`PostAggregation`].
#[verifier::ext_equal]
#[allow(inconsistent_fields)]
pub enum PostAggregationModel {
    Arithmetic {
        name: Seq<char>,
        function: Seq<char>,
        fields: Seq<PostAggregatorModel>,
        ordering: Option<Seq<char>>,
    },
    DoubleGreatest { name: Seq<char>, fields: Seq<PostAggregationModel> },
    LongGreatest { name: Seq<char>, fields: Seq<PostAggregationModel> },
    LongLeast { name: Seq<char>, fields: Seq<PostAggregationModel> },
    DoubleLeast { name: Seq<char>, fields: Seq<PostAggregationModel> },
    Javascript { name: Seq<char>, field_names: Seq<Seq<char>>, function: Seq<char> },
}

impl PostAggregation {
    /// The mathematical model of this value.
    pub open spec fn model(self) -> PostAggregationModel
        decreases self,
    {
        match self {
            PostAggregation::Arithmetic {
                name,
                function,
                fields,
                ordering,
            } => PostAggregationModel::Arithmetic {
                name: name@,
                function: function@,
                fields: PostAggregator::models(fields@),
                ordering: optional_text_view(ordering),
            },
            PostAggregation::DoubleGreatest {
                name,
                fields,
            } => PostAggregationModel::DoubleGreatest {
                name: name@,
                fields: PostAggregation::models(fields@),
            },
            PostAggregation::LongGreatest { name, fields } => PostAggregationModel::LongGreatest {
                name: name@,
                fields: PostAggregation::models(fields@),
            },
            PostAggregation::LongLeast { name, fields } => PostAggregationModel::LongLeast {
                name: name@,
                fields: PostAggregation::models(fields@),
            },
            PostAggregation::DoubleLeast { name, fields } => PostAggregationModel::DoubleLeast {
                name: name@,
                fields: PostAggregation::models(fields@),
            },
            PostAggregation::Javascript {
                name,
                field_names,
                function,
            } => PostAggregationModel::Javascript {
                name: name@,
                field_names: text_views(field_names@),
                function: function@,
            },
        }
    }

    /// The models of a sequence of values.
    pub open spec fn models(items: Seq<PostAggregation>) -> Seq<PostAggregationModel>
        decreases items,
    {
        Seq::new(
            items.len(),
            |i: int|
                if 0 <= i < items.len() {
                    items[i].model()
                } else {
                    arbitrary()
                },
        )
    }
}

impl View for PostAggregation {
    type V = PostAggregationModel;

    open spec fn view(&self) -> PostAggregationModel {
        self.model()
    }
}

impl PostAggregationModel {
    /// The wire form of this value.
    pub open spec fn wire(self) -> JsonModel
        decreases self,
    {
        match self {
            PostAggregationModel::Arithmetic { name, function, fields, ordering } => {
                JsonModel::Object(
                    Seq::empty()
                        .push(("type"@, JsonModel::Str("arithmetic"@)))
                        .push(("name"@, JsonModel::Str(name)))
                        .push(("fn"@, JsonModel::Str(function)))
                        .push(("fields"@, JsonModel::Array(PostAggregatorModel::wire_all(fields))))
                        .push(("ordering"@, JsonModel::optional_text(ordering))),
                )
            },
            PostAggregationModel::DoubleGreatest { name, fields } => {
                JsonModel::Object(
                    Seq::empty()
                        .push(("type"@, JsonModel::Str("doubleGreatest"@)))
                        .push(("name"@, JsonModel::Str(name)))
                        .push(
                            ("fields"@, JsonModel::Array(PostAggregationModel::wire_all(fields))),
                        ),
                )
            },
            PostAggregationModel::LongGreatest { name, fields } => {
                JsonModel::Object(
                    Seq::empty()
                        .push(("type"@, JsonModel::Str("longGreatest"@)))
                        .push(("name"@, JsonModel::Str(name)))
                        .push(
                            ("fields"@, JsonModel::Array(PostAggregationModel::wire_all(fields))),
                        ),
                )
            },
            PostAggregationModel::LongLeast { name, fields } => {
                JsonModel::Object(
                    Seq::empty()
                        .push(("type"@, JsonModel::Str("longLeast"@)))
                        .push(("name"@, JsonModel::Str(name)))
                        .push(
                            ("fields"@, JsonModel::Array(PostAggregationModel::wire_all(fields))),
                        ),
                )
            },
            PostAggregationModel::DoubleLeast { name, fields } => {
                JsonModel::Object(
                    Seq::empty()
                        .push(("type"@, JsonModel::Str("doubleLeast"@)))
                        .push(("name"@, JsonModel::Str(name)))
                        .push(
                            ("fields"@, JsonModel::Array(PostAggregationModel::wire_all(fields))),
                        ),
                )
            },
            PostAggregationModel::Javascript { name, field_names, function } => {
                JsonModel::Object(
                    Seq::empty()
                        .push(("type"@, JsonModel::Str("javascript"@)))
                        .push(("name"@, JsonModel::Str(name)))
                        .push(("fieldNames"@, JsonModel::texts(field_names)))
                        .push(("function"@, JsonModel::Str(function))),
                )
            },
        }
    }

    /// The wire forms of a sequence of values.
    pub open spec fn wire_all(items: Seq<PostAggregationModel>) -> Seq<JsonModel>
        decreases items,
    {
        Seq::new(
            items.len(),
            |i: int|
                if 0 <= i < items.len() {
                    items[i].wire()
                } else {
                    JsonModel::Null
                },
        )
    }

    /// What a JSON value reads as: `None` where it does not read as a value of
    /// this type. The members of an object are found by their names, in
    /// whatever order they stand, and members of other names are passed over.
    pub open spec fn parse(j: JsonModel) -> Option<PostAggregationModel>
        decreases j, 1int,
    {
        match j.text_field("type"@) {
            Some(tag) => if tag == "arithmetic"@ {
                match (
                    j.text_field("name"@),
                    (match j.text_field("fn"@) {
                        Some(v) => Some(v),
                        None => j.text_field("function"@),
                    }),
                    PostAggregatorModel::parse_all_field(j, "fields"@),
                    j.optional_text_field("ordering"@),
                ) {
                    (Some(name), Some(function), Some(fields), Some(ordering)) => Some(
                        PostAggregationModel::Arithmetic {
                            name,
                            function,
                            fields,
                            ordering,
                        },
                    ),
                    _ => None,
                }
            } else if tag == "doubleGreatest"@ {
                match (
                    j.text_field("name"@),
                    PostAggregationModel::parse_all_field(j, "fields"@),
                ) {
                    (Some(name), Some(fields)) => Some(
                        PostAggregationModel::DoubleGreatest {
                            name,
                            fields,
                        },
                    ),
                    _ => None,
                }
            } else if tag == "longGreatest"@ {
                match (
                    j.text_field("name"@),
                    PostAggregationModel::parse_all_field(j, "fields"@),
                ) {
                    (Some(name), Some(fields)) => Some(
                        PostAggregationModel::LongGreatest {
                            name,
                            fields,
                        },
                    ),
                    _ => None,
                }
            } else if tag == "longLeast"@ {
                match (
                    j.text_field("name"@),
                    PostAggregationModel::parse_all_field(j, "fields"@),
                ) {
                    (Some(name), Some(fields)) => Some(
                        PostAggregationModel::LongLeast {
                            name,
                            fields,
                        },
                    ),
                    _ => None,
                }
            } else if tag == "doubleLeast"@ {
                match (
                    j.text_field("name"@),
                    PostAggregationModel::parse_all_field(j, "fields"@),
                ) {
                    (Some(name), Some(fields)) => Some(
                        PostAggregationModel::DoubleLeast {
                            name,
                            fields,
                        },
                    ),
                    _ => None,
                }
            } else if tag == "javascript"@ {
                match (
                    j.text_field("name"@),
                    j.texts_field("fieldNames"@),
                    j.text_field("function"@),
                ) {
                    (Some(name), Some(field_names), Some(function)) => Some(
                        PostAggregationModel::Javascript {
                            name,
                            field_names,
                            function,
                        },
                    ),
                    _ => None,
                }
            } else {
                None
            },
            None => None,
        }
    }

    /// What the items of an array read as: `None` where one of them does not
    /// read.
    pub open spec fn parse_all(items: Seq<JsonModel>) -> Option<Seq<PostAggregationModel>>
        decreases items, 0int,
    {
        if forall|i: int| 0 <= i < items.len() ==> Self::parse(#[trigger] items[i]) is Some {
            Some(
                Seq::new(
                    items.len(),
                    |i: int|
                        if 0 <= i < items.len() {
                            Self::parse(items[i])->Some_0
                        } else {
                            arbitrary()
                        },
                ),
            )
        } else {
            None
        }
    }

    /// What the required member `key` of `j` reads as where it is an array of
    /// values.
    pub open spec fn parse_all_field(
        j: JsonModel,
        key: Seq<char>,
    ) -> Option<Seq<PostAggregationModel>>
        decreases j, 0int,
    {
        match j.field(key) {
            Some(JsonModel::Array(items)) => {
                proof {
                    j.lemma_field_decreases(key);
                    let member = j.field(key)->Some_0;
                    assert(decreases_to!(member => member->Array_0));
                }
                Self::parse_all(items)
            },
            _ => None,
        }
    }

    /// The lengths and the letters that tell the names of this wire form apart.
    pub proof fn lemma_names()
        ensures
            "fn"@.len() == 2,
            "name"@.len() == 4,
            "type"@.len() == 4,
            "fields"@.len() == 6,
            "function"@.len() == 8,
            "ordering"@.len() == 8,
            "longLeast"@.len() == 9,
            "arithmetic"@.len() == 10,
            "fieldNames"@.len() == 10,
            "javascript"@.len() == 10,
            "doubleLeast"@.len() == 11,
            "longGreatest"@.len() == 12,
            "doubleGreatest"@.len() == 14,
            "name"@[0] == 'n',
            "type"@[0] == 't',
            "function"@[0] == 'f',
            "ordering"@[0] == 'o',
            "arithmetic"@[0] == 'a',
            "fieldNames"@[0] == 'f',
            "javascript"@[0] == 'j',
    {
        reveal_strlit("fn");
        reveal_strlit("name");
        reveal_strlit("type");
        reveal_strlit("fields");
        reveal_strlit("function");
        reveal_strlit("ordering");
        reveal_strlit("longLeast");
        reveal_strlit("arithmetic");
        reveal_strlit("fieldNames");
        reveal_strlit("javascript");
        reveal_strlit("doubleLeast");
        reveal_strlit("longGreatest");
        reveal_strlit("doubleGreatest");
    }

    /// Decoding the wire form of a value gives the value back.
    pub proof fn lemma_round_trip(self)
        ensures
            Self::parse(self.wire()) == Some(self),
        decreases self,
    {
        Self::lemma_names();
        reveal_with_fuel(JsonModel::find, 7);
        match self {
            PostAggregationModel::Arithmetic { name, function, fields, ordering } => {
                PostAggregatorModel::lemma_round_trip_all(fields);
            },
            PostAggregationModel::DoubleGreatest { name, fields } => {
                PostAggregationModel::lemma_round_trip_all(fields);
            },
            PostAggregationModel::LongGreatest { name, fields } => {
                PostAggregationModel::lemma_round_trip_all(fields);
            },
            PostAggregationModel::LongLeast { name, fields } => {
                PostAggregationModel::lemma_round_trip_all(fields);
            },
            PostAggregationModel::DoubleLeast { name, fields } => {
                PostAggregationModel::lemma_round_trip_all(fields);
            },
            PostAggregationModel::Javascript { name, field_names, function } => {
                JsonModel::lemma_texts(field_names);
            },
        }
    }

    /// Decoding the wire forms of a sequence of values gives the sequence back.
    pub proof fn lemma_round_trip_all(items: Seq<PostAggregationModel>)
        ensures
            Self::parse_all(Self::wire_all(items)) == Some(items),
        decreases items,
    {
        assert forall|i: int| 0 <= i < items.len() implies Self::parse(
            #[trigger] Self::wire_all(items)[i],
        ) == Some(items[i]) by {
            items[i].lemma_round_trip();
        }
        assert(Self::parse_all(Self::wire_all(items))->Some_0 =~= items);
    }
}

impl PostAggregation {
    /// The wire form of this value.
    pub fn to_json(&self) -> (j: Json)
        ensures
            j@ == self@.wire(),
        decreases self,
    {
        let mut w = ObjectWriter::new();
        match self {
            PostAggregation::Arithmetic { name, function, fields, ordering } => {
                w.put("type", Json::text("arithmetic"));
                w.put("name", Json::text(name.as_str()));
                w.put("fn", Json::text(function.as_str()));
                w.put("fields", PostAggregator::all_to_json(fields));
                w.put("ordering", Json::optional_text(ordering));
            },
            PostAggregation::DoubleGreatest { name, fields } => {
                w.put("type", Json::text("doubleGreatest"));
                w.put("name", Json::text(name.as_str()));
                w.put("fields", PostAggregation::all_to_json(fields));
            },
            PostAggregation::LongGreatest { name, fields } => {
                w.put("type", Json::text("longGreatest"));
                w.put("name", Json::text(name.as_str()));
                w.put("fields", PostAggregation::all_to_json(fields));
            },
            PostAggregation::LongLeast { name, fields } => {
                w.put("type", Json::text("longLeast"));
                w.put("name", Json::text(name.as_str()));
                w.put("fields", PostAggregation::all_to_json(fields));
            },
            PostAggregation::DoubleLeast { name, fields } => {
                w.put("type", Json::text("doubleLeast"));
                w.put("name", Json::text(name.as_str()));
                w.put("fields", PostAggregation::all_to_json(fields));
            },
            PostAggregation::Javascript { name, field_names, function } => {
                w.put("type", Json::text("javascript"));
                w.put("name", Json::text(name.as_str()));
                w.put("fieldNames", Json::texts(field_names));
                w.put("function", Json::text(function.as_str()));
            },
        }
        w.finish()
    }

    /// The wire form of a sequence of values: the array of their wire forms.
    pub fn all_to_json(items: &Vec<PostAggregation>) -> (j: Json)
        ensures
            j@ == JsonModel::Array(PostAggregationModel::wire_all(PostAggregation::models(items@))),
        decreases items,
    {
        let mut out: Vec<Json> = Vec::new();
        let mut i: usize = 0;
        while i < items.len()
            invariant
                i <= items.len(),
                out@.len() == i,
                forall|k: int| 0 <= k < i ==> (#[trigger] out@[k])@ == items@[k]@.wire(),
            decreases items.len() - i,
        {
            out.push(items[i].to_json());
            i += 1;
        }
        proof {
            assert(Json::models(out@)
                =~= PostAggregationModel::wire_all(PostAggregation::models(items@)));
        }
        Json::Array(out)
    }

    /// Reads a value from JSON: `None` where `j` does not read as a value of
    /// this type.
    pub fn from_json(j: &Json) -> (r: Option<PostAggregation>)
        ensures
            match r {
                Some(v) => PostAggregationModel::parse(j@) == Some(v@),
                None => PostAggregationModel::parse(j@) is None,
            },
        decreases j@, 1int,
    {
        let tag = j.text_field("type")?;
        if same_text(tag.as_str(), "arithmetic") {
            let name = j.text_field("name")?;
            let function = match j.text_field("fn") {
                Some(v) => v,
                None => j.text_field("function")?,
            };
            let fields = PostAggregator::all_field_from_json(j, "fields")?;
            let ordering = j.optional_text_field("ordering")?;
            Some(PostAggregation::Arithmetic { name, function, fields, ordering })
        } else if same_text(tag.as_str(), "doubleGreatest") {
            let name = j.text_field("name")?;
            let fields = PostAggregation::all_field_from_json(j, "fields")?;
            Some(PostAggregation::DoubleGreatest { name, fields })
        } else if same_text(tag.as_str(), "longGreatest") {
            let name = j.text_field("name")?;
            let fields = PostAggregation::all_field_from_json(j, "fields")?;
            Some(PostAggregation::LongGreatest { name, fields })
        } else if same_text(tag.as_str(), "longLeast") {
            let name = j.text_field("name")?;
            let fields = PostAggregation::all_field_from_json(j, "fields")?;
            Some(PostAggregation::LongLeast { name, fields })
        } else if same_text(tag.as_str(), "doubleLeast") {
            let name = j.text_field("name")?;
            let fields = PostAggregation::all_field_from_json(j, "fields")?;
            Some(PostAggregation::DoubleLeast { name, fields })
        } else if same_text(tag.as_str(), "javascript") {
            let name = j.text_field("name")?;
            let field_names = j.texts_field("fieldNames")?;
            let function = j.text_field("function")?;
            Some(PostAggregation::Javascript { name, field_names, function })
        } else {
            None
        }
    }

    /// Reads the items of an array: `None` where one of them does not read.
    pub fn all_from_json(items: &Vec<Json>) -> (r: Option<Vec<PostAggregation>>)
        ensures
            match r {
                Some(v) => PostAggregationModel::parse_all(Json::models(items@))
                    == Some(PostAggregation::models(v@)),
                None => PostAggregationModel::parse_all(Json::models(items@)) is None,
            },
        decreases Json::models(items@), 0int,
    {
        let mut out: Vec<PostAggregation> = Vec::new();
        let mut i: usize = 0;
        while i < items.len()
            invariant
                i <= items.len(),
                out@.len() == i,
                forall|k: int|
                    0 <= k < i ==>
                        PostAggregationModel::parse(#[trigger] Json::models(items@)[k])
                            == Some(out@[k]@),
            decreases items.len() - i,
        {
            proof {
                assert(decreases_to!(Json::models(items@) => Json::models(items@)[i as int]));
            }
            match Self::from_json(&items[i]) {
                Some(v) => {
                    out.push(v);
                },
                None => {
                    assert(PostAggregationModel::parse(Json::models(items@)[i as int]) is None);
                    return None;
                },
            }
            i += 1;
        }
        proof {
            assert(PostAggregationModel::parse_all(Json::models(items@))->Some_0
                =~= PostAggregation::models(out@));
        }
        Some(out)
    }

    /// Reads the required member `key` of `j` where it is an array of values.
    pub fn all_field_from_json(j: &Json, key: &str) -> (r: Option<Vec<PostAggregation>>)
        ensures
            match r {
                Some(v) => PostAggregationModel::parse_all_field(j@, key@)
                    == Some(PostAggregation::models(v@)),
                None => PostAggregationModel::parse_all_field(j@, key@) is None,
            },
        decreases j@, 0int,
    {
        match j.get(key) {
            Some(Json::Array(items)) => {
                proof {
                    j@.lemma_field_decreases(key@);
                    let member = j@.field(key@)->Some_0;
                    assert(decreases_to!(member => member->Array_0));
                }
                Self::all_from_json(items)
            },
            _ => None,
        }
    }
}

/// The query that groups rows by dimensions and aggregates each group.
#[derive(Debug, PartialEq)]
pub struct GroupBy {
    pub data_source: DataSource,
    pub dimensions: Vec<Dimension>,
    pub limit_spec: Option<LimitSpec>,
    pub having: Option<HavingSpec>,
    pub granularity: Granularity,
    pub filter: Option<Filter>,
    pub aggregations: Vec<Aggregation>,
    pub post_aggregations: Vec<PostAggregation>,
    pub intervals: Vec<String>,
    pub subtotal_spec: Vec<Vec<String>>,
    pub context: StringMap,
}

/// The mathematical model of a [`GroupBy`].
#[verifier::ext_equal]
pub struct GroupByModel {
    pub data_source: DataSourceModel,
    pub dimensions: Seq<DimensionModel>,
    pub limit_spec: Option<LimitSpecModel>,
    pub having: Option<HavingSpecModel>,
    pub granularity: Granularity,
    pub filter: Option<FilterModel>,
    pub aggregations: Seq<AggregationModel>,
    pub post_aggregations: Seq<PostAggregationModel>,
    pub intervals: Seq<Seq<char>>,
    pub subtotal_spec: Seq<Seq<Seq<char>>>,
    pub context: StringMapModel,
}

impl GroupBy {
    /// The mathematical model of this value.
    pub open spec fn model(self) -> GroupByModel
        decreases self,
    {
        GroupByModel {
            data_source: self.data_source.model(),
            dimensions: Dimension::models(self.dimensions@),
            limit_spec: LimitSpec::optional_model(self.limit_spec),
            having: HavingSpec::optional_model(self.having),
            granularity: self.granularity,
            filter: Filter::optional_model(self.filter),
            aggregations: Aggregation::models(self.aggregations@),
            post_aggregations: PostAggregation::models(self.post_aggregations@),
            intervals: text_views(self.intervals@),
            subtotal_spec: text_row_views(self.subtotal_spec@),
            context: self.context@,
        }
    }
}

impl View for GroupBy {
    type V = GroupByModel;

    open spec fn view(&self) -> GroupByModel {
        self.model()
    }
}

impl GroupByModel {
    /// The wire form of this value.
    pub open spec fn wire(self) -> JsonModel
        decreases self,
    {
        JsonModel::Object(
            Seq::empty()
                .push(("queryType"@, JsonModel::Str("groupBy"@)))
                .push(("dataSource"@, self.data_source.wire()))
                .push(("dimensions"@, JsonModel::Array(DimensionModel::wire_all(self.dimensions))))
                .push(("limitSpec"@, LimitSpecModel::wire_optional(self.limit_spec)))
                .push(("having"@, HavingSpecModel::wire_optional(self.having)))
                .push(("granularity"@, self.granularity.wire()))
                .push(("filter"@, FilterModel::wire_optional(self.filter)))
                .push(
                    (
                        "aggregations"@,
                        JsonModel::Array(AggregationModel::wire_all(self.aggregations)),
                    ),
                )
                .push(
                    (
                        "postAggregations"@,
                        JsonModel::Array(PostAggregationModel::wire_all(self.post_aggregations)),
                    ),
                )
                .push(("intervals"@, JsonModel::texts(self.intervals)))
                .push(("subtotalSpec"@, JsonModel::text_rows(self.subtotal_spec)))
                .push(("context"@, self.context.wire())),
        )
    }

    /// What a JSON value reads as: `None` where it does not read as a value of
    /// this type. The members of an object are found by their names, in
    /// whatever order they stand, and members of other names are passed over.
    pub open spec fn parse(j: JsonModel) -> Option<GroupByModel>
        decreases j, 1int,
    {
        match (
            DataSourceModel::parse_field(j, "dataSource"@),
            DimensionModel::parse_all_field(j, "dimensions"@),
            LimitSpecModel::parse_optional_field(j, "limitSpec"@),
            HavingSpecModel::parse_optional_field(j, "having"@),
            Granularity::parse_field(j, "granularity"@),
            FilterModel::parse_optional_field(j, "filter"@),
            AggregationModel::parse_all_field(j, "aggregations"@),
            PostAggregationModel::parse_all_field(j, "postAggregations"@),
            j.texts_field("intervals"@),
            j.text_rows_field("subtotalSpec"@),
            StringMapModel::parse_field(j, "context"@),
        ) {
            (
                Some(data_source),
                Some(dimensions),
                Some(limit_spec),
                Some(having),
                Some(granularity),
                Some(filter),
                Some(aggregations),
                Some(post_aggregations),
                Some(intervals),
                Some(subtotal_spec),
                Some(context),
            ) => Some(
                GroupByModel {
                    data_source,
                    dimensions,
                    limit_spec,
                    having,
                    granularity,
                    filter,
                    aggregations,
                    post_aggregations,
                    intervals,
                    subtotal_spec,
                    context,
                },
            ),
            _ => None,
        }
    }

    /// The lengths and the letters that tell the names of this wire form apart.
    pub proof fn lemma_names()
        ensures
            "filter"@.len() == 6,
            "having"@.len() == 6,
            "context"@.len() == 7,
            "groupBy"@.len() == 7,
            "intervals"@.len() == 9,
            "limitSpec"@.len() == 9,
            "queryType"@.len() == 9,
            "dataSource"@.len() == 10,
            "dimensions"@.len() == 10,
            "granularity"@.len() == 11,
            "aggregations"@.len() == 12,
            "subtotalSpec"@.len() == 12,
            "postAggregations"@.len() == 16,
            "filter"@[0] == 'f',
            "having"@[0] == 'h',
            "context"@[0] == 'c',
            "groupBy"@[0] == 'g',
            "intervals"@[0] == 'i',
            "limitSpec"@[0] == 'l',
            "queryType"@[0] == 'q',
            "dataSource"@[1] == 'a',
            "dimensions"@[1] == 'i',
            "aggregations"@[0] == 'a',
            "subtotalSpec"@[0] == 's',
    {
        reveal_strlit("filter");
        reveal_strlit("having");
        reveal_strlit("context");
        reveal_strlit("groupBy");
        reveal_strlit("intervals");
        reveal_strlit("limitSpec");
        reveal_strlit("queryType");
        reveal_strlit("dataSource");
        reveal_strlit("dimensions");
        reveal_strlit("granularity");
        reveal_strlit("aggregations");
        reveal_strlit("subtotalSpec");
        reveal_strlit("postAggregations");
    }

    /// Decoding the wire form of a value gives the value back.
    pub proof fn lemma_round_trip(self)
        ensures
            Self::parse(self.wire()) == Some(self),
        decreases self,
    {
        Self::lemma_names();
        reveal_with_fuel(JsonModel::find, 14);
        self.data_source.lemma_round_trip();
        DimensionModel::lemma_round_trip_all(self.dimensions);
        LimitSpecModel::lemma_round_trip_optional(self.limit_spec);
        HavingSpecModel::lemma_round_trip_optional(self.having);
        self.granularity.lemma_round_trip();
        FilterModel::lemma_round_trip_optional(self.filter);
        AggregationModel::lemma_round_trip_all(self.aggregations);
        PostAggregationModel::lemma_round_trip_all(self.post_aggregations);
        JsonModel::lemma_texts(self.intervals);
        JsonModel::lemma_text_rows(self.subtotal_spec);
        self.context.lemma_round_trip();
    }
}

impl GroupBy {
    /// The wire form of this value.
    pub fn to_json(&self) -> (j: Json)
        ensures
            j@ == self@.wire(),
            j@.field("queryType"@) == Some(JsonModel::Str("groupBy"@)),
        decreases self,
    {
        proof {
            reveal_with_fuel(JsonModel::find, 2);
        }
        let mut w = ObjectWriter::new();
        w.put("queryType", Json::text("groupBy"));
        w.put("dataSource", self.data_source.to_json());
        w.put("dimensions", Dimension::all_to_json(&self.dimensions));
        w.put("limitSpec", LimitSpec::optional_to_json(&self.limit_spec));
        w.put("having", HavingSpec::optional_to_json(&self.having));
        w.put("granularity", self.granularity.to_json());
        w.put("filter", Filter::optional_to_json(&self.filter));
        w.put("aggregations", Aggregation::all_to_json(&self.aggregations));
        w.put("postAggregations", PostAggregation::all_to_json(&self.post_aggregations));
        w.put("intervals", Json::texts(&self.intervals));
        w.put("subtotalSpec", Json::text_rows(&self.subtotal_spec));
        w.put("context", self.context.to_json());
        w.finish()
    }

    /// Reads a value from JSON: `None` where `j` does not read as a value of
    /// this type.
    pub fn from_json(j: &Json) -> (r: Option<GroupBy>)
        ensures
            match r {
                Some(v) => GroupByModel::parse(j@) == Some(v@),
                None => GroupByModel::parse(j@) is None,
            },
        decreases j@, 1int,
    {
        let data_source = DataSource::field_from_json(j, "dataSource")?;
        let dimensions = Dimension::all_field_from_json(j, "dimensions")?;
        let limit_spec = LimitSpec::optional_field_from_json(j, "limitSpec")?;
        let having = HavingSpec::optional_field_from_json(j, "having")?;
        let granularity = Granularity::field_from_json(j, "granularity")?;
        let filter = Filter::optional_field_from_json(j, "filter")?;
        let aggregations = Aggregation::all_field_from_json(j, "aggregations")?;
        let post_aggregations = PostAggregation::all_field_from_json(j, "postAggregations")?;
        let intervals = j.texts_field("intervals")?;
        let subtotal_spec = j.text_rows_field("subtotalSpec")?;
        let context = StringMap::field_from_json(j, "context")?;
        Some(GroupBy {
            data_source,
            dimensions,
            limit_spec,
            having,
            granularity,
            filter,
            aggregations,
            post_aggregations,
            intervals,
            subtotal_spec,
            context,
        })
    }
}

/// A grouping query that is being put together.
#[derive(Debug)]
pub struct GroupByBuilder {
    data_source: DataSource,
    dimensions: Vec<Dimension>,
    limit_spec: Option<LimitSpec>,
    having: Option<HavingSpec>,
    granularity: Granularity,
    filter: Option<Filter>,
    aggregations: Vec<Aggregation>,
    post_aggregations: Vec<PostAggregation>,
    intervals: Vec<String>,
    subtotal_spec: Vec<Vec<String>>,
    context: StringMap,
}

/// The mathematical model of a [`GroupByBuilder`].
#[verifier::ext_equal]
pub struct GroupByBuilderModel {
    pub data_source: DataSourceModel,
    pub dimensions: Seq<DimensionModel>,
    pub limit_spec: Option<LimitSpecModel>,
    pub having: Option<HavingSpecModel>,
    pub granularity: Granularity,
    pub filter: Option<FilterModel>,
    pub aggregations: Seq<AggregationModel>,
    pub post_aggregations: Seq<PostAggregationModel>,
    pub intervals: Seq<Seq<char>>,
    pub subtotal_spec: Seq<Seq<Seq<char>>>,
    pub context: StringMapModel,
}

impl GroupByBuilder {
    /// The mathematical model of this value.
    pub closed spec fn model(self) -> GroupByBuilderModel {
        GroupByBuilderModel {
            data_source: self.data_source.model(),
            dimensions: Dimension::models(self.dimensions@),
            limit_spec: LimitSpec::optional_model(self.limit_spec),
            having: HavingSpec::optional_model(self.having),
            granularity: self.granularity,
            filter: Filter::optional_model(self.filter),
            aggregations: Aggregation::models(self.aggregations@),
            post_aggregations: PostAggregation::models(self.post_aggregations@),
            intervals: text_views(self.intervals@),
            subtotal_spec: text_row_views(self.subtotal_spec@),
            context: self.context@,
        }
    }
}

impl View for GroupByBuilder {
    type V = GroupByBuilderModel;

    closed spec fn view(&self) -> GroupByBuilderModel {
        self.model()
    }
}

impl GroupByBuilder {
    /// A builder for a query over `data_source` that groups by nothing,
    /// aggregates nothing, reads no interval and buckets all of time together.
    pub fn new(data_source: DataSource) -> (b: GroupByBuilder)
        ensures
            b@ == (GroupByBuilderModel {
                data_source: data_source@,
                dimensions: Seq::empty(),
                limit_spec: None,
                having: None,
                granularity: Granularity::All,
                filter: None,
                aggregations: Seq::empty(),
                post_aggregations: Seq::empty(),
                intervals: Seq::empty(),
                subtotal_spec: Seq::empty(),
                context: StringMapModel { entries: Seq::empty() },
            }),
    {
        let b = GroupByBuilder {
            data_source,
            dimensions: Vec::new(),
            limit_spec: None,
            having: None,
            granularity: Granularity::All,
            filter: None,
            aggregations: Vec::new(),
            post_aggregations: Vec::new(),
            intervals: Vec::new(),
            subtotal_spec: Vec::new(),
            context: StringMap::new(),
        };
        assert(b@.dimensions =~= Seq::empty());
        assert(b@.aggregations =~= Seq::empty());
        assert(b@.post_aggregations =~= Seq::empty());
        assert(b@.intervals =~= Seq::empty());
        assert(b@.subtotal_spec =~= Seq::empty());
        b
    }

    /// The builder with `dimensions` as the dimensions to group by.
    pub fn dimensions(self, dimensions: Vec<Dimension>) -> (b: GroupByBuilder)
        ensures
            b@ == (GroupByBuilderModel { dimensions: Dimension::models(dimensions@), ..self@ }),
    {
        let mut b = self;
        b.dimensions = dimensions;
        b
    }

    /// The builder with `limit` as the limit of the rows.
    pub fn limit(self, limit: LimitSpec) -> (b: GroupByBuilder)
        ensures
            b@ == (GroupByBuilderModel { limit_spec: Some(limit@), ..self@ }),
    {
        let mut b = self;
        b.limit_spec = Some(limit);
        b
    }

    /// The builder with `having` as the condition on the groups.
    pub fn having(self, having: HavingSpec) -> (b: GroupByBuilder)
        ensures
            b@ == (GroupByBuilderModel { having: Some(having@), ..self@ }),
    {
        let mut b = self;
        b.having = Some(having);
        b
    }

    /// The builder with `granularity` as the width of the time buckets.
    pub fn granularity(self, granularity: Granularity) -> (b: GroupByBuilder)
        ensures
            b@ == (GroupByBuilderModel { granularity: granularity, ..self@ }),
    {
        let mut b = self;
        b.granularity = granularity;
        b
    }

    /// The builder with `filter` as the condition on the rows.
    pub fn filter(self, filter: Filter) -> (b: GroupByBuilder)
        ensures
            b@ == (GroupByBuilderModel { filter: Some(filter@), ..self@ }),
    {
        let mut b = self;
        b.filter = Some(filter);
        b
    }

    /// The builder with `aggr` as the aggregations.
    pub fn aggregations(self, aggr: Vec<Aggregation>) -> (b: GroupByBuilder)
        ensures
            b@ == (GroupByBuilderModel { aggregations: Aggregation::models(aggr@), ..self@ }),
    {
        let mut b = self;
        b.aggregations = aggr;
        b
    }

    /// The builder with `aggr` as the post-aggregations.
    pub fn post_aggregations(self, aggr: Vec<PostAggregation>) -> (b: GroupByBuilder)
        ensures
            b@ == (GroupByBuilderModel {
                post_aggregations: PostAggregation::models(aggr@),
                ..self@
            }),
    {
        let mut b = self;
        b.post_aggregations = aggr;
        b
    }

    /// The builder with `intervals` as the intervals to read.
    pub fn intervals(self, intervals: Vec<&str>) -> (b: GroupByBuilder)
        ensures
            b@ == (GroupByBuilderModel { intervals: slice_views(intervals@), ..self@ }),
    {
        let mut b = self;
        b.intervals = owned_texts(&intervals);
        b
    }

    /// The builder with `subtotals` as the groupings to give subtotals for.
    pub fn subtotal_spec(self, subtotals: Vec<Vec<String>>) -> (b: GroupByBuilder)
        ensures
            b@ == (GroupByBuilderModel { subtotal_spec: text_row_views(subtotals@), ..self@ }),
    {
        let mut b = self;
        b.subtotal_spec = subtotals;
        b
    }

    /// The builder with `context` as the context of the query.
    pub fn context(self, context: StringMap) -> (b: GroupByBuilder)
        ensures
            b@ == (GroupByBuilderModel { context: context@, ..self@ }),
    {
        let mut b = self;
        b.context = context;
        b
    }

    /// The builder with `value` written under `key` in the context of the
    /// query: in place of what stood under `key`, or after the entries that
    /// are there.
    pub fn add_context(self, key: &str, value: &str) -> (b: GroupByBuilder)
        ensures
            b@ == (GroupByBuilderModel { context: self@.context.put(key@, value@), ..self@ }),
    {
        let mut b = self;
        b.context.insert(key.to_owned(), value.to_owned());
        b
    }

    /// The query that the builder holds.
    pub fn build(self) -> (q: GroupBy)
        ensures
            q@ == (GroupByModel {
                data_source: self@.data_source,
                dimensions: self@.dimensions,
                limit_spec: self@.limit_spec,
                having: self@.having,
                granularity: self@.granularity,
                filter: self@.filter,
                aggregations: self@.aggregations,
                post_aggregations: self@.post_aggregations,
                intervals: self@.intervals,
                subtotal_spec: self@.subtotal_spec,
                context: self@.context,
            }),
    {
        GroupBy {
            data_source: self.data_source,
            dimensions: self.dimensions,
            limit_spec: self.limit_spec,
            having: self.having,
            granularity: self.granularity,
            filter: self.filter,
            aggregations: self.aggregations,
            post_aggregations: self.post_aggregations,
            intervals: self.intervals,
            subtotal_spec: self.subtotal_spec,
            context: self.context,
        }
    }
}

} // verus!
