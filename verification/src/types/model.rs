//! Models API: the parameters of a list request and the models that come
//! back.
use vstd::prelude::*;
use crate::clients::pairs_view;
use crate::json::{all_from_json, all_of_json, views, FromJson, Json, JsonValue};
use crate::text::{decimal_value, owned_text, text_view};
use crate::types::timestamp::{timestamp_member, Timestamp};
use crate::types::pagination::{
    clamp_limit, clamped, lemma_limit_parameter, lemma_text_parameter_is_no_limit,
    limit_in_range, limit_parameter, push_limit_parameter, push_text_parameter, text_parameter,
};

verus! {

/// Parameters for listing models.
#[derive(Debug)]
pub struct ListModelsParams {
    /// Cursor for pagination (before).
    pub before_id: Option<String>,
    /// Cursor for pagination (after).
    pub after_id: Option<String>,
    /// Number of items per page (1-1000).
    pub limit: Option<u16>,
}

impl Default for ListModelsParams {
    fn default() -> (r: Self)
        ensures
            r.before_id is None,
            r.after_id is None,
            r.limit is None,
    {
        ListModelsParams { before_id: None, after_id: None, limit: None }
    }
}

impl ListModelsParams {
    /// Whether the page size, where one is set, lies between 1 and 1000.
    pub open spec fn valid(self) -> bool {
        limit_in_range(self.limit)
    }

    /// The query parameters that these parameters write, in the order of the
    /// fields. A field that is not set writes nothing.
    pub open spec fn query(self) -> Seq<(Seq<char>, Seq<char>)> {
        text_parameter("before_id"@, self.before_id) + text_parameter("after_id"@, self.after_id)
            + limit_parameter(self.limit)
    }

    /// Creates parameters with no field set.
    pub fn new() -> (r: Self)
        ensures
            r.before_id is None,
            r.after_id is None,
            r.limit is None,
            r.valid(),
    {
        ListModelsParams { before_id: None, after_id: None, limit: None }
    }

    /// Sets the cursor before which the page lies.
    pub fn before_id(self, before_id: &str) -> (r: Self)
        ensures
            r.before_id matches Some(id) && id@ == before_id@,
            r.after_id == self.after_id,
            r.limit == self.limit,
    {
        ListModelsParams {
            before_id: Some(before_id.to_owned()),
            after_id: self.after_id,
            limit: self.limit,
        }
    }

    /// Sets the cursor after which the page lies.
    pub fn after_id(self, after_id: &str) -> (r: Self)
        ensures
            r.after_id matches Some(id) && id@ == after_id@,
            r.before_id == self.before_id,
            r.limit == self.limit,
    {
        ListModelsParams {
            before_id: self.before_id,
            after_id: Some(after_id.to_owned()),
            limit: self.limit,
        }
    }

    /// Sets the page size, brought into 1 to 1000.
    pub fn limit(self, limit: u16) -> (r: Self)
        ensures
            r.limit == Some(clamped(limit)),
            r.before_id == self.before_id,
            r.after_id == self.after_id,
            r.valid(),
    {
        ListModelsParams {
            before_id: self.before_id,
            after_id: self.after_id,
            limit: Some(clamp_limit(limit)),
        }
    }

    /// The query parameters of the request.
    pub fn to_query(&self) -> (r: Vec<(String, String)>)
        ensures
            pairs_view(r@) == self.query(),
    {
        let mut query: Vec<(String, String)> = Vec::new();
        assert(pairs_view(query@) =~= Seq::empty());
        push_text_parameter(&mut query, "before_id", &self.before_id);
        push_text_parameter(&mut query, "after_id", &self.after_id);
        push_limit_parameter(&mut query, self.limit);
        assert(pairs_view(query@) =~= self.query());
        query
    }

    /// Every `limit` that valid parameters write into the query is the
    /// numeral of a number from 1 to 1000.
    pub proof fn lemma_written_limit_in_range(self, i: int)
        requires
            self.valid(),
            0 <= i < self.query().len(),
            self.query()[i].0 == "limit"@,
        ensures
            1 <= decimal_value(self.query()[i].1) <= 1000,
    {
        reveal_strlit("limit");
        reveal_strlit("before_id");
        reveal_strlit("after_id");
        assert("before_id"@.len() != "limit"@.len());
        assert("after_id"@.len() != "limit"@.len());
        lemma_text_parameter_is_no_limit("before_id"@, self.before_id);
        lemma_text_parameter_is_no_limit("after_id"@, self.after_id);
        lemma_limit_parameter(self.limit);
        let a = text_parameter("before_id"@, self.before_id);
        let b = text_parameter("after_id"@, self.after_id);
        let c = limit_parameter(self.limit);
        if i < a.len() {
            assert(self.query()[i] == a[i]);
        } else if i < a.len() + b.len() {
            assert(self.query()[i] == b[i - a.len()]);
        } else {
            assert(self.query()[i] == c[i - a.len() - b.len()]);
        }
    }
}

/// A model that the API offers.
#[derive(Debug, PartialEq, Eq)]
pub struct Model {
    /// Type of the resource (always "model").
    pub type_: String,
    /// Unique identifier of the model.
    pub id: String,
    /// Display name of the model.
    pub display_name: String,
    /// When the model was released.
    pub created_at: Timestamp,
}

/// What a `Model` stands for.
pub struct ModelView {
    pub type_: Seq<char>,
    pub id: Seq<char>,
    pub display_name: Seq<char>,
    pub created_at: Timestamp,
}

impl View for Model {
    type V = ModelView;

    open spec fn view(&self) -> ModelView {
        ModelView {
            type_: self.type_@,
            id: self.id@,
            display_name: self.display_name@,
            created_at: self.created_at,
        }
    }
}

impl FromJson for Model {
    /// The model that a JSON value describes: an object with the strings
    /// `type`, `id` and `display_name` and the point in time `created_at`.
    open spec fn of_json(j: Json) -> Option<ModelView> {
        match (
            j.text_member("type"@),
            j.text_member("id"@),
            j.text_member("display_name"@),
            timestamp_member(j, "created_at"@),
        ) {
            (Some(type_), Some(id), Some(display_name), Some(created_at)) => Some(
                ModelView { type_, id, display_name, created_at },
            ),
            _ => None,
        }
    }

    /// Reads a model.
    fn from_json(v: &JsonValue) -> (r: Option<Model>) {
        match (
            v.get_text("type"),
            v.get_text("id"),
            v.get_text("display_name"),
            Timestamp::get(v, "created_at"),
        ) {
            (Some(type_), Some(id), Some(display_name), Some(created_at)) => Some(
                Model {
                    type_: type_.to_owned(),
                    id: id.to_owned(),
                    display_name: display_name.to_owned(),
                    created_at,
                },
            ),
            _ => None,
        }
    }
}

/// One page of the list of models.
#[derive(Debug, PartialEq, Eq)]
pub struct ListModelsResponse {
    /// The models of this page.
    pub data: Vec<Model>,
    /// First ID in the data list.
    pub first_id: Option<String>,
    /// Whether there are more results behind this page.
    pub has_more: bool,
    /// Last ID in the data list.
    pub last_id: Option<String>,
}

/// What a `ListModelsResponse` stands for.
pub struct ListModelsResponseView {
    pub data: Seq<ModelView>,
    pub first_id: Option<Seq<char>>,
    pub has_more: bool,
    pub last_id: Option<Seq<char>>,
}

impl View for ListModelsResponse {
    type V = ListModelsResponseView;

    open spec fn view(&self) -> ListModelsResponseView {
        ListModelsResponseView {
            data: views(self.data@),
            first_id: text_view(self.first_id),
            has_more: self.has_more,
            last_id: text_view(self.last_id),
        }
    }
}

impl FromJson for ListModelsResponse {
    /// The page that a JSON value describes: an object with the array `data`
    /// of models, the truth value `has_more`, and the strings `first_id` and
    /// `last_id`, each of which may be null or missing.
    open spec fn of_json(j: Json) -> Option<ListModelsResponseView> {
        match (
            j.array_member("data"@),
            j.optional_text_member("first_id"@),
            j.bool_member("has_more"@),
            j.optional_text_member("last_id"@),
        ) {
            (Some(items), Some(first_id), Some(has_more), Some(last_id)) => match all_of_json::<Model>(
                items,
            ) {
                Some(data) => Some(ListModelsResponseView { data, first_id, has_more, last_id }),
                None => None,
            },
            _ => None,
        }
    }

    /// Reads a page of models.
    fn from_json(v: &JsonValue) -> (r: Option<ListModelsResponse>) {
        match (
            v.get_array("data"),
            v.get_optional_text("first_id"),
            v.get_bool("has_more"),
            v.get_optional_text("last_id"),
        ) {
            (Some(items), Ok(first_id), Some(has_more), Ok(last_id)) => match all_from_json::<Model>(
                items,
            ) {
                Some(data) => Some(
                    ListModelsResponse {
                        data,
                        first_id: owned_text(first_id),
                        has_more,
                        last_id: owned_text(last_id),
                    },
                ),
                None => None,
            },
            _ => None,
        }
    }
}

} // verus!
