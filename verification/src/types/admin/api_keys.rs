//! Admin API: the API keys of an organization.
use vstd::prelude::*;
use crate::clients::pairs_view;
use crate::json::{
    add_member, add_optional_text, all_from_json, all_of_json, lemma_with_optional, members_view,
    object_of, optional_json, views, with_optional, FromJson, Json, JsonValue, RoundTrip, ToJson,
};
use crate::text::{decimal_value, owned_text, same_text, text_view};
use crate::types::pagination::{
    clamp_limit, clamped, lemma_limit_parameter, lemma_text_parameter_is_no_limit,
    limit_in_range, limit_parameter, push_limit_parameter, push_text_parameter, text_parameter,
};
use crate::types::timestamp::{timestamp_member, Timestamp};

verus! {

/// The status of an API key.
#[derive(Debug, Clone, Copy, PartialEq, Eq)]
pub enum ApiKeyStatus {
    Active,
    Inactive,
    Archived,
}

impl ApiKeyStatus {
    /// The name of this status on the wire.
    pub open spec fn wire_name(self) -> Seq<char> {
        match self {
            ApiKeyStatus::Active => "active"@,
            ApiKeyStatus::Inactive => "inactive"@,
            ApiKeyStatus::Archived => "archived"@,
        }
    }

    /// The status that a wire name stands for.
    pub open spec fn of_wire_name(name: Seq<char>) -> Option<ApiKeyStatus> {
        if name == "active"@ {
            Some(ApiKeyStatus::Active)
        } else if name == "inactive"@ {
            Some(ApiKeyStatus::Inactive)
        } else if name == "archived"@ {
            Some(ApiKeyStatus::Archived)
        } else {
            None
        }
    }

    /// The name of this status on the wire.
    pub fn as_str(&self) -> (r: &'static str)
        ensures
            r@ == self.wire_name(),
    {
        match self {
            ApiKeyStatus::Active => "active",
            ApiKeyStatus::Inactive => "inactive",
            ApiKeyStatus::Archived => "archived",
        }
    }

    /// The status that a wire name stands for.
    pub fn from_wire_name(name: &str) -> (r: Option<ApiKeyStatus>)
        ensures
            r == Self::of_wire_name(name@),
    {
        if same_text(name, "active") {
            Some(ApiKeyStatus::Active)
        } else if same_text(name, "inactive") {
            Some(ApiKeyStatus::Inactive)
        } else if same_text(name, "archived") {
            Some(ApiKeyStatus::Archived)
        } else {
            None
        }
    }

    /// A status is read back from its own wire name.
    pub proof fn lemma_wire_name_round_trip(self)
        ensures
            Self::of_wire_name(self.wire_name()) == Some(self),
    {
        reveal_strlit("active");
        reveal_strlit("inactive");
        reveal_strlit("archived");
        assert("active"@.len() != "inactive"@.len());
        assert("active"@.len() != "archived"@.len());
        assert("inactive"@[0] != "archived"@[0]);
    }
}

/// The query parameter that a status filter writes.
pub open spec fn status_parameter(status: Option<ApiKeyStatus>) -> Seq<(Seq<char>, Seq<char>)> {
    match status {
        Some(s) => seq![("status"@, s.wire_name())],
        None => Seq::empty(),
    }
}

/// Parameters for listing API keys.
#[derive(Debug)]
pub struct ListApiKeysParams {
    /// Cursor for pagination (before).
    pub before_id: Option<String>,
    /// Cursor for pagination (after).
    pub after_id: Option<String>,
    /// Number of items per page (1-1000).
    pub limit: Option<u16>,
    /// Filter by API key status.
    pub status: Option<ApiKeyStatus>,
    /// Filter by workspace ID.
    pub workspace_id: Option<String>,
    /// Filter by the ID of the user who created the key.
    pub created_by_user_id: Option<String>,
}

impl Default for ListApiKeysParams {
    fn default() -> (r: Self)
        ensures
            r.before_id is None,
            r.after_id is None,
            r.limit is None,
            r.status is None,
            r.workspace_id is None,
            r.created_by_user_id is None,
    {
        ListApiKeysParams {
            before_id: None,
            after_id: None,
            limit: None,
            status: None,
            workspace_id: None,
            created_by_user_id: None,
        }
    }
}

impl ListApiKeysParams {
    /// Whether the page size, where one is set, lies between 1 and 1000.
    pub open spec fn valid(self) -> bool {
        limit_in_range(self.limit)
    }

    /// The query parameters that these parameters write, in the order of the
    /// fields. A field that is not set writes nothing.
    pub open spec fn query(self) -> Seq<(Seq<char>, Seq<char>)> {
        text_parameter("before_id"@, self.before_id) + text_parameter("after_id"@, self.after_id)
            + limit_parameter(self.limit) + status_parameter(self.status) + text_parameter(
            "workspace_id"@,
            self.workspace_id,
        ) + text_parameter("created_by_user_id"@, self.created_by_user_id)
    }

    /// Creates parameters with no field set.
    pub fn new() -> (r: Self)
        ensures
            r.before_id is None,
            r.after_id is None,
            r.limit is None,
            r.status is None,
            r.workspace_id is None,
            r.created_by_user_id is None,
            r.valid(),
    {
        ListApiKeysParams {
            before_id: None,
            after_id: None,
            limit: None,
            status: None,
            workspace_id: None,
            created_by_user_id: None,
        }
    }

    /// Sets the cursor before which the page lies.
    pub fn before_id(self, before_id: &str) -> (r: Self)
        ensures
            r.before_id matches Some(id) && id@ == before_id@,
            r.after_id == self.after_id,
            r.limit == self.limit,
            r.status == self.status,
            r.workspace_id == self.workspace_id,
            r.created_by_user_id == self.created_by_user_id,
    {
        ListApiKeysParams {
            before_id: Some(before_id.to_owned()),
            after_id: self.after_id,
            limit: self.limit,
            status: self.status,
            workspace_id: self.workspace_id,
            created_by_user_id: self.created_by_user_id,
        }
    }

    /// Sets the cursor after which the page lies.
    pub fn after_id(self, after_id: &str) -> (r: Self)
        ensures
            r.after_id matches Some(id) && id@ == after_id@,
            r.before_id == self.before_id,
            r.limit == self.limit,
            r.status == self.status,
            r.workspace_id == self.workspace_id,
            r.created_by_user_id == self.created_by_user_id,
    {
        ListApiKeysParams {
            before_id: self.before_id,
            after_id: Some(after_id.to_owned()),
            limit: self.limit,
            status: self.status,
            workspace_id: self.workspace_id,
            created_by_user_id: self.created_by_user_id,
        }
    }

    /// Sets the page size, brought into 1 to 1000.
    pub fn limit(self, limit: u16) -> (r: Self)
        ensures
            r.limit == Some(clamped(limit)),
            r.valid(),
            r.before_id == self.before_id,
            r.after_id == self.after_id,
            r.status == self.status,
            r.workspace_id == self.workspace_id,
            r.created_by_user_id == self.created_by_user_id,
    {
        ListApiKeysParams {
            before_id: self.before_id,
            after_id: self.after_id,
            limit: Some(clamp_limit(limit)),
            status: self.status,
            workspace_id: self.workspace_id,
            created_by_user_id: self.created_by_user_id,
        }
    }

    /// Sets the status to filter by.
    pub fn status(self, status: ApiKeyStatus) -> (r: Self)
        ensures
            r.status == Some(status),
            r.before_id == self.before_id,
            r.after_id == self.after_id,
            r.limit == self.limit,
            r.workspace_id == self.workspace_id,
            r.created_by_user_id == self.created_by_user_id,
    {
        ListApiKeysParams {
            before_id: self.before_id,
            after_id: self.after_id,
            limit: self.limit,
            status: Some(status),
            workspace_id: self.workspace_id,
            created_by_user_id: self.created_by_user_id,
        }
    }

    /// Sets the workspace to filter by.
    pub fn workspace_id(self, workspace_id: &str) -> (r: Self)
        ensures
            r.workspace_id matches Some(id) && id@ == workspace_id@,
            r.before_id == self.before_id,
            r.after_id == self.after_id,
            r.limit == self.limit,
            r.status == self.status,
            r.created_by_user_id == self.created_by_user_id,
    {
        ListApiKeysParams {
            before_id: self.before_id,
            after_id: self.after_id,
            limit: self.limit,
            status: self.status,
            workspace_id: Some(workspace_id.to_owned()),
            created_by_user_id: self.created_by_user_id,
        }
    }

    /// Sets the creating user to filter by.
    pub fn created_by_user_id(self, created_by_user_id: &str) -> (r: Self)
        ensures
            r.created_by_user_id matches Some(id) && id@ == created_by_user_id@,
            r.before_id == self.before_id,
            r.after_id == self.after_id,
            r.limit == self.limit,
            r.status == self.status,
            r.workspace_id == self.workspace_id,
    {
        ListApiKeysParams {
            before_id: self.before_id,
            after_id: self.after_id,
            limit: self.limit,
            status: self.status,
            workspace_id: self.workspace_id,
            created_by_user_id: Some(created_by_user_id.to_owned()),
        }
    }

    /// The query parameters of the request.
    pub fn to_query(&self) -> (r: Vec<(String, String)>)
        ensures
            pairs_view(r@) == self.query(),
    {
        let mut query: Vec<(String, String)> = Vec::new();
        assert(pairs_view(query@) =~= Seq::empty());
        push_text_parameter(&mut query, "before_id", &self.before_id);
        push_text_parameter(&mut query, "after_id", &self.after_id);
        push_limit_parameter(&mut query, self.limit);
        let ghost before = pairs_view(query@);
        match self.status {
            Some(s) => {
                query.push(("status".to_owned(), s.as_str().to_owned()));
            },
            None => {},
        }
        assert(pairs_view(query@) =~= before + status_parameter(self.status));
        push_text_parameter(&mut query, "workspace_id", &self.workspace_id);
        push_text_parameter(&mut query, "created_by_user_id", &self.created_by_user_id);
        assert(pairs_view(query@) =~= self.query());
        query
    }

    /// Every `limit` that valid parameters write into the query is the
    /// numeral of a number from 1 to 1000.
    pub proof fn lemma_written_limit_in_range(self, i: int)
        requires
            self.valid(),
            0 <= i < self.query().len(),
            self.query()[i].0 == "limit"@,
        ensures
            1 <= decimal_value(self.query()[i].1) <= 1000,
    {
        reveal_strlit("limit");
        reveal_strlit("before_id");
        reveal_strlit("after_id");
        reveal_strlit("status");
        reveal_strlit("workspace_id");
        reveal_strlit("created_by_user_id");
        assert("before_id"@.len() != "limit"@.len());
        assert("after_id"@.len() != "limit"@.len());
        assert("status"@.len() != "limit"@.len());
        assert("workspace_id"@.len() != "limit"@.len());
        assert("created_by_user_id"@.len() != "limit"@.len());
        lemma_text_parameter_is_no_limit("before_id"@, self.before_id);
        lemma_text_parameter_is_no_limit("after_id"@, self.after_id);
        lemma_text_parameter_is_no_limit("workspace_id"@, self.workspace_id);
        lemma_text_parameter_is_no_limit("created_by_user_id"@, self.created_by_user_id);
        lemma_limit_parameter(self.limit);
        let a = text_parameter("before_id"@, self.before_id);
        let b = text_parameter("after_id"@, self.after_id);
        let c = limit_parameter(self.limit);
        let d = status_parameter(self.status);
        let e = text_parameter("workspace_id"@, self.workspace_id);
        let f = text_parameter("created_by_user_id"@, self.created_by_user_id);
        if i < a.len() {
            assert(self.query()[i] == a[i]);
        } else if i < a.len() + b.len() {
            assert(self.query()[i] == b[i - a.len()]);
        } else if i < a.len() + b.len() + c.len() {
            assert(self.query()[i] == c[i - a.len() - b.len()]);
        } else if i < a.len() + b.len() + c.len() + d.len() {
            assert(self.query()[i] == d[i - a.len() - b.len() - c.len()]);
        } else if i < a.len() + b.len() + c.len() + d.len() + e.len() {
            assert(self.query()[i] == e[i - a.len() - b.len() - c.len() - d.len()]);
        } else {
            assert(self.query()[i] == f[i - a.len() - b.len() - c.len() - d.len() - e.len()]);
        }
    }
}

/// The user who created an API key.
#[derive(Debug, PartialEq, Eq)]
pub struct User {
    /// Unique identifier of the user.
    pub id: String,
    /// Type of the resource (always "user").
    pub type_: String,
}

/// What a `User` stands for.
pub struct UserView {
    pub id: Seq<char>,
    pub type_: Seq<char>,
}

impl View for User {
    type V = UserView;

    open spec fn view(&self) -> UserView {
        UserView { id: self.id@, type_: self.type_@ }
    }
}

impl FromJson for User {
    /// The user that a JSON value describes: an object with the strings `id`
    /// and `type`.
    open spec fn of_json(j: Json) -> Option<UserView> {
        match (j.text_member("id"@), j.text_member("type"@)) {
            (Some(id), Some(type_)) => Some(UserView { id, type_ }),
            _ => None,
        }
    }

    /// Reads a user.
    fn from_json(v: &JsonValue) -> (r: Option<User>) {
        match (v.get_text("id"), v.get_text("type")) {
            (Some(id), Some(type_)) => Some(User { id: id.to_owned(), type_: type_.to_owned() }),
            _ => None,
        }
    }
}

/// An API key of the organization.
#[derive(Debug, PartialEq, Eq)]
pub struct ApiKey {
    /// Unique identifier of the API key.
    pub id: String,
    /// Type of the resource (always "api_key").
    pub type_: String,
    /// Status of the API key.
    pub status: ApiKeyStatus,
    /// Name of the API key.
    pub name: String,
    /// When the key was created.
    pub created_at: Timestamp,
    /// The user who created the key.
    pub created_by: User,
    /// The workspace that the key belongs to, if it belongs to one.
    pub workspace_id: Option<String>,
    /// Part of the key, for display.
    pub partial_key_hint: String,
}

/// What an `ApiKey` stands for.
pub struct ApiKeyView {
    pub id: Seq<char>,
    pub type_: Seq<char>,
    pub status: ApiKeyStatus,
    pub name: Seq<char>,
    pub created_at: Timestamp,
    pub created_by: UserView,
    pub workspace_id: Option<Seq<char>>,
    pub partial_key_hint: Seq<char>,
}

impl View for ApiKey {
    type V = ApiKeyView;

    open spec fn view(&self) -> ApiKeyView {
        ApiKeyView {
            id: self.id@,
            type_: self.type_@,
            status: self.status,
            name: self.name@,
            created_at: self.created_at,
            created_by: self.created_by@,
            workspace_id: text_view(self.workspace_id),
            partial_key_hint: self.partial_key_hint@,
        }
    }
}

/// The status under the member `status`, if the member is there and is the
/// wire name of one.
pub open spec fn status_member(j: Json) -> Option<ApiKeyStatus> {
    match j.text_member("status"@) {
        Some(name) => ApiKeyStatus::of_wire_name(name),
        None => None,
    }
}

/// Reads the status under the member `status`.
pub fn get_status(v: &JsonValue) -> (r: Option<ApiKeyStatus>)
    ensures
        r == status_member(v@),
{
    match v.get_text("status") {
        Some(name) => ApiKeyStatus::from_wire_name(name),
        None => None,
    }
}

impl FromJson for ApiKey {
    /// The API key that a JSON value describes: an object with the strings
    /// `id`, `type`, `name` and `partial_key_hint`, the status `status`, the
    /// point in time `created_at`, the user `created_by`, and the string
    /// `workspace_id`, which may be null or missing.
    open spec fn of_json(j: Json) -> Option<ApiKeyView> {
        match j.member("created_by"@) {
            None => None,
            Some(by) => match (
                j.text_member("id"@),
                j.text_member("type"@),
                status_member(j),
                j.text_member("name"@),
                timestamp_member(j, "created_at"@),
                User::of_json(by),
                j.optional_text_member("workspace_id"@),
                j.text_member("partial_key_hint"@),
            ) {
                (
                    Some(id),
                    Some(type_),
                    Some(status),
                    Some(name),
                    Some(created_at),
                    Some(created_by),
                    Some(workspace_id),
                    Some(partial_key_hint),
                ) => Some(
                    ApiKeyView {
                        id,
                        type_,
                        status,
                        name,
                        created_at,
                        created_by,
                        workspace_id,
                        partial_key_hint,
                    },
                ),
                _ => None,
            },
        }
    }

    /// Reads an API key.
    fn from_json(v: &JsonValue) -> (r: Option<ApiKey>) {
        let by = match v.get("created_by") {
            Some(by) => by,
            None => {
                return None;
            },
        };
        match (
            v.get_text("id"),
            v.get_text("type"),
            get_status(v),
            v.get_text("name"),
            Timestamp::get(v, "created_at"),
            User::from_json(by),
            v.get_optional_text("workspace_id"),
            v.get_text("partial_key_hint"),
        ) {
            (
                Some(id),
                Some(type_),
                Some(status),
                Some(name),
                Some(created_at),
                Some(created_by),
                Ok(workspace_id),
                Some(partial_key_hint),
            ) => Some(
                ApiKey {
                    id: id.to_owned(),
                    type_: type_.to_owned(),
                    status,
                    name: name.to_owned(),
                    created_at,
                    created_by,
                    workspace_id: owned_text(workspace_id),
                    partial_key_hint: partial_key_hint.to_owned(),
                },
            ),
            _ => None,
        }
    }
}

/// One page of the list of API keys.
#[derive(Debug, PartialEq, Eq)]
pub struct ListApiKeysResponse {
    /// The API keys of this page.
    pub data: Vec<ApiKey>,
    /// First ID in the data list.
    pub first_id: Option<String>,
    /// Whether there are more results behind this page.
    pub has_more: bool,
    /// Last ID in the data list.
    pub last_id: Option<String>,
}

/// What a `ListApiKeysResponse` stands for.
pub struct ListApiKeysResponseView {
    pub data: Seq<ApiKeyView>,
    pub first_id: Option<Seq<char>>,
    pub has_more: bool,
    pub last_id: Option<Seq<char>>,
}

impl View for ListApiKeysResponse {
    type V = ListApiKeysResponseView;

    open spec fn view(&self) -> ListApiKeysResponseView {
        ListApiKeysResponseView {
            data: views(self.data@),
            first_id: text_view(self.first_id),
            has_more: self.has_more,
            last_id: text_view(self.last_id),
        }
    }
}

impl FromJson for ListApiKeysResponse {
    /// The page that a JSON value describes: an object with the array `data`
    /// of API keys, the truth value `has_more`, and the strings `first_id`
    /// and `last_id`, each of which may be null or missing.
    open spec fn of_json(j: Json) -> Option<ListApiKeysResponseView> {
        match (
            j.array_member("data"@),
            j.optional_text_member("first_id"@),
            j.bool_member("has_more"@),
            j.optional_text_member("last_id"@),
        ) {
            (Some(items), Some(first_id), Some(has_more), Some(last_id)) => match all_of_json::<ApiKey>(
                items,
            ) {
                Some(data) => Some(ListApiKeysResponseView { data, first_id, has_more, last_id }),
                None => None,
            },
            _ => None,
        }
    }

    /// Reads a page of API keys.
    fn from_json(v: &JsonValue) -> (r: Option<ListApiKeysResponse>) {
        match (
            v.get_array("data"),
            v.get_optional_text("first_id"),
            v.get_bool("has_more"),
            v.get_optional_text("last_id"),
        ) {
            (Some(items), Ok(first_id), Some(has_more), Ok(last_id)) => match all_from_json::<ApiKey>(
                items,
            ) {
                Some(data) => Some(
                    ListApiKeysResponse {
                        data,
                        first_id: owned_text(first_id),
                        has_more,
                        last_id: owned_text(last_id),
                    },
                ),
                None => None,
            },
            _ => None,
        }
    }
}

/// Parameters for updating an API key. A field that is not set leaves the
/// key as it is.
#[derive(Debug, PartialEq, Eq)]
pub struct AdminUpdateApiKeyParams {
    /// The new name of the API key.
    pub name: Option<String>,
    /// The new status of the API key.
    pub status: Option<ApiKeyStatus>,
}

/// What `AdminUpdateApiKeyParams` stand for.
pub struct AdminUpdateApiKeyParamsView {
    pub name: Option<Seq<char>>,
    pub status: Option<ApiKeyStatus>,
}

impl View for AdminUpdateApiKeyParams {
    type V = AdminUpdateApiKeyParamsView;

    open spec fn view(&self) -> AdminUpdateApiKeyParamsView {
        AdminUpdateApiKeyParamsView { name: text_view(self.name), status: self.status }
    }
}

/// The JSON string of an optional status.
pub open spec fn optional_status_json(status: Option<ApiKeyStatus>) -> Option<Json> {
    match status {
        Some(s) => Some(Json::Text(s.wire_name())),
        None => None,
    }
}

/// The status under the member `status` where it may be left out:
/// `Some(None)` where the member is missing or null, `None` where it is there
/// and is no wire name of a status.
pub open spec fn optional_status_member(j: Json) -> Option<Option<ApiKeyStatus>> {
    match j.optional_text_member("status"@) {
        None => None,
        Some(None) => Some(None),
        Some(Some(name)) => match ApiKeyStatus::of_wire_name(name) {
            Some(s) => Some(Some(s)),
            None => None,
        },
    }
}

impl AdminUpdateApiKeyParams {
    /// Creates parameters with no field set.
    pub fn new() -> (r: Self)
        ensures
            r.name is None,
            r.status is None,
    {
        AdminUpdateApiKeyParams { name: None, status: None }
    }

    /// Sets the new name of the API key.
    pub fn name(self, name: &str) -> (r: Self)
        ensures
            r.name matches Some(n) && n@ == name@,
            r.status == self.status,
    {
        AdminUpdateApiKeyParams { name: Some(name.to_owned()), status: self.status }
    }

    /// Sets the new status of the API key.
    pub fn status(self, status: ApiKeyStatus) -> (r: Self)
        ensures
            r.status == Some(status),
            r.name == self.name,
    {
        AdminUpdateApiKeyParams { name: self.name, status: Some(status) }
    }

}

impl RoundTrip for AdminUpdateApiKeyParams {
    open spec fn fits_wire(v: AdminUpdateApiKeyParamsView) -> bool {
        true
    }

    proof fn lemma_round_trip(v: AdminUpdateApiKeyParamsView) {
        reveal_strlit("name");
        reveal_strlit("status");
        assert("name"@.len() != "status"@.len());
        let first = with_optional(Seq::empty(), "name"@, optional_json(v.name));
        lemma_with_optional(Seq::empty(), "name"@, optional_json(v.name));
        lemma_with_optional(first, "status"@, optional_status_json(v.status));
        if let Some(s) = v.status {
            s.lemma_wire_name_round_trip();
        }
        let j = Self::json(v);
        assert(j.member("name"@) == Json::Object(first).member("name"@));
    }

    proof fn lemma_fits_wire(&self) {
    }
}

impl ToJson for AdminUpdateApiKeyParams {
    /// The JSON body that the parameters write: an object with the members
    /// `name` and `status`, each left out where the field is not set.
    open spec fn json(v: AdminUpdateApiKeyParamsView) -> Json {
        Json::Object(
            with_optional(
                with_optional(Seq::empty(), "name"@, optional_json(v.name)),
                "status"@,
                optional_status_json(v.status),
            ),
        )
    }

    /// Writes the parameters as a JSON body.
    fn to_json(&self) -> (r: JsonValue) {
        let mut members: Vec<(String, JsonValue)> = Vec::new();
        assert(members_view(members@) =~= Seq::empty());
        add_optional_text(&mut members, "name", &self.name);
        match self.status {
            Some(s) => {
                add_member(&mut members, "status", JsonValue::text(s.as_str()));
            },
            None => {},
        }
        object_of(members)
    }
}

impl FromJson for AdminUpdateApiKeyParams {
    /// The parameters that a JSON body describes.
    open spec fn of_json(j: Json) -> Option<AdminUpdateApiKeyParamsView> {
        match (j.optional_text_member("name"@), optional_status_member(j)) {
            (Some(name), Some(status)) => Some(AdminUpdateApiKeyParamsView { name, status }),
            _ => None,
        }
    }

    /// Reads parameters from a JSON body.
    fn from_json(v: &JsonValue) -> (r: Option<AdminUpdateApiKeyParams>) {
        let name = match v.get_optional_text("name") {
            Ok(name) => owned_text(name),
            Err(_) => {
                return None;
            },
        };
        let status = match v.get_optional_text("status") {
            Err(_) => {
                return None;
            },
            Ok(None) => None,
            Ok(Some(wire)) => match ApiKeyStatus::from_wire_name(wire) {
                Some(s) => Some(s),
                None => {
                    return None;
                },
            },
        };
        Some(AdminUpdateApiKeyParams { name, status })
    }
}

} // verus!
