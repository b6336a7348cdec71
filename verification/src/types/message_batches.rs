//! Message Batches API: the requests of a batch, and what the API tells of a
//! batch and of its results.
use vstd::prelude::*;
use crate::clients::pairs_view;
use crate::error::MessageBatchError;
use crate::json::{
    add_member, add_optional_text, all_fit_wire, all_from_json, all_json, all_of_json,
    all_to_json, lemma_all_fit_wire, lemma_all_round_trip, lemma_member_push,
    lemma_with_optional, members_view, object_of, optional_json, views, with_optional, FromJson,
    Json, JsonValue, RoundTrip, ToJson, MAX_COUNT,
};
use crate::text::{decimal_value, owned_text, same_text, text_view};
use crate::types::pagination::{
    clamp_limit, clamped, lemma_limit_parameter, lemma_text_parameter_is_no_limit,
    limit_in_range, limit_parameter, push_limit_parameter, push_text_parameter, text_parameter,
};
use crate::types::timestamp::{
    optional_timestamp_member, timestamp_member, Timestamp,
};

verus! {

/// The largest number of requests in one batch.
pub const MAX_BATCH_REQUESTS: usize = 100_000;

/// One turn of the conversation of a batch request.
#[derive(Debug, PartialEq, Eq)]
pub struct Message {
    pub role: String,
    pub content: String,
}

/// What a `Message` stands for.
pub struct MessageView {
    pub role: Seq<char>,
    pub content: Seq<char>,
}

impl View for Message {
    type V = MessageView;

    open spec fn view(&self) -> MessageView {
        MessageView { role: self.role@, content: self.content@ }
    }
}

impl Message {
    /// Creates a message.
    pub fn new(role: &str, content: &str) -> (r: Self)
        ensures
            r@ == (MessageView { role: role@, content: content@ }),
    {
        Message { role: role.to_owned(), content: content.to_owned() }
    }

}

impl RoundTrip for Message {
    open spec fn fits_wire(v: MessageView) -> bool {
        true
    }

    proof fn lemma_round_trip(v: MessageView) {
        reveal_strlit("role");
        reveal_strlit("content");
        assert("role"@.len() != "content"@.len());
        let first = Seq::empty().push(("content"@, Json::Text(v.content)));
        lemma_member_push(Seq::empty(), "content"@, Json::Text(v.content));
        lemma_member_push(first, "role"@, Json::Text(v.role));
    }

    proof fn lemma_fits_wire(&self) {
    }
}

impl ToJson for Message {
    /// The JSON that a message writes: an object with the strings `role` and
    /// `content`.
    open spec fn json(v: MessageView) -> Json {
        Json::Object(
            Seq::empty().push(("content"@, Json::Text(v.content))).push(("role"@, Json::Text(v.role))),
        )
    }

    /// Writes the message as JSON.
    fn to_json(&self) -> (r: JsonValue) {
        let mut members: Vec<(String, JsonValue)> = Vec::new();
        assert(members_view(members@) =~= Seq::empty());
        add_member(&mut members, "content", JsonValue::text(self.content.as_str()));
        add_member(&mut members, "role", JsonValue::text(self.role.as_str()));
        object_of(members)
    }
}

impl FromJson for Message {
    /// The message that a JSON value describes.
    open spec fn of_json(j: Json) -> Option<MessageView> {
        match (j.text_member("role"@), j.text_member("content"@)) {
            (Some(role), Some(content)) => Some(MessageView { role, content }),
            _ => None,
        }
    }

    /// Reads a message.
    fn from_json(v: &JsonValue) -> (r: Option<Message>) {
        match (v.get_text("role"), v.get_text("content")) {
            (Some(role), Some(content)) => Some(
                Message { role: role.to_owned(), content: content.to_owned() },
            ),
            _ => None,
        }
    }
}

/// The parameters of one request of a batch.
#[derive(Debug, PartialEq, Eq)]
pub struct MessageRequestParams {
    pub model: String,
    pub max_tokens: u32,
    pub system: Option<String>,
    pub messages: Vec<Message>,
}

/// What `MessageRequestParams` stand for.
pub struct MessageRequestParamsView {
    pub model: Seq<char>,
    pub max_tokens: int,
    pub system: Option<Seq<char>>,
    pub messages: Seq<MessageView>,
}

impl View for MessageRequestParams {
    type V = MessageRequestParamsView;

    open spec fn view(&self) -> MessageRequestParamsView {
        MessageRequestParamsView {
            model: self.model@,
            max_tokens: self.max_tokens as int,
            system: text_view(self.system),
            messages: views(self.messages@),
        }
    }
}

impl MessageRequestParams {
    /// Creates parameters without a system prompt.
    pub fn new(model: &str, messages: Vec<Message>, max_tokens: u32) -> (r: Self)
        ensures
            r.model@ == model@,
            r.max_tokens == max_tokens,
            r.system is None,
            r.messages == messages,
    {
        MessageRequestParams { model: model.to_owned(), max_tokens, system: None, messages }
    }

    /// Sets the system prompt.
    pub fn with_system(self, system: &str) -> (r: Self)
        ensures
            r.system matches Some(s) && s@ == system@,
            r.model == self.model,
            r.max_tokens == self.max_tokens,
            r.messages == self.messages,
    {
        MessageRequestParams {
            model: self.model,
            max_tokens: self.max_tokens,
            system: Some(system.to_owned()),
            messages: self.messages,
        }
    }

}

impl RoundTrip for MessageRequestParams {
    open spec fn fits_wire(v: MessageRequestParamsView) -> bool {
        0 <= v.max_tokens <= MAX_COUNT
    }

    proof fn lemma_round_trip(v: MessageRequestParamsView) {
        reveal_strlit("model");
        reveal_strlit("max_tokens");
        reveal_strlit("system");
        reveal_strlit("messages");
        assert("model"@.len() == 5 && "max_tokens"@.len() == 10 && "system"@.len() == 6
            && "messages"@.len() == 8);
        let written = Json::Array(all_json::<Message>(v.messages));
        let a = Seq::empty().push(("max_tokens"@, Json::Integer(v.max_tokens)));
        let b = a.push(("messages"@, written));
        let c = b.push(("model"@, Json::Text(v.model)));
        lemma_member_push(Seq::empty(), "max_tokens"@, Json::Integer(v.max_tokens));
        lemma_member_push(a, "messages"@, written);
        lemma_member_push(b, "model"@, Json::Text(v.model));
        lemma_with_optional(c, "system"@, optional_json(v.system));
        lemma_all_round_trip::<Message>(v.messages);
        let j = Self::json(v);
        assert(j.member("max_tokens"@) == Json::Object(c).member("max_tokens"@));
        assert(j.member("messages"@) == Json::Object(c).member("messages"@));
        assert(j.member("model"@) == Json::Object(c).member("model"@));
        assert(Json::Object(c).member("max_tokens"@) == Json::Object(b).member("max_tokens"@));
        assert(Json::Object(c).member("messages"@) == Json::Object(b).member("messages"@));
        assert(Json::Object(c).member("system"@) == Json::Object(b).member("system"@));
        assert(Json::Object(b).member("max_tokens"@) == Json::Object(a).member("max_tokens"@));
        assert(Json::Object(b).member("system"@) == Json::Object(a).member("system"@));
        assert(Json::Object(a).member("system"@) == Json::Object(Seq::empty()).member("system"@));
    }

    proof fn lemma_fits_wire(&self) {
    }
}

impl ToJson for MessageRequestParams {
    /// The JSON that the parameters write: an object with the string
    /// `model`, the number `max_tokens`, the string `system` where one is set,
    /// and the array `messages`.
    open spec fn json(v: MessageRequestParamsView) -> Json {
        Json::Object(
            with_optional(
                Seq::empty().push(("max_tokens"@, Json::Integer(v.max_tokens))).push(
                    ("messages"@, Json::Array(all_json::<Message>(v.messages))),
                ).push(("model"@, Json::Text(v.model))),
                "system"@,
                optional_json(v.system),
            ),
        )
    }

    /// Writes the parameters as JSON.
    fn to_json(&self) -> (r: JsonValue) {
        let mut members: Vec<(String, JsonValue)> = Vec::new();
        assert(members_view(members@) =~= Seq::empty());
        add_member(&mut members, "max_tokens", JsonValue::count(self.max_tokens as u64));
        add_member(&mut members, "messages", all_to_json(&self.messages));
        add_member(&mut members, "model", JsonValue::text(self.model.as_str()));
        add_optional_text(&mut members, "system", &self.system);
        object_of(members)
    }
}

impl FromJson for MessageRequestParams {
    /// The parameters that a JSON value describes.
    open spec fn of_json(j: Json) -> Option<MessageRequestParamsView> {
        match (
            j.text_member("model"@),
            j.count_member("max_tokens"@, MAX_COUNT as int),
            j.optional_text_member("system"@),
            j.array_member("messages"@),
        ) {
            (Some(model), Some(max_tokens), Some(system), Some(items)) => match all_of_json::<Message>(
                items,
            ) {
                Some(messages) => Some(
                    MessageRequestParamsView { model, max_tokens, system, messages },
                ),
                None => None,
            },
            _ => None,
        }
    }

    /// Reads parameters.
    fn from_json(v: &JsonValue) -> (r: Option<MessageRequestParams>) {
        match (
            v.get_text("model"),
            v.get_count("max_tokens", MAX_COUNT),
            v.get_optional_text("system"),
            v.get_array("messages"),
        ) {
            (Some(model), Some(max_tokens), Ok(system), Some(items)) => match all_from_json::<Message>(
                items,
            ) {
                Some(messages) => Some(
                    MessageRequestParams {
                        model: model.to_owned(),
                        max_tokens: max_tokens as u32,
                        system: owned_text(system),
                        messages,
                    },
                ),
                None => None,
            },
            _ => None,
        }
    }
}

/// One request of a batch.
#[derive(Debug, PartialEq, Eq)]
pub struct MessageRequest {
    /// The name under which the result of this request is found again.
    pub custom_id: Option<String>,
    pub params: MessageRequestParams,
}

/// What a `MessageRequest` stands for.
pub struct MessageRequestView {
    pub custom_id: Option<Seq<char>>,
    pub params: MessageRequestParamsView,
}

impl View for MessageRequest {
    type V = MessageRequestView;

    open spec fn view(&self) -> MessageRequestView {
        MessageRequestView { custom_id: text_view(self.custom_id), params: self.params@ }
    }
}

impl MessageRequest {
    /// Creates a request without a name of its own.
    pub fn new(params: MessageRequestParams) -> (r: Self)
        ensures
            r.custom_id is None,
            r.params == params,
    {
        MessageRequest { custom_id: None, params }
    }

    /// Sets the name under which the result is found again.
    pub fn with_custom_id(self, custom_id: &str) -> (r: Self)
        ensures
            r.custom_id matches Some(id) && id@ == custom_id@,
            r.params == self.params,
    {
        MessageRequest { custom_id: Some(custom_id.to_owned()), params: self.params }
    }

}

impl RoundTrip for MessageRequest {
    open spec fn fits_wire(v: MessageRequestView) -> bool {
        MessageRequestParams::fits_wire(v.params)
    }

    proof fn lemma_round_trip(v: MessageRequestView) {
        reveal_strlit("custom_id");
        reveal_strlit("params");
        assert("custom_id"@.len() != "params"@.len());
        let a = with_optional(Seq::empty(), "custom_id"@, optional_json(v.custom_id));
        lemma_with_optional(Seq::empty(), "custom_id"@, optional_json(v.custom_id));
        lemma_member_push(a, "params"@, MessageRequestParams::json(v.params));
        MessageRequestParams::lemma_round_trip(v.params);
        let j = Self::json(v);
        assert(j.member("custom_id"@) == Json::Object(a).member("custom_id"@));
    }

    proof fn lemma_fits_wire(&self) {
    }
}

impl ToJson for MessageRequest {
    /// The JSON that a request writes: an object with the string
    /// `custom_id` where one is set, and the object `params`.
    open spec fn json(v: MessageRequestView) -> Json {
        Json::Object(
            with_optional(Seq::empty(), "custom_id"@, optional_json(v.custom_id)).push(
                ("params"@, MessageRequestParams::json(v.params)),
            ),
        )
    }

    /// Writes the request as JSON.
    fn to_json(&self) -> (r: JsonValue) {
        let mut members: Vec<(String, JsonValue)> = Vec::new();
        assert(members_view(members@) =~= Seq::empty());
        add_optional_text(&mut members, "custom_id", &self.custom_id);
        add_member(&mut members, "params", self.params.to_json());
        object_of(members)
    }
}

impl FromJson for MessageRequest {
    /// The request that a JSON value describes.
    open spec fn of_json(j: Json) -> Option<MessageRequestView> {
        match (j.optional_text_member("custom_id"@), j.member("params"@)) {
            (Some(custom_id), Some(p)) => match MessageRequestParams::of_json(p) {
                Some(params) => Some(MessageRequestView { custom_id, params }),
                None => None,
            },
            _ => None,
        }
    }

    /// Reads a request.
    fn from_json(v: &JsonValue) -> (r: Option<MessageRequest>) {
        match (v.get_optional_text("custom_id"), v.get("params")) {
            (Ok(custom_id), Some(p)) => match MessageRequestParams::from_json(p) {
                Some(params) => Some(MessageRequest { custom_id: owned_text(custom_id), params }),
                None => None,
            },
            _ => None,
        }
    }
}

/// The parameters of the call that creates a batch.
#[derive(Debug, PartialEq, Eq)]
pub struct CreateMessageBatchParams {
    pub requests: Vec<MessageRequest>,
}

/// What `CreateMessageBatchParams` stand for.
pub struct CreateMessageBatchParamsView {
    pub requests: Seq<MessageRequestView>,
}

impl View for CreateMessageBatchParams {
    type V = CreateMessageBatchParamsView;

    open spec fn view(&self) -> CreateMessageBatchParamsView {
        CreateMessageBatchParamsView { requests: views(self.requests@) }
    }
}

impl CreateMessageBatchParams {
    /// Whether the batch holds no more requests than one batch may.
    pub open spec fn within_limit(self) -> bool {
        self.requests@.len() <= MAX_BATCH_REQUESTS
    }

    /// Creates the parameters of a batch. More than 100,000 requests are
    /// refused with `BatchTooLarge`.
    pub fn new(requests: Vec<MessageRequest>) -> (r: Result<Self, MessageBatchError>)
        ensures
            requests@.len() <= MAX_BATCH_REQUESTS ==> (r matches Ok(p) && p.requests == requests),
            requests@.len() > MAX_BATCH_REQUESTS ==> r == Err::<Self, _>(
                MessageBatchError::BatchTooLarge,
            ),
    {
        if requests.len() > MAX_BATCH_REQUESTS {
            Err(MessageBatchError::BatchTooLarge)
        } else {
            Ok(CreateMessageBatchParams { requests })
        }
    }

    /// Whether the batch holds no more requests than one batch may.
    pub fn is_within_limit(&self) -> (r: bool)
        ensures
            r == self.within_limit(),
    {
        self.requests.len() <= MAX_BATCH_REQUESTS
    }

}

impl RoundTrip for CreateMessageBatchParams {
    open spec fn fits_wire(v: CreateMessageBatchParamsView) -> bool {
        all_fit_wire::<MessageRequest>(v.requests)
    }

    proof fn lemma_round_trip(v: CreateMessageBatchParamsView) {
        lemma_member_push(
            Seq::empty(),
            "requests"@,
            Json::Array(all_json::<MessageRequest>(v.requests)),
        );
        lemma_all_round_trip::<MessageRequest>(v.requests);
    }

    proof fn lemma_fits_wire(&self) {
        lemma_all_fit_wire::<MessageRequest>(self.requests@);
    }
}

impl ToJson for CreateMessageBatchParams {
    /// The JSON body that the parameters write: an object with the array
    /// `requests`.
    open spec fn json(v: CreateMessageBatchParamsView) -> Json {
        Json::Object(
            Seq::empty().push(("requests"@, Json::Array(all_json::<MessageRequest>(v.requests)))),
        )
    }

    /// Writes the parameters as a JSON body.
    fn to_json(&self) -> (r: JsonValue) {
        let mut members: Vec<(String, JsonValue)> = Vec::new();
        assert(members_view(members@) =~= Seq::empty());
        add_member(&mut members, "requests", all_to_json(&self.requests));
        object_of(members)
    }
}

impl FromJson for CreateMessageBatchParams {
    /// The parameters that a JSON body describes.
    open spec fn of_json(j: Json) -> Option<CreateMessageBatchParamsView> {
        match j.array_member("requests"@) {
            Some(items) => match all_of_json::<MessageRequest>(items) {
                Some(requests) => Some(CreateMessageBatchParamsView { requests }),
                None => None,
            },
            None => None,
        }
    }

    /// Reads parameters from a JSON body.
    fn from_json(v: &JsonValue) -> (r: Option<CreateMessageBatchParams>) {
        match v.get_array("requests") {
            Some(items) => match all_from_json::<MessageRequest>(items) {
                Some(requests) => Some(CreateMessageBatchParams { requests }),
                None => None,
            },
            None => None,
        }
    }
}

/// Parameters for listing message batches.
#[derive(Debug)]
pub struct ListMessageBatchesParams {
    /// Cursor for pagination (before).
    pub before_id: Option<String>,
    /// Cursor for pagination (after).
    pub after_id: Option<String>,
    /// Number of items per page (1-1000).
    pub limit: Option<u16>,
}

impl Default for ListMessageBatchesParams {
    fn default() -> (r: Self)
        ensures
            r.before_id is None,
            r.after_id is None,
            r.limit is None,
    {
        ListMessageBatchesParams { before_id: None, after_id: None, limit: None }
    }
}

impl ListMessageBatchesParams {
    /// Whether the page size, where one is set, lies between 1 and 1000.
    pub open spec fn valid(self) -> bool {
        limit_in_range(self.limit)
    }

    /// The query parameters that these parameters write, in the order of the
    /// fields. A field that is not set writes nothing.
    pub open spec fn query(self) -> Seq<(Seq<char>, Seq<char>)> {
        text_parameter("before_id"@, self.before_id) + text_parameter("after_id"@, self.after_id)
            + limit_parameter(self.limit)
    }

    /// Creates parameters with no field set.
    pub fn new() -> (r: Self)
        ensures
            r.before_id is None,
            r.after_id is None,
            r.limit is None,
            r.valid(),
    {
        ListMessageBatchesParams { before_id: None, after_id: None, limit: None }
    }

    /// Sets the cursor before which the page lies.
    pub fn before_id(self, before_id: &str) -> (r: Self)
        ensures
            r.before_id matches Some(id) && id@ == before_id@,
            r.after_id == self.after_id,
            r.limit == self.limit,
    {
        ListMessageBatchesParams {
            before_id: Some(before_id.to_owned()),
            after_id: self.after_id,
            limit: self.limit,
        }
    }

    /// Sets the cursor after which the page lies.
    pub fn after_id(self, after_id: &str) -> (r: Self)
        ensures
            r.after_id matches Some(id) && id@ == after_id@,
            r.before_id == self.before_id,
            r.limit == self.limit,
    {
        ListMessageBatchesParams {
            before_id: self.before_id,
            after_id: Some(after_id.to_owned()),
            limit: self.limit,
        }
    }

    /// Sets the page size, brought into 1 to 1000.
    pub fn limit(self, limit: u16) -> (r: Self)
        ensures
            r.limit == Some(clamped(limit)),
            r.before_id == self.before_id,
            r.after_id == self.after_id,
            r.valid(),
    {
        ListMessageBatchesParams {
            before_id: self.before_id,
            after_id: self.after_id,
            limit: Some(clamp_limit(limit)),
        }
    }

    /// The query parameters of the request.
    pub fn to_query(&self) -> (r: Vec<(String, String)>)
        ensures
            pairs_view(r@) == self.query(),
    {
        let mut query: Vec<(String, String)> = Vec::new();
        assert(pairs_view(query@) =~= Seq::empty());
        push_text_parameter(&mut query, "before_id", &self.before_id);
        push_text_parameter(&mut query, "after_id", &self.after_id);
        push_limit_parameter(&mut query, self.limit);
        assert(pairs_view(query@) =~= self.query());
        query
    }

    /// Every `limit` that valid parameters write into the query is the
    /// numeral of a number from 1 to 1000.
    pub proof fn lemma_written_limit_in_range(self, i: int)
        requires
            self.valid(),
            0 <= i < self.query().len(),
            self.query()[i].0 == "limit"@,
        ensures
            1 <= decimal_value(self.query()[i].1) <= 1000,
    {
        reveal_strlit("limit");
        reveal_strlit("before_id");
        reveal_strlit("after_id");
        assert("before_id"@.len() != "limit"@.len());
        assert("after_id"@.len() != "limit"@.len());
        lemma_text_parameter_is_no_limit("before_id"@, self.before_id);
        lemma_text_parameter_is_no_limit("after_id"@, self.after_id);
        lemma_limit_parameter(self.limit);
        let a = text_parameter("before_id"@, self.before_id);
        let b = text_parameter("after_id"@, self.after_id);
        let c = limit_parameter(self.limit);
        if i < a.len() {
            assert(self.query()[i] == a[i]);
        } else if i < a.len() + b.len() {
            assert(self.query()[i] == b[i - a.len()]);
        } else {
            assert(self.query()[i] == c[i - a.len() - b.len()]);
        }
    }
}

/// The JSON of parameters that name a batch: an object with the string
/// `message_batch_id`.
pub open spec fn batch_id_json(message_batch_id: Seq<char>) -> Json {
    Json::Object(Seq::empty().push(("message_batch_id"@, Json::Text(message_batch_id))))
}

/// Writes the JSON of parameters that name a batch.
pub fn batch_id_to_json(message_batch_id: &str) -> (r: JsonValue)
    ensures
        r@ == batch_id_json(message_batch_id@),
        r@.printable(),
{
    let mut members: Vec<(String, JsonValue)> = Vec::new();
    assert(members_view(members@) =~= Seq::empty());
    add_member(&mut members, "message_batch_id", JsonValue::text(message_batch_id));
    object_of(members)
}

/// Names the batch to retrieve.
#[derive(Debug, PartialEq, Eq)]
pub struct RetrieveMessageBatchParams {
    pub message_batch_id: String,
}

impl View for RetrieveMessageBatchParams {
    type V = Seq<char>;

    /// The ID of the batch.
    open spec fn view(&self) -> Seq<char> {
        self.message_batch_id@
    }
}

impl RetrieveMessageBatchParams {
    pub fn new(message_batch_id: &str) -> (r: Self)
        ensures
            r@ == message_batch_id@,
    {
        RetrieveMessageBatchParams { message_batch_id: message_batch_id.to_owned() }
    }
}

impl ToJson for RetrieveMessageBatchParams {
    /// The JSON that the parameters write: an object with the string
    /// `message_batch_id`.
    open spec fn json(v: Seq<char>) -> Json {
        batch_id_json(v)
    }

    fn to_json(&self) -> (r: JsonValue) {
        batch_id_to_json(self.message_batch_id.as_str())
    }
}

/// Names the batch whose results to retrieve.
#[derive(Debug, PartialEq, Eq)]
pub struct RetrieveMessageBatchResultsParams {
    pub message_batch_id: String,
}

impl View for RetrieveMessageBatchResultsParams {
    type V = Seq<char>;

    /// The ID of the batch.
    open spec fn view(&self) -> Seq<char> {
        self.message_batch_id@
    }
}

impl RetrieveMessageBatchResultsParams {
    pub fn new(message_batch_id: &str) -> (r: Self)
        ensures
            r@ == message_batch_id@,
    {
        RetrieveMessageBatchResultsParams { message_batch_id: message_batch_id.to_owned() }
    }
}

impl ToJson for RetrieveMessageBatchResultsParams {
    /// The JSON that the parameters write: an object with the string
    /// `message_batch_id`.
    open spec fn json(v: Seq<char>) -> Json {
        batch_id_json(v)
    }

    fn to_json(&self) -> (r: JsonValue) {
        batch_id_to_json(self.message_batch_id.as_str())
    }
}

/// Names the batch to cancel.
#[derive(Debug, PartialEq, Eq)]
pub struct CancelMessageBatchParams {
    pub message_batch_id: String,
}

impl View for CancelMessageBatchParams {
    type V = Seq<char>;

    /// The ID of the batch.
    open spec fn view(&self) -> Seq<char> {
        self.message_batch_id@
    }
}

impl CancelMessageBatchParams {
    pub fn new(message_batch_id: &str) -> (r: Self)
        ensures
            r@ == message_batch_id@,
    {
        CancelMessageBatchParams { message_batch_id: message_batch_id.to_owned() }
    }

}

impl RoundTrip for CancelMessageBatchParams {
    open spec fn fits_wire(v: Seq<char>) -> bool {
        true
    }

    proof fn lemma_round_trip(v: Seq<char>) {
        lemma_member_push(Seq::empty(), "message_batch_id"@, Json::Text(v));
    }

    proof fn lemma_fits_wire(&self) {
    }
}

impl ToJson for CancelMessageBatchParams {
    /// The JSON that the parameters write: an object with the string
    /// `message_batch_id`.
    open spec fn json(v: Seq<char>) -> Json {
        batch_id_json(v)
    }

    fn to_json(&self) -> (r: JsonValue) {
        batch_id_to_json(self.message_batch_id.as_str())
    }
}

impl FromJson for CancelMessageBatchParams {
    /// The parameters that a JSON value describes.
    open spec fn of_json(j: Json) -> Option<Seq<char>> {
        j.text_member("message_batch_id"@)
    }

    fn from_json(v: &JsonValue) -> (r: Option<CancelMessageBatchParams>) {
        match v.get_text("message_batch_id") {
            Some(id) => Some(CancelMessageBatchParams { message_batch_id: id.to_owned() }),
            None => None,
        }
    }
}

/// Names the batch to delete.
#[derive(Debug, PartialEq, Eq)]
pub struct DeleteMessageBatchParams {
    pub message_batch_id: String,
}

impl View for DeleteMessageBatchParams {
    type V = Seq<char>;

    /// The ID of the batch.
    open spec fn view(&self) -> Seq<char> {
        self.message_batch_id@
    }
}

impl DeleteMessageBatchParams {
    pub fn new(message_batch_id: &str) -> (r: Self)
        ensures
            r@ == message_batch_id@,
    {
        DeleteMessageBatchParams { message_batch_id: message_batch_id.to_owned() }
    }
}

impl ToJson for DeleteMessageBatchParams {
    /// The JSON that the parameters write: an object with the string
    /// `message_batch_id`.
    open spec fn json(v: Seq<char>) -> Json {
        batch_id_json(v)
    }

    fn to_json(&self) -> (r: JsonValue) {
        batch_id_to_json(self.message_batch_id.as_str())
    }
}

/// How far the processing of a batch has come.
#[derive(Debug, Clone, Copy, PartialEq, Eq)]
pub enum ProcessingStatus {
    InProgress,
    Canceling,
    Ended,
}

impl ProcessingStatus {
    /// The name of this status on the wire.
    pub open spec fn wire_name(self) -> Seq<char> {
        match self {
            ProcessingStatus::InProgress => "in_progress"@,
            ProcessingStatus::Canceling => "canceling"@,
            ProcessingStatus::Ended => "ended"@,
        }
    }

    /// The status that a wire name stands for.
    pub open spec fn of_wire_name(name: Seq<char>) -> Option<ProcessingStatus> {
        if name == "in_progress"@ {
            Some(ProcessingStatus::InProgress)
        } else if name == "canceling"@ {
            Some(ProcessingStatus::Canceling)
        } else if name == "ended"@ {
            Some(ProcessingStatus::Ended)
        } else {
            None
        }
    }

    /// The name of this status on the wire.
    pub fn as_str(&self) -> (r: &'static str)
        ensures
            r@ == self.wire_name(),
    {
        match self {
            ProcessingStatus::InProgress => "in_progress",
            ProcessingStatus::Canceling => "canceling",
            ProcessingStatus::Ended => "ended",
        }
    }

    /// The status that a wire name stands for.
    pub fn from_wire_name(name: &str) -> (r: Option<ProcessingStatus>)
        ensures
            r == Self::of_wire_name(name@),
    {
        if same_text(name, "in_progress") {
            Some(ProcessingStatus::InProgress)
        } else if same_text(name, "canceling") {
            Some(ProcessingStatus::Canceling)
        } else if same_text(name, "ended") {
            Some(ProcessingStatus::Ended)
        } else {
            None
        }
    }
}

/// How many requests of a batch are in which state.
#[derive(Debug, Clone, Copy, PartialEq, Eq)]
pub struct RequestCounts {
    pub processing: u32,
    pub succeeded: u32,
    pub errored: u32,
    pub canceled: u32,
    pub expired: u32,
}

impl View for RequestCounts {
    type V = RequestCounts;

    open spec fn view(&self) -> RequestCounts {
        *self
    }
}

impl FromJson for RequestCounts {
    /// The counts that a JSON value describes: an object with the five
    /// numbers `processing`, `succeeded`, `errored`, `canceled` and `expired`.
    open spec fn of_json(j: Json) -> Option<RequestCounts> {
        match (
            j.count_member("processing"@, MAX_COUNT as int),
            j.count_member("succeeded"@, MAX_COUNT as int),
            j.count_member("errored"@, MAX_COUNT as int),
            j.count_member("canceled"@, MAX_COUNT as int),
            j.count_member("expired"@, MAX_COUNT as int),
        ) {
            (Some(processing), Some(succeeded), Some(errored), Some(canceled), Some(expired)) => Some(
                RequestCounts {
                    processing: processing as u32,
                    succeeded: succeeded as u32,
                    errored: errored as u32,
                    canceled: canceled as u32,
                    expired: expired as u32,
                },
            ),
            _ => None,
        }
    }

    /// Reads the counts.
    fn from_json(v: &JsonValue) -> (r: Option<RequestCounts>) {
        match (
            v.get_count("processing", MAX_COUNT),
            v.get_count("succeeded", MAX_COUNT),
            v.get_count("errored", MAX_COUNT),
            v.get_count("canceled", MAX_COUNT),
            v.get_count("expired", MAX_COUNT),
        ) {
            (Some(processing), Some(succeeded), Some(errored), Some(canceled), Some(expired)) => Some(
                RequestCounts {
                    processing: processing as u32,
                    succeeded: succeeded as u32,
                    errored: errored as u32,
                    canceled: canceled as u32,
                    expired: expired as u32,
                },
            ),
            _ => None,
        }
    }
}

/// A message batch as the API describes it.
#[derive(Debug, PartialEq, Eq)]
pub struct MessageBatch {
    pub id: String,
    /// Type of the resource (always "message_batch").
    pub type_: String,
    pub created_at: Timestamp,
    pub expires_at: Timestamp,
    pub archived_at: Option<Timestamp>,
    pub cancel_initiated_at: Option<Timestamp>,
    pub ended_at: Option<Timestamp>,
    pub processing_status: ProcessingStatus,
    pub request_counts: RequestCounts,
    /// Where the results are found once the batch has ended.
    pub results_url: Option<String>,
}

/// What a `MessageBatch` stands for.
pub struct MessageBatchView {
    pub id: Seq<char>,
    pub type_: Seq<char>,
    pub created_at: Timestamp,
    pub expires_at: Timestamp,
    pub archived_at: Option<Timestamp>,
    pub cancel_initiated_at: Option<Timestamp>,
    pub ended_at: Option<Timestamp>,
    pub processing_status: ProcessingStatus,
    pub request_counts: RequestCounts,
    pub results_url: Option<Seq<char>>,
}

impl View for MessageBatch {
    type V = MessageBatchView;

    open spec fn view(&self) -> MessageBatchView {
        MessageBatchView {
            id: self.id@,
            type_: self.type_@,
            created_at: self.created_at,
            expires_at: self.expires_at,
            archived_at: self.archived_at,
            cancel_initiated_at: self.cancel_initiated_at,
            ended_at: self.ended_at,
            processing_status: self.processing_status,
            request_counts: self.request_counts,
            results_url: text_view(self.results_url),
        }
    }
}

/// The status under the member `processing_status`, if the member is there
/// and is the wire name of one.
pub open spec fn processing_status_member(j: Json) -> Option<ProcessingStatus> {
    match j.text_member("processing_status"@) {
        Some(name) => ProcessingStatus::of_wire_name(name),
        None => None,
    }
}

/// The counts under the member `request_counts`, if the member is there and
/// describes counts.
pub open spec fn request_counts_member(j: Json) -> Option<RequestCounts> {
    match j.member("request_counts"@) {
        Some(c) => RequestCounts::of_json(c),
        None => None,
    }
}

impl FromJson for MessageBatch {
    /// The batch that a JSON value describes: an object with the strings
    /// `id` and `type`, the points in time `created_at` and `expires_at`, the
    /// status `processing_status`, the counts `request_counts`, and the
    /// members `archived_at`, `cancel_initiated_at`, `ended_at` and
    /// `results_url`, each of which may be null or missing.
    open spec fn of_json(j: Json) -> Option<MessageBatchView> {
        match (
            j.text_member("id"@),
            j.text_member("type"@),
            timestamp_member(j, "created_at"@),
            timestamp_member(j, "expires_at"@),
            optional_timestamp_member(j, "archived_at"@),
            optional_timestamp_member(j, "cancel_initiated_at"@),
            optional_timestamp_member(j, "ended_at"@),
            processing_status_member(j),
            request_counts_member(j),
            j.optional_text_member("results_url"@),
        ) {
            (
                Some(id),
                Some(type_),
                Some(created_at),
                Some(expires_at),
                Some(archived_at),
                Some(cancel_initiated_at),
                Some(ended_at),
                Some(processing_status),
                Some(request_counts),
                Some(results_url),
            ) => Some(
                MessageBatchView {
                    id,
                    type_,
                    created_at,
                    expires_at,
                    archived_at,
                    cancel_initiated_at,
                    ended_at,
                    processing_status,
                    request_counts,
                    results_url,
                },
            ),
            _ => None,
        }
    }

    /// Reads a batch.
    fn from_json(v: &JsonValue) -> (r: Option<MessageBatch>) {
        let processing_status = match v.get_text("processing_status") {
            Some(name) => ProcessingStatus::from_wire_name(name),
            None => None,
        };
        let request_counts = match v.get("request_counts") {
            Some(c) => RequestCounts::from_json(c),
            None => None,
        };
        match (
            v.get_text("id"),
            v.get_text("type"),
            Timestamp::get(v, "created_at"),
            Timestamp::get(v, "expires_at"),
            Timestamp::get_optional(v, "archived_at"),
            Timestamp::get_optional(v, "cancel_initiated_at"),
            Timestamp::get_optional(v, "ended_at"),
            processing_status,
            request_counts,
            v.get_optional_text("results_url"),
        ) {
            (
                Some(id),
                Some(type_),
                Some(created_at),
                Some(expires_at),
                Ok(archived_at),
                Ok(cancel_initiated_at),
                Ok(ended_at),
                Some(processing_status),
                Some(request_counts),
                Ok(results_url),
            ) => Some(
                MessageBatch {
                    id: id.to_owned(),
                    type_: type_.to_owned(),
                    created_at,
                    expires_at,
                    archived_at,
                    cancel_initiated_at,
                    ended_at,
                    processing_status,
                    request_counts,
                    results_url: owned_text(results_url),
                },
            ),
            _ => None,
        }
    }
}

/// What the call that retrieves a batch answers with.
pub type RetrieveMessageBatchResponse = MessageBatch;

/// One page of the list of message batches.
#[derive(Debug, PartialEq, Eq)]
pub struct ListMessageBatchesResponse {
    /// The batches of this page.
    pub data: Vec<MessageBatch>,
    /// First ID in the data list.
    pub first_id: Option<String>,
    /// Last ID in the data list.
    pub last_id: Option<String>,
    /// Whether there are more results behind this page.
    pub has_more: bool,
}

/// What a `ListMessageBatchesResponse` stands for.
pub struct ListMessageBatchesResponseView {
    pub data: Seq<MessageBatchView>,
    pub first_id: Option<Seq<char>>,
    pub last_id: Option<Seq<char>>,
    pub has_more: bool,
}

impl View for ListMessageBatchesResponse {
    type V = ListMessageBatchesResponseView;

    open spec fn view(&self) -> ListMessageBatchesResponseView {
        ListMessageBatchesResponseView {
            data: views(self.data@),
            first_id: text_view(self.first_id),
            last_id: text_view(self.last_id),
            has_more: self.has_more,
        }
    }
}

impl FromJson for ListMessageBatchesResponse {
    /// The page that a JSON value describes: an object with the array `data`
    /// of batches, the truth value `has_more`, and the strings `first_id` and
    /// `last_id`, each of which may be null or missing.
    open spec fn of_json(j: Json) -> Option<ListMessageBatchesResponseView> {
        match (
            j.array_member("data"@),
            j.optional_text_member("first_id"@),
            j.optional_text_member("last_id"@),
            j.bool_member("has_more"@),
        ) {
            (Some(items), Some(first_id), Some(last_id), Some(has_more)) => match all_of_json::<MessageBatch>(
                items,
            ) {
                Some(data) => Some(
                    ListMessageBatchesResponseView { data, first_id, last_id, has_more },
                ),
                None => None,
            },
            _ => None,
        }
    }

    /// Reads a page of batches.
    fn from_json(v: &JsonValue) -> (r: Option<ListMessageBatchesResponse>) {
        match (
            v.get_array("data"),
            v.get_optional_text("first_id"),
            v.get_optional_text("last_id"),
            v.get_bool("has_more"),
        ) {
            (Some(items), Ok(first_id), Ok(last_id), Some(has_more)) => match all_from_json::<MessageBatch>(
                items,
            ) {
                Some(data) => Some(
                    ListMessageBatchesResponse {
                        data,
                        first_id: owned_text(first_id),
                        last_id: owned_text(last_id),
                        has_more,
                    },
                ),
                None => None,
            },
            _ => None,
        }
    }
}

/// What a request of a batch cost.
#[derive(Debug, Clone, Copy, PartialEq, Eq)]
pub struct TokenUsage {
    pub input_tokens: u32,
    pub output_tokens: u32,
}

impl View for TokenUsage {
    type V = TokenUsage;

    open spec fn view(&self) -> TokenUsage {
        *self
    }
}

impl FromJson for TokenUsage {
    /// The usage that a JSON value describes: an object with the numbers
    /// `input_tokens` and `output_tokens`.
    open spec fn of_json(j: Json) -> Option<TokenUsage> {
        match (
            j.count_member("input_tokens"@, MAX_COUNT as int),
            j.count_member("output_tokens"@, MAX_COUNT as int),
        ) {
            (Some(input_tokens), Some(output_tokens)) => Some(
                TokenUsage {
                    input_tokens: input_tokens as u32,
                    output_tokens: output_tokens as u32,
                },
            ),
            _ => None,
        }
    }

    /// Reads the usage.
    fn from_json(v: &JsonValue) -> (r: Option<TokenUsage>) {
        match (v.get_count("input_tokens", MAX_COUNT), v.get_count("output_tokens", MAX_COUNT)) {
            (Some(input_tokens), Some(output_tokens)) => Some(
                TokenUsage {
                    input_tokens: input_tokens as u32,
                    output_tokens: output_tokens as u32,
                },
            ),
            _ => None,
        }
    }
}

/// One piece of the content of an answer.
#[derive(Debug, PartialEq, Eq)]
pub struct MessageContent {
    /// Type of the piece (such as "text").
    pub type_: String,
    pub text: String,
}

/// What a `MessageContent` stands for.
pub struct MessageContentView {
    pub type_: Seq<char>,
    pub text: Seq<char>,
}

impl View for MessageContent {
    type V = MessageContentView;

    open spec fn view(&self) -> MessageContentView {
        MessageContentView { type_: self.type_@, text: self.text@ }
    }
}

impl FromJson for MessageContent {
    /// The piece of content that a JSON value describes: an object with the
    /// strings `type` and `text`.
    open spec fn of_json(j: Json) -> Option<MessageContentView> {
        match (j.text_member("type"@), j.text_member("text"@)) {
            (Some(type_), Some(text)) => Some(MessageContentView { type_, text }),
            _ => None,
        }
    }

    /// Reads a piece of content.
    fn from_json(v: &JsonValue) -> (r: Option<MessageContent>) {
        match (v.get_text("type"), v.get_text("text")) {
            (Some(type_), Some(text)) => Some(
                MessageContent { type_: type_.to_owned(), text: text.to_owned() },
            ),
            _ => None,
        }
    }
}

/// The answer to one request of a batch.
#[derive(Debug, PartialEq, Eq)]
pub struct MessageResponse {
    pub id: String,
    /// Type of the resource (always "message").
    pub type_: String,
    pub role: String,
    pub model: String,
    pub content: Vec<MessageContent>,
    pub stop_reason: String,
    pub stop_sequence: Option<String>,
    pub usage: TokenUsage,
}

/// What a `MessageResponse` stands for.
pub struct MessageResponseView {
    pub id: Seq<char>,
    pub type_: Seq<char>,
    pub role: Seq<char>,
    pub model: Seq<char>,
    pub content: Seq<MessageContentView>,
    pub stop_reason: Seq<char>,
    pub stop_sequence: Option<Seq<char>>,
    pub usage: TokenUsage,
}

impl View for MessageResponse {
    type V = MessageResponseView;

    open spec fn view(&self) -> MessageResponseView {
        MessageResponseView {
            id: self.id@,
            type_: self.type_@,
            role: self.role@,
            model: self.model@,
            content: views(self.content@),
            stop_reason: self.stop_reason@,
            stop_sequence: text_view(self.stop_sequence),
            usage: self.usage,
        }
    }
}

/// The pieces of content under the member `content`, if the member is there
/// and is an array of them.
pub open spec fn content_member(j: Json) -> Option<Seq<MessageContentView>> {
    match j.array_member("content"@) {
        Some(items) => all_of_json::<MessageContent>(items),
        None => None,
    }
}

/// The usage under the member `usage`, if the member is there and describes
/// one.
pub open spec fn usage_member(j: Json) -> Option<TokenUsage> {
    match j.member("usage"@) {
        Some(u) => TokenUsage::of_json(u),
        None => None,
    }
}

impl FromJson for MessageResponse {
    /// The answer that a JSON value describes: an object with the strings
    /// `id`, `type`, `role`, `model` and `stop_reason`, the array `content`,
    /// the usage `usage`, and the string `stop_sequence`, which may be null or
    /// missing.
    open spec fn of_json(j: Json) -> Option<MessageResponseView> {
        match (
            j.text_member("id"@),
            j.text_member("type"@),
            j.text_member("role"@),
            j.text_member("model"@),
            content_member(j),
            j.text_member("stop_reason"@),
            j.optional_text_member("stop_sequence"@),
            usage_member(j),
        ) {
            (
                Some(id),
                Some(type_),
                Some(role),
                Some(model),
                Some(content),
                Some(stop_reason),
                Some(stop_sequence),
                Some(usage),
            ) => Some(
                MessageResponseView {
                    id,
                    type_,
                    role,
                    model,
                    content,
                    stop_reason,
                    stop_sequence,
                    usage,
                },
            ),
            _ => None,
        }
    }

    /// Reads an answer.
    fn from_json(v: &JsonValue) -> (r: Option<MessageResponse>) {
        let content = match v.get_array("content") {
            Some(items) => all_from_json::<MessageContent>(items),
            None => None,
        };
        let usage = match v.get("usage") {
            Some(u) => TokenUsage::from_json(u),
            None => None,
        };
        match (
            v.get_text("id"),
            v.get_text("type"),
            v.get_text("role"),
            v.get_text("model"),
            content,
            v.get_text("stop_reason"),
            v.get_optional_text("stop_sequence"),
            usage,
        ) {
            (
                Some(id),
                Some(type_),
                Some(role),
                Some(model),
                Some(content),
                Some(stop_reason),
                Ok(stop_sequence),
                Some(usage),
            ) => Some(
                MessageResponse {
                    id: id.to_owned(),
                    type_: type_.to_owned(),
                    role: role.to_owned(),
                    model: model.to_owned(),
                    content,
                    stop_reason: stop_reason.to_owned(),
                    stop_sequence: owned_text(stop_sequence),
                    usage,
                },
            ),
            _ => None,
        }
    }
}

/// How one request of a batch ended.
#[derive(Debug, PartialEq, Eq)]
pub struct BatchRequestResult {
    /// Type of the result (such as "succeeded").
    pub type_: String,
    pub message: MessageResponse,
}

/// What a `BatchRequestResult` stands for.
pub struct BatchRequestResultView {
    pub type_: Seq<char>,
    pub message: MessageResponseView,
}

impl View for BatchRequestResult {
    type V = BatchRequestResultView;

    open spec fn view(&self) -> BatchRequestResultView {
        BatchRequestResultView { type_: self.type_@, message: self.message@ }
    }
}

impl FromJson for BatchRequestResult {
    /// The result that a JSON value describes: an object with the string
    /// `type` and the answer `message`.
    open spec fn of_json(j: Json) -> Option<BatchRequestResultView> {
        match (j.text_member("type"@), j.member("message"@)) {
            (Some(type_), Some(m)) => match MessageResponse::of_json(m) {
                Some(message) => Some(BatchRequestResultView { type_, message }),
                None => None,
            },
            _ => None,
        }
    }

    /// Reads a result.
    fn from_json(v: &JsonValue) -> (r: Option<BatchRequestResult>) {
        match (v.get_text("type"), v.get("message")) {
            (Some(type_), Some(m)) => match MessageResponse::from_json(m) {
                Some(message) => Some(BatchRequestResult { type_: type_.to_owned(), message }),
                None => None,
            },
            _ => None,
        }
    }
}

/// The result of one request of a batch, under the name that the request
/// was given.
#[derive(Debug, PartialEq, Eq)]
pub struct MessageBatchResult {
    pub custom_id: String,
    pub result: BatchRequestResult,
}

/// What a `MessageBatchResult` stands for.
pub struct MessageBatchResultView {
    pub custom_id: Seq<char>,
    pub result: BatchRequestResultView,
}

impl View for MessageBatchResult {
    type V = MessageBatchResultView;

    open spec fn view(&self) -> MessageBatchResultView {
        MessageBatchResultView { custom_id: self.custom_id@, result: self.result@ }
    }
}

impl FromJson for MessageBatchResult {
    /// The result that a JSON value describes: an object with the string
    /// `custom_id` and the result `result`.
    open spec fn of_json(j: Json) -> Option<MessageBatchResultView> {
        match (j.text_member("custom_id"@), j.member("result"@)) {
            (Some(custom_id), Some(r)) => match BatchRequestResult::of_json(r) {
                Some(result) => Some(MessageBatchResultView { custom_id, result }),
                None => None,
            },
            _ => None,
        }
    }

    /// Reads a result.
    fn from_json(v: &JsonValue) -> (r: Option<MessageBatchResult>) {
        match (v.get_text("custom_id"), v.get("result")) {
            (Some(custom_id), Some(r)) => match BatchRequestResult::from_json(r) {
                Some(result) => Some(MessageBatchResult { custom_id: custom_id.to_owned(), result }),
                None => None,
            },
            _ => None,
        }
    }
}

/// What the call that retrieves the results of a batch answers with.
pub type RetrieveMessageBatchResultsResponse = Vec<MessageBatchResult>;

/// What the call that cancels a batch answers with: the batch as it is once
/// the cancellation has begun.
pub type CancelResponse = MessageBatch;

/// What the call that deletes a batch answers with.
#[derive(Debug, PartialEq, Eq)]
pub struct DeleteResponse {
    pub id: String,
    /// Type of the answer (always "message_batch_deleted").
    pub obj_type: String,
}

/// What a `DeleteResponse` stands for.
pub struct DeleteResponseView {
    pub id: Seq<char>,
    pub obj_type: Seq<char>,
}

impl View for DeleteResponse {
    type V = DeleteResponseView;

    open spec fn view(&self) -> DeleteResponseView {
        DeleteResponseView { id: self.id@, obj_type: self.obj_type@ }
    }
}

impl FromJson for DeleteResponse {
    /// The answer that a JSON value describes: an object with the strings
    /// `id` and `type`.
    open spec fn of_json(j: Json) -> Option<DeleteResponseView> {
        match (j.text_member("id"@), j.text_member("type"@)) {
            (Some(id), Some(obj_type)) => Some(DeleteResponseView { id, obj_type }),
            _ => None,
        }
    }

    /// Reads the answer.
    fn from_json(v: &JsonValue) -> (r: Option<DeleteResponse>) {
        match (v.get_text("id"), v.get_text("type")) {
            (Some(id), Some(obj_type)) => Some(
                DeleteResponse { id: id.to_owned(), obj_type: obj_type.to_owned() },
            ),
            _ => None,
        }
    }
}

} // verus!
