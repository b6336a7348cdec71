//! Messages API: the parameters of a message and the events of a streamed
//! answer.
use vstd::prelude::*;
use crate::json::{
    add_member, add_optional_text, all_from_json, all_json, all_of_json, all_to_json,
    lemma_all_round_trip, lemma_member_push, lemma_with_optional, members_view, object_of,
    optional_bool_json, optional_json, views, with_optional, FromJson, Json, JsonValue,
    RoundTrip, ToJson, MAX_COUNT,
};
use crate::text::{owned_text, same_text, text_view};

verus! {

/// Who speaks in a turn of the conversation.
#[derive(Debug, Clone, Copy, PartialEq, Eq)]
pub enum Role {
    User,
    Assistant,
}

impl Role {
    /// The name of this role on the wire.
    pub open spec fn wire_name(self) -> Seq<char> {
        match self {
            Role::User => "user"@,
            Role::Assistant => "assistant"@,
        }
    }

    /// The name of this role on the wire.
    pub fn as_str(&self) -> (r: &'static str)
        ensures
            r@ == self.wire_name(),
    {
        match self {
            Role::User => "user",
            Role::Assistant => "assistant",
        }
    }

    /// The role that a wire name stands for.
    pub open spec fn of_wire_name(name: Seq<char>) -> Option<Role> {
        if name == "user"@ {
            Some(Role::User)
        } else if name == "assistant"@ {
            Some(Role::Assistant)
        } else {
            None
        }
    }

    /// The role that a wire name stands for.
    pub fn from_wire_name(name: &str) -> (r: Option<Role>)
        ensures
            r == Self::of_wire_name(name@),
    {
        if same_text(name, "user") {
            Some(Role::User)
        } else if same_text(name, "assistant") {
            Some(Role::Assistant)
        } else {
            None
        }
    }

    /// A role is read back from its own wire name.
    pub proof fn lemma_wire_name_round_trip(self)
        ensures
            Self::of_wire_name(self.wire_name()) == Some(self),
    {
        reveal_strlit("user");
        reveal_strlit("assistant");
        assert("user"@.len() != "assistant"@.len());
    }
}

/// One turn of a conversation.
#[derive(Debug, PartialEq, Eq)]
pub struct Message {
    pub role: Role,
    pub content: String,
}

/// What a `Message` stands for.
pub struct MessageView {
    pub role: Role,
    pub content: Seq<char>,
}

impl View for Message {
    type V = MessageView;

    open spec fn view(&self) -> MessageView {
        MessageView { role: self.role, content: self.content@ }
    }
}

/// The role under the member `role`, if the member is there and is the wire
/// name of one.
pub open spec fn role_member(j: Json) -> Option<Role> {
    match j.text_member("role"@) {
        Some(name) => Role::of_wire_name(name),
        None => None,
    }
}

impl Message {
    /// Creates a message of plain text.
    pub fn new_text(role: Role, text: &str) -> (r: Self)
        ensures
            r@ == (MessageView { role, content: text@ }),
    {
        Message { role, content: text.to_owned() }
    }

}

impl RoundTrip for Message {
    open spec fn fits_wire(v: MessageView) -> bool {
        true
    }

    proof fn lemma_round_trip(v: MessageView) {
        reveal_strlit("role");
        reveal_strlit("content");
        assert("role"@.len() != "content"@.len());
        let first = Seq::empty().push(("content"@, Json::Text(v.content)));
        lemma_member_push(Seq::empty(), "content"@, Json::Text(v.content));
        lemma_member_push(first, "role"@, Json::Text(v.role.wire_name()));
        v.role.lemma_wire_name_round_trip();
    }

    proof fn lemma_fits_wire(&self) {
    }
}

impl ToJson for Message {
    /// The JSON that a message writes: an object with the strings `role` and
    /// `content`.
    open spec fn json(v: MessageView) -> Json {
        Json::Object(
            Seq::empty().push(("content"@, Json::Text(v.content))).push(
                ("role"@, Json::Text(v.role.wire_name())),
            ),
        )
    }

    /// Writes the message as JSON.
    fn to_json(&self) -> (r: JsonValue) {
        let mut members: Vec<(String, JsonValue)> = Vec::new();
        assert(members_view(members@) =~= Seq::empty());
        add_member(&mut members, "content", JsonValue::text(self.content.as_str()));
        add_member(&mut members, "role", JsonValue::text(self.role.as_str()));
        object_of(members)
    }
}

impl FromJson for Message {
    /// The message that a JSON value describes.
    open spec fn of_json(j: Json) -> Option<MessageView> {
        match (role_member(j), j.text_member("content"@)) {
            (Some(role), Some(content)) => Some(MessageView { role, content }),
            _ => None,
        }
    }

    /// Reads a message.
    fn from_json(v: &JsonValue) -> (r: Option<Message>) {
        let role = match v.get_text("role") {
            Some(name) => Role::from_wire_name(name),
            None => None,
        };
        match (role, v.get_text("content")) {
            (Some(role), Some(content)) => Some(Message { role, content: content.to_owned() }),
            _ => None,
        }
    }
}

/// What every message request has to name.
#[derive(Debug, PartialEq, Eq)]
pub struct RequiredMessageParams {
    pub model: String,
    pub messages: Vec<Message>,
    pub max_tokens: u32,
}

/// The parameters of the call that creates a message.
#[derive(Debug, PartialEq, Eq)]
pub struct CreateMessageParams {
    pub model: String,
    pub messages: Vec<Message>,
    pub max_tokens: u32,
    /// The system prompt.
    pub system: Option<String>,
    /// Whether the answer is to arrive as a stream of events.
    pub stream: Option<bool>,
}

/// What `CreateMessageParams` stand for.
pub struct CreateMessageParamsView {
    pub model: Seq<char>,
    pub messages: Seq<MessageView>,
    pub max_tokens: int,
    pub system: Option<Seq<char>>,
    pub stream: Option<bool>,
}

impl View for CreateMessageParams {
    type V = CreateMessageParamsView;

    open spec fn view(&self) -> CreateMessageParamsView {
        CreateMessageParamsView {
            model: self.model@,
            messages: views(self.messages@),
            max_tokens: self.max_tokens as int,
            system: text_view(self.system),
            stream: self.stream,
        }
    }
}

impl CreateMessageParams {
    /// Whether the answer is asked for as a stream of events.
    pub open spec fn asks_for_stream(self) -> bool {
        self.stream == Some(true)
    }

    /// Creates parameters with nothing set but what is required.
    pub fn new(required: RequiredMessageParams) -> (r: Self)
        ensures
            r.model == required.model,
            r.messages == required.messages,
            r.max_tokens == required.max_tokens,
            r.system is None,
            r.stream is None,
    {
        CreateMessageParams {
            model: required.model,
            messages: required.messages,
            max_tokens: required.max_tokens,
            system: None,
            stream: None,
        }
    }

    /// Sets the system prompt.
    pub fn with_system(self, system: &str) -> (r: Self)
        ensures
            r.system matches Some(s) && s@ == system@,
            r.model == self.model,
            r.messages == self.messages,
            r.max_tokens == self.max_tokens,
            r.stream == self.stream,
    {
        CreateMessageParams {
            model: self.model,
            messages: self.messages,
            max_tokens: self.max_tokens,
            system: Some(system.to_owned()),
            stream: self.stream,
        }
    }

    /// Sets whether the answer is to arrive as a stream of events.
    pub fn with_stream(self, stream: bool) -> (r: Self)
        ensures
            r.stream == Some(stream),
            r.model == self.model,
            r.messages == self.messages,
            r.max_tokens == self.max_tokens,
            r.system == self.system,
    {
        CreateMessageParams {
            model: self.model,
            messages: self.messages,
            max_tokens: self.max_tokens,
            system: self.system,
            stream: Some(stream),
        }
    }

    /// Whether the answer is asked for as a stream of events.
    pub fn is_streaming(&self) -> (r: bool)
        ensures
            r == self.asks_for_stream(),
    {
        match self.stream {
            Some(stream) => stream,
            None => false,
        }
    }

}

impl RoundTrip for CreateMessageParams {
    open spec fn fits_wire(v: CreateMessageParamsView) -> bool {
        0 <= v.max_tokens <= MAX_COUNT
    }

    proof fn lemma_round_trip(v: CreateMessageParamsView) {
        reveal_strlit("model");
        reveal_strlit("messages");
        reveal_strlit("max_tokens");
        reveal_strlit("system");
        reveal_strlit("stream");
        assert("model"@.len() == 5 && "messages"@.len() == 8 && "max_tokens"@.len() == 10
            && "system"@.len() == 6 && "stream"@.len() == 6);
        assert("system"@[1] != "stream"@[1]);
        let written = Json::Array(all_json::<Message>(v.messages));
        let a = Seq::empty().push(("max_tokens"@, Json::Integer(v.max_tokens)));
        let b = a.push(("messages"@, written));
        let c = b.push(("model"@, Json::Text(v.model)));
        let d = with_optional(c, "stream"@, optional_bool_json(v.stream));
        lemma_member_push(Seq::empty(), "max_tokens"@, Json::Integer(v.max_tokens));
        lemma_member_push(a, "messages"@, written);
        lemma_member_push(b, "model"@, Json::Text(v.model));
        lemma_with_optional(c, "stream"@, optional_bool_json(v.stream));
        lemma_with_optional(d, "system"@, optional_json(v.system));
        lemma_all_round_trip::<Message>(v.messages);
        let j = Self::json(v);
        let none = Json::Object(Seq::empty());
        assert(j.member("max_tokens"@) == Json::Object(d).member("max_tokens"@));
        assert(j.member("messages"@) == Json::Object(d).member("messages"@));
        assert(j.member("model"@) == Json::Object(d).member("model"@));
        assert(j.member("stream"@) == Json::Object(d).member("stream"@));
        assert(Json::Object(d).member("max_tokens"@) == Json::Object(c).member("max_tokens"@));
        assert(Json::Object(d).member("messages"@) == Json::Object(c).member("messages"@));
        assert(Json::Object(d).member("model"@) == Json::Object(c).member("model"@));
        assert(Json::Object(d).member("system"@) == Json::Object(c).member("system"@));
        assert(Json::Object(c).member("max_tokens"@) == Json::Object(b).member("max_tokens"@));
        assert(Json::Object(c).member("messages"@) == Json::Object(b).member("messages"@));
        assert(Json::Object(c).member("system"@) == Json::Object(b).member("system"@));
        assert(Json::Object(c).member("stream"@) == Json::Object(b).member("stream"@));
        assert(Json::Object(b).member("max_tokens"@) == Json::Object(a).member("max_tokens"@));
        assert(Json::Object(b).member("system"@) == Json::Object(a).member("system"@));
        assert(Json::Object(b).member("stream"@) == Json::Object(a).member("stream"@));
        assert(Json::Object(a).member("system"@) == none.member("system"@));
        assert(Json::Object(a).member("stream"@) == none.member("stream"@));
    }

    proof fn lemma_fits_wire(&self) {
    }
}

impl ToJson for CreateMessageParams {
    /// The JSON body that the parameters write: an object with the string
    /// `model`, the array `messages`, the number `max_tokens`, and the members
    /// `system` and `stream`, each left out where the field is not set.
    open spec fn json(v: CreateMessageParamsView) -> Json {
        Json::Object(
            with_optional(
                with_optional(
                    Seq::empty().push(("max_tokens"@, Json::Integer(v.max_tokens))).push(
                        ("messages"@, Json::Array(all_json::<Message>(v.messages))),
                    ).push(("model"@, Json::Text(v.model))),
                    "stream"@,
                    optional_bool_json(v.stream),
                ),
                "system"@,
                optional_json(v.system),
            ),
        )
    }

    /// Writes the parameters as a JSON body.
    fn to_json(&self) -> (r: JsonValue) {
        let mut members: Vec<(String, JsonValue)> = Vec::new();
        assert(members_view(members@) =~= Seq::empty());
        add_member(&mut members, "max_tokens", JsonValue::count(self.max_tokens as u64));
        add_member(&mut members, "messages", all_to_json(&self.messages));
        add_member(&mut members, "model", JsonValue::text(self.model.as_str()));
        match self.stream {
            Some(stream) => {
                add_member(&mut members, "stream", JsonValue::Bool(stream));
            },
            None => {},
        }
        add_optional_text(&mut members, "system", &self.system);
        object_of(members)
    }
}

impl FromJson for CreateMessageParams {
    /// The parameters that a JSON body describes.
    open spec fn of_json(j: Json) -> Option<CreateMessageParamsView> {
        match (
            j.text_member("model"@),
            j.array_member("messages"@),
            j.count_member("max_tokens"@, MAX_COUNT as int),
            j.optional_text_member("system"@),
            j.optional_bool_member("stream"@),
        ) {
            (Some(model), Some(items), Some(max_tokens), Some(system), Some(stream)) => match all_of_json::<Message>(
                items,
            ) {
                Some(messages) => Some(
                    CreateMessageParamsView { model, messages, max_tokens, system, stream },
                ),
                None => None,
            },
            _ => None,
        }
    }

    /// Reads parameters from a JSON body.
    fn from_json(v: &JsonValue) -> (r: Option<CreateMessageParams>) {
        match (
            v.get_text("model"),
            v.get_array("messages"),
            v.get_count("max_tokens", MAX_COUNT),
            v.get_optional_text("system"),
            v.get_optional_bool("stream"),
        ) {
            (Some(model), Some(items), Some(max_tokens), Ok(system), Ok(stream)) => match all_from_json::<Message>(
                items,
            ) {
                Some(messages) => Some(
                    CreateMessageParams {
                        model: model.to_owned(),
                        messages,
                        max_tokens: max_tokens as u32,
                        system: owned_text(system),
                        stream,
                    },
                ),
                None => None,
            },
            _ => None,
        }
    }
}

/// The parameters of the call that counts the tokens of a message.
#[derive(Debug, PartialEq, Eq)]
pub struct CountMessageTokensParams {
    pub model: String,
    pub messages: Vec<Message>,
}

/// What `CountMessageTokensParams` stand for.
pub struct CountMessageTokensParamsView {
    pub model: Seq<char>,
    pub messages: Seq<MessageView>,
}

impl View for CountMessageTokensParams {
    type V = CountMessageTokensParamsView;

    open spec fn view(&self) -> CountMessageTokensParamsView {
        CountMessageTokensParamsView { model: self.model@, messages: views(self.messages@) }
    }
}

impl RoundTrip for CountMessageTokensParams {
    open spec fn fits_wire(v: CountMessageTokensParamsView) -> bool {
        true
    }

    proof fn lemma_round_trip(v: CountMessageTokensParamsView) {
        reveal_strlit("model");
        reveal_strlit("messages");
        assert("model"@.len() != "messages"@.len());
        let written = Json::Array(all_json::<Message>(v.messages));
        let a = Seq::empty().push(("messages"@, written));
        lemma_member_push(Seq::empty(), "messages"@, written);
        lemma_member_push(a, "model"@, Json::Text(v.model));
        lemma_all_round_trip::<Message>(v.messages);
    }

    proof fn lemma_fits_wire(&self) {
    }
}

impl ToJson for CountMessageTokensParams {
    /// The JSON body that the parameters write: an object with the string
    /// `model` and the array `messages`.
    open spec fn json(v: CountMessageTokensParamsView) -> Json {
        Json::Object(
            Seq::empty().push(("messages"@, Json::Array(all_json::<Message>(v.messages)))).push(
                ("model"@, Json::Text(v.model)),
            ),
        )
    }

    /// Writes the parameters as a JSON body.
    fn to_json(&self) -> (r: JsonValue) {
        let mut members: Vec<(String, JsonValue)> = Vec::new();
        assert(members_view(members@) =~= Seq::empty());
        add_member(&mut members, "messages", all_to_json(&self.messages));
        add_member(&mut members, "model", JsonValue::text(self.model.as_str()));
        object_of(members)
    }
}

impl FromJson for CountMessageTokensParams {
    /// The parameters that a JSON body describes.
    open spec fn of_json(j: Json) -> Option<CountMessageTokensParamsView> {
        match (j.text_member("model"@), j.array_member("messages"@)) {
            (Some(model), Some(items)) => match all_of_json::<Message>(items) {
                Some(messages) => Some(CountMessageTokensParamsView { model, messages }),
                None => None,
            },
            _ => None,
        }
    }

    /// Reads parameters from a JSON body.
    fn from_json(v: &JsonValue) -> (r: Option<CountMessageTokensParams>) {
        match (v.get_text("model"), v.get_array("messages")) {
            (Some(model), Some(items)) => match all_from_json::<Message>(items) {
                Some(messages) => Some(CountMessageTokensParams { model: model.to_owned(), messages }),
                None => None,
            },
            _ => None,
        }
    }
}

/// How many tokens a message would take.
#[derive(Debug, Clone, Copy, PartialEq, Eq)]
pub struct CountMessageTokensResponse {
    pub input_tokens: u32,
}

impl View for CountMessageTokensResponse {
    type V = CountMessageTokensResponse;

    open spec fn view(&self) -> CountMessageTokensResponse {
        *self
    }
}

impl FromJson for CountMessageTokensResponse {
    /// The count that a JSON value describes: an object with the number
    /// `input_tokens`.
    open spec fn of_json(j: Json) -> Option<CountMessageTokensResponse> {
        match j.count_member("input_tokens"@, MAX_COUNT as int) {
            Some(input_tokens) => Some(
                CountMessageTokensResponse { input_tokens: input_tokens as u32 },
            ),
            None => None,
        }
    }

    /// Reads the count.
    fn from_json(v: &JsonValue) -> (r: Option<CountMessageTokensResponse>) {
        match v.get_count("input_tokens", MAX_COUNT) {
            Some(input_tokens) => Some(
                CountMessageTokensResponse { input_tokens: input_tokens as u32 },
            ),
            None => None,
        }
    }
}

/// What the call that creates a message answers with.
pub type CreateMessageResponse = crate::types::message_batches::MessageResponse;

/// The part of a streamed answer that a `content_block_start` event opens.
#[derive(Debug, PartialEq, Eq)]
pub enum ContentBlock {
    Text { text: String },
    ToolUse { id: String, name: String },
    Thinking { thinking: String },
}

/// What a `ContentBlock` stands for.
pub enum ContentBlockView {
    Text { text: Seq<char> },
    ToolUse { id: Seq<char>, name: Seq<char> },
    Thinking { thinking: Seq<char> },
}

impl View for ContentBlock {
    type V = ContentBlockView;

    open spec fn view(&self) -> ContentBlockView {
        match self {
            ContentBlock::Text { text } => ContentBlockView::Text { text: text@ },
            ContentBlock::ToolUse { id, name } => ContentBlockView::ToolUse { id: id@, name: name@ },
            ContentBlock::Thinking { thinking } => ContentBlockView::Thinking { thinking: thinking@ },
        }
    }
}

impl FromJson for ContentBlock {
    /// The content block that a JSON value describes: an object whose `type`
    /// is `text`, `tool_use` or `thinking`, with the members of that type.
    open spec fn of_json(j: Json) -> Option<ContentBlockView> {
        match j.text_member("type"@) {
            None => None,
            Some(tag) => if tag == "text"@ {
                match j.text_member("text"@) {
                    Some(text) => Some(ContentBlockView::Text { text }),
                    None => None,
                }
            } else if tag == "tool_use"@ {
                match (j.text_member("id"@), j.text_member("name"@)) {
                    (Some(id), Some(name)) => Some(ContentBlockView::ToolUse { id, name }),
                    _ => None,
                }
            } else if tag == "thinking"@ {
                match j.text_member("thinking"@) {
                    Some(thinking) => Some(ContentBlockView::Thinking { thinking }),
                    None => None,
                }
            } else {
                None
            },
        }
    }

    /// Reads a content block.
    fn from_json(v: &JsonValue) -> (r: Option<ContentBlock>) {
        let tag = match v.get_text("type") {
            Some(tag) => tag,
            None => {
                return None;
            },
        };
        if same_text(tag, "text") {
            match v.get_text("text") {
                Some(text) => Some(ContentBlock::Text { text: text.to_owned() }),
                None => None,
            }
        } else if same_text(tag, "tool_use") {
            match (v.get_text("id"), v.get_text("name")) {
                (Some(id), Some(name)) => Some(
                    ContentBlock::ToolUse { id: id.to_owned(), name: name.to_owned() },
                ),
                _ => None,
            }
        } else if same_text(tag, "thinking") {
            match v.get_text("thinking") {
                Some(thinking) => Some(ContentBlock::Thinking { thinking: thinking.to_owned() }),
                None => None,
            }
        } else {
            None
        }
    }
}

/// What a `content_block_delta` event adds to its content block.
#[derive(Debug, PartialEq, Eq)]
pub enum ContentDelta {
    TextDelta { text: String },
    InputJsonDelta { partial_json: String },
    ThinkingDelta { thinking: String },
    SignatureDelta { signature: String },
}

/// What a `ContentDelta` stands for.
pub enum ContentDeltaView {
    TextDelta { text: Seq<char> },
    InputJsonDelta { partial_json: Seq<char> },
    ThinkingDelta { thinking: Seq<char> },
    SignatureDelta { signature: Seq<char> },
}

impl View for ContentDelta {
    type V = ContentDeltaView;

    open spec fn view(&self) -> ContentDeltaView {
        match self {
            ContentDelta::TextDelta { text } => ContentDeltaView::TextDelta { text: text@ },
            ContentDelta::InputJsonDelta { partial_json } => ContentDeltaView::InputJsonDelta {
                partial_json: partial_json@,
            },
            ContentDelta::ThinkingDelta { thinking } => ContentDeltaView::ThinkingDelta {
                thinking: thinking@,
            },
            ContentDelta::SignatureDelta { signature } => ContentDeltaView::SignatureDelta {
                signature: signature@,
            },
        }
    }
}

impl FromJson for ContentDelta {
    /// The delta that a JSON value describes: an object whose `type` is
    /// `text_delta`, `input_json_delta`, `thinking_delta` or `signature_delta`,
    /// with the one string member of that type.
    open spec fn of_json(j: Json) -> Option<ContentDeltaView> {
        match j.text_member("type"@) {
            None => None,
            Some(tag) => if tag == "text_delta"@ {
                match j.text_member("text"@) {
                    Some(text) => Some(ContentDeltaView::TextDelta { text }),
                    None => None,
                }
            } else if tag == "input_json_delta"@ {
                match j.text_member("partial_json"@) {
                    Some(partial_json) => Some(ContentDeltaView::InputJsonDelta { partial_json }),
                    None => None,
                }
            } else if tag == "thinking_delta"@ {
                match j.text_member("thinking"@) {
                    Some(thinking) => Some(ContentDeltaView::ThinkingDelta { thinking }),
                    None => None,
                }
            } else if tag == "signature_delta"@ {
                match j.text_member("signature"@) {
                    Some(signature) => Some(ContentDeltaView::SignatureDelta { signature }),
                    None => None,
                }
            } else {
                None
            },
        }
    }

    /// Reads a delta.
    fn from_json(v: &JsonValue) -> (r: Option<ContentDelta>) {
        let tag = match v.get_text("type") {
            Some(tag) => tag,
            None => {
                return None;
            },
        };
        if same_text(tag, "text_delta") {
            match v.get_text("text") {
                Some(text) => Some(ContentDelta::TextDelta { text: text.to_owned() }),
                None => None,
            }
        } else if same_text(tag, "input_json_delta") {
            match v.get_text("partial_json") {
                Some(partial_json) => Some(
                    ContentDelta::InputJsonDelta { partial_json: partial_json.to_owned() },
                ),
                None => None,
            }
        } else if same_text(tag, "thinking_delta") {
            match v.get_text("thinking") {
                Some(thinking) => Some(ContentDelta::ThinkingDelta { thinking: thinking.to_owned() }),
                None => None,
            }
        } else if same_text(tag, "signature_delta") {
            match v.get_text("signature") {
                Some(signature) => Some(
                    ContentDelta::SignatureDelta { signature: signature.to_owned() },
                ),
                None => None,
            }
        } else {
            None
        }
    }
}

/// One event of a streamed answer.
#[derive(Debug, PartialEq, Eq)]
pub enum StreamEvent {
    /// The answer begins.
    MessageStart { id: String, model: String, role: String, input_tokens: u32, output_tokens: u32 },
    /// The content block `index` begins.
    ContentBlockStart { index: u32, content_block: ContentBlock },
    /// The content block `index` grows.
    ContentBlockDelta { index: u32, delta: ContentDelta },
    /// The content block `index` is complete.
    ContentBlockStop { index: u32 },
    /// The answer as a whole changes: why it stopped, and what it cost so far.
    MessageDelta { stop_reason: Option<String>, stop_sequence: Option<String>, output_tokens: u32 },
    /// The answer is complete.
    MessageStop,
    /// The server shows that the connection is alive.
    Ping,
    /// The server reports an error in the middle of the answer.
    Error { kind: String, message: String },
}

/// What a `StreamEvent` stands for.
pub enum StreamEventView {
    MessageStart {
        id: Seq<char>,
        model: Seq<char>,
        role: Seq<char>,
        input_tokens: int,
        output_tokens: int,
    },
    ContentBlockStart { index: int, content_block: ContentBlockView },
    ContentBlockDelta { index: int, delta: ContentDeltaView },
    ContentBlockStop { index: int },
    MessageDelta {
        stop_reason: Option<Seq<char>>,
        stop_sequence: Option<Seq<char>>,
        output_tokens: int,
    },
    MessageStop,
    Ping,
    Error { kind: Seq<char>, message: Seq<char> },
}

impl View for StreamEvent {
    type V = StreamEventView;

    open spec fn view(&self) -> StreamEventView {
        match self {
            StreamEvent::MessageStart { id, model, role, input_tokens, output_tokens } => {
                StreamEventView::MessageStart {
                    id: id@,
                    model: model@,
                    role: role@,
                    input_tokens: *input_tokens as int,
                    output_tokens: *output_tokens as int,
                }
            },
            StreamEvent::ContentBlockStart { index, content_block } => {
                StreamEventView::ContentBlockStart {
                    index: *index as int,
                    content_block: content_block@,
                }
            },
            StreamEvent::ContentBlockDelta { index, delta } => StreamEventView::ContentBlockDelta {
                index: *index as int,
                delta: delta@,
            },
            StreamEvent::ContentBlockStop { index } => StreamEventView::ContentBlockStop {
                index: *index as int,
            },
            StreamEvent::MessageDelta { stop_reason, stop_sequence, output_tokens } => {
                StreamEventView::MessageDelta {
                    stop_reason: text_view(*stop_reason),
                    stop_sequence: text_view(*stop_sequence),
                    output_tokens: *output_tokens as int,
                }
            },
            StreamEvent::MessageStop => StreamEventView::MessageStop,
            StreamEvent::Ping => StreamEventView::Ping,
            StreamEvent::Error { kind, message } => StreamEventView::Error {
                kind: kind@,
                message: message@,
            },
        }
    }
}

impl StreamEvent {
    /// What a `message_start` payload describes: its `message` member with
    /// the strings `id`, `model` and `role`, and the two token counts of
    /// `usage`.
    pub open spec fn message_start_of(j: Json) -> Option<StreamEventView> {
        match j.member("message"@) {
            None => None,
            Some(m) => match m.member("usage"@) {
                None => None,
                Some(u) => match (
                    m.text_member("id"@),
                    m.text_member("model"@),
                    m.text_member("role"@),
                    u.count_member("input_tokens"@, MAX_COUNT as int),
                    u.count_member("output_tokens"@, MAX_COUNT as int),
                ) {
                    (
                        Some(id),
                        Some(model),
                        Some(role),
                        Some(input_tokens),
                        Some(output_tokens),
                    ) => Some(
                        StreamEventView::MessageStart {
                            id,
                            model,
                            role,
                            input_tokens,
                            output_tokens,
                        },
                    ),
                    _ => None,
                },
            },
        }
    }

    /// What a `content_block_start` payload describes.
    pub open spec fn block_start_of(j: Json) -> Option<StreamEventView> {
        match (j.count_member("index"@, MAX_COUNT as int), j.member("content_block"@)) {
            (Some(index), Some(b)) => match ContentBlock::of_json(b) {
                Some(content_block) => Some(
                    StreamEventView::ContentBlockStart { index, content_block },
                ),
                None => None,
            },
            _ => None,
        }
    }

    /// What a `content_block_delta` payload describes.
    pub open spec fn block_delta_of(j: Json) -> Option<StreamEventView> {
        match (j.count_member("index"@, MAX_COUNT as int), j.member("delta"@)) {
            (Some(index), Some(d)) => match ContentDelta::of_json(d) {
                Some(delta) => Some(StreamEventView::ContentBlockDelta { index, delta }),
                None => None,
            },
            _ => None,
        }
    }

    /// What a `content_block_stop` payload describes.
    pub open spec fn block_stop_of(j: Json) -> Option<StreamEventView> {
        match j.count_member("index"@, MAX_COUNT as int) {
            Some(index) => Some(StreamEventView::ContentBlockStop { index }),
            None => None,
        }
    }

    /// What a `message_delta` payload describes: the two optional strings of
    /// its `delta` member and the output token count of `usage`.
    pub open spec fn message_delta_of(j: Json) -> Option<StreamEventView> {
        match (j.member("delta"@), j.member("usage"@)) {
            (Some(d), Some(u)) => match (
                d.optional_text_member("stop_reason"@),
                d.optional_text_member("stop_sequence"@),
                u.count_member("output_tokens"@, MAX_COUNT as int),
            ) {
                (Some(stop_reason), Some(stop_sequence), Some(output_tokens)) => Some(
                    StreamEventView::MessageDelta { stop_reason, stop_sequence, output_tokens },
                ),
                _ => None,
            },
            _ => None,
        }
    }

    /// What an `error` payload describes: the `type` and the `message` of its
    /// `error` member.
    pub open spec fn error_of(j: Json) -> Option<StreamEventView> {
        match j.member("error"@) {
            None => None,
            Some(e) => match (e.text_member("type"@), e.text_member("message"@)) {
                (Some(kind), Some(message)) => Some(StreamEventView::Error { kind, message }),
                _ => None,
            },
        }
    }

    fn message_start_from(v: &JsonValue) -> (r: Option<StreamEvent>)
        ensures
            match r {
                Some(e) => Self::message_start_of(v@) == Some(e@),
                None => Self::message_start_of(v@) is None,
            },
    {
        let m = match v.get("message") {
            Some(m) => m,
            None => {
                return None;
            },
        };
        let u = match m.get("usage") {
            Some(u) => u,
            None => {
                return None;
            },
        };
        match (
            m.get_text("id"),
            m.get_text("model"),
            m.get_text("role"),
            u.get_count("input_tokens", MAX_COUNT),
            u.get_count("output_tokens", MAX_COUNT),
        ) {
            (Some(id), Some(model), Some(role), Some(input_tokens), Some(output_tokens)) => Some(
                StreamEvent::MessageStart {
                    id: id.to_owned(),
                    model: model.to_owned(),
                    role: role.to_owned(),
                    input_tokens: input_tokens as u32,
                    output_tokens: output_tokens as u32,
                },
            ),
            _ => None,
        }
    }

    fn block_start_from(v: &JsonValue) -> (r: Option<StreamEvent>)
        ensures
            match r {
                Some(e) => Self::block_start_of(v@) == Some(e@),
                None => Self::block_start_of(v@) is None,
            },
    {
        match (v.get_count("index", MAX_COUNT), v.get("content_block")) {
            (Some(index), Some(b)) => match ContentBlock::from_json(b) {
                Some(content_block) => Some(
                    StreamEvent::ContentBlockStart { index: index as u32, content_block },
                ),
                None => None,
            },
            _ => None,
        }
    }

    fn block_delta_from(v: &JsonValue) -> (r: Option<StreamEvent>)
        ensures
            match r {
                Some(e) => Self::block_delta_of(v@) == Some(e@),
                None => Self::block_delta_of(v@) is None,
            },
    {
        match (v.get_count("index", MAX_COUNT), v.get("delta")) {
            (Some(index), Some(d)) => match ContentDelta::from_json(d) {
                Some(delta) => Some(StreamEvent::ContentBlockDelta { index: index as u32, delta }),
                None => None,
            },
            _ => None,
        }
    }

    fn message_delta_from(v: &JsonValue) -> (r: Option<StreamEvent>)
        ensures
            match r {
                Some(e) => Self::message_delta_of(v@) == Some(e@),
                None => Self::message_delta_of(v@) is None,
            },
    {
        match (v.get("delta"), v.get("usage")) {
            (Some(d), Some(u)) => match (
                d.get_optional_text("stop_reason"),
                d.get_optional_text("stop_sequence"),
                u.get_count("output_tokens", MAX_COUNT),
            ) {
                (Ok(stop_reason), Ok(stop_sequence), Some(output_tokens)) => Some(
                    StreamEvent::MessageDelta {
                        stop_reason: owned_text(stop_reason),
                        stop_sequence: owned_text(stop_sequence),
                        output_tokens: output_tokens as u32,
                    },
                ),
                _ => None,
            },
            _ => None,
        }
    }

    fn error_from(v: &JsonValue) -> (r: Option<StreamEvent>)
        ensures
            match r {
                Some(e) => Self::error_of(v@) == Some(e@),
                None => Self::error_of(v@) is None,
            },
    {
        match v.get("error") {
            None => None,
            Some(e) => match (e.get_text("type"), e.get_text("message")) {
                (Some(kind), Some(message)) => Some(
                    StreamEvent::Error { kind: kind.to_owned(), message: message.to_owned() },
                ),
                _ => None,
            },
        }
    }
}

impl FromJson for StreamEvent {
    /// The event that a JSON value describes: an object whose `type` names
    /// one of the eight events and which holds the members of that event,
    /// each of its type. Members that the event does not know are passed over.
    open spec fn of_json(j: Json) -> Option<StreamEventView> {
        match j.text_member("type"@) {
            None => None,
            Some(tag) => if tag == "message_start"@ {
                Self::message_start_of(j)
            } else if tag == "content_block_start"@ {
                Self::block_start_of(j)
            } else if tag == "content_block_delta"@ {
                Self::block_delta_of(j)
            } else if tag == "content_block_stop"@ {
                Self::block_stop_of(j)
            } else if tag == "message_delta"@ {
                Self::message_delta_of(j)
            } else if tag == "message_stop"@ {
                Some(StreamEventView::MessageStop)
            } else if tag == "ping"@ {
                Some(StreamEventView::Ping)
            } else if tag == "error"@ {
                Self::error_of(j)
            } else {
                None
            },
        }
    }

    /// Reads an event. `None` where the value describes none.
    fn from_json(v: &JsonValue) -> (r: Option<StreamEvent>) {
        let tag = match v.get_text("type") {
            Some(tag) => tag,
            None => {
                return None;
            },
        };
        if same_text(tag, "message_start") {
            Self::message_start_from(v)
        } else if same_text(tag, "content_block_start") {
            Self::block_start_from(v)
        } else if same_text(tag, "content_block_delta") {
            Self::block_delta_from(v)
        } else if same_text(tag, "content_block_stop") {
            match v.get_count("index", MAX_COUNT) {
                Some(index) => Some(StreamEvent::ContentBlockStop { index: index as u32 }),
                None => None,
            }
        } else if same_text(tag, "message_delta") {
            Self::message_delta_from(v)
        } else if same_text(tag, "message_stop") {
            Some(StreamEvent::MessageStop)
        } else if same_text(tag, "ping") {
            Some(StreamEvent::Ping)
        } else if same_text(tag, "error") {
            Self::error_from(v)
        } else {
            None
        }
    }
}

} // verus!
