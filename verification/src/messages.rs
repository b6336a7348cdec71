//! Messages API: the calls for messages, and the decoder of a streamed
//! answer.
//!
//! A streamed answer arrives as server-sent-event frames whose payloads are
//! JSON. The events of the answer are the events of the frames in the order
//! of their arrival, up to the first frame whose payload describes no event:
//! that frame ends the sequence with an error.
use vstd::prelude::*;
use vstd::utf8::{decode_utf8, valid_utf8};
use crate::clients::{
    answers, invalid_header_message, is_header_text, is_header_value, is_success,
    is_success_status, json_outcome, planned_request, plans, read_answer, typed_outcome,
    unwritable_body_message, AnthropicClient, ClientConfig, HttpMethod, HttpRequest,
    HttpRequestView, API_KEY_HEADER, API_VERSION_HEADER, CONTENT_TYPE_HEADER, JSON_CONTENT_TYPE,
};
use crate::error::{MessageError, MessageErrorView};
use crate::json::{
    json_document, json_rendering, parsed_view, views, FromJson, Json, JsonValue, ToJson,
};
use crate::sse::{
    decode_body, decode_step, frames_of, frames_view, initial_state, lemma_step_split,
    DecoderState, Frame, SseDecoder, SseFrame,
};
use crate::text::{concat2, text_of_bytes};
use crate::types::message::{
    CountMessageTokensParams, CountMessageTokensResponse, CreateMessageParams,
    CreateMessageResponse, StreamEvent, StreamEventView,
};

verus! {

/// Why a payload that is JSON may still fail to decode.
pub open spec fn unknown_event_reason() -> Seq<char> {
    "payload does not describe a known event"@
}

/// What a payload decodes to, given its text and what the JSON reader made
/// of that text: the event that the value describes, or a `ParseFailed` with
/// the text and the reason.
pub open spec fn parsed_event(text: Seq<char>, parsed: Result<Json, Seq<char>>) -> Result<
    StreamEventView,
    MessageErrorView,
> {
    match parsed {
        Err(reason) => Err(MessageErrorView::ParseFailed { payload: text, reason }),
        Ok(j) => match StreamEvent::of_json(j) {
            Some(e) => Ok(e),
            None => Err(
                MessageErrorView::ParseFailed { payload: text, reason: unknown_event_reason() },
            ),
        },
    }
}

/// What is reported of a payload that is no text.
pub open spec fn invalid_payload_message() -> Seq<char> {
    "UTF8 error: the payload is not valid UTF-8"@
}

/// What the payload of a frame decodes to: what its text decodes to where
/// the payload is UTF-8, with the text as the raw payload of a `ParseFailed`;
/// a `RequestFailed` where it is not.
pub open spec fn payload_event(data: Seq<u8>) -> Result<StreamEventView, MessageErrorView> {
    if valid_utf8(data) {
        parsed_event(decode_utf8(data), json_document(decode_utf8(data)))
    } else {
        Err(MessageErrorView::RequestFailed(invalid_payload_message()))
    }
}

/// What a result stands for.
pub open spec fn result_view<T: View, E: View>(r: Result<T, E>) -> Result<T::V, E::V> {
    match r {
        Ok(v) => Ok(v@),
        Err(e) => Err(e@),
    }
}

/// Decodes a payload from its text and from what the JSON reader made of
/// that text.
pub fn event_from_parsed(text: String, parsed: Result<JsonValue, String>) -> (r: Result<
    StreamEvent,
    MessageError,
>)
    ensures
        result_view(r) == parsed_event(text@, parsed_view(parsed)),
{
    match parsed {
        Err(reason) => Err(MessageError::ParseFailed { payload: text, reason }),
        Ok(value) => match StreamEvent::from_json(&value) {
            Some(e) => Ok(e),
            None => Err(
                MessageError::ParseFailed {
                    payload: text,
                    reason: "payload does not describe a known event".to_owned(),
                },
            ),
        },
    }
}

/// Decodes the payload of one frame.
pub fn decode_payload(data: &[u8]) -> (r: Result<StreamEvent, MessageError>)
    ensures
        result_view(r) == payload_event(data@),
{
    match text_of_bytes(data) {
        Some(text) => {
            let parsed = JsonValue::parse(text.as_str());
            event_from_parsed(text, parsed)
        },
        None => Err(
            MessageError::RequestFailed("UTF8 error: the payload is not valid UTF-8".to_owned()),
        ),
    }
}

/// The number of frames, from `from` on, before the first whose payload
/// does not decode.
pub open spec fn decodable_run(frames: Seq<Frame>, from: int) -> int
    decreases frames.len() - from,
{
    if from < 0 || from >= frames.len() {
        0
    } else if payload_event(frames[from].data) is Err {
        0
    } else {
        1 + decodable_run(frames, from + 1)
    }
}

/// The events of a run of frames: the event of every frame before the first
/// whose payload does not decode, in the order of the frames.
pub open spec fn events_of(frames: Seq<Frame>) -> Seq<StreamEventView> {
    Seq::new(decodable_run(frames, 0) as nat, |i: int| payload_event(frames[i].data)->Ok_0)
}

/// The failure that ends the events of a run of frames: that of the first
/// frame whose payload does not decode, if there is one.
pub open spec fn failure_of(frames: Seq<Frame>) -> Option<MessageErrorView> {
    let n = decodable_run(frames, 0);
    if n < frames.len() {
        Some(payload_event(frames[n].data)->Err_0)
    } else {
        None
    }
}

/// What a run of frames decodes to.
pub open spec fn decoded_of(frames: Seq<Frame>) -> DecodedView {
    DecodedView { events: events_of(frames), failure: failure_of(frames) }
}

/// `decodable_run` stops at the first failing frame and nowhere before.
pub proof fn lemma_decodable_run(frames: Seq<Frame>, from: int)
    requires
        0 <= from <= frames.len(),
    ensures
        0 <= decodable_run(frames, from) <= frames.len() - from,
        forall|i: int|
            from <= i < from + decodable_run(frames, from) ==> payload_event(frames[i].data) is Ok,
        from + decodable_run(frames, from) < frames.len() ==> payload_event(
            frames[from + decodable_run(frames, from)].data,
        ) is Err,
    decreases frames.len() - from,
{
    if from < frames.len() && payload_event(frames[from].data) is Ok {
        lemma_decodable_run(frames, from + 1);
    }
}

/// A position with decodable frames before it, and a failing frame or the
/// end at it, is where `decodable_run` stops.
pub proof fn lemma_decodable_run_found(frames: Seq<Frame>, from: int, at: int)
    requires
        0 <= from <= at <= frames.len(),
        forall|i: int| from <= i < at ==> payload_event(frames[i].data) is Ok,
        at < frames.len() ==> payload_event(frames[at].data) is Err,
    ensures
        decodable_run(frames, from) == at - from,
    decreases at - from,
{
    if from < at {
        lemma_decodable_run_found(frames, from + 1, at);
    }
}

/// What was decoded from a run of frames.
#[derive(Debug, PartialEq, Eq)]
pub struct Decoded {
    /// The events, in the order of their frames.
    pub events: Vec<StreamEvent>,
    /// The error that ended the sequence, if one did.
    pub failure: Option<MessageError>,
}

/// What a `Decoded` stands for.
pub struct DecodedView {
    pub events: Seq<StreamEventView>,
    pub failure: Option<MessageErrorView>,
}

impl View for Decoded {
    type V = DecodedView;

    open spec fn view(&self) -> DecodedView {
        DecodedView {
            events: views(self.events@),
            failure: match self.failure {
                Some(e) => Some(e@),
                None => None,
            },
        }
    }
}

/// Decodes the payloads of a run of frames, in their order, and stops at the
/// first that does not decode.
pub fn decode_frames(frames: &Vec<SseFrame>) -> (r: Decoded)
    ensures
        r@ == decoded_of(frames_view(frames@)),
{
    let ghost all = frames_view(frames@);
    let mut events: Vec<StreamEvent> = Vec::new();
    let mut i: usize = 0;
    while i < frames.len()
        invariant
            i <= frames.len(),
            all == frames_view(frames@),
            events@.len() == i,
            forall|k: int|
                0 <= k < i ==> payload_event(all[k].data) == Ok::<_, MessageErrorView>(events@[k]@),
        decreases frames.len() - i,
    {
        assert(all[i as int] == frames@[i as int]@);
        match decode_payload(frames[i].data.as_slice()) {
            Ok(e) => {
                events.push(e);
            },
            Err(e) => {
                proof {
                    lemma_decodable_run_found(all, 0, i as int);
                }
                let r = Decoded { events, failure: Some(e) };
                assert(r@.events =~= events_of(all));
                return r;
            },
        }
        i = i + 1;
    }
    proof {
        lemma_decodable_run_found(all, 0, i as int);
    }
    let r = Decoded { events, failure: None };
    assert(r@.events =~= events_of(all));
    r
}

/// The events of a whole body and the error that ended them, if one did.
pub fn decode_events(body: &[u8]) -> (r: Decoded)
    ensures
        r@ == decoded_of(frames_of(body@)),
{
    let frames = decode_body(body);
    decode_frames(&frames)
}

/// As many events come out as frames stand before the first whose payload
/// does not decode; where every payload decodes, one event per frame and no
/// failure.
pub proof fn lemma_event_count(frames: Seq<Frame>)
    ensures
        events_of(frames).len() == decodable_run(frames, 0),
        events_of(frames).len() <= frames.len(),
        failure_of(frames) is None <==> events_of(frames).len() == frames.len(),
        (forall|i: int| 0 <= i < frames.len() ==> payload_event(frames[i].data) is Ok) ==> events_of(
            frames,
        ).len() == frames.len(),
{
    lemma_decodable_run(frames, 0);
    if forall|i: int| 0 <= i < frames.len() ==> payload_event(frames[i].data) is Ok {
        lemma_decodable_run_found(frames, 0, frames.len() as int);
    }
}

/// The number of frames, from `from` on, whose payload decodes.
pub open spec fn decodable_count(frames: Seq<Frame>, from: int) -> int
    decreases frames.len() - from,
{
    if from < 0 || from >= frames.len() {
        0
    } else if payload_event(frames[from].data) is Ok {
        1 + decodable_count(frames, from + 1)
    } else {
        decodable_count(frames, from + 1)
    }
}

/// Never more events come out than frames have a payload that decodes; and
/// exactly as many where no such frame stands behind one whose payload does
/// not decode.
pub proof fn lemma_events_are_the_decodable_frames(frames: Seq<Frame>)
    ensures
        events_of(frames).len() <= decodable_count(frames, 0),
        (forall|i: int|
            decodable_run(frames, 0) <= i < frames.len() ==> payload_event(frames[i].data) is Err)
            ==> events_of(frames).len() == decodable_count(frames, 0),
{
    lemma_decodable_run(frames, 0);
    lemma_count_from(frames, 0);
    let n = decodable_run(frames, 0);
    lemma_count_from(frames, n);
    if forall|i: int| n <= i < frames.len() ==> payload_event(frames[i].data) is Err {
        lemma_count_of_failures(frames, n);
    }
}

/// From a position on, the frames whose payload decodes are those of the
/// decodable run that starts there and those behind it.
pub proof fn lemma_count_from(frames: Seq<Frame>, from: int)
    requires
        0 <= from <= frames.len(),
    ensures
        decodable_count(frames, from) == decodable_run(frames, from) + decodable_count(
            frames,
            from + decodable_run(frames, from),
        ),
        decodable_count(frames, from) >= 0,
    decreases frames.len() - from,
{
    if from < frames.len() {
        lemma_count_from(frames, from + 1);
        lemma_decodable_run(frames, from + 1);
    }
}

/// Frames whose payloads all fail to decode count for nothing.
pub proof fn lemma_count_of_failures(frames: Seq<Frame>, from: int)
    requires
        0 <= from <= frames.len(),
        forall|i: int| from <= i < frames.len() ==> payload_event(frames[i].data) is Err,
    ensures
        decodable_count(frames, from) == 0,
    decreases frames.len() - from,
{
    if from < frames.len() {
        lemma_count_of_failures(frames, from + 1);
    }
}

/// A payload that does not decode ends the sequence where it stands: the
/// events of the frames before it are all there, its failure is the one
/// reported, and nothing that follows it changes either.
pub proof fn lemma_failure_ends_the_sequence(frames: Seq<Frame>, at: int, later: Seq<Frame>)
    requires
        0 <= at < frames.len(),
        forall|i: int| 0 <= i < at ==> payload_event(frames[i].data) is Ok,
        payload_event(frames[at].data) is Err,
    ensures
        events_of(frames).len() == at,
        forall|i: int| 0 <= i < at ==> events_of(frames)[i] == payload_event(frames[i].data)->Ok_0,
        failure_of(frames) == Some(payload_event(frames[at].data)->Err_0),
        decoded_of(frames.take(at + 1) + later) == decoded_of(frames),
{
    lemma_decodable_run_found(frames, 0, at);
    let other = frames.take(at + 1) + later;
    assert forall|i: int| 0 <= i <= at implies other[i] == frames[i] by {
        assert(frames.take(at + 1)[i] == frames[i]);
    }
    lemma_decodable_run_found(other, 0, at);
    assert(events_of(other) =~= events_of(frames));
}

/// What two runs of frames decode to, one behind the other: what the first
/// run decodes to where it ends in a failure, and otherwise its events with
/// those of the second run behind them, and the failure of the second run.
pub open spec fn then_decoded(first: DecodedView, second: DecodedView) -> DecodedView {
    if first.failure is Some {
        first
    } else {
        DecodedView { events: first.events + second.events, failure: second.failure }
    }
}

/// Frames decode one run after the other.
pub proof fn lemma_events_concat(a: Seq<Frame>, b: Seq<Frame>)
    ensures
        decoded_of(a + b) == then_decoded(decoded_of(a), decoded_of(b)),
{
    let all = a + b;
    lemma_decodable_run(a, 0);
    lemma_decodable_run(b, 0);
    let n = decodable_run(a, 0);
    let m = decodable_run(b, 0);
    assert forall|i: int| 0 <= i < a.len() implies all[i] == a[i] by {}
    assert forall|i: int| 0 <= i < b.len() implies all[a.len() + i] == b[i] by {}
    if n < a.len() {
        lemma_decodable_run_found(all, 0, n);
        assert(events_of(all) =~= events_of(a));
    } else {
        assert forall|i: int| 0 <= i < a.len() + m implies payload_event(all[i].data) is Ok by {
            if i >= a.len() {
                assert(all[i] == b[i - a.len()]);
            }
        }
        if m < b.len() {
            assert(all[a.len() + m] == b[m]);
        }
        lemma_decodable_run_found(all, 0, a.len() + m);
        assert(events_of(all) =~= events_of(a) + events_of(b)) by {
            assert forall|i: int| 0 <= i < a.len() + m implies events_of(all)[i] == (events_of(a)
                + events_of(b))[i] by {
                if i >= a.len() {
                    assert(all[i] == b[i - a.len()]);
                }
            }
        }
    }
}

/// What a stream decoder does with a chunk: the state after it, and what the
/// frames decode to that the chunk completes. `None` is the state of a
/// decoder whose sequence has ended in a failure; it takes in nothing more.
pub open spec fn stream_step(s: Option<DecoderState>, chunk: Seq<u8>) -> (
    Option<DecoderState>,
    DecodedView,
) {
    match s {
        None => (None, DecodedView { events: Seq::empty(), failure: None }),
        Some(d) => {
            let step = decode_step(d, chunk);
            let decoded = decoded_of(step.1);
            (
                if decoded.failure is Some {
                    None
                } else {
                    Some(step.0)
                },
                decoded,
            )
        },
    }
}

/// A chunk may be cut anywhere: feeding `a` and then `b` ends in the state
/// of feeding `a + b` at once, and hands out the same events and the same
/// failure.
pub proof fn lemma_stream_split(s: Option<DecoderState>, a: Seq<u8>, b: Seq<u8>)
    ensures
        stream_step(s, a + b).0 == stream_step(stream_step(s, a).0, b).0,
        stream_step(s, a + b).1 == then_decoded(
            stream_step(s, a).1,
            stream_step(stream_step(s, a).0, b).1,
        ),
{
    match s {
        None => {
            assert(Seq::<StreamEventView>::empty() + Seq::<StreamEventView>::empty() =~= Seq::<
                StreamEventView,
            >::empty());
        },
        Some(d) => {
            lemma_step_split(d, a, b);
            let first = decode_step(d, a);
            let second = decode_step(first.0, b);
            lemma_events_concat(first.1, second.1);
        },
    }
}

/// An incremental decoder of a streamed answer.
///
/// The bytes of the response body go in by `feed`, in chunks of any size, as
/// they arrive; each call hands out the events that its chunk completed.
/// After a failure the sequence has ended: later chunks give nothing.
pub struct EventDecoder {
    frames: SseDecoder,
    ended: bool,
}

impl View for EventDecoder {
    type V = Option<DecoderState>;

    closed spec fn view(&self) -> Option<DecoderState> {
        if self.ended {
            None
        } else {
            Some(self.frames@)
        }
    }
}

impl EventDecoder {
    /// A decoder that has received nothing.
    pub fn new() -> (r: Self)
        ensures
            r@ == Some(initial_state()),
    {
        EventDecoder { frames: SseDecoder::new(), ended: false }
    }

    /// Whether the sequence has ended in a failure, of a payload or of the
    /// transport.
    pub fn has_ended(&self) -> (r: bool)
        ensures
            r == self@ is None,
    {
        self.ended
    }

    /// Ends the sequence where the transport fails while the body is read:
    /// the error to hand out is a `RequestFailed` with what the transport
    /// reports, and the decoder takes in nothing more.
    pub fn transport_failed(&mut self, reason: &str) -> (e: MessageError)
        ensures
            final(self)@ is None,
            e@ == MessageErrorView::RequestFailed(reason@),
    {
        self.ended = true;
        MessageError::RequestFailed(reason.to_owned())
    }

    /// Takes in the next chunk of the body.
    pub fn feed(&mut self, chunk: &[u8]) -> (r: Decoded)
        ensures
            final(self)@ == stream_step(old(self)@, chunk@).0,
            r@ == stream_step(old(self)@, chunk@).1,
    {
        if self.ended {
            let r = Decoded { events: Vec::new(), failure: None };
            assert(r@.events =~= Seq::<StreamEventView>::empty());
            return r;
        }
        let frames = self.frames.feed(chunk);
        let r = decode_frames(&frames);
        if r.failure.is_some() {
            self.ended = true;
        }
        r
    }
}

/// What is reported where a stream is asked of parameters that do not ask
/// for one.
pub open spec fn stream_flag_message() -> Seq<char> {
    "Stream parameter must be set to true for streaming"@
}

/// The request of a streamed message, or the configuration error that stands
/// against it: the parameters must ask for a stream, the API key and the API
/// version must be header values, and the body must have a JSON text.
/// `rendered` is the JSON text of the body.
pub open spec fn planned_stream(
    config: ClientConfig,
    asks_for_stream: bool,
    rendered: Option<Seq<char>>,
) -> Result<HttpRequestView, MessageErrorView> {
    if !asks_for_stream {
        Err(MessageErrorView::InvalidConfiguration(stream_flag_message()))
    } else if !is_header_text(config.api_key) || !is_header_text(config.api_version) {
        Err(MessageErrorView::InvalidConfiguration(invalid_header_message()))
    } else {
        match rendered {
            None => Err(MessageErrorView::InvalidConfiguration(unwritable_body_message())),
            Some(text) => Ok(
                HttpRequestView {
                    method: HttpMethod::Post,
                    url: config.api_base_url + "/messages"@,
                    headers: seq![
                        (API_KEY_HEADER@, config.api_key),
                        (API_VERSION_HEADER@, config.api_version),
                        (CONTENT_TYPE_HEADER@, JSON_CONTENT_TYPE@),
                    ],
                    query: Seq::empty(),
                    body: Some(text),
                },
            ),
        }
    }
}

/// What the opening of a streamed answer means: nothing stands against
/// reading the events where the status stands for success; otherwise the
/// answer is an `ApiError` with the body as it came.
pub open spec fn stream_opening(status: u16, body: Seq<char>) -> Result<(), MessageErrorView> {
    if is_success_status(status) {
        Ok(())
    } else {
        Err(MessageErrorView::ApiError(body))
    }
}

impl AnthropicClient {
    /// Plans `POST /messages`: a message, answered at once.
    pub fn create_message_request(&self, body: Option<&CreateMessageParams>) -> (r: Result<
        HttpRequest,
        MessageError,
    >)
        ensures
            plans(
                r,
                planned_request(
                    self@,
                    HttpMethod::Post,
                    "/messages"@,
                    Seq::empty(),
                    match body {
                        Some(p) => Some(json_rendering(CreateMessageParams::json(p@))),
                        None => None,
                    },
                ),
            ),
            is_header_text(self@.api_key) ==> r is Ok,
    {
        match body {
            Some(p) => {
                let value = p.to_json();
                self.plan_post("/messages", Some(&value))
            },
            None => self.plan_post("/messages", None),
        }
    }

    /// Plans `POST /messages/count_tokens`: the number of tokens that a
    /// message would take.
    pub fn count_tokens_request(&self, body: Option<&CountMessageTokensParams>) -> (r: Result<
        HttpRequest,
        MessageError,
    >)
        ensures
            plans(
                r,
                planned_request(
                    self@,
                    HttpMethod::Post,
                    "/messages/count_tokens"@,
                    Seq::empty(),
                    match body {
                        Some(p) => Some(json_rendering(CountMessageTokensParams::json(p@))),
                        None => None,
                    },
                ),
            ),
            is_header_text(self@.api_key) ==> r is Ok,
    {
        match body {
            Some(p) => {
                let value = p.to_json();
                self.plan_post("/messages/count_tokens", Some(&value))
            },
            None => self.plan_post("/messages/count_tokens", None),
        }
    }

    /// Plans `POST /messages` for an answer that arrives as a stream of
    /// events. Parameters that do not ask for a stream are refused before
    /// anything is planned, and so nothing is sent for them.
    pub fn create_message_streaming_request(&self, body: &CreateMessageParams) -> (r: Result<
        HttpRequest,
        MessageError,
    >)
        ensures
            result_view(r) == planned_stream(
                self@,
                body.asks_for_stream(),
                json_rendering(CreateMessageParams::json(body@)),
            ),
            !body.asks_for_stream() ==> result_view(r) == Err::<HttpRequestView, _>(
                MessageErrorView::InvalidConfiguration(stream_flag_message()),
            ),
            body.asks_for_stream() && is_header_text(self@.api_key) && is_header_text(
                self@.api_version,
            ) ==> r is Ok,
    {
        if !body.is_streaming() {
            return Err(
                MessageError::InvalidConfiguration(
                    "Stream parameter must be set to true for streaming".to_owned(),
                ),
            );
        }
        if !is_header_value(self.get_api_key()) || !is_header_value(self.get_api_version()) {
            return Err(
                MessageError::InvalidConfiguration("failed to parse header value".to_owned()),
            );
        }
        let text = match body.to_json().to_text() {
            Some(text) => text,
            None => {
                return Err(
                    MessageError::InvalidConfiguration(
                        "Failed to serialize body: the value holds a number that JSON cannot express".to_owned(),
                    ),
                );
            },
        };
        let mut headers: Vec<(String, String)> = Vec::new();
        headers.push((API_KEY_HEADER.to_owned(), self.get_api_key().to_owned()));
        headers.push((API_VERSION_HEADER.to_owned(), self.get_api_version().to_owned()));
        headers.push((CONTENT_TYPE_HEADER.to_owned(), JSON_CONTENT_TYPE.to_owned()));
        let query: Vec<(String, String)> = Vec::new();
        let request = HttpRequest {
            method: HttpMethod::Post,
            url: concat2(self.get_api_base_url(), "/messages"),
            headers,
            query,
            body: Some(text),
        };
        assert(request@.headers =~= seq![
            (API_KEY_HEADER@, self@.api_key),
            (API_VERSION_HEADER@, self@.api_version),
            (CONTENT_TYPE_HEADER@, JSON_CONTENT_TYPE@),
        ]);
        assert(request@.query =~= Seq::empty());
        Ok(request)
    }
}

/// Reads the answer to `POST /messages`.
pub fn create_message_response(status: u16, body: &str) -> (r: Result<
    CreateMessageResponse,
    MessageError,
>)
    ensures
        answers(
            r,
            typed_outcome::<CreateMessageResponse>(json_outcome(status, body@), body@),
        ),
{
    read_answer(status, body)
}

/// Reads the answer to `POST /messages/count_tokens`.
pub fn count_tokens_response(status: u16, body: &str) -> (r: Result<
    CountMessageTokensResponse,
    MessageError,
>)
    ensures
        answers(
            r,
            typed_outcome::<CountMessageTokensResponse>(json_outcome(status, body@), body@),
        ),
{
    read_answer(status, body)
}

/// Reads the opening of a streamed answer. With a status that stands for
/// success the events may be read; `body` is then not looked at. Otherwise
/// the answer is an `ApiError` with the body as it came.
pub fn streaming_response(status: u16, body: &str) -> (r: Result<(), MessageError>)
    ensures
        result_view(r) == stream_opening(status, body@),
{
    if is_success(status) {
        Ok(())
    } else {
        Err(MessageError::ApiError(body.to_owned()))
    }
}

/// The error for a failure of the transport: the connection, or the body
/// while it was read.
pub fn transport_failure(reason: &str) -> (e: MessageError)
    ensures
        e@ == MessageErrorView::RequestFailed(reason@),
{
    MessageError::RequestFailed(reason.to_owned())
}

/// The error for the body of a failed answer that could not be read.
pub fn error_body_failure(reason: &str) -> (e: MessageError)
    ensures
        e@ == MessageErrorView::RequestFailed("Failed to read error response: "@ + reason@),
{
    MessageError::RequestFailed(concat2("Failed to read error response: ", reason))
}

} // verus!
