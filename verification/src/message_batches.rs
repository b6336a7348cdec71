//! Message Batches API: the six calls for batches.
use vstd::prelude::*;
use vstd::utf8::{decode_utf8, encode_utf8, valid_utf8};
use crate::clients::{
    answers, error_from, is_error_from, is_header_text, is_success, is_success_status,
    json_outcome, pairs_view, planned_request, plans, read_answer, shape_error, shape_reason,
    typed_outcome, unreadable_body_message, AnthropicClient, HttpMethod, HttpRequest,
};
use crate::error::MessageBatchError;
use crate::json::{
    json_document, json_rendering, views, FromJson, JsonValue, ToJson,
};
use crate::sse::{first_of, lemma_first_of_found, lemma_first_of_is_least, CR, LF, SPACE};
use crate::text::{concat2, text_of_bytes};
use crate::types::message_batches::{
    CancelMessageBatchParams, CreateMessageBatchParams, DeleteMessageBatchParams, DeleteResponse,
    ListMessageBatchesParams, ListMessageBatchesResponse, MessageBatch, MessageBatchResult,
    MessageBatchResultView, RetrieveMessageBatchParams, RetrieveMessageBatchResultsParams,
};

verus! {

/// The path of a batch, with `tail` behind the ID of the batch.
pub open spec fn batch_path(message_batch_id: Seq<char>, tail: Seq<char>) -> Seq<char> {
    "/messages/batches/"@ + message_batch_id + tail
}

fn path_of_batch(message_batch_id: &str, tail: &str) -> (r: String)
    ensures
        r@ == batch_path(message_batch_id@, tail@),
{
    let head = concat2("/messages/batches/", message_batch_id);
    concat2(head.as_str(), tail)
}

fn no_query() -> (r: Vec<(String, String)>)
    ensures
        pairs_view(r@) == Seq::<(Seq<char>, Seq<char>)>::empty(),
{
    let query: Vec<(String, String)> = Vec::new();
    assert(pairs_view(query@) =~= Seq::empty());
    query
}

impl AnthropicClient {
    /// Plans `POST /messages/batches`: a new batch. A batch of more than
    /// 100,000 requests is refused with `BatchTooLarge`.
    pub fn create_message_batch_request(&self, params: &CreateMessageBatchParams) -> (r: Result<
        HttpRequest,
        MessageBatchError,
    >)
        ensures
            !params.within_limit() ==> r == Err::<HttpRequest, _>(MessageBatchError::BatchTooLarge),
            params.within_limit() ==> plans(
                r,
                planned_request(
                    self@,
                    HttpMethod::Post,
                    "/messages/batches"@,
                    Seq::empty(),
                    Some(json_rendering(CreateMessageBatchParams::json(params@))),
                ),
            ),
            params.within_limit() && is_header_text(self@.api_key) ==> r is Ok,
    {
        if !params.is_within_limit() {
            return Err(MessageBatchError::BatchTooLarge);
        }
        let body = params.to_json();
        self.plan_post("/messages/batches", Some(&body))
    }

    /// Plans `GET /messages/batches`: one page of the batches.
    pub fn list_message_batches_request(&self, params: Option<&ListMessageBatchesParams>) -> (r:
        Result<HttpRequest, MessageBatchError>)
        ensures
            plans(
                r,
                planned_request(
                    self@,
                    HttpMethod::Get,
                    "/messages/batches"@,
                    match params {
                        Some(p) => p.query(),
                        None => Seq::empty(),
                    },
                    None,
                ),
            ),
    {
        let query = match params {
            Some(p) => p.to_query(),
            None => no_query(),
        };
        self.plan_get("/messages/batches", query)
    }

    /// Plans `GET /messages/batches/{id}`: one batch.
    pub fn retrieve_message_batch_request(&self, params: &RetrieveMessageBatchParams) -> (r: Result<
        HttpRequest,
        MessageBatchError,
    >)
        ensures
            plans(
                r,
                planned_request(
                    self@,
                    HttpMethod::Get,
                    batch_path(params.message_batch_id@, Seq::empty()),
                    Seq::empty(),
                    None,
                ),
            ),
    {
        proof {
            reveal_strlit("");
            assert(""@ =~= Seq::<char>::empty());
        }
        let path = path_of_batch(params.message_batch_id.as_str(), "");
        self.plan_get(path.as_str(), no_query())
    }

    /// Plans `GET /messages/batches/{id}/results`: the results of a batch
    /// that has ended.
    pub fn retrieve_message_batch_results_request(
        &self,
        params: &RetrieveMessageBatchResultsParams,
    ) -> (r: Result<HttpRequest, MessageBatchError>)
        ensures
            plans(
                r,
                planned_request(
                    self@,
                    HttpMethod::Get,
                    batch_path(params.message_batch_id@, "/results"@),
                    Seq::empty(),
                    None,
                ),
            ),
    {
        let path = path_of_batch(params.message_batch_id.as_str(), "/results");
        self.plan_get(path.as_str(), no_query())
    }

    /// Plans `POST /messages/batches/{id}/cancel`: the end of a batch before
    /// its time.
    pub fn cancel_message_batch_request(&self, params: &CancelMessageBatchParams) -> (r: Result<
        HttpRequest,
        MessageBatchError,
    >)
        ensures
            plans(
                r,
                planned_request(
                    self@,
                    HttpMethod::Post,
                    batch_path(params.message_batch_id@, "/cancel"@),
                    Seq::empty(),
                    None,
                ),
            ),
    {
        let path = path_of_batch(params.message_batch_id.as_str(), "/cancel");
        self.plan_post(path.as_str(), None)
    }

    /// Plans `DELETE /messages/batches/{id}`: the removal of a batch.
    pub fn delete_message_batch_request(&self, params: &DeleteMessageBatchParams) -> (r: Result<
        HttpRequest,
        MessageBatchError,
    >)
        ensures
            plans(
                r,
                planned_request(
                    self@,
                    HttpMethod::Delete,
                    batch_path(params.message_batch_id@, Seq::empty()),
                    Seq::empty(),
                    None,
                ),
            ),
    {
        proof {
            reveal_strlit("");
            assert(""@ =~= Seq::<char>::empty());
        }
        let path = path_of_batch(params.message_batch_id.as_str(), "");
        self.plan_delete(path.as_str(), no_query())
    }
}

/// Reads the answer of a call that answers with a batch: the calls that
/// create, retrieve and cancel one.
pub fn message_batch_response(status: u16, body: &str) -> (r: Result<MessageBatch, MessageBatchError>)
    ensures
        answers(
            r,
            typed_outcome::<MessageBatch>(json_outcome(status, body@), body@),
        ),
{
    read_answer(status, body)
}

/// Reads the answer to `GET /messages/batches`.
pub fn list_message_batches_response(status: u16, body: &str) -> (r: Result<
    ListMessageBatchesResponse,
    MessageBatchError,
>)
    ensures
        answers(
            r,
            typed_outcome::<ListMessageBatchesResponse>(json_outcome(status, body@), body@),
        ),
{
    read_answer(status, body)
}

/// Reads the answer to `DELETE /messages/batches/{id}`.
pub fn delete_message_batch_response(status: u16, body: &str) -> (r: Result<
    DeleteResponse,
    MessageBatchError,
>)
    ensures
        answers(
            r,
            typed_outcome::<DeleteResponse>(json_outcome(status, body@), body@),
        ),
{
    read_answer(status, body)
}

/// A line that holds nothing but blanks, tabs and carriage returns.
pub open spec fn is_blank(line: Seq<u8>) -> bool {
    forall|i: int| 0 <= i < line.len() ==> is_blank_byte(#[trigger] line[i])
}

/// A blank, a tab or a carriage return.
pub open spec fn is_blank_byte(b: u8) -> bool {
    b == SPACE || b == 9 || b == CR
}

/// The result that a line of a results body describes, if it describes one.
pub open spec fn line_result(line: Seq<u8>) -> Option<MessageBatchResultView> {
    if valid_utf8(line) {
        match json_document(decode_utf8(line)) {
            Ok(j) => MessageBatchResult::of_json(j),
            Err(_) => None,
        }
    } else {
        None
    }
}

/// `results` in front of what follows them, where something follows.
pub open spec fn followed_by(
    results: Seq<MessageBatchResultView>,
    rest: Option<Seq<MessageBatchResultView>>,
) -> Option<Seq<MessageBatchResultView>> {
    match rest {
        Some(rest) => Some(results + rest),
        None => None,
    }
}

/// The results that a results body describes from the byte `from` on: one
/// for every line that is not blank, in the order of the lines; `None` where
/// such a line describes no result. Lines end with LF, and the last line may
/// do without.
pub open spec fn results_from(body: Seq<u8>, from: int) -> Option<Seq<MessageBatchResultView>>
    decreases body.len() - from,
    via results_end
{
    if from < 0 || from >= body.len() {
        Some(Seq::empty())
    } else {
        let end = first_of(body, from, LF, LF);
        let line = body.subrange(from, end);
        let rest = if end >= body.len() {
            Some(Seq::empty())
        } else {
            results_from(body, end + 1)
        };
        if is_blank(line) {
            rest
        } else {
            match line_result(line) {
                Some(result) => followed_by(seq![result], rest),
                None => None,
            }
        }
    }
}

#[via_fn]
proof fn results_end(body: Seq<u8>, from: int) {
    if 0 <= from < body.len() {
        lemma_first_of_is_least(body, from, LF, LF);
    }
}

/// What the answer to `GET /messages/batches/{id}/results` means: the
/// results that the body describes line by line, or the message of the
/// error. An answer without success is reported with its body as it came.
pub open spec fn results_outcome(status: u16, body: Seq<char>) -> Result<
    Seq<MessageBatchResultView>,
    Seq<char>,
> {
    if !is_success_status(status) {
        Err(body)
    } else {
        match results_from(encode_utf8(body), 0) {
            Some(results) => Ok(results),
            None => Err(unreadable_body_message(shape_reason(), body)),
        }
    }
}

fn blank(bytes: &[u8], from: usize, to: usize) -> (r: bool)
    requires
        from <= to <= bytes@.len(),
    ensures
        r == is_blank(bytes@.subrange(from as int, to as int)),
{
    let ghost line = bytes@.subrange(from as int, to as int);
    let mut i: usize = from;
    while i < to
        invariant
            from <= i <= to <= bytes@.len(),
            line == bytes@.subrange(from as int, to as int),
            forall|k: int| 0 <= k < i - from ==> is_blank_byte(#[trigger] line[k]),
        decreases to - i,
    {
        let b = bytes[i];
        if !(b == SPACE || b == 9 || b == CR) {
            assert(!is_blank_byte(line[i - from]));
            return false;
        }
        i = i + 1;
    }
    true
}

/// Reads the answer to `GET /messages/batches/{id}/results`: a body of
/// lines, one result to the line.
pub fn message_batch_results_response(status: u16, body: &str) -> (r: Result<
    Vec<MessageBatchResult>,
    MessageBatchError,
>)
    ensures
        match r {
            Ok(results) => results_outcome(status, body@) == Ok::<_, Seq<char>>(views(results@)),
            Err(e) => results_outcome(status, body@) is Err && is_error_from(
                e,
                results_outcome(status, body@)->Err_0,
            ),
        },
{
    if !is_success(status) {
        return Err(error_from(body.to_owned()));
    }
    let bytes = body.as_bytes();
    let mut results: Vec<MessageBatchResult> = Vec::new();
    let mut pos: usize = 0;
    assert(Seq::<MessageBatchResultView>::empty() + results_from(bytes@, 0)->0 =~= results_from(
        bytes@,
        0,
    )->0);
    while pos < bytes.len()
        invariant
            pos <= bytes@.len(),
            bytes@ == encode_utf8(body@),
            is_success_status(status),
            results_from(bytes@, 0) == followed_by(
                views(results@),
                results_from(bytes@, pos as int),
            ),
        decreases bytes@.len() - pos,
    {
        let mut end: usize = pos;
        while end < bytes.len() && bytes[end] != LF
            invariant
                pos <= end <= bytes@.len(),
                forall|k: int| pos <= k < end ==> bytes@[k] != LF,
            decreases bytes.len() - end,
        {
            end = end + 1;
        }
        proof {
            lemma_first_of_found(bytes@, pos as int, LF, LF, end as int);
        }
        let next: usize = if end >= bytes.len() {
            end
        } else {
            end + 1
        };
        let ghost before = views(results@);
        let ghost rest = results_from(bytes@, next as int);
        if !blank(bytes, pos, end) {
            let line = vstd::slice::slice_subrange(bytes, pos, end);
            let decoded = match text_of_bytes(line) {
                Some(text) => match JsonValue::parse(text.as_str()) {
                    Ok(value) => MessageBatchResult::from_json(&value),
                    Err(_) => None,
                },
                None => None,
            };
            assert(match decoded {
                Some(result) => line_result(line@) == Some(result@),
                None => line_result(line@) is None,
            });
            match decoded {
                Some(result) => {
                    let ghost shown = result@;
                    results.push(result);
                    assert(views(results@) =~= before + seq![shown]);
                    assert(rest is Some ==> before + (seq![shown] + rest->0) =~= (before + seq![
                        shown,
                    ]) + rest->0);
                },
                None => {
                    assert(results_from(bytes@, pos as int) is None);
                    return Err(shape_error(body));
                },
            }
        }
        pos = next;
    }
    assert(views(results@) + Seq::<MessageBatchResultView>::empty() =~= views(
        results@,
    ));
    Ok(results)
}

/// The error of a message batch call that failed on the way: the request could not
/// be sent, or the answer could not be received. `reason` is what the
/// transport reports.
pub fn transport_failure(reason: &str) -> (e: MessageBatchError)
    ensures
        e matches MessageBatchError::RequestFailed(m) && m@ == reason@,
{
    MessageBatchError::RequestFailed(reason.to_owned())
}

} // verus!
