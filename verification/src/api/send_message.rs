//! SendMessage: appends a message to a queue.

use super::form::{get_optional_i32, get_required, optional_i32, required_field, Fields};
use super::helpers::{compute_md5, extract_queue_name_from_url, generate_random_uuid4, queue_name_of};
use super::{fails_with, ApiError, ErrorView, Param};
use crate::deps::{decode_form, form_fields, is_uuid_v4_text, md5_hex, pairs_view};
use crate::queue::{Message, MessageView, QueueView};
use crate::registry::{position_of, Registry};
use vstd::prelude::*;

verus! {

/// What a SendMessage request asks for. A delay is read and not acted on:
/// every message is visible as soon as it is sent.
#[derive(Debug)]
pub struct SendMessageParams {
    pub queue_url: String,
    pub message_body: String,
    pub delay_seconds: Option<i32>,
}

pub ghost struct SendMessageParamsView {
    pub queue_url: Seq<char>,
    pub message_body: Seq<char>,
    pub delay_seconds: Option<i32>,
}

impl View for SendMessageParams {
    type V = SendMessageParamsView;

    open spec fn view(&self) -> SendMessageParamsView {
        SendMessageParamsView {
            queue_url: self.queue_url@,
            message_body: self.message_body@,
            delay_seconds: self.delay_seconds,
        }
    }
}

/// The parameters that a form gives: `QueueUrl` and `MessageBody` are
/// required, `DelaySeconds` may be absent.
pub open spec fn parsed(fields: Fields) -> Result<SendMessageParamsView, ErrorView> {
    match required_field(fields, Param::QueueUrl) {
        Err(e) => Err(e),
        Ok(queue_url) => match required_field(fields, Param::MessageBody) {
            Err(e) => Err(e),
            Ok(message_body) => match optional_i32(fields, Param::DelaySeconds) {
                Err(e) => Err(e),
                Ok(delay_seconds) => Ok(
                    SendMessageParamsView { queue_url, message_body, delay_seconds },
                ),
            },
        },
    }
}

pub open spec fn params_result(r: Result<SendMessageParams, ApiError>) -> Result<
    SendMessageParamsView,
    ErrorView,
> {
    match r {
        Ok(p) => Ok(p@),
        Err(e) => Err(e@),
    }
}

/// Reads the parameters out of a decoded form.
pub fn parse(form: &Vec<(String, String)>) -> (r: Result<SendMessageParams, ApiError>)
    ensures
        params_result(r) == parsed(pairs_view(form@)),
{
    let queue_url = match get_required(form, Param::QueueUrl) {
        Ok(v) => v,
        Err(e) => return Err(e),
    };
    let message_body = match get_required(form, Param::MessageBody) {
        Ok(v) => v,
        Err(e) => return Err(e),
    };
    let delay_seconds = match get_optional_i32(form, Param::DelaySeconds) {
        Ok(v) => v,
        Err(e) => return Err(e),
    };
    Ok(SendMessageParams { queue_url, message_body, delay_seconds })
}

/// The answer to a SendMessage request.
#[derive(Debug)]
pub struct SendMessageResponse {
    pub message_id: String,
    pub md5_of_message_body: String,
    pub request_id: String,
}

/// What sending does at `now`. `before` and `after` are the registry
/// before and after it, `r` is the outcome.
///
/// A queue URL without a name and a queue that is not registered are
/// errors and change nothing. Else the queue gets one more message at its
/// tail: never received, visible from `now` on, with the request's body
/// and a new random id. The answer gives that id and the MD5 of the body.
pub open spec fn handle_post(
    before: Seq<QueueView>,
    params: SendMessageParamsView,
    now: u64,
    after: Seq<QueueView>,
    r: Result<SendMessageResponse, ApiError>,
) -> bool {
    match queue_name_of(params.queue_url) {
        None => after == before && fails_with(r, ErrorView::InvalidQueueUrl),
        Some(name) => match position_of(before, name) {
            None => after == before && fails_with(r, ErrorView::NonExistentQueue(name)),
            Some(i) => match r {
                Err(_) => false,
                Ok(answer) => {
                    &&& is_uuid_v4_text(answer.message_id@)
                    &&& is_uuid_v4_text(answer.request_id@)
                    &&& answer.md5_of_message_body@ == md5_hex(params.message_body)
                    &&& after == before.update(
                        i,
                        QueueView {
                            messages: before[i].messages.push(
                                MessageView::fresh(answer.message_id@, params.message_body, now),
                            ),
                            ..before[i]
                        },
                    )
                },
            },
        },
    }
}

/// Sends the message that `params` describes, at `now`.
pub fn handle(registry: &mut Registry, params: &SendMessageParams, now: u64) -> (r: Result<
    SendMessageResponse,
    ApiError,
>)
    ensures
        handle_post(old(registry)@, params@, now, final(registry)@, r),
{
    let name = match extract_queue_name_from_url(params.queue_url.as_str()) {
        Some(name) => name,
        None => return Err(ApiError::InvalidQueueUrl),
    };
    let message_id = generate_random_uuid4();
    let i = match registry.position(name.as_str()) {
        Some(i) => i,
        None => return Err(ApiError::NonExistentQueue(name)),
    };
    registry.push(i, Message::new_at(message_id.clone(), params.message_body.clone(), now));
    Ok(
        SendMessageResponse {
            message_id,
            md5_of_message_body: compute_md5(params.message_body.as_str()),
            request_id: generate_random_uuid4(),
        },
    )
}

/// What a SendMessage request does, from its body on.
pub open spec fn process_post(
    before: Seq<QueueView>,
    body: Seq<u8>,
    now: u64,
    after: Seq<QueueView>,
    r: Result<SendMessageResponse, ApiError>,
) -> bool {
    match form_fields(body) {
        None => after == before && fails_with(r, ErrorView::MalformedBody),
        Some(fields) => match parsed(fields) {
            Err(error) => after == before && fails_with(r, error),
            Ok(params) => handle_post(before, params, now, after, r),
        },
    }
}

/// Handles a SendMessage request that arrives at `now`.
pub fn process(registry: &mut Registry, payload: &[u8], now: u64) -> (r: Result<
    SendMessageResponse,
    ApiError,
>)
    ensures
        process_post(old(registry)@, payload@, now, final(registry)@, r),
{
    let form = match decode_form(payload) {
        Some(form) => form,
        None => return Err(ApiError::MalformedBody),
    };
    let params = match parse(&form) {
        Ok(p) => p,
        Err(e) => return Err(e),
    };
    handle(registry, &params, now)
}

} // verus!
