//! GetQueueUrl: the URL of a queue that is registered.

use super::form::{get_required, required_field, Fields};
use super::helpers::{generate_random_uuid4, queue_url, queue_url_of};
use super::{fails_with, ApiError, ErrorView, Param};
use crate::deps::{decode_form, form_fields, is_uuid_v4_text, pairs_view};
use crate::queue::QueueView;
use crate::registry::{position_of, Registry};
use vstd::prelude::*;

verus! {

/// What a GetQueueUrl request asks for.
#[derive(Debug)]
pub struct GetQueueUrlParams {
    pub queue_name: String,
}

/// The parameter that a form gives: `QueueName`, required.
pub open spec fn parsed(fields: Fields) -> Result<Seq<char>, ErrorView> {
    required_field(fields, Param::QueueName)
}

pub open spec fn params_result(r: Result<GetQueueUrlParams, ApiError>) -> Result<
    Seq<char>,
    ErrorView,
> {
    match r {
        Ok(p) => Ok(p.queue_name@),
        Err(e) => Err(e@),
    }
}

/// Reads the parameter out of a decoded form.
pub fn parse(form: &Vec<(String, String)>) -> (r: Result<GetQueueUrlParams, ApiError>)
    ensures
        params_result(r) == parsed(pairs_view(form@)),
{
    match get_required(form, Param::QueueName) {
        Ok(queue_name) => Ok(GetQueueUrlParams { queue_name }),
        Err(e) => Err(e),
    }
}

/// The answer to a GetQueueUrl request.
#[derive(Debug)]
pub struct GetQueueUrlResponse {
    pub queue_url: String,
    pub request_id: String,
}

/// The outcome for the queue `name` on the host `host`: its URL if the
/// queue is registered, an error if not.
pub open spec fn handle_post(
    queues: Seq<QueueView>,
    host: Seq<char>,
    name: Seq<char>,
    r: Result<GetQueueUrlResponse, ApiError>,
) -> bool {
    match position_of(queues, name) {
        None => fails_with(r, ErrorView::NonExistentQueue(name)),
        Some(_) => match r {
            Err(_) => false,
            Ok(answer) => answer.queue_url@ == queue_url_of(host, name) && is_uuid_v4_text(
                answer.request_id@,
            ),
        },
    }
}

/// Answers with the URL of the queue that `params` names.
pub fn handle(registry: &Registry, host_name: &str, params: &GetQueueUrlParams) -> (r: Result<
    GetQueueUrlResponse,
    ApiError,
>)
    ensures
        handle_post(registry@, host_name@, params.queue_name@, r),
{
    if !registry.contains(params.queue_name.as_str()) {
        return Err(ApiError::NonExistentQueue(params.queue_name.clone()));
    }
    Ok(
        GetQueueUrlResponse {
            queue_url: queue_url(host_name, params.queue_name.as_str()),
            request_id: generate_random_uuid4(),
        },
    )
}

/// What a GetQueueUrl request gives, from its body on.
pub open spec fn process_post(
    queues: Seq<QueueView>,
    host: Seq<char>,
    body: Seq<u8>,
    r: Result<GetQueueUrlResponse, ApiError>,
) -> bool {
    match form_fields(body) {
        None => fails_with(r, ErrorView::MalformedBody),
        Some(fields) => match parsed(fields) {
            Err(error) => fails_with(r, error),
            Ok(name) => handle_post(queues, host, name, r),
        },
    }
}

/// Handles a GetQueueUrl request.
pub fn process(registry: &Registry, host_name: &str, payload: &[u8]) -> (r: Result<
    GetQueueUrlResponse,
    ApiError,
>)
    ensures
        process_post(registry@, host_name@, payload@, r),
{
    let form = match decode_form(payload) {
        Some(form) => form,
        None => return Err(ApiError::MalformedBody),
    };
    let params = match parse(&form) {
        Ok(p) => p,
        Err(e) => return Err(e),
    };
    handle(registry, host_name, &params)
}

} // verus!
