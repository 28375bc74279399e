//! ChangeMessageVisibility: moves the moment at which a message in flight
//! becomes visible again.

use super::form::{get_required, get_required_u32, required_field, required_u32, Fields};
use super::helpers::{extract_queue_name_from_url, generate_random_uuid4, queue_name_of};
use super::{fails_with, ApiError, ErrorView, Param};
use crate::deps::{decode_form, form_fields, is_uuid_v4_text, pairs_view};
use crate::queue::model::{after_change_visibility, first_holder};
use crate::queue::QueueView;
use crate::registry::{position_of, Registry};
use vstd::prelude::*;

verus! {

/// What a ChangeMessageVisibility request asks for.
#[derive(Debug)]
pub struct ChangeMessageVisibilityParams {
    pub queue_url: String,
    pub receipt_handle: String,
    pub visibility_timeout: u32,
}

pub ghost struct ChangeMessageVisibilityParamsView {
    pub queue_url: Seq<char>,
    pub receipt_handle: Seq<char>,
    pub visibility_timeout: u32,
}

impl View for ChangeMessageVisibilityParams {
    type V = ChangeMessageVisibilityParamsView;

    open spec fn view(&self) -> ChangeMessageVisibilityParamsView {
        ChangeMessageVisibilityParamsView {
            queue_url: self.queue_url@,
            receipt_handle: self.receipt_handle@,
            visibility_timeout: self.visibility_timeout,
        }
    }
}

/// The parameters that a form gives: `QueueUrl`, `ReceiptHandle` and
/// `VisibilityTimeout`, all required.
pub open spec fn parsed(fields: Fields) -> Result<ChangeMessageVisibilityParamsView, ErrorView> {
    match required_field(fields, Param::QueueUrl) {
        Err(e) => Err(e),
        Ok(queue_url) => match required_field(fields, Param::ReceiptHandle) {
            Err(e) => Err(e),
            Ok(receipt_handle) => match required_u32(fields, Param::VisibilityTimeout) {
                Err(e) => Err(e),
                Ok(visibility_timeout) => Ok(
                    ChangeMessageVisibilityParamsView {
                        queue_url,
                        receipt_handle,
                        visibility_timeout,
                    },
                ),
            },
        },
    }
}

pub open spec fn params_result(r: Result<ChangeMessageVisibilityParams, ApiError>) -> Result<
    ChangeMessageVisibilityParamsView,
    ErrorView,
> {
    match r {
        Ok(p) => Ok(p@),
        Err(e) => Err(e@),
    }
}

/// Reads the parameters out of a decoded form.
pub fn parse(form: &Vec<(String, String)>) -> (r: Result<ChangeMessageVisibilityParams, ApiError>)
    ensures
        params_result(r) == parsed(pairs_view(form@)),
{
    let queue_url = match get_required(form, Param::QueueUrl) {
        Ok(v) => v,
        Err(e) => return Err(e),
    };
    let receipt_handle = match get_required(form, Param::ReceiptHandle) {
        Ok(v) => v,
        Err(e) => return Err(e),
    };
    let visibility_timeout = match get_required_u32(form, Param::VisibilityTimeout) {
        Ok(v) => v,
        Err(e) => return Err(e),
    };
    Ok(ChangeMessageVisibilityParams { queue_url, receipt_handle, visibility_timeout })
}

/// The answer to a ChangeMessageVisibility request.
#[derive(Debug)]
pub struct ChangeMessageVisibilityResponse {
    pub request_id: String,
}

/// What the change does at `now`. `before` and `after` are the registry
/// before and after it, `r` is the outcome.
///
/// A queue URL without a name, a queue that is not registered and a handle
/// that no message of the queue carries are errors and change nothing.
/// Else the first message that carries the handle becomes visible
/// `VisibilityTimeout` seconds after `now`.
pub open spec fn handle_post(
    before: Seq<QueueView>,
    params: ChangeMessageVisibilityParamsView,
    now: u64,
    after: Seq<QueueView>,
    r: Result<ChangeMessageVisibilityResponse, ApiError>,
) -> bool {
    match queue_name_of(params.queue_url) {
        None => after == before && fails_with(r, ErrorView::InvalidQueueUrl),
        Some(name) => match position_of(before, name) {
            None => after == before && fails_with(r, ErrorView::NonExistentQueue(name)),
            Some(i) => if first_holder(before[i].messages, params.receipt_handle) is None {
                after == before && fails_with(r, ErrorView::InvalidReceiptHandle)
            } else {
                match r {
                    Err(_) => false,
                    Ok(answer) => {
                        &&& is_uuid_v4_text(answer.request_id@)
                        &&& after == before.update(
                            i,
                            QueueView {
                                messages: after_change_visibility(
                                    before[i].messages,
                                    params.receipt_handle,
                                    now,
                                    params.visibility_timeout,
                                ),
                                ..before[i]
                            },
                        )
                    },
                }
            },
        },
    }
}

/// Makes the change that `params` describes, at `now`.
pub fn handle(registry: &mut Registry, params: &ChangeMessageVisibilityParams, now: u64) -> (r:
    Result<ChangeMessageVisibilityResponse, ApiError>)
    ensures
        handle_post(old(registry)@, params@, now, final(registry)@, r),
{
    let name = match extract_queue_name_from_url(params.queue_url.as_str()) {
        Some(name) => name,
        None => return Err(ApiError::InvalidQueueUrl),
    };
    let i = match registry.position(name.as_str()) {
        Some(i) => i,
        None => return Err(ApiError::NonExistentQueue(name)),
    };
    let ghost before = registry@;
    if !registry.change_visibility_at(
        i,
        params.receipt_handle.as_str(),
        params.visibility_timeout,
        now,
    ) {
        assert(registry@ =~= before);
        return Err(ApiError::InvalidReceiptHandle);
    }
    Ok(ChangeMessageVisibilityResponse { request_id: generate_random_uuid4() })
}

/// What a ChangeMessageVisibility request does, from its body on.
pub open spec fn process_post(
    before: Seq<QueueView>,
    body: Seq<u8>,
    now: u64,
    after: Seq<QueueView>,
    r: Result<ChangeMessageVisibilityResponse, ApiError>,
) -> bool {
    match form_fields(body) {
        None => after == before && fails_with(r, ErrorView::MalformedBody),
        Some(fields) => match parsed(fields) {
            Err(error) => after == before && fails_with(r, error),
            Ok(params) => handle_post(before, params, now, after, r),
        },
    }
}

/// Handles a ChangeMessageVisibility request that arrives at `now`.
pub fn process(registry: &mut Registry, payload: &[u8], now: u64) -> (r: Result<
    ChangeMessageVisibilityResponse,
    ApiError,
>)
    ensures
        process_post(old(registry)@, payload@, now, final(registry)@, r),
{
    let form = match decode_form(payload) {
        Some(form) => form,
        None => return Err(ApiError::MalformedBody),
    };
    let params = match parse(&form) {
        Ok(p) => p,
        Err(e) => return Err(e),
    };
    handle(registry, &params, now)
}

} // verus!
