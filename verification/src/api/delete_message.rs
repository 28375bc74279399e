//! DeleteMessage: deletes the message in flight that a receipt handle
//! stands for.

use super::form::{get_required, required_field, Fields};
use super::helpers::{extract_queue_name_from_url, generate_random_uuid4, queue_name_of};
use super::{fails_with, ApiError, ErrorView, Param};
use crate::deps::{decode_form, form_fields, is_uuid_v4_text, pairs_view};
use crate::queue::model::{after_delete, first_holder};
use crate::queue::QueueView;
use crate::registry::{position_of, Registry};
use vstd::prelude::*;

verus! {

/// What a DeleteMessage request asks for.
#[derive(Debug)]
pub struct DeleteMessageParams {
    pub queue_url: String,
    pub receipt_handle: String,
}

pub ghost struct DeleteMessageParamsView {
    pub queue_url: Seq<char>,
    pub receipt_handle: Seq<char>,
}

impl View for DeleteMessageParams {
    type V = DeleteMessageParamsView;

    open spec fn view(&self) -> DeleteMessageParamsView {
        DeleteMessageParamsView {
            queue_url: self.queue_url@,
            receipt_handle: self.receipt_handle@,
        }
    }
}

/// The parameters that a form gives: `QueueUrl` and `ReceiptHandle`, both
/// required.
pub open spec fn parsed(fields: Fields) -> Result<DeleteMessageParamsView, ErrorView> {
    match required_field(fields, Param::QueueUrl) {
        Err(e) => Err(e),
        Ok(queue_url) => match required_field(fields, Param::ReceiptHandle) {
            Err(e) => Err(e),
            Ok(receipt_handle) => Ok(DeleteMessageParamsView { queue_url, receipt_handle }),
        },
    }
}

pub open spec fn params_result(r: Result<DeleteMessageParams, ApiError>) -> Result<
    DeleteMessageParamsView,
    ErrorView,
> {
    match r {
        Ok(p) => Ok(p@),
        Err(e) => Err(e@),
    }
}

/// Reads the parameters out of a decoded form.
pub fn parse(form: &Vec<(String, String)>) -> (r: Result<DeleteMessageParams, ApiError>)
    ensures
        params_result(r) == parsed(pairs_view(form@)),
{
    let queue_url = match get_required(form, Param::QueueUrl) {
        Ok(v) => v,
        Err(e) => return Err(e),
    };
    let receipt_handle = match get_required(form, Param::ReceiptHandle) {
        Ok(v) => v,
        Err(e) => return Err(e),
    };
    Ok(DeleteMessageParams { queue_url, receipt_handle })
}

/// The answer to a DeleteMessage request.
#[derive(Debug)]
pub struct DeleteMessageResponse {
    pub request_id: String,
}

/// What deleting does. `before` and `after` are the registry before and
/// after it, `r` is the outcome.
///
/// A queue URL without a name, a queue that is not registered and a handle
/// that no message of the queue carries are errors and change nothing.
/// Else the first message that carries the handle leaves the queue.
pub open spec fn handle_post(
    before: Seq<QueueView>,
    params: DeleteMessageParamsView,
    after: Seq<QueueView>,
    r: Result<DeleteMessageResponse, ApiError>,
) -> bool {
    match queue_name_of(params.queue_url) {
        None => after == before && fails_with(r, ErrorView::InvalidQueueUrl),
        Some(name) => match position_of(before, name) {
            None => after == before && fails_with(r, ErrorView::NonExistentQueue(name)),
            Some(i) => if first_holder(before[i].messages, params.receipt_handle) is None {
                after == before && fails_with(r, ErrorView::InvalidReceiptHandle)
            } else {
                match r {
                    Err(_) => false,
                    Ok(answer) => {
                        &&& is_uuid_v4_text(answer.request_id@)
                        &&& after == before.update(
                            i,
                            QueueView {
                                messages: after_delete(before[i].messages, params.receipt_handle),
                                ..before[i]
                            },
                        )
                    },
                }
            },
        },
    }
}

/// Deletes the message that `params` names.
pub fn handle(registry: &mut Registry, params: &DeleteMessageParams) -> (r: Result<
    DeleteMessageResponse,
    ApiError,
>)
    ensures
        handle_post(old(registry)@, params@, final(registry)@, r),
{
    let name = match extract_queue_name_from_url(params.queue_url.as_str()) {
        Some(name) => name,
        None => return Err(ApiError::InvalidQueueUrl),
    };
    let i = match registry.position(name.as_str()) {
        Some(i) => i,
        None => return Err(ApiError::NonExistentQueue(name)),
    };
    let ghost before = registry@;
    if !registry.delete_by_receipt_handle(i, params.receipt_handle.as_str()) {
        assert(registry@ =~= before);
        return Err(ApiError::InvalidReceiptHandle);
    }
    Ok(DeleteMessageResponse { request_id: generate_random_uuid4() })
}

/// What a DeleteMessage request does, from its body on.
pub open spec fn process_post(
    before: Seq<QueueView>,
    body: Seq<u8>,
    after: Seq<QueueView>,
    r: Result<DeleteMessageResponse, ApiError>,
) -> bool {
    match form_fields(body) {
        None => after == before && fails_with(r, ErrorView::MalformedBody),
        Some(fields) => match parsed(fields) {
            Err(error) => after == before && fails_with(r, error),
            Ok(params) => handle_post(before, params, after, r),
        },
    }
}

/// Handles a DeleteMessage request.
pub fn process(registry: &mut Registry, payload: &[u8]) -> (r: Result<
    DeleteMessageResponse,
    ApiError,
>)
    ensures
        process_post(old(registry)@, payload@, final(registry)@, r),
{
    let form = match decode_form(payload) {
        Some(form) => form,
        None => return Err(ApiError::MalformedBody),
    };
    let params = match parse(&form) {
        Ok(p) => p,
        Err(e) => return Err(e),
    };
    handle(registry, &params)
}

} // verus!
