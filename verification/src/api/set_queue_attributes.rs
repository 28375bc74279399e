//! SetQueueAttributes: sets attributes of a queue.
//!
//! The visibility timeout lives in the queue itself and is set here. All
//! attributes, that one too, belong in the attribute store; writing them
//! there is the caller's work, after this module's part and outside the
//! registry's lock. If that write fails the caller answers with an internal
//! error, and the queue keeps the timeout that was set here.

use super::form::{get_required, required_field, Fields};
use super::helpers::{
    attributes_of, extract_from_extra, extract_queue_name_from_url, extracted,
    generate_random_uuid4, get_attributes, get_pair, lookup, queue_name_of, Pairs,
    ATTRIBUTE_PATTERN,
};
use super::{fails_with, ApiError, ErrorView, Param};
use crate::deps::{decode_form, form_fields, is_uuid_v4_text, pairs_view};
use crate::queue::QueueView;
use crate::registry::{position_of, Registry};
use crate::text::{parse_u32, u32_of};
use vstd::prelude::*;

verus! {

/// What a SetQueueAttributes request asks for: a queue, and the attributes
/// to set, as an ordered map.
#[derive(Debug)]
pub struct SetQueueAttributesParams {
    pub queue_url: String,
    pub attributes: Vec<(String, String)>,
}

pub ghost struct SetQueueAttributesParamsView {
    pub queue_url: Seq<char>,
    pub attributes: Pairs,
}

impl View for SetQueueAttributesParams {
    type V = SetQueueAttributesParamsView;

    open spec fn view(&self) -> SetQueueAttributesParamsView {
        SetQueueAttributesParamsView {
            queue_url: self.queue_url@,
            attributes: pairs_view(self.attributes@),
        }
    }
}

/// The parameters that a form gives: `QueueUrl`, required, and the
/// attributes that its indexed `Attribute.N.Name` and `Attribute.N.Value`
/// fields give.
pub open spec fn parsed(fields: Fields) -> Result<SetQueueAttributesParamsView, ErrorView> {
    match required_field(fields, Param::QueueUrl) {
        Err(e) => Err(e),
        Ok(queue_url) => Ok(
            SetQueueAttributesParamsView {
                queue_url,
                attributes: attributes_of(extracted(ATTRIBUTE_PATTERN@, fields)),
            },
        ),
    }
}

pub open spec fn params_result(r: Result<SetQueueAttributesParams, ApiError>) -> Result<
    SetQueueAttributesParamsView,
    ErrorView,
> {
    match r {
        Ok(p) => Ok(p@),
        Err(e) => Err(e@),
    }
}

/// Reads the parameters out of a decoded form.
pub fn parse(form: &Vec<(String, String)>) -> (r: Result<SetQueueAttributesParams, ApiError>)
    ensures
        params_result(r) == parsed(pairs_view(form@)),
{
    let queue_url = match get_required(form, Param::QueueUrl) {
        Ok(v) => v,
        Err(e) => return Err(e),
    };
    let entries = extract_from_extra(ATTRIBUTE_PATTERN, form);
    let attributes = get_attributes(&entries);
    Ok(SetQueueAttributesParams { queue_url, attributes })
}

/// The answer to a SetQueueAttributes request.
#[derive(Debug)]
pub struct SetQueueAttributesResponse {
    pub request_id: String,
}

/// What is left to do once the queue has been updated: write `attributes`
/// to the attribute store under `queue_name`, then give `answer`.
#[derive(Debug)]
pub struct Persist {
    pub queue_name: String,
    pub attributes: Vec<(String, String)>,
    pub answer: SetQueueAttributesResponse,
}

/// The visibility timeout that a set of attributes gives: the value under
/// `VisibilityTimeout`, if it is there and writes a `u32`.
pub open spec fn new_timeout(attributes: Pairs) -> Option<u32> {
    match lookup(attributes, "VisibilityTimeout"@) {
        Some(v) => u32_of(v),
        None => None,
    }
}

/// What setting does. `before` and `after` are the registry before and
/// after it, `r` is the outcome.
///
/// A queue URL without a name, a request without attributes and a queue
/// that is not registered are errors, found in this order, and change
/// nothing. Else the queue gets the visibility timeout that the attributes
/// give, if they give one, and all attributes are handed back to be stored.
pub open spec fn handle_post(
    before: Seq<QueueView>,
    params: SetQueueAttributesParamsView,
    after: Seq<QueueView>,
    r: Result<Persist, ApiError>,
) -> bool {
    match queue_name_of(params.queue_url) {
        None => after == before && fails_with(r, ErrorView::InvalidQueueUrl),
        Some(name) => if params.attributes.len() == 0 {
            after == before && fails_with(r, ErrorView::NoAttributes)
        } else {
            match position_of(before, name) {
                None => after == before && fails_with(r, ErrorView::NonExistentQueue(name)),
                Some(i) => match r {
                    Err(_) => false,
                    Ok(todo) => {
                        &&& todo.queue_name@ == name
                        &&& pairs_view(todo.attributes@) == params.attributes
                        &&& is_uuid_v4_text(todo.answer.request_id@)
                        &&& after == match new_timeout(params.attributes) {
                            Some(t) => before.update(
                                i,
                                QueueView { default_visibility_timeout: t, ..before[i] },
                            ),
                            None => before,
                        }
                    },
                },
            }
        },
    }
}

/// Copies an ordered map.
pub fn copy_pairs(v: &Vec<(String, String)>) -> (r: Vec<(String, String)>)
    ensures
        pairs_view(r@) == pairs_view(v@),
{
    let mut r: Vec<(String, String)> = Vec::new();
    let n = v.len();
    let mut i: usize = 0;
    while i < n
        invariant
            n == v.len(),
            i <= n,
            r.len() == i,
            forall|k: int|
                0 <= k < i ==> (#[trigger] r[k]).0@ == v[k].0@ && r[k].1@ == v[k].1@,
        decreases n - i,
    {
        r.push((v[i].0.clone(), v[i].1.clone()));
        i = i + 1;
    }
    assert(pairs_view(r@) =~= pairs_view(v@));
    r
}

/// Sets the attributes that `params` holds.
pub fn handle(registry: &mut Registry, params: &SetQueueAttributesParams) -> (r: Result<
    Persist,
    ApiError,
>)
    ensures
        handle_post(old(registry)@, params@, final(registry)@, r),
{
    let name = match extract_queue_name_from_url(params.queue_url.as_str()) {
        Some(name) => name,
        None => return Err(ApiError::InvalidQueueUrl),
    };
    if params.attributes.len() == 0 {
        return Err(ApiError::NoAttributes);
    }
    let i = match registry.position(name.as_str()) {
        Some(i) => i,
        None => return Err(ApiError::NonExistentQueue(name)),
    };
    match get_pair(&params.attributes, "VisibilityTimeout") {
        Some(v) => match parse_u32(v.as_str()) {
            Some(t) => {
                registry.set_visibility_timeout(i, t);
            },
            None => {},
        },
        None => {},
    }
    Ok(
        Persist {
            queue_name: name,
            attributes: copy_pairs(&params.attributes),
            answer: SetQueueAttributesResponse { request_id: generate_random_uuid4() },
        },
    )
}

/// What a SetQueueAttributes request does, from its body on.
pub open spec fn process_post(
    before: Seq<QueueView>,
    body: Seq<u8>,
    after: Seq<QueueView>,
    r: Result<Persist, ApiError>,
) -> bool {
    match form_fields(body) {
        None => after == before && fails_with(r, ErrorView::MalformedBody),
        Some(fields) => match parsed(fields) {
            Err(error) => after == before && fails_with(r, error),
            Ok(params) => handle_post(before, params, after, r),
        },
    }
}

/// Handles a SetQueueAttributes request, up to the write to the attribute
/// store.
pub fn process(registry: &mut Registry, payload: &[u8]) -> (r: Result<Persist, ApiError>)
    ensures
        process_post(old(registry)@, payload@, final(registry)@, r),
{
    let form = match decode_form(payload) {
        Some(form) => form,
        None => return Err(ApiError::MalformedBody),
    };
    let params = match parse(&form) {
        Ok(p) => p,
        Err(e) => return Err(e),
    };
    handle(registry, &params)
}

} // verus!
