//! CreateQueue: registers a queue.
//!
//! Creating a queue whose name is taken succeeds and leaves the existing
//! queue as it is, whatever attributes the request carries. The request's
//! attributes are handed back to be written to the attribute store.

use super::form::{get_required, required_field, Fields};
use super::helpers::{
    attributes_of, extract_from_extra, extracted, generate_random_uuid4, get_attributes, get_pair,
    get_tags, queue_url, queue_url_of, tags_of, Pairs, ATTRIBUTE_PATTERN, TAG_PATTERN,
};
use super::set_queue_attributes::{copy_pairs, new_timeout};
use super::{fails_with, ApiError, ErrorView, Param};
use crate::deps::{decode_form, form_fields, is_uuid_v4_text, pairs_view};
use crate::queue::{effective_timeout, tag_views, QueueTags, QueueView, DEFAULT_VISIBILITY_TIMEOUT};
use crate::registry::{position_of, Registry};
use crate::text::parse_u32;
use vstd::prelude::*;

verus! {

/// What a CreateQueue request asks for.
#[derive(Debug)]
pub struct CreateQueueParams {
    pub queue_name: String,
    pub attributes: Vec<(String, String)>,
    pub tags: Vec<(String, String)>,
}

pub ghost struct CreateQueueParamsView {
    pub queue_name: Seq<char>,
    pub attributes: Pairs,
    pub tags: Pairs,
}

impl View for CreateQueueParams {
    type V = CreateQueueParamsView;

    open spec fn view(&self) -> CreateQueueParamsView {
        CreateQueueParamsView {
            queue_name: self.queue_name@,
            attributes: pairs_view(self.attributes@),
            tags: pairs_view(self.tags@),
        }
    }
}

/// The parameters that a form gives: `QueueName`, required, the attributes
/// of its `Attribute.N.Name` and `Attribute.N.Value` fields, and the tags
/// of its `Tag.N.Key` and `Tag.N.Value` fields.
pub open spec fn parsed(fields: Fields) -> Result<CreateQueueParamsView, ErrorView> {
    match required_field(fields, Param::QueueName) {
        Err(e) => Err(e),
        Ok(queue_name) => Ok(
            CreateQueueParamsView {
                queue_name,
                attributes: attributes_of(extracted(ATTRIBUTE_PATTERN@, fields)),
                tags: tags_of(extracted(TAG_PATTERN@, fields)),
            },
        ),
    }
}

pub open spec fn params_result(r: Result<CreateQueueParams, ApiError>) -> Result<
    CreateQueueParamsView,
    ErrorView,
> {
    match r {
        Ok(p) => Ok(p@),
        Err(e) => Err(e@),
    }
}

/// Reads the parameters out of a decoded form.
pub fn parse(form: &Vec<(String, String)>) -> (r: Result<CreateQueueParams, ApiError>)
    ensures
        params_result(r) == parsed(pairs_view(form@)),
{
    let queue_name = match get_required(form, Param::QueueName) {
        Ok(v) => v,
        Err(e) => return Err(e),
    };
    let attributes = get_attributes(&extract_from_extra(ATTRIBUTE_PATTERN, form));
    let tags = get_tags(&extract_from_extra(TAG_PATTERN, form));
    Ok(CreateQueueParams { queue_name, attributes, tags })
}

/// The answer to a CreateQueue request.
#[derive(Debug)]
pub struct CreateQueueResponse {
    pub queue_url: String,
    pub request_id: String,
}

/// What is left to do once the queue is registered: write `attributes` to
/// the attribute store under `queue_name`, then give `answer`.
#[derive(Debug)]
pub struct Created {
    pub queue_name: String,
    pub attributes: Vec<(String, String)>,
    pub answer: CreateQueueResponse,
}

/// The queue that a request creates: empty, with the request's tags, and
/// with the visibility timeout that its attributes give, or the default.
pub open spec fn new_queue(params: CreateQueueParamsView) -> QueueView {
    QueueView {
        name: params.queue_name,
        tags: params.tags,
        default_visibility_timeout: effective_timeout(
            new_timeout(params.attributes),
            DEFAULT_VISIBILITY_TIMEOUT,
        ),
        messages: Seq::empty(),
    }
}

/// What creating does on the host `host`. `before` and `after` are the
/// registry before and after it. It never fails: the queue is appended
/// unless one of its name is there, and the answer gives the queue's URL.
pub open spec fn handle_post(
    before: Seq<QueueView>,
    host: Seq<char>,
    params: CreateQueueParamsView,
    after: Seq<QueueView>,
    r: Created,
) -> bool {
    &&& after == if position_of(before, params.queue_name) is None {
        before.push(new_queue(params))
    } else {
        before
    }
    &&& r.queue_name@ == params.queue_name
    &&& pairs_view(r.attributes@) == params.attributes
    &&& r.answer.queue_url@ == queue_url_of(host, params.queue_name)
    &&& is_uuid_v4_text(r.answer.request_id@)
}

/// Turns an ordered map into tags.
pub fn make_tags(pairs: &Vec<(String, String)>) -> (r: Vec<QueueTags>)
    ensures
        tag_views(r@) == pairs_view(pairs@),
{
    let mut r: Vec<QueueTags> = Vec::new();
    let n = pairs.len();
    let mut i: usize = 0;
    while i < n
        invariant
            n == pairs.len(),
            i <= n,
            r.len() == i,
            forall|k: int| 0 <= k < i ==> (#[trigger] r[k])@ == (pairs[k].0@, pairs[k].1@),
        decreases n - i,
    {
        r.push(QueueTags::new(pairs[i].0.clone(), pairs[i].1.clone()));
        i = i + 1;
    }
    assert(tag_views(r@) =~= pairs_view(pairs@));
    r
}

/// Creates the queue that `params` describes.
pub fn handle(registry: &mut Registry, host_name: &str, params: &CreateQueueParams) -> (r: Created)
    ensures
        handle_post(old(registry)@, host_name@, params@, final(registry)@, r),
{
    let timeout = match get_pair(&params.attributes, "VisibilityTimeout") {
        Some(v) => parse_u32(v.as_str()),
        None => None,
    };
    let tags = make_tags(&params.tags);
    registry.create(params.queue_name.as_str(), tags, timeout);
    Created {
        queue_name: params.queue_name.clone(),
        attributes: copy_pairs(&params.attributes),
        answer: CreateQueueResponse {
            queue_url: queue_url(host_name, params.queue_name.as_str()),
            request_id: generate_random_uuid4(),
        },
    }
}

/// What a CreateQueue request does, from its body on.
pub open spec fn process_post(
    before: Seq<QueueView>,
    host: Seq<char>,
    body: Seq<u8>,
    after: Seq<QueueView>,
    r: Result<Created, ApiError>,
) -> bool {
    match form_fields(body) {
        None => after == before && fails_with(r, ErrorView::MalformedBody),
        Some(fields) => match parsed(fields) {
            Err(error) => after == before && fails_with(r, error),
            Ok(params) => match r {
                Err(_) => false,
                Ok(done) => handle_post(before, host, params, after, done),
            },
        },
    }
}

/// Handles a CreateQueue request, up to the write to the attribute store.
pub fn process(registry: &mut Registry, host_name: &str, payload: &[u8]) -> (r: Result<
    Created,
    ApiError,
>)
    ensures
        process_post(old(registry)@, host_name@, payload@, final(registry)@, r),
{
    let form = match decode_form(payload) {
        Some(form) => form,
        None => return Err(ApiError::MalformedBody),
    };
    let params = match parse(&form) {
        Ok(p) => p,
        Err(e) => return Err(e),
    };
    Ok(handle(registry, host_name, &params))
}

} // verus!
