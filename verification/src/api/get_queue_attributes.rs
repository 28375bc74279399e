//! GetQueueAttributes: the attributes of a queue, computed and stored.
//!
//! The stored attributes come from the attribute store, which the caller
//! reads before it locks the registry: `target_queue` says for which queue.

use super::form::{get_required, required_field, text_result, Fields};
use super::helpers::{extract_queue_name_from_url, generate_random_uuid4, queue_name_of, Pairs};
use super::receive_message::{attribute_views, AttributeXml};
use super::{fails_with, ApiError, ErrorView, Param};
use crate::deps::{decode_form, form_fields, is_uuid_v4_text, pairs_view};
use crate::queue::model::{count_hidden, count_visible};
use crate::queue::QueueView;
use crate::registry::{position_of, Registry};
use crate::text::{decimal, format_u64, same_text, starts_with};
use vstd::prelude::*;

verus! {

/// What a GetQueueAttributes request asks for: a queue, and the names of
/// the attributes wanted. No name, or the name `All`, asks for all.
#[derive(Debug)]
pub struct GetQueueAttributesParams {
    pub queue_url: String,
    pub attribute_names: Vec<String>,
}

pub ghost struct GetQueueAttributesParamsView {
    pub queue_url: Seq<char>,
    pub attribute_names: Seq<Seq<char>>,
}

/// The texts that a vector of strings holds, in order.
pub open spec fn texts(v: Seq<String>) -> Seq<Seq<char>> {
    Seq::new(v.len(), |i: int| v[i]@)
}

impl View for GetQueueAttributesParams {
    type V = GetQueueAttributesParamsView;

    open spec fn view(&self) -> GetQueueAttributesParamsView {
        GetQueueAttributesParamsView {
            queue_url: self.queue_url@,
            attribute_names: texts(self.attribute_names@),
        }
    }
}

/// The attribute names that a form asks for: the values of the fields
/// whose name begins with `AttributeName.`, in the order of the form.
pub open spec fn requested_names(fields: Fields) -> Seq<Seq<char>>
    decreases fields.len(),
{
    if fields.len() == 0 {
        Seq::empty()
    } else {
        let rest = requested_names(fields.drop_last());
        if "AttributeName."@.is_prefix_of(fields.last().0) {
            rest.push(fields.last().1)
        } else {
            rest
        }
    }
}

/// The parameters that a form gives: `QueueUrl`, required, and the names
/// asked for.
pub open spec fn parsed(fields: Fields) -> Result<GetQueueAttributesParamsView, ErrorView> {
    match required_field(fields, Param::QueueUrl) {
        Err(e) => Err(e),
        Ok(queue_url) => Ok(
            GetQueueAttributesParamsView { queue_url, attribute_names: requested_names(fields) },
        ),
    }
}

pub open spec fn params_result(r: Result<GetQueueAttributesParams, ApiError>) -> Result<
    GetQueueAttributesParamsView,
    ErrorView,
> {
    match r {
        Ok(p) => Ok(p@),
        Err(e) => Err(e@),
    }
}

/// Reads the parameters out of a decoded form.
pub fn parse(form: &Vec<(String, String)>) -> (r: Result<GetQueueAttributesParams, ApiError>)
    ensures
        params_result(r) == parsed(pairs_view(form@)),
{
    let queue_url = match get_required(form, Param::QueueUrl) {
        Ok(v) => v,
        Err(e) => return Err(e),
    };
    let ghost fields = pairs_view(form@);
    let mut names: Vec<String> = Vec::new();
    let n = form.len();
    let mut i: usize = 0;
    assert(fields.take(0) =~= Seq::empty());
    assert(texts(names@) =~= Seq::empty());
    while i < n
        invariant
            n == form.len(),
            fields == pairs_view(form@),
            i <= n,
            texts(names@) == requested_names(fields.take(i as int)),
        decreases n - i,
    {
        assert(fields.take(i + 1).drop_last() =~= fields.take(i as int));
        assert(fields.take(i + 1).last() == fields[i as int]);
        let ghost before = texts(names@);
        if starts_with(form[i].0.as_str(), "AttributeName.") {
            names.push(form[i].1.clone());
            assert(texts(names@) =~= before.push(form[i as int].1@));
        }
        i = i + 1;
    }
    assert(fields.take(n as int) =~= fields);
    Ok(GetQueueAttributesParams { queue_url, attribute_names: names })
}

/// Whether the request asks for the attribute `name`: it names it, names
/// `All`, or names nothing.
pub open spec fn wants(requested: Seq<Seq<char>>, name: Seq<char>) -> bool {
    requested.len() == 0 || requested.contains("All"@) || requested.contains(name)
}

/// Whether `names` holds `name`.
pub fn holds_name(names: &Vec<String>, name: &str) -> (r: bool)
    ensures
        r == texts(names@).contains(name@),
{
    let wanted = name.to_owned();
    let n = names.len();
    let mut i: usize = 0;
    while i < n
        invariant
            n == names.len(),
            wanted@ == name@,
            i <= n,
            forall|k: int| 0 <= k < i ==> texts(names@)[k] != name@,
        decreases n - i,
    {
        if names[i] == wanted {
            assert(texts(names@)[i as int] == name@);
            return true;
        }
        i = i + 1;
    }
    false
}

/// Computes `wants`.
pub fn is_wanted(requested: &Vec<String>, name: &str) -> (r: bool)
    ensures
        r == wants(texts(requested@), name@),
{
    requested.len() == 0 || holds_name(requested, "All") || holds_name(requested, name)
}

/// Whether `name` is one of the attributes that are computed from the
/// queue. The store never supplies these.
pub open spec fn is_computed(name: Seq<char>) -> bool {
    name == "ApproximateNumberOfMessages"@ || name == "ApproximateNumberOfMessagesNotVisible"@
        || name == "VisibilityTimeout"@
}

/// The stored attributes that the answer shows, in the order of the store:
/// those that the request wants, but for the computed ones.
pub open spec fn stored_shown(requested: Seq<Seq<char>>, stored: Pairs) -> Pairs
    decreases stored.len(),
{
    if stored.len() == 0 {
        Seq::empty()
    } else {
        let rest = stored_shown(requested, stored.drop_last());
        if wants(requested, stored.last().0) && !is_computed(stored.last().0) {
            rest.push(stored.last())
        } else {
            rest
        }
    }
}

/// One computed attribute, if the request wants it.
pub open spec fn computed_shown(requested: Seq<Seq<char>>, name: Seq<char>, value: nat) -> Pairs {
    if wants(requested, name) {
        seq![(name, decimal(value))]
    } else {
        Seq::empty()
    }
}

/// The attributes that the answer shows for a queue at `now`: first the
/// computed ones that the request wants, in the order visible count, hidden
/// count, visibility timeout; then the stored ones.
pub open spec fn attributes_shown(
    queue: QueueView,
    now: u64,
    requested: Seq<Seq<char>>,
    stored: Pairs,
) -> Pairs {
    computed_shown(
        requested,
        "ApproximateNumberOfMessages"@,
        count_visible(queue.messages, now),
    ) + computed_shown(
        requested,
        "ApproximateNumberOfMessagesNotVisible"@,
        count_hidden(queue.messages, now),
    ) + computed_shown(
        requested,
        "VisibilityTimeout"@,
        queue.default_visibility_timeout as nat,
    ) + stored_shown(requested, stored)
}

/// The answer to a GetQueueAttributes request.
#[derive(Debug)]
pub struct GetQueueAttributesResponse {
    pub attributes: Vec<AttributeXml>,
    pub request_id: String,
}

/// The outcome at `now` for the request `params`, with `stored` being what
/// the attribute store holds for the queue.
pub open spec fn handle_post(
    queues: Seq<QueueView>,
    params: GetQueueAttributesParamsView,
    now: u64,
    stored: Pairs,
    r: Result<GetQueueAttributesResponse, ApiError>,
) -> bool {
    match queue_name_of(params.queue_url) {
        None => fails_with(r, ErrorView::InvalidQueueUrl),
        Some(name) => match position_of(queues, name) {
            None => fails_with(r, ErrorView::NonExistentQueue(name)),
            Some(i) => match r {
                Err(_) => false,
                Ok(answer) => {
                    &&& attribute_views(answer.attributes@) == attributes_shown(
                        queues[i],
                        now,
                        params.attribute_names,
                        stored,
                    )
                    &&& is_uuid_v4_text(answer.request_id@)
                },
            },
        },
    }
}

fn name_is_computed(name: &String) -> (r: bool)
    ensures
        r == is_computed(name@),
{
    same_text(name.as_str(), "ApproximateNumberOfMessages") || same_text(
        name.as_str(),
        "ApproximateNumberOfMessagesNotVisible",
    ) || same_text(name.as_str(), "VisibilityTimeout")
}

fn push_computed(out: &mut Vec<AttributeXml>, requested: &Vec<String>, name: &str, value: u64)
    ensures
        attribute_views(final(out)@) == attribute_views(old(out)@) + computed_shown(
            texts(requested@),
            name@,
            value as nat,
        ),
{
    let ghost before = attribute_views(out@);
    if is_wanted(requested, name) {
        let a = AttributeXml { name: name.to_owned(), value: format_u64(value) };
        out.push(a);
        assert(attribute_views(out@) =~= before + seq![(name@, decimal(value as nat))]);
    } else {
        assert(attribute_views(out@) =~= before + Seq::<(Seq<char>, Seq<char>)>::empty());
    }
}

/// Answers with the attributes of the queue that `params` names.
pub fn handle(
    registry: &Registry,
    params: &GetQueueAttributesParams,
    now: u64,
    stored: &Vec<(String, String)>,
) -> (r: Result<GetQueueAttributesResponse, ApiError>)
    ensures
        handle_post(registry@, params@, now, pairs_view(stored@), r),
{
    let name = match extract_queue_name_from_url(params.queue_url.as_str()) {
        Some(name) => name,
        None => return Err(ApiError::InvalidQueueUrl),
    };
    let i = match registry.position(name.as_str()) {
        Some(i) => i,
        None => return Err(ApiError::NonExistentQueue(name)),
    };
    let queue = registry.queue(i);
    let requested = &params.attribute_names;
    let ghost wanted = texts(requested@);
    let ghost kept = pairs_view(stored@);
    let mut attributes: Vec<AttributeXml> = Vec::new();
    assert(attribute_views(attributes@) =~= Seq::empty());
    push_computed(
        &mut attributes,
        requested,
        "ApproximateNumberOfMessages",
        queue.approximate_number_of_messages_at(now) as u64,
    );
    push_computed(
        &mut attributes,
        requested,
        "ApproximateNumberOfMessagesNotVisible",
        queue.approximate_number_of_messages_not_visible_at(now) as u64,
    );
    push_computed(
        &mut attributes,
        requested,
        "VisibilityTimeout",
        queue.visibility_timeout() as u64,
    );
    let ghost computed = attribute_views(attributes@);
    let n = stored.len();
    let mut k: usize = 0;
    assert(kept.take(0) =~= Seq::empty());
    assert(computed + Seq::empty() =~= computed);
    while k < n
        invariant
            n == stored.len(),
            kept == pairs_view(stored@),
            wanted == texts(requested@),
            k <= n,
            attribute_views(attributes@) == computed + stored_shown(wanted, kept.take(k as int)),
        decreases n - k,
    {
        assert(kept.take(k + 1).drop_last() =~= kept.take(k as int));
        assert(kept.take(k + 1).last() == kept[k as int]);
        let ghost before = attribute_views(attributes@);
        if is_wanted(requested, stored[k].0.as_str()) && !name_is_computed(&stored[k].0) {
            let a = AttributeXml { name: stored[k].0.clone(), value: stored[k].1.clone() };
            attributes.push(a);
            assert(attribute_views(attributes@) =~= before.push(kept[k as int]));
        }
        k = k + 1;
    }
    assert(kept.take(n as int) =~= kept);
    Ok(GetQueueAttributesResponse { attributes, request_id: generate_random_uuid4() })
}

/// The queue that a GetQueueAttributes request is about.
pub open spec fn target_of(body: Seq<u8>) -> Result<Seq<char>, ErrorView> {
    match form_fields(body) {
        None => Err(ErrorView::MalformedBody),
        Some(fields) => match parsed(fields) {
            Err(error) => Err(error),
            Ok(params) => match queue_name_of(params.queue_url) {
                None => Err(ErrorView::InvalidQueueUrl),
                Some(name) => Ok(name),
            },
        },
    }
}

/// Computes `target_of`: the name of the queue whose stored attributes the
/// caller has to read.
pub fn target_queue(payload: &[u8]) -> (r: Result<String, ApiError>)
    ensures
        text_result(r) == target_of(payload@),
{
    let form = match decode_form(payload) {
        Some(form) => form,
        None => return Err(ApiError::MalformedBody),
    };
    let params = match parse(&form) {
        Ok(p) => p,
        Err(e) => return Err(e),
    };
    match extract_queue_name_from_url(params.queue_url.as_str()) {
        Some(name) => Ok(name),
        None => Err(ApiError::InvalidQueueUrl),
    }
}

/// What a GetQueueAttributes request gives, from its body on.
pub open spec fn process_post(
    queues: Seq<QueueView>,
    body: Seq<u8>,
    now: u64,
    stored: Pairs,
    r: Result<GetQueueAttributesResponse, ApiError>,
) -> bool {
    match form_fields(body) {
        None => fails_with(r, ErrorView::MalformedBody),
        Some(fields) => match parsed(fields) {
            Err(error) => fails_with(r, error),
            Ok(params) => handle_post(queues, params, now, stored, r),
        },
    }
}

/// Handles a GetQueueAttributes request that arrives at `now`.
pub fn process(registry: &Registry, payload: &[u8], now: u64, stored: &Vec<(String, String)>) -> (r:
    Result<GetQueueAttributesResponse, ApiError>)
    ensures
        process_post(registry@, payload@, now, pairs_view(stored@), r),
{
    let form = match decode_form(payload) {
        Some(form) => form,
        None => return Err(ApiError::MalformedBody),
    };
    let params = match parse(&form) {
        Ok(p) => p,
        Err(e) => return Err(e),
    };
    handle(registry, &params, now, stored)
}

} // verus!
