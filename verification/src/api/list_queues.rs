//! ListQueues: the URLs of the registered queues.

use super::form::{get_optional, optional_field, optional_text_result, Fields};
use super::helpers::{generate_random_uuid4, queue_url, queue_url_of};
use super::{fails_with, ApiError, ErrorView, Param};
use crate::deps::{decode_form, form_fields, is_uuid_v4_text, pairs_view};
use crate::queue::QueueView;
use crate::registry::Registry;
use crate::text::starts_with;
use vstd::prelude::*;

verus! {

/// The parameter that a form gives: `QueueNamePrefix`, which may be absent.
pub open spec fn parsed(fields: Fields) -> Result<Option<Seq<char>>, ErrorView> {
    optional_field(fields, Param::QueueNamePrefix)
}

/// Reads the parameter out of a decoded form.
pub fn parse(form: &Vec<(String, String)>) -> (r: Result<Option<String>, ApiError>)
    ensures
        optional_text_result(r) == parsed(pairs_view(form@)),
{
    get_optional(form, Param::QueueNamePrefix)
}

/// The answer to a ListQueues request.
#[derive(Debug)]
pub struct ListQueuesResponse {
    pub queue_urls: Vec<String>,
    pub request_id: String,
}

/// Whether a queue name is listed under a prefix: every name is listed
/// where there is no prefix, else those that begin with it.
pub open spec fn listed(prefix: Option<Seq<char>>, name: Seq<char>) -> bool {
    match prefix {
        Some(p) => p.is_prefix_of(name),
        None => true,
    }
}

/// The URLs of the listed queues on the host `host`, in the order in which
/// the queues were created.
pub open spec fn urls_listed(queues: Seq<QueueView>, host: Seq<char>, prefix: Option<Seq<char>>) -> Seq<
    Seq<char>,
>
    decreases queues.len(),
{
    if queues.len() == 0 {
        Seq::empty()
    } else {
        let rest = urls_listed(queues.drop_last(), host, prefix);
        if listed(prefix, queues.last().name) {
            rest.push(queue_url_of(host, queues.last().name))
        } else {
            rest
        }
    }
}

/// The texts that a vector of strings holds, in order.
pub open spec fn texts(v: Seq<String>) -> Seq<Seq<char>> {
    Seq::new(v.len(), |i: int| v[i]@)
}

/// Lists the queues whose name begins with `prefix`, or all.
pub fn handle(registry: &Registry, host_name: &str, prefix: &Option<String>) -> (r:
    ListQueuesResponse)
    ensures
        texts(r.queue_urls@) == urls_listed(
            registry@,
            host_name@,
            match prefix {
                Some(p) => Some(p@),
                None => None,
            },
        ),
        is_uuid_v4_text(r.request_id@),
{
    let ghost queues = registry@;
    let ghost wanted = match prefix {
        Some(p) => Some(p@),
        None => None,
    };
    let mut urls: Vec<String> = Vec::new();
    let n = registry.len();
    let mut i: usize = 0;
    assert(queues.take(0) =~= Seq::empty());
    assert(texts(urls@) =~= Seq::empty());
    while i < n
        invariant
            n == registry@.len(),
            queues == registry@,
            wanted == match prefix {
                Some(p) => Some(p@),
                None => None,
            },
            i <= n,
            texts(urls@) == urls_listed(queues.take(i as int), host_name@, wanted),
        decreases n - i,
    {
        assert(queues.take(i + 1).drop_last() =~= queues.take(i as int));
        assert(queues.take(i + 1).last() == queues[i as int]);
        let ghost before = texts(urls@);
        let name = registry.queue(i).name();
        let show = match prefix {
            Some(p) => starts_with(name.as_str(), p.as_str()),
            None => true,
        };
        if show {
            let url = queue_url(host_name, name.as_str());
            urls.push(url);
            assert(texts(urls@) =~= before.push(queue_url_of(host_name@, queues[i as int].name)));
        }
        i = i + 1;
    }
    assert(queues.take(n as int) =~= queues);
    ListQueuesResponse { queue_urls: urls, request_id: generate_random_uuid4() }
}

/// What a ListQueues request gives, from its body on.
pub open spec fn process_post(
    queues: Seq<QueueView>,
    host: Seq<char>,
    body: Seq<u8>,
    r: Result<ListQueuesResponse, ApiError>,
) -> bool {
    match form_fields(body) {
        None => fails_with(r, ErrorView::MalformedBody),
        Some(fields) => match parsed(fields) {
            Err(error) => fails_with(r, error),
            Ok(prefix) => match r {
                Err(_) => false,
                Ok(answer) => texts(answer.queue_urls@) == urls_listed(queues, host, prefix)
                    && is_uuid_v4_text(answer.request_id@),
            },
        },
    }
}

/// Handles a ListQueues request.
pub fn process(registry: &Registry, host_name: &str, payload: &[u8]) -> (r: Result<
    ListQueuesResponse,
    ApiError,
>)
    ensures
        process_post(registry@, host_name@, payload@, r),
{
    let form = match decode_form(payload) {
        Some(form) => form,
        None => return Err(ApiError::MalformedBody),
    };
    let prefix = match parse(&form) {
        Ok(p) => p,
        Err(e) => return Err(e),
    };
    Ok(handle(registry, host_name, &prefix))
}

} // verus!
