//! ReceiveMessage: hands out visible messages, waiting for some to arrive
//! if the request asks for that.
//!
//! Waiting is the caller's work. `process` and `poll` each make one attempt
//! and say either what to answer or how long to sleep before the next
//! attempt; the registry must not stay locked during the sleep.

use super::form::{
    get_optional_u32, get_required, optional_u32, required_field, Fields,
};
use super::helpers::{compute_md5, extract_queue_name_from_url, generate_random_uuid4, queue_name_of};
use super::{fails_with, ApiError, ErrorView, Param};
use crate::deps::{decode_form, form_fields, is_uuid_v4_text, md5_hex, pairs_view};
use crate::queue::laws::law_empty_receive_changes_nothing;
use crate::queue::model::{receive_post, taken_count};
use crate::queue::{effective_timeout, hidden_until, deadline, views, Message, MessageView, QueueView};
use crate::registry::{position_of, Registry};
use crate::text::{decimal, format_u64};
use vstd::prelude::*;

verus! {

/// What a ReceiveMessage request asks for.
#[derive(Debug)]
pub struct ReceiveMessageParams {
    pub queue_url: String,
    pub max_number_of_messages: u32,
    pub wait_time_seconds: u32,
    pub visibility_timeout: Option<u32>,
}

pub ghost struct ReceiveMessageParamsView {
    pub queue_url: Seq<char>,
    pub max_number_of_messages: u32,
    pub wait_time_seconds: u32,
    pub visibility_timeout: Option<u32>,
}

impl View for ReceiveMessageParams {
    type V = ReceiveMessageParamsView;

    open spec fn view(&self) -> ReceiveMessageParamsView {
        ReceiveMessageParamsView {
            queue_url: self.queue_url@,
            max_number_of_messages: self.max_number_of_messages,
            wait_time_seconds: self.wait_time_seconds,
            visibility_timeout: self.visibility_timeout,
        }
    }
}

/// The number of messages that a request asks for when it names none.
pub fn default_max_number() -> (r: u32)
    ensures
        r == 1,
{
    1
}

/// The parameters that a form gives: `QueueUrl` is required,
/// `MaxNumberOfMessages` is 1 and `WaitTimeSeconds` is 0 where the form has
/// none, and `VisibilityTimeout` may be absent.
pub open spec fn parsed(fields: Fields) -> Result<ReceiveMessageParamsView, ErrorView> {
    match required_field(fields, Param::QueueUrl) {
        Err(e) => Err(e),
        Ok(queue_url) => match optional_u32(fields, Param::MaxNumberOfMessages) {
            Err(e) => Err(e),
            Ok(max) => match optional_u32(fields, Param::WaitTimeSeconds) {
                Err(e) => Err(e),
                Ok(wait) => match optional_u32(fields, Param::VisibilityTimeout) {
                    Err(e) => Err(e),
                    Ok(visibility_timeout) => Ok(
                        ReceiveMessageParamsView {
                            queue_url,
                            max_number_of_messages: match max {
                                Some(n) => n,
                                None => 1,
                            },
                            wait_time_seconds: match wait {
                                Some(n) => n,
                                None => 0,
                            },
                            visibility_timeout,
                        },
                    ),
                },
            },
        },
    }
}

pub open spec fn params_result(r: Result<ReceiveMessageParams, ApiError>) -> Result<
    ReceiveMessageParamsView,
    ErrorView,
> {
    match r {
        Ok(p) => Ok(p@),
        Err(e) => Err(e@),
    }
}

/// Reads the parameters out of a decoded form.
pub fn parse(form: &Vec<(String, String)>) -> (r: Result<ReceiveMessageParams, ApiError>)
    ensures
        params_result(r) == parsed(pairs_view(form@)),
{
    let queue_url = match get_required(form, Param::QueueUrl) {
        Ok(v) => v,
        Err(e) => return Err(e),
    };
    let max = match get_optional_u32(form, Param::MaxNumberOfMessages) {
        Ok(v) => v,
        Err(e) => return Err(e),
    };
    let wait = match get_optional_u32(form, Param::WaitTimeSeconds) {
        Ok(v) => v,
        Err(e) => return Err(e),
    };
    let visibility_timeout = match get_optional_u32(form, Param::VisibilityTimeout) {
        Ok(v) => v,
        Err(e) => return Err(e),
    };
    Ok(
        ReceiveMessageParams {
            queue_url,
            max_number_of_messages: match max {
                Some(n) => n,
                None => default_max_number(),
            },
            wait_time_seconds: match wait {
                Some(n) => n,
                None => 0,
            },
            visibility_timeout,
        },
    )
}

/// The number of messages that one receive may hand out: what the request
/// asks for, but at least 1 and at most 10.
pub open spec fn clamped_max(asked: u32) -> u32 {
    if asked < 1 {
        1
    } else if asked > 10 {
        10
    } else {
        asked
    }
}

/// Computes `clamped_max`.
pub fn clamp_max(asked: u32) -> (r: u32)
    ensures
        r == clamped_max(asked),
        1 <= r <= 10,
{
    if asked < 1 {
        1
    } else if asked > 10 {
        10
    } else {
        asked
    }
}

/// A name/value attribute in an answer.
#[derive(Debug)]
pub struct AttributeXml {
    pub name: String,
    pub value: String,
}

impl View for AttributeXml {
    type V = (Seq<char>, Seq<char>);

    open spec fn view(&self) -> (Seq<char>, Seq<char>) {
        (self.name@, self.value@)
    }
}

/// A received message as the answer shows it.
#[derive(Debug)]
pub struct MessageXml {
    pub message_id: String,
    pub receipt_handle: String,
    pub md5_of_body: String,
    pub body: String,
    pub attributes: Vec<AttributeXml>,
}

pub ghost struct MessageXmlView {
    pub message_id: Seq<char>,
    pub receipt_handle: Seq<char>,
    pub md5_of_body: Seq<char>,
    pub body: Seq<char>,
    pub attributes: Seq<(Seq<char>, Seq<char>)>,
}

/// The views of the attributes that a vector holds, in order.
pub open spec fn attribute_views(v: Seq<AttributeXml>) -> Seq<(Seq<char>, Seq<char>)> {
    Seq::new(v.len(), |i: int| v[i]@)
}

impl View for MessageXml {
    type V = MessageXmlView;

    open spec fn view(&self) -> MessageXmlView {
        MessageXmlView {
            message_id: self.message_id@,
            receipt_handle: self.receipt_handle@,
            md5_of_body: self.md5_of_body@,
            body: self.body@,
            attributes: attribute_views(self.attributes@),
        }
    }
}

/// How the answer shows a message: its id, its receipt handle (empty where
/// it has none), the MD5 of its body, the body, its receive count and,
/// once it has been received, the time of its first receipt on the
/// queue's clock.
pub open spec fn shown(m: MessageView) -> MessageXmlView {
    MessageXmlView {
        message_id: m.id,
        receipt_handle: match m.receipt_handle {
            Some(h) => h,
            None => Seq::empty(),
        },
        md5_of_body: md5_hex(m.message_body),
        body: m.message_body,
        attributes: match m.first_received_at {
            Some(t) => seq![
                ("ApproximateReceiveCount"@, decimal(m.receive_count as nat)),
                ("ApproximateFirstReceiveTimestamp"@, decimal(t as nat)),
            ],
            None => seq![("ApproximateReceiveCount"@, decimal(m.receive_count as nat))],
        },
    }
}

/// Computes `shown`.
pub fn show(m: &Message) -> (r: MessageXml)
    ensures
        r@ == shown(m@),
{
    let mut attributes: Vec<AttributeXml> = Vec::new();
    attributes.push(
        AttributeXml {
            name: "ApproximateReceiveCount".to_owned(),
            value: format_u64(m.receive_count as u64),
        },
    );
    match m.first_received_at {
        Some(t) => {
            attributes.push(
                AttributeXml {
                    name: "ApproximateFirstReceiveTimestamp".to_owned(),
                    value: format_u64(t),
                },
            );
        },
        None => {},
    }
    let r = MessageXml {
        message_id: m.id.clone(),
        receipt_handle: match &m.receipt_handle {
            Some(h) => h.clone(),
            None => String::new(),
        },
        md5_of_body: compute_md5(m.message_body.as_str()),
        body: m.message_body.clone(),
        attributes,
    };
    assert(attribute_views(r.attributes@) =~= shown(m@).attributes);
    r
}

/// The literal body of the answer that holds no message.
pub const EMPTY_ANSWER: &'static str =
    "<ReceiveMessageResponse><ReceiveMessageResult/></ReceiveMessageResponse>";

/// The answer to a ReceiveMessage request. An answer without messages is
/// not written like the others: its body is `EMPTY_ANSWER`, letter for
/// letter.
#[derive(Debug)]
pub enum ReceiveMessageResponse {
    Empty,
    Messages { messages: Vec<MessageXml>, request_id: String },
}

/// The views of the shown messages that a vector holds, in order.
pub open spec fn shown_views(v: Seq<MessageXml>) -> Seq<MessageXmlView> {
    Seq::new(v.len(), |i: int| v[i]@)
}

/// Whether `answer` is the answer for the received messages `out`: the
/// empty answer for none, else every message as `shown` shows it, in
/// order, under a new request id.
pub open spec fn answers(answer: ReceiveMessageResponse, out: Seq<MessageView>) -> bool {
    match answer {
        ReceiveMessageResponse::Empty => out.len() == 0,
        ReceiveMessageResponse::Messages { messages, request_id } => {
            &&& out.len() > 0
            &&& shown_views(messages@) == out.map_values(|m: MessageView| shown(m))
            &&& is_uuid_v4_text(request_id@)
        },
    }
}

/// Builds the answer for the received messages.
pub fn respond(received: &Vec<Message>) -> (answer: ReceiveMessageResponse)
    ensures
        answers(answer, views(received@)),
{
    if received.len() == 0 {
        return ReceiveMessageResponse::Empty;
    }
    let mut messages: Vec<MessageXml> = Vec::new();
    let n = received.len();
    let mut i: usize = 0;
    while i < n
        invariant
            n == received.len(),
            i <= n,
            messages.len() == i,
            forall|k: int| 0 <= k < i ==> (#[trigger] messages[k])@ == shown(received[k]@),
        decreases n - i,
    {
        messages.push(show(&received[i]));
        i = i + 1;
    }
    assert(shown_views(messages@) =~= views(received@).map_values(|m: MessageView| shown(m)));
    ReceiveMessageResponse::Messages { messages, request_id: generate_random_uuid4() }
}

/// A receive in progress: the queue, the clamped number of messages, the
/// visibility timeout of the request, and the moment at which waiting ends.
#[derive(Debug)]
pub struct Poll {
    pub queue_name: String,
    pub max: u32,
    pub visibility_timeout: Option<u32>,
    pub deadline: u64,
}

pub ghost struct PollView {
    pub queue_name: Seq<char>,
    pub max: u32,
    pub visibility_timeout: Option<u32>,
    pub deadline: u64,
}

impl View for Poll {
    type V = PollView;

    open spec fn view(&self) -> PollView {
        PollView {
            queue_name: self.queue_name@,
            max: self.max,
            visibility_timeout: self.visibility_timeout,
            deadline: self.deadline,
        }
    }
}

/// The receive that a request starts at `now`, or the error for a queue
/// URL without a queue name.
pub open spec fn begun(p: ReceiveMessageParamsView, now: u64) -> Result<PollView, ErrorView> {
    match queue_name_of(p.queue_url) {
        None => Err(ErrorView::InvalidQueueUrl),
        Some(queue_name) => Ok(
            PollView {
                queue_name,
                max: clamped_max(p.max_number_of_messages),
                visibility_timeout: p.visibility_timeout,
                deadline: hidden_until(now, p.wait_time_seconds),
            },
        ),
    }
}

pub open spec fn poll_result(r: Result<Poll, ApiError>) -> Result<PollView, ErrorView> {
    match r {
        Ok(p) => Ok(p@),
        Err(e) => Err(e@),
    }
}

/// Starts a receive at `now`: waiting ends `WaitTimeSeconds` later.
pub fn begin(params: &ReceiveMessageParams, now: u64) -> (r: Result<Poll, ApiError>)
    ensures
        poll_result(r) == begun(params@, now),
{
    match extract_queue_name_from_url(params.queue_url.as_str()) {
        None => Err(ApiError::InvalidQueueUrl),
        Some(queue_name) => Ok(
            Poll {
                queue_name,
                max: clamp_max(params.max_number_of_messages),
                visibility_timeout: params.visibility_timeout,
                deadline: deadline(now, params.wait_time_seconds),
            },
        ),
    }
}

/// The longest sleep between two attempts, in milliseconds.
pub const POLL_INTERVAL: u64 = 200;

/// How long to sleep at `now` before the next attempt: the poll interval,
/// or the time left until the deadline if that is less.
pub open spec fn sleep_for(deadline: u64, now: u64) -> u64 {
    if deadline - now < POLL_INTERVAL {
        (deadline - now) as u64
    } else {
        POLL_INTERVAL
    }
}

/// The outcome of one attempt.
#[derive(Debug)]
pub enum PollStep {
    /// The request is answered.
    Done(ReceiveMessageResponse),
    /// Nothing was visible and the deadline has not come: sleep for
    /// `millis` milliseconds, then call `poll` with `poll`.
    Wait { poll: Poll, millis: u64 },
}

/// What one attempt at `now` does. `before` and `after` are the registry
/// before and after it, `r` is its outcome.
///
/// Without the queue the attempt fails and changes nothing. Else it is one
/// receive on the queue, of at most `max` messages. If that hands out any
/// message, they are the answer. If not, the answer is empty once `now` has
/// reached the deadline, and before that the outcome is to wait.
pub open spec fn poll_post(
    before: Seq<QueueView>,
    poll: PollView,
    now: u64,
    after: Seq<QueueView>,
    r: Result<PollStep, ApiError>,
) -> bool {
    match position_of(before, poll.queue_name) {
        None => {
            &&& after == before
            &&& fails_with(r, ErrorView::NonExistentQueue(poll.queue_name))
        },
        Some(i) => {
            let taken = taken_count(before[i].messages, now, poll.max as nat);
            &&& after == before.update(i, QueueView { messages: after[i].messages, ..before[i] })
            &&& r matches Ok(step)
            &&& match step {
                PollStep::Done(answer) => {
                    &&& taken > 0 || now >= poll.deadline
                    &&& exists|out: Seq<MessageView>|
                        {
                            &&& #[trigger] receive_post(
                                before[i].messages,
                                now,
                                poll.max as nat,
                                effective_timeout(
                                    poll.visibility_timeout,
                                    before[i].default_visibility_timeout,
                                ),
                                after[i].messages,
                                out,
                            )
                            &&& answers(answer, out)
                        }
                },
                PollStep::Wait { poll: next, millis } => {
                    &&& taken == 0
                    &&& now < poll.deadline
                    &&& after == before
                    &&& next@ == poll
                    &&& millis == sleep_for(poll.deadline, now)
                },
            }
        },
    }
}

/// Makes one attempt at `now`.
pub fn poll(registry: &mut Registry, state: Poll, now: u64) -> (r: Result<PollStep, ApiError>)
    ensures
        poll_post(old(registry)@, state@, now, final(registry)@, r),
{
    let i = match registry.position(state.queue_name.as_str()) {
        Some(i) => i,
        None => return Err(ApiError::NonExistentQueue(state.queue_name)),
    };
    let ghost before = registry@;
    let received = registry.receive_at(i, state.max, state.visibility_timeout, now);
    if received.len() > 0 {
        let answer = respond(&received);
        return Ok(PollStep::Done(answer));
    }
    proof {
        law_empty_receive_changes_nothing(
            before[i as int].messages,
            now,
            state.max as nat,
            effective_timeout(state.visibility_timeout, before[i as int].default_visibility_timeout),
            registry@[i as int].messages,
            views(received@),
        );
        assert(registry@ =~= before);
    }
    if now >= state.deadline {
        let answer = respond(&received);
        Ok(PollStep::Done(answer))
    } else {
        let left = state.deadline - now;
        let millis = if left < POLL_INTERVAL {
            left
        } else {
            POLL_INTERVAL
        };
        Ok(PollStep::Wait { poll: state, millis })
    }
}

/// What the first attempt of a request does, from the request's body on.
pub open spec fn process_post(
    before: Seq<QueueView>,
    body: Seq<u8>,
    now: u64,
    after: Seq<QueueView>,
    r: Result<PollStep, ApiError>,
) -> bool {
    match form_fields(body) {
        None => after == before && fails_with(r, ErrorView::MalformedBody),
        Some(fields) => match parsed(fields) {
            Err(error) => after == before && fails_with(r, error),
            Ok(params) => match begun(params, now) {
                Err(error) => after == before && fails_with(r, error),
                Ok(poll) => poll_post(before, poll, now, after, r),
            },
        },
    }
}

/// Handles a ReceiveMessage request that arrives at `now`: reads the
/// parameters from the body, starts the receive and makes the first
/// attempt.
pub fn process(registry: &mut Registry, payload: &[u8], now: u64) -> (r: Result<PollStep, ApiError>)
    ensures
        process_post(old(registry)@, payload@, now, final(registry)@, r),
{
    let form = match decode_form(payload) {
        Some(form) => form,
        None => return Err(ApiError::MalformedBody),
    };
    let params = match parse(&form) {
        Ok(p) => p,
        Err(e) => return Err(e),
    };
    let started = match begin(&params, now) {
        Ok(p) => p,
        Err(e) => return Err(e),
    };
    poll(registry, started, now)
}

} // verus!
