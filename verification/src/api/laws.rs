//! Laws of the front end, proved over the relations that the contracts of
//! the actions are stated in.

use super::receive_message::{
    answers, begun, poll_post, shown, shown_views, sleep_for, PollStep, PollView,
    ReceiveMessageParamsView, ReceiveMessageResponse, POLL_INTERVAL,
};
use super::send_message::{handle_post, SendMessageParamsView, SendMessageResponse};
use super::helpers::{queue_name_of, queue_url_of};
use super::{ApiError, ErrorView};
use crate::deps::md5_hex;
use crate::queue::model::{count_visible, receive_post, taken_count};
use crate::queue::{effective_timeout, MessageView, QueueView};
use crate::registry::position_of;
use crate::text::{last_slash, lemma_last_slash};
use vstd::prelude::*;

verus! {

/// The number of messages in an answer.
pub open spec fn answer_len(answer: ReceiveMessageResponse) -> nat {
    match answer {
        ReceiveMessageResponse::Empty => 0,
        ReceiveMessageResponse::Messages { messages, request_id } => messages@.len(),
    }
}

/// The MD5 that a receive shows for a message is the MD5 that the send of
/// the message answered with, and both are the MD5 of the body: `m` is the
/// sent message at any later time, whatever receives and changes of
/// visibility it has seen, as those leave the body alone.
pub proof fn law_md5_round_trip(
    before: Seq<QueueView>,
    params: SendMessageParamsView,
    now: u64,
    after: Seq<QueueView>,
    r: Result<SendMessageResponse, ApiError>,
    m: MessageView,
)
    requires
        handle_post(before, params, now, after, r),
        r is Ok,
        m.message_body == params.message_body,
    ensures
        shown(m).md5_of_body == r->Ok_0.md5_of_message_body@,
        shown(m).md5_of_body == md5_hex(params.message_body),
{
}

/// Handing a message out, once or many times, leaves its body and so the
/// MD5 that is shown for it as they were.
pub proof fn law_md5_survives_receive(m: MessageView, handle: Seq<char>, now: u64, timeout: u32)
    ensures
        shown(m.received(handle, now, timeout)).md5_of_body == shown(m).md5_of_body,
        shown(m.rescheduled(now, timeout)).md5_of_body == shown(m).md5_of_body,
{
}

/// The cap on a receive. A request that asks for `n` messages, `n` at
/// least 1, is answered with at most `n` and at most 10 messages; and
/// whatever it asks for, if a message of the queue is visible when the
/// attempt is made, the attempt answers at once and with at least one
/// message.
pub proof fn law_receive_cap(
    before: Seq<QueueView>,
    params: ReceiveMessageParamsView,
    started: u64,
    state: PollView,
    now: u64,
    after: Seq<QueueView>,
    r: Result<PollStep, ApiError>,
    i: int,
)
    requires
        begun(params, started) == Ok::<PollView, ErrorView>(state),
        poll_post(before, state, now, after, r),
        position_of(before, state.queue_name) == Some(i),
    ensures
        r is Ok,
        r->Ok_0 matches PollStep::Done(answer) ==> {
            &&& answer_len(answer) <= 10
            &&& params.max_number_of_messages >= 1 ==> answer_len(answer)
                <= params.max_number_of_messages
            &&& answer_len(answer) <= count_visible(before[i].messages, now)
        },
        count_visible(before[i].messages, now) >= 1 ==> (r->Ok_0 matches PollStep::Done(answer)
            && answer_len(answer) >= 1),
{
    match r {
        Ok(PollStep::Done(answer)) => {
            let out = choose|out: Seq<MessageView>|
                {
                    &&& #[trigger] receive_post(
                        before[i].messages,
                        now,
                        state.max as nat,
                        effective_timeout(
                            state.visibility_timeout,
                            before[i].default_visibility_timeout,
                        ),
                        after[i].messages,
                        out,
                    )
                    &&& answers(answer, out)
                };
            assert(out.len() == taken_count(before[i].messages, now, state.max as nat));
            match answer {
                ReceiveMessageResponse::Empty => {},
                ReceiveMessageResponse::Messages { messages, request_id } => {
                    assert(shown_views(messages@).len() == out.map_values(
                        |m: MessageView| shown(m),
                    ).len());
                },
            }
        },
        _ => {},
    }
}

/// A waiting receive sleeps for a moment only: never longer than the poll
/// interval, never past its deadline, and never for no time at all. So a
/// message that arrives while a receive waits is seen by the receive's
/// next attempt, one poll interval later at most.
pub proof fn law_wait_is_short(deadline: u64, now: u64)
    requires
        now < deadline,
    ensures
        0 < sleep_for(deadline, now) <= POLL_INTERVAL,
        now + sleep_for(deadline, now) <= deadline,
{
}

/// The URL that is made for a queue leads back to the queue: from the URL
/// of a queue whose name is not empty and holds no `/`, the name that is
/// extracted is the queue's name, whatever the host is.
pub proof fn law_queue_url_round_trip(host: Seq<char>, name: Seq<char>)
    requires
        name.len() > 0,
        forall|k: int| 0 <= k < name.len() ==> name[k] != '/',
    ensures
        queue_name_of(queue_url_of(host, name)) == Some(name),
{
    let url = queue_url_of(host, name);
    let at = host.len() as int;
    assert(url[at] == '/');
    assert forall|k: int| at < k < url.len() implies url[k] != '/' by {
        assert(url[k] == name[k - at - 1]);
    }
    lemma_last_slash(url);
    assert(last_slash(url) == Some(at));
    assert(url.skip(at + 1) =~= name);
}

} // verus!
