//! Laws of the queue engine, proved over the model that the contracts of
//! the queue's operations are stated in.

use super::model::{
    after_change_visibility, after_delete, after_remove, count_hidden, count_visible,
    first_holder, first_with_id, is_taken, lemma_count_visible_prefix, lemma_count_visible_step,
    lemma_first_holder, lemma_first_with_id, rank, receive_post, unheld,
};
use super::MessageView;
use vstd::prelude::*;

verus! {

/// Messages stand in the queue in the order in which they were pushed: of
/// two messages pushed one after the other, the first stands directly
/// before the second, behind everything that was there.
pub proof fn law_pushes_are_ordered(s: Seq<MessageView>, a: MessageView, b: MessageView)
    ensures
        s.push(a).push(b).len() == s.len() + 2,
        s.push(a).push(b)[s.len() as int] == a,
        s.push(a).push(b)[s.len() as int + 1] == b,
        s.push(a).push(b).take(s.len() as int) == s,
{
    assert(s.push(a).push(b).take(s.len() as int) =~= s);
}

/// Receives are first-in, first-out among visible messages: if two
/// messages are visible when a receive starts and the later one is handed
/// out, the earlier one is handed out too, and stands before it in the
/// result.
pub proof fn law_fifo_for_visible(
    before: Seq<MessageView>,
    now: u64,
    max: nat,
    timeout: u32,
    after: Seq<MessageView>,
    out: Seq<MessageView>,
    a: int,
    b: int,
)
    requires
        receive_post(before, now, max, timeout, after, out),
        0 <= a < b < before.len(),
        before[a].visible(now),
        before[b].visible(now),
        is_taken(before, now, max, b),
    ensures
        is_taken(before, now, max, a),
        0 <= rank(before, now, a) < rank(before, now, b) < out.len(),
        out[rank(before, now, a)].id == before[a].id,
        out[rank(before, now, b)].id == before[b].id,
{
    lemma_count_visible_step(before, now, a);
    lemma_count_visible_prefix(before, now, a + 1, b);
    lemma_count_visible_step(before, now, b);
    lemma_count_visible_prefix(before, now, b + 1, before.len() as int);
    assert(before.take(before.len() as int) =~= before);
    assert(after[a].id == before[a].id);
    assert(after[b].id == before[b].id);
}

/// A receive hands out no more than `max` messages and no more than are
/// visible, and at least one if any is visible and `max` is not 0.
pub proof fn law_receive_count(
    before: Seq<MessageView>,
    now: u64,
    max: nat,
    timeout: u32,
    after: Seq<MessageView>,
    out: Seq<MessageView>,
)
    requires
        receive_post(before, now, max, timeout, after, out),
    ensures
        out.len() <= max,
        out.len() <= count_visible(before, now),
        max >= 1 && count_visible(before, now) >= 1 ==> out.len() >= 1,
{
}

/// A receive that hands out nothing changes nothing.
pub proof fn law_empty_receive_changes_nothing(
    before: Seq<MessageView>,
    now: u64,
    max: nat,
    timeout: u32,
    after: Seq<MessageView>,
    out: Seq<MessageView>,
)
    requires
        receive_post(before, now, max, timeout, after, out),
        out.len() == 0,
    ensures
        after == before,
{
    assert forall|k: int| 0 <= k < before.len() implies #[trigger] after[k] == before[k] by {
        lemma_count_visible_step(before, now, k);
        lemma_count_visible_prefix(before, now, k + 1, before.len() as int);
        assert(before.take(before.len() as int) =~= before);
    }
    assert(after =~= before);
}

/// Every message in a receive's result is a message that was visible when
/// the receive started, as it is after the receive.
pub proof fn law_received_were_visible(
    before: Seq<MessageView>,
    now: u64,
    max: nat,
    timeout: u32,
    after: Seq<MessageView>,
    out: Seq<MessageView>,
    j: int,
)
    requires
        receive_post(before, now, max, timeout, after, out),
        0 <= j < out.len(),
    ensures
        exists|i: int|
            0 <= i < before.len() && is_taken(before, now, max, i) && rank(before, now, i) == j
                && out[j] == #[trigger] after[i],
{
    lemma_nth_visible(before, now, j);
    let i = choose|i: int|
        0 <= i < before.len() && before[i].visible(now) && #[trigger] rank(before, now, i) == j;
    assert(is_taken(before, now, max, i));
    assert(out[j] == after[i]);
}

/// Among the visible messages there is one of each rank below their number.
pub proof fn lemma_nth_visible(s: Seq<MessageView>, now: u64, j: int)
    requires
        0 <= j < count_visible(s, now),
    ensures
        exists|i: int| 0 <= i < s.len() && s[i].visible(now) && #[trigger] rank(s, now, i) == j,
    decreases s.len(),
{
    let t = s.drop_last();
    let last = s.len() - 1;
    assert(s.take(last) =~= t);
    if j < count_visible(t, now) {
        lemma_nth_visible(t, now, j);
        let i = choose|i: int|
            0 <= i < t.len() && t[i].visible(now) && #[trigger] rank(t, now, i) == j;
        assert(t.take(i) =~= s.take(i));
        assert(s[i].visible(now) && rank(s, now, i) == j);
    } else {
        assert(s[last].visible(now) && rank(s, now, last) == j);
    }
}

/// Visible and hidden messages together are all messages of the queue,
/// when both are counted at the same moment.
pub proof fn law_count_conservation(s: Seq<MessageView>, now: u64)
    ensures
        count_visible(s, now) + count_hidden(s, now) == s.len(),
    decreases s.len(),
{
    if s.len() > 0 {
        law_count_conservation(s.drop_last(), now);
    }
}

/// A handle that no message carries is rejected: deleting by it and
/// changing the visibility by it both find nothing and change nothing.
pub proof fn law_unheld_handle_rejected(s: Seq<MessageView>, handle: Seq<char>, now: u64, timeout: u32)
    requires
        unheld(s, handle),
    ensures
        first_holder(s, handle) is None,
        after_delete(s, handle) == s,
        after_change_visibility(s, handle, now, timeout) == s,
{
    lemma_first_holder(s, handle);
}

/// At most one message of `s` carries `handle`.
pub open spec fn held_once_at_most(s: Seq<MessageView>, handle: Seq<char>) -> bool {
    forall|i: int, j: int|
        0 <= i < s.len() && 0 <= j < s.len() && (#[trigger] s[i]).holds(handle) && (#[trigger] s[j]).holds(
            handle,
        ) ==> i == j
}

/// A successful delete uses the handle up: where at most one message
/// carried it, none carries it afterwards.
pub proof fn law_delete_consumes_handle(s: Seq<MessageView>, handle: Seq<char>)
    requires
        held_once_at_most(s, handle),
    ensures
        unheld(after_delete(s, handle), handle),
        first_holder(after_delete(s, handle), handle) is None,
{
    lemma_first_holder(s, handle);
    let t = after_delete(s, handle);
    match first_holder(s, handle) {
        Some(i) => {
            assert forall|k: int| 0 <= k < t.len() implies !(#[trigger] t[k]).holds(handle) by {
                if k < i {
                    assert(t[k] == s[k]);
                } else {
                    assert(t[k] == s[k + 1]);
                }
                if t[k].holds(handle) {
                    assert(s[i].holds(handle));
                }
            }
        },
        None => {},
    }
    lemma_first_holder(t, handle);
}

/// One operation of the queue that issues `handle` to no message: a push of
/// a message that carries no handle, a delete, a removal by id, a change of
/// visibility, or a receive none of whose new handles is `handle`.
pub open spec fn step_not_issuing(s: Seq<MessageView>, t: Seq<MessageView>, handle: Seq<char>) -> bool {
    ||| exists|m: MessageView| m.receipt_handle is None && t == #[trigger] s.push(m)
    ||| exists|h: Seq<char>| t == #[trigger] after_delete(s, h)
    ||| exists|id: Seq<char>| t == #[trigger] after_remove(s, id)
    ||| exists|h: Seq<char>, now: u64, timeout: u32|
        t == #[trigger] after_change_visibility(s, h, now, timeout)
    ||| exists|now: u64, max: nat, timeout: u32, out: Seq<MessageView>|
        #[trigger] receive_post(s, now, max, timeout, t, out) && forall|i: int|
            0 <= i < s.len() && is_taken(s, now, max, i) ==> !(#[trigger] t[i]).holds(handle)
}

/// A handle that no message carries stays so under every operation that
/// does not issue it.
pub proof fn law_unheld_is_kept(s: Seq<MessageView>, t: Seq<MessageView>, handle: Seq<char>)
    requires
        unheld(s, handle),
        step_not_issuing(s, t, handle),
    ensures
        unheld(t, handle),
{
    if exists|m: MessageView| m.receipt_handle is None && t == #[trigger] s.push(m) {
        let m = choose|m: MessageView| m.receipt_handle is None && t == #[trigger] s.push(m);
        assert forall|k: int| 0 <= k < t.len() implies !(#[trigger] t[k]).holds(handle) by {
            if k < s.len() {
                assert(t[k] == s[k]);
            }
        }
    } else if exists|h: Seq<char>| t == #[trigger] after_delete(s, h) {
        let h = choose|h: Seq<char>| t == #[trigger] after_delete(s, h);
        lemma_first_holder(s, h);
        match first_holder(s, h) {
            Some(i) => {
                assert forall|k: int| 0 <= k < t.len() implies !(#[trigger] t[k]).holds(handle) by {
                    if k < i {
                        assert(t[k] == s[k]);
                    } else {
                        assert(t[k] == s[k + 1]);
                    }
                }
            },
            None => {},
        }
    } else if exists|id: Seq<char>| t == #[trigger] after_remove(s, id) {
        let id = choose|id: Seq<char>| t == #[trigger] after_remove(s, id);
        lemma_first_with_id(s, id);
        match first_with_id(s, id) {
            Some(i) => {
                assert forall|k: int| 0 <= k < t.len() implies !(#[trigger] t[k]).holds(handle) by {
                    if k < i {
                        assert(t[k] == s[k]);
                    } else {
                        assert(t[k] == s[k + 1]);
                    }
                }
            },
            None => {},
        }
    } else if exists|h: Seq<char>, now: u64, timeout: u32|
        t == #[trigger] after_change_visibility(s, h, now, timeout) {
        let (h, now, timeout) = choose|h: Seq<char>, now: u64, timeout: u32|
            t == #[trigger] after_change_visibility(s, h, now, timeout);
        lemma_first_holder(s, h);
        match first_holder(s, h) {
            Some(i) => {
                assert forall|k: int| 0 <= k < t.len() implies !(#[trigger] t[k]).holds(handle) by {
                    if k != i {
                        assert(t[k] == s[k]);
                    } else {
                        assert(t[k].receipt_handle == s[k].receipt_handle);
                    }
                }
            },
            None => {},
        }
    } else {
        let (now, max, timeout, out) = choose|now: u64, max: nat, timeout: u32, out: Seq<MessageView>|
            #[trigger] receive_post(s, now, max, timeout, t, out) && forall|i: int|
                0 <= i < s.len() && is_taken(s, now, max, i) ==> !(#[trigger] t[i]).holds(handle);
        assert forall|k: int| 0 <= k < t.len() implies !(#[trigger] t[k]).holds(handle) by {
            if !is_taken(s, now, max, k) {
                assert(t[k] == s[k]);
            }
        }
    }
}

/// A receipt handle deletes at most once. Let `history` be the states of a
/// queue from a successful delete by `handle` on, each state made from the
/// one before it by an operation that does not issue `handle` again, and
/// let at most one message have carried `handle` when it was deleted. Then
/// in every later state no message carries `handle`, so a delete by it
/// finds nothing.
pub proof fn law_handle_deletes_once(
    start: Seq<MessageView>,
    handle: Seq<char>,
    history: Seq<Seq<MessageView>>,
    k: int,
)
    requires
        held_once_at_most(start, handle),
        history.len() > 0,
        history[0] == after_delete(start, handle),
        forall|i: int|
            0 <= i < history.len() - 1 ==> step_not_issuing(
                #[trigger] history[i],
                history[i + 1],
                handle,
            ),
        0 <= k < history.len(),
    ensures
        unheld(history[k], handle),
        first_holder(history[k], handle) is None,
        after_delete(history[k], handle) == history[k],
    decreases k,
{
    if k == 0 {
        law_delete_consumes_handle(start, handle);
    } else {
        law_handle_deletes_once(start, handle, history, k - 1);
        law_unheld_is_kept(history[k - 1], history[k], handle);
    }
    lemma_first_holder(history[k], handle);
}

/// A receive rotates the handle, and the handle it replaced is stale: if
/// the message at position `i` is handed out under a handle other than the
/// one it carried, and the old handle is carried by no other message
/// afterwards, then a delete or a change of visibility by the old handle
/// finds nothing and changes nothing.
pub proof fn law_stale_handle_rejected(
    before: Seq<MessageView>,
    now: u64,
    max: nat,
    timeout: u32,
    after: Seq<MessageView>,
    out: Seq<MessageView>,
    i: int,
    later: u64,
    other_timeout: u32,
)
    requires
        receive_post(before, now, max, timeout, after, out),
        0 <= i < before.len(),
        is_taken(before, now, max, i),
        before[i].receipt_handle is Some,
        after[i].receipt_handle != before[i].receipt_handle,
        forall|k: int|
            0 <= k < after.len() && k != i ==> !(#[trigger] after[k]).holds(
                before[i].receipt_handle->0,
            ),
    ensures
        first_holder(after, before[i].receipt_handle->0) is None,
        after_delete(after, before[i].receipt_handle->0) == after,
        after_change_visibility(after, before[i].receipt_handle->0, later, other_timeout) == after,
{
    let stale = before[i].receipt_handle->0;
    assert forall|k: int| 0 <= k < after.len() implies !(#[trigger] after[k]).holds(stale) by {}
    law_unheld_handle_rejected(after, stale, later, other_timeout);
}

/// A receive leaves every message in its place: the queue keeps its length
/// and each position keeps its id and body.
pub proof fn law_receive_keeps_positions(
    before: Seq<MessageView>,
    now: u64,
    max: nat,
    timeout: u32,
    after: Seq<MessageView>,
    out: Seq<MessageView>,
    i: int,
)
    requires
        receive_post(before, now, max, timeout, after, out),
        0 <= i < before.len(),
    ensures
        after.len() == before.len(),
        after[i].id == before[i].id,
        after[i].message_body == before[i].message_body,
        before[i].well_formed() ==> after[i].well_formed(),
{
    if is_taken(before, now, max, i) {
        assert(after[i] == before[i].received(after[i].receipt_handle->0, now, timeout));
    } else {
        assert(after[i] == before[i]);
    }
}

/// Every message of `s` is well formed.
pub open spec fn all_well_formed(s: Seq<MessageView>) -> bool {
    forall|i: int| 0 <= i < s.len() ==> (#[trigger] s[i]).well_formed()
}

/// A queue of well-formed messages stays one under a push of a new
/// message, a delete, a removal by id and a change of visibility.
pub proof fn law_well_formed_is_kept(
    s: Seq<MessageView>,
    id: Seq<char>,
    body: Seq<char>,
    handle: Seq<char>,
    now: u64,
    timeout: u32,
)
    requires
        all_well_formed(s),
    ensures
        all_well_formed(s.push(MessageView::fresh(id, body, now))),
        all_well_formed(after_delete(s, handle)),
        all_well_formed(after_remove(s, id)),
        all_well_formed(after_change_visibility(s, handle, now, timeout)),
{
    lemma_first_holder(s, handle);
    lemma_first_with_id(s, id);
    let pushed = s.push(MessageView::fresh(id, body, now));
    assert forall|k: int| 0 <= k < pushed.len() implies (#[trigger] pushed[k]).well_formed() by {
        if k < s.len() {
            assert(pushed[k] == s[k]);
        }
    }
    let deleted = after_delete(s, handle);
    assert forall|k: int| 0 <= k < deleted.len() implies (#[trigger] deleted[k]).well_formed() by {
        match first_holder(s, handle) {
            Some(i) => {
                if k < i {
                    assert(deleted[k] == s[k]);
                } else {
                    assert(deleted[k] == s[k + 1]);
                }
            },
            None => {},
        }
    }
    let removed = after_remove(s, id);
    assert forall|k: int| 0 <= k < removed.len() implies (#[trigger] removed[k]).well_formed() by {
        match first_with_id(s, id) {
            Some(i) => {
                if k < i {
                    assert(removed[k] == s[k]);
                } else {
                    assert(removed[k] == s[k + 1]);
                }
            },
            None => {},
        }
    }
    let moved = after_change_visibility(s, handle, now, timeout);
    assert forall|k: int| 0 <= k < moved.len() implies (#[trigger] moved[k]).well_formed() by {
        match first_holder(s, handle) {
            Some(i) => {
                if k != i {
                    assert(moved[k] == s[k]);
                } else {
                    assert(s[i].well_formed());
                }
            },
            None => {},
        }
    }
}

/// A receive leaves a queue of well-formed messages one, and hands out
/// well-formed messages only, each received at least once.
pub proof fn law_receive_keeps_well_formed(
    before: Seq<MessageView>,
    now: u64,
    max: nat,
    timeout: u32,
    after: Seq<MessageView>,
    out: Seq<MessageView>,
)
    requires
        receive_post(before, now, max, timeout, after, out),
        all_well_formed(before),
    ensures
        all_well_formed(after),
        all_well_formed(out),
        forall|j: int|
            0 <= j < out.len() ==> (#[trigger] out[j]).receipt_handle is Some
                && out[j].first_received_at is Some,
{
    assert forall|k: int| 0 <= k < after.len() implies (#[trigger] after[k]).well_formed() by {
        law_receive_keeps_positions(before, now, max, timeout, after, out, k);
        assert(before[k].well_formed());
    }
    assert forall|j: int| 0 <= j < out.len() implies (#[trigger] out[j]).well_formed()
        && out[j].receipt_handle is Some && out[j].first_received_at is Some by {
        law_received_were_visible(before, now, max, timeout, after, out, j);
        let i = choose|i: int|
            0 <= i < before.len() && is_taken(before, now, max, i) && rank(before, now, i) == j
                && out[j] == #[trigger] after[i];
        assert(after[i] == before[i].received(after[i].receipt_handle->0, now, timeout));
    }
}

/// No two messages of `s` carry the same receipt handle.
pub open spec fn distinct_handles(s: Seq<MessageView>) -> bool {
    forall|i: int, j: int|
        0 <= i < s.len() && 0 <= j < s.len() && i != j && (#[trigger] s[i]).receipt_handle is Some
            ==> s[i].receipt_handle != (#[trigger] s[j]).receipt_handle
}

/// Where no two messages carry the same handle, each handle is carried
/// once at most.
pub proof fn law_distinct_handles_held_once(s: Seq<MessageView>, handle: Seq<char>)
    requires
        distinct_handles(s),
    ensures
        held_once_at_most(s, handle),
{
}

/// One operation of the queue whose new handles are new indeed: a push of
/// a message that carries no handle, a delete, a removal by id, a change
/// of visibility, or a receive each of whose handles is carried by no
/// message before it and by no other message after it.
pub open spec fn step_issuing_fresh(s: Seq<MessageView>, t: Seq<MessageView>) -> bool {
    ||| exists|m: MessageView| m.receipt_handle is None && t == #[trigger] s.push(m)
    ||| exists|h: Seq<char>| t == #[trigger] after_delete(s, h)
    ||| exists|id: Seq<char>| t == #[trigger] after_remove(s, id)
    ||| exists|h: Seq<char>, now: u64, timeout: u32|
        t == #[trigger] after_change_visibility(s, h, now, timeout)
    ||| exists|now: u64, max: nat, timeout: u32, out: Seq<MessageView>|
        #[trigger] receive_post(s, now, max, timeout, t, out) && forall|i: int, k: int|
            0 <= i < s.len() && 0 <= k < s.len() && is_taken(s, now, max, i) ==> (#[trigger] s[k]).receipt_handle
                != (#[trigger] t[i]).receipt_handle && (k != i ==> t[k].receipt_handle
                != t[i].receipt_handle)
}

/// Handles stay distinct as long as every receive issues new ones.
pub proof fn law_distinct_handles_kept(s: Seq<MessageView>, t: Seq<MessageView>)
    requires
        distinct_handles(s),
        step_issuing_fresh(s, t),
    ensures
        distinct_handles(t),
{
    if exists|m: MessageView| m.receipt_handle is None && t == #[trigger] s.push(m) {
        let m = choose|m: MessageView| m.receipt_handle is None && t == #[trigger] s.push(m);
        assert forall|i: int, j: int|
            0 <= i < t.len() && 0 <= j < t.len() && i != j && (#[trigger] t[i]).receipt_handle is Some implies t[i].receipt_handle
            != (#[trigger] t[j]).receipt_handle by {
            if i < s.len() {
                assert(t[i] == s[i]);
            }
            if j < s.len() {
                assert(t[j] == s[j]);
            }
        }
    } else if exists|h: Seq<char>| t == #[trigger] after_delete(s, h) {
        let h = choose|h: Seq<char>| t == #[trigger] after_delete(s, h);
        lemma_first_holder(s, h);
        match first_holder(s, h) {
            Some(p) => {
                lemma_remove_keeps_distinct(s, p);
            },
            None => {},
        }
    } else if exists|id: Seq<char>| t == #[trigger] after_remove(s, id) {
        let id = choose|id: Seq<char>| t == #[trigger] after_remove(s, id);
        lemma_first_with_id(s, id);
        match first_with_id(s, id) {
            Some(p) => {
                lemma_remove_keeps_distinct(s, p);
            },
            None => {},
        }
    } else if exists|h: Seq<char>, now: u64, timeout: u32|
        t == #[trigger] after_change_visibility(s, h, now, timeout) {
        let (h, now, timeout) = choose|h: Seq<char>, now: u64, timeout: u32|
            t == #[trigger] after_change_visibility(s, h, now, timeout);
        lemma_first_holder(s, h);
        assert forall|i: int, j: int|
            0 <= i < t.len() && 0 <= j < t.len() && i != j && (#[trigger] t[i]).receipt_handle is Some implies t[i].receipt_handle
            != (#[trigger] t[j]).receipt_handle by {
            assert(t[i].receipt_handle == s[i].receipt_handle);
            assert(t[j].receipt_handle == s[j].receipt_handle);
        }
    } else {
        let (now, max, timeout, out) = choose|now: u64, max: nat, timeout: u32, out: Seq<MessageView>|
            #[trigger] receive_post(s, now, max, timeout, t, out) && forall|i: int, k: int|
                0 <= i < s.len() && 0 <= k < s.len() && is_taken(s, now, max, i) ==> (#[trigger] s[k]).receipt_handle
                    != (#[trigger] t[i]).receipt_handle && (k != i ==> t[k].receipt_handle
                    != t[i].receipt_handle);
        assert forall|i: int, j: int|
            0 <= i < t.len() && 0 <= j < t.len() && i != j && (#[trigger] t[i]).receipt_handle is Some implies t[i].receipt_handle
            != (#[trigger] t[j]).receipt_handle by {
            if is_taken(s, now, max, i) {
                assert(s[j].receipt_handle != t[i].receipt_handle && t[j].receipt_handle
                    != t[i].receipt_handle);
            } else if is_taken(s, now, max, j) {
                assert(s[i].receipt_handle != t[j].receipt_handle && t[i].receipt_handle
                    != t[j].receipt_handle);
            } else {
                assert(t[i] == s[i]);
                assert(t[j] == s[j]);
            }
        }
    }
}

/// Taking a message out leaves the handles of the others distinct.
pub proof fn lemma_remove_keeps_distinct(s: Seq<MessageView>, p: int)
    requires
        distinct_handles(s),
        0 <= p < s.len(),
    ensures
        distinct_handles(s.remove(p)),
{
    let t = s.remove(p);
    assert forall|i: int, j: int|
        0 <= i < t.len() && 0 <= j < t.len() && i != j && (#[trigger] t[i]).receipt_handle is Some implies t[i].receipt_handle
        != (#[trigger] t[j]).receipt_handle by {
        let a = if i < p {
            i
        } else {
            i + 1
        };
        let b = if j < p {
            j
        } else {
            j + 1
        };
        assert(t[i] == s[a]);
        assert(t[j] == s[b]);
    }
}

/// Over the life of a queue a receipt handle deletes at most once. Let
/// `history` be the states of a queue that starts empty, each state made
/// from the one before it by an operation whose new handles are new. If
/// the step after state `d` is a delete by `handle`, and no later step
/// issues `handle` again, then in every later state no message carries
/// `handle`: a delete by it finds nothing and changes nothing.
pub proof fn law_exactly_once_handle(
    history: Seq<Seq<MessageView>>,
    handle: Seq<char>,
    d: int,
    k: int,
)
    requires
        history.len() > 0,
        history[0] == Seq::<MessageView>::empty(),
        forall|i: int|
            0 <= i < history.len() - 1 ==> step_issuing_fresh(#[trigger] history[i], history[i + 1]),
        0 <= d < k < history.len(),
        history[d + 1] == after_delete(history[d], handle),
        forall|i: int|
            d < i < history.len() - 1 ==> step_not_issuing(#[trigger] history[i], history[i + 1], handle),
    ensures
        first_holder(history[k], handle) is None,
        after_delete(history[k], handle) == history[k],
    decreases k,
{
    lemma_history_distinct(history, d);
    law_distinct_handles_held_once(history[d], handle);
    if k == d + 1 {
        law_delete_consumes_handle(history[d], handle);
    } else {
        law_exactly_once_handle(history, handle, d, k - 1);
        lemma_first_holder(history[k - 1], handle);
        law_unheld_is_kept(history[k - 1], history[k], handle);
    }
    lemma_first_holder(history[k], handle);
}

/// Every state of such a history has distinct handles.
pub proof fn lemma_history_distinct(history: Seq<Seq<MessageView>>, k: int)
    requires
        history.len() > 0,
        history[0] == Seq::<MessageView>::empty(),
        forall|i: int|
            0 <= i < history.len() - 1 ==> step_issuing_fresh(#[trigger] history[i], history[i + 1]),
        0 <= k < history.len(),
    ensures
        distinct_handles(history[k]),
    decreases k,
{
    if k > 0 {
        lemma_history_distinct(history, k - 1);
        law_distinct_handles_kept(history[k - 1], history[k]);
    }
}

} // verus!
