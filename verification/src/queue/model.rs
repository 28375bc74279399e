//! The mathematical model of a queue's message sequence: what each
//! operation does to it, as functions and relations on `Seq<MessageView>`.

use super::MessageView;
use crate::deps::is_uuid_v4_text;
use vstd::prelude::*;

verus! {

/// How many messages of `s` are visible at `now`.
pub open spec fn count_visible(s: Seq<MessageView>, now: u64) -> nat
    decreases s.len(),
{
    if s.len() == 0 {
        0
    } else {
        count_visible(s.drop_last(), now) + if s.last().visible(now) {
            1nat
        } else {
            0nat
        }
    }
}

/// How many messages of `s` are hidden at `now`.
pub open spec fn count_hidden(s: Seq<MessageView>, now: u64) -> nat
    decreases s.len(),
{
    if s.len() == 0 {
        0
    } else {
        count_hidden(s.drop_last(), now) + if s.last().visible(now) {
            0nat
        } else {
            1nat
        }
    }
}

/// Position of the first message that carries the receipt handle `handle`.
pub open spec fn first_holder(s: Seq<MessageView>, handle: Seq<char>) -> Option<int>
    decreases s.len(),
{
    if s.len() == 0 {
        None
    } else {
        match first_holder(s.drop_last(), handle) {
            Some(i) => Some(i),
            None => if s.last().holds(handle) {
                Some(s.len() - 1)
            } else {
                None
            },
        }
    }
}

/// Position of the first message whose id is `id`.
pub open spec fn first_with_id(s: Seq<MessageView>, id: Seq<char>) -> Option<int>
    decreases s.len(),
{
    if s.len() == 0 {
        None
    } else {
        match first_with_id(s.drop_last(), id) {
            Some(i) => Some(i),
            None => if s.last().id == id {
                Some(s.len() - 1)
            } else {
                None
            },
        }
    }
}

/// No message of `s` carries the receipt handle `handle`.
pub open spec fn unheld(s: Seq<MessageView>, handle: Seq<char>) -> bool {
    forall|i: int| 0 <= i < s.len() ==> !(#[trigger] s[i]).holds(handle)
}

/// `first_holder` finds a message that carries the handle and has none
/// before it that does; it finds nothing exactly where no message does.
pub proof fn lemma_first_holder(s: Seq<MessageView>, handle: Seq<char>)
    ensures
        match first_holder(s, handle) {
            Some(i) => 0 <= i < s.len() && s[i].holds(handle) && unheld(s.take(i), handle),
            None => unheld(s, handle),
        },
    decreases s.len(),
{
    if s.len() > 0 {
        let t = s.drop_last();
        lemma_first_holder(t, handle);
        assert(forall|k: int| 0 <= k < t.len() ==> t[k] == s[k]);
        match first_holder(t, handle) {
            Some(i) => {
                assert(t.take(i) =~= s.take(i));
            },
            None => {
                assert(s.take(s.len() - 1) =~= t);
            },
        }
    }
}

/// The position `i` is the one that `first_holder` finds, if the message
/// there carries the handle and none before it does.
pub proof fn lemma_first_holder_is(s: Seq<MessageView>, handle: Seq<char>, i: int)
    requires
        0 <= i < s.len(),
        s[i].holds(handle),
        forall|k: int| 0 <= k < i ==> !(#[trigger] s[k]).holds(handle),
    ensures
        first_holder(s, handle) == Some(i),
{
    lemma_first_holder(s, handle);
    match first_holder(s, handle) {
        Some(j) => {
            if j < i {
                assert(!s[j].holds(handle));
            }
            if i < j {
                assert(s.take(j)[i] == s[i]);
            }
        },
        None => {},
    }
}

/// `first_with_id` finds a message with the id that has none before it
/// with that id; it finds nothing exactly where no message has it.
pub proof fn lemma_first_with_id(s: Seq<MessageView>, id: Seq<char>)
    ensures
        match first_with_id(s, id) {
            Some(i) => 0 <= i < s.len() && s[i].id == id && forall|k: int|
                0 <= k < i ==> (#[trigger] s[k]).id != id,
            None => forall|k: int| 0 <= k < s.len() ==> (#[trigger] s[k]).id != id,
        },
    decreases s.len(),
{
    if s.len() > 0 {
        let t = s.drop_last();
        lemma_first_with_id(t, id);
        assert(forall|k: int| 0 <= k < t.len() ==> t[k] == s[k]);
    }
}

/// The position `i` is the one that `first_with_id` finds, if the message
/// there has the id and none before it has.
pub proof fn lemma_first_with_id_is(s: Seq<MessageView>, id: Seq<char>, i: int)
    requires
        0 <= i < s.len(),
        s[i].id == id,
        forall|k: int| 0 <= k < i ==> (#[trigger] s[k]).id != id,
    ensures
        first_with_id(s, id) == Some(i),
{
    lemma_first_with_id(s, id);
}

/// The sequence after `delete_by_receipt_handle(handle)`: the first holder
/// of the handle is gone, the rest keeps its order.
pub open spec fn after_delete(s: Seq<MessageView>, handle: Seq<char>) -> Seq<MessageView> {
    match first_holder(s, handle) {
        Some(i) => s.remove(i),
        None => s,
    }
}

/// The sequence after `remove(id)`: the first message with that id is gone.
pub open spec fn after_remove(s: Seq<MessageView>, id: Seq<char>) -> Seq<MessageView> {
    match first_with_id(s, id) {
        Some(i) => s.remove(i),
        None => s,
    }
}

/// The sequence after `change_visibility(handle, timeout)` at `now`: the
/// first holder of the handle becomes visible `timeout` seconds after `now`.
pub open spec fn after_change_visibility(
    s: Seq<MessageView>,
    handle: Seq<char>,
    now: u64,
    timeout: u32,
) -> Seq<MessageView> {
    match first_holder(s, handle) {
        Some(i) => s.update(i, s[i].rescheduled(now, timeout)),
        None => s,
    }
}

/// Whether a receive of at most `max` messages at `now` hands out the
/// message at position `i`: it is visible, and fewer than `max` visible
/// messages stand before it.
pub open spec fn is_taken(s: Seq<MessageView>, now: u64, max: nat, i: int) -> bool {
    s[i].visible(now) && count_visible(s.take(i), now) < max
}

/// The place in a receive's result of the message at position `i`: the
/// number of visible messages before it.
pub open spec fn rank(s: Seq<MessageView>, now: u64, i: int) -> int {
    count_visible(s.take(i), now) as int
}

/// How many messages a receive of at most `max` hands out.
pub open spec fn taken_count(s: Seq<MessageView>, now: u64, max: nat) -> nat {
    if count_visible(s, now) < max {
        count_visible(s, now)
    } else {
        max
    }
}

/// What a receive of at most `max` messages at `now` does: `before` is the
/// sequence when it starts, `after` the sequence when it ends, `out` the
/// list it returns. Every taken message is rotated to a new handle, which
/// is a version-4 UUID, and `out` holds the taken messages as they are
/// afterwards, in queue order; nothing else changes.
pub open spec fn receive_post(
    before: Seq<MessageView>,
    now: u64,
    max: nat,
    timeout: u32,
    after: Seq<MessageView>,
    out: Seq<MessageView>,
) -> bool {
    &&& after.len() == before.len()
    &&& out.len() == taken_count(before, now, max)
    &&& forall|i: int|
        0 <= i < before.len() && !is_taken(before, now, max, i) ==> #[trigger] after[i]
            == before[i]
    &&& forall|i: int|
        0 <= i < before.len() && is_taken(before, now, max, i) ==> {
            &&& (#[trigger] after[i]).receipt_handle is Some
            &&& is_uuid_v4_text(after[i].receipt_handle->0)
            &&& after[i] == before[i].received(after[i].receipt_handle->0, now, timeout)
            &&& out[rank(before, now, i)] == after[i]
        }
}

/// A prefix holds no more visible messages than a longer prefix.
pub proof fn lemma_count_visible_prefix(s: Seq<MessageView>, now: u64, i: int, j: int)
    requires
        0 <= i <= j <= s.len(),
    ensures
        count_visible(s.take(i), now) <= count_visible(s.take(j), now),
        count_visible(s.take(j), now) <= j,
    decreases j,
{
    if j > 0 {
        assert(s.take(j).drop_last() == s.take(j - 1));
        if i < j {
            lemma_count_visible_prefix(s, now, i, j - 1);
        } else {
            lemma_count_visible_prefix(s, now, i - 1, j - 1);
        }
    }
}

/// Taking one more message into the prefix counts it if it is visible.
pub proof fn lemma_count_visible_step(s: Seq<MessageView>, now: u64, i: int)
    requires
        0 <= i < s.len(),
    ensures
        count_visible(s.take(i + 1), now) == count_visible(s.take(i), now) + if s[i].visible(now) {
            1nat
        } else {
            0nat
        },
{
    assert(s.take(i + 1).drop_last() == s.take(i));
}

} // verus!
