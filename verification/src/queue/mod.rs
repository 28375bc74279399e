//! The queue engine: messages, their visibility state, and the operations
//! of a single queue.
//!
//! Time is a count of milliseconds on the caller's clock. Every operation
//! that depends on the time exists in a form that takes it as `now`; the
//! forms without that parameter read the system clock first.

pub mod laws;
pub mod model;

use crate::deps::{is_uuid_v4_text, random_uuid, unix_millis};
use crate::queue::model::{
    after_change_visibility, after_delete, after_remove, count_hidden, count_visible, first_holder,
    is_taken, lemma_count_visible_prefix, lemma_count_visible_step, lemma_first_holder,
    lemma_first_holder_is, lemma_first_with_id, lemma_first_with_id_is, rank, receive_post,
    taken_count,
};
use vstd::prelude::*;

verus! {

/// One queued item.
#[derive(Debug)]
pub struct Message {
    pub id: String,
    pub message_body: String,
    /// Present once the message has been received; replaced on every receive.
    pub receipt_handle: Option<String>,
    pub receive_count: u32,
    /// The message is visible at `now` iff `visible_at <= now`.
    pub visible_at: u64,
    pub first_received_at: Option<u64>,
}

/// What a `Message` holds, as plain values.
pub ghost struct MessageView {
    pub id: Seq<char>,
    pub message_body: Seq<char>,
    pub receipt_handle: Option<Seq<char>>,
    pub receive_count: u32,
    pub visible_at: u64,
    pub first_received_at: Option<u64>,
}

/// The moment until which a message received at `now` stays hidden:
/// `timeout` seconds later, or the end of the clock's range if that comes
/// first.
pub open spec fn hidden_until(now: u64, timeout: u32) -> u64 {
    if now + timeout * 1000 > u64::MAX {
        u64::MAX
    } else {
        (now + timeout * 1000) as u64
    }
}

/// A receive count after one more receive; it stops at the largest `u32`.
pub open spec fn bumped(count: u32) -> u32 {
    if count == u32::MAX {
        count
    } else {
        (count + 1) as u32
    }
}

impl MessageView {
    /// A message as it is created: never received, visible from `now` on.
    pub open spec fn fresh(id: Seq<char>, message_body: Seq<char>, now: u64) -> MessageView {
        MessageView {
            id,
            message_body,
            receipt_handle: None,
            receive_count: 0,
            visible_at: now,
            first_received_at: None,
        }
    }

    /// Whether the message can be received at `now`.
    pub open spec fn visible(self, now: u64) -> bool {
        self.visible_at <= now
    }

    /// Whether `handle` is the receipt handle that the message carries.
    pub open spec fn holds(self, handle: Seq<char>) -> bool {
        self.receipt_handle == Some(handle)
    }

    /// A message that was never received has no handle and no time of first
    /// receipt.
    pub open spec fn well_formed(self) -> bool {
        self.receive_count == 0 ==> self.receipt_handle is None && self.first_received_at is None
    }

    /// The message after it has been handed out at `now` under `handle`.
    pub open spec fn received(self, handle: Seq<char>, now: u64, timeout: u32) -> MessageView {
        MessageView {
            receipt_handle: Some(handle),
            receive_count: bumped(self.receive_count),
            visible_at: hidden_until(now, timeout),
            first_received_at: match self.first_received_at {
                Some(t) => Some(t),
                None => Some(now),
            },
            ..self
        }
    }

    /// The message with its visibility moved to `timeout` seconds after `now`.
    pub open spec fn rescheduled(self, now: u64, timeout: u32) -> MessageView {
        MessageView { visible_at: hidden_until(now, timeout), ..self }
    }
}

impl View for Message {
    type V = MessageView;

    open spec fn view(&self) -> MessageView {
        MessageView {
            id: self.id@,
            message_body: self.message_body@,
            receipt_handle: match self.receipt_handle {
                Some(h) => Some(h@),
                None => None,
            },
            receive_count: self.receive_count,
            visible_at: self.visible_at,
            first_received_at: self.first_received_at,
        }
    }
}

impl Clone for Message {
    fn clone(&self) -> (r: Self)
        ensures
            r@ == self@,
    {
        Message {
            id: self.id.clone(),
            message_body: self.message_body.clone(),
            receipt_handle: match &self.receipt_handle {
                Some(h) => Some(h.clone()),
                None => None,
            },
            receive_count: self.receive_count,
            visible_at: self.visible_at,
            first_received_at: self.first_received_at,
        }
    }
}

/// The clock reading that the operations without a `now` parameter use: the
/// system clock in milliseconds since the Unix epoch, 0 before it.
pub fn current_millis() -> u64 {
    millis_of(unix_millis())
}

/// The clock reading that a look at the system clock gives: the
/// milliseconds since the Unix epoch, and 0 for a clock that stands before
/// the epoch.
pub open spec fn reading_of(clock: Option<u64>) -> u64 {
    match clock {
        Some(t) => t,
        None => 0,
    }
}

/// Computes `reading_of`.
pub fn millis_of(clock: Option<u64>) -> (r: u64)
    ensures
        r == reading_of(clock),
{
    match clock {
        Some(t) => t,
        None => 0,
    }
}

/// Computes `hidden_until`.
pub fn deadline(now: u64, timeout: u32) -> (r: u64)
    ensures
        r == hidden_until(now, timeout),
{
    let span: u64 = (timeout as u64) * 1000;
    now.saturating_add(span)
}

impl Message {
    /// A new message, visible from the current clock reading on.
    pub fn new(id: String, message_body: String) -> (r: Message)
        ensures
            r@ == MessageView::fresh(id@, message_body@, r.visible_at),
    {
        Message::new_at(id, message_body, current_millis())
    }

    /// A new message, visible from `now` on.
    pub fn new_at(id: String, message_body: String, now: u64) -> (r: Message)
        ensures
            r@ == MessageView::fresh(id@, message_body@, now),
            r@.well_formed(),
    {
        Message {
            id,
            message_body,
            receipt_handle: None,
            receive_count: 0,
            visible_at: now,
            first_received_at: None,
        }
    }

    /// Whether the message can be received at `now`.
    pub fn is_visible(&self, now: u64) -> (r: bool)
        ensures
            r == self@.visible(now),
    {
        self.visible_at <= now
    }

    /// Whether `handle` is the receipt handle that the message carries.
    pub fn has_handle(&self, handle: &String) -> (r: bool)
        ensures
            r == self@.holds(handle@),
    {
        match &self.receipt_handle {
            Some(h) => *h == *handle,
            None => false,
        }
    }

    /// Hands the message out at `now` under `handle`: the handle replaces
    /// the old one, the receive count goes up, and the message is hidden
    /// for `timeout` seconds.
    pub fn mark_received(&mut self, handle: String, now: u64, timeout: u32)
        ensures
            final(self)@ == old(self)@.received(handle@, now, timeout),
            final(self)@.well_formed(),
    {
        self.receipt_handle = Some(handle);
        if self.receive_count < u32::MAX {
            self.receive_count = self.receive_count + 1;
        }
        self.visible_at = deadline(now, timeout);
        if self.first_received_at.is_none() {
            self.first_received_at = Some(now);
        }
    }
}

/// The views of the messages that a vector holds, in order.
pub open spec fn views(v: Seq<Message>) -> Seq<MessageView> {
    Seq::new(v.len(), |i: int| v[i]@)
}

/// A key/value tag of a queue. The engine stores tags and never reads them.
#[derive(Debug, PartialEq)]
pub struct QueueTags {
    key: String,
    value: String,
}

impl View for QueueTags {
    type V = (Seq<char>, Seq<char>);

    closed spec fn view(&self) -> (Seq<char>, Seq<char>) {
        (self.key@, self.value@)
    }
}

impl Clone for QueueTags {
    fn clone(&self) -> (r: Self)
        ensures
            r@ == self@,
    {
        QueueTags { key: self.key.clone(), value: self.value.clone() }
    }
}

impl QueueTags {
    pub fn new(key: String, value: String) -> (r: QueueTags)
        ensures
            r@ == (key@, value@),
    {
        QueueTags { key, value }
    }

    pub fn key(&self) -> (r: &String)
        ensures
            r@ == self@.0,
    {
        &self.key
    }

    pub fn value(&self) -> (r: &String)
        ensures
            r@ == self@.1,
    {
        &self.value
    }
}

/// The views of the tags that a vector holds, in order.
pub open spec fn tag_views(v: Seq<QueueTags>) -> Seq<(Seq<char>, Seq<char>)> {
    Seq::new(v.len(), |i: int| v[i]@)
}

/// The visibility timeout that a queue has when none is given.
pub const DEFAULT_VISIBILITY_TIMEOUT: u32 = 30;

/// A named queue: messages in the order in which they were pushed.
#[derive(Debug)]
pub struct Queue {
    name: String,
    tags: Vec<QueueTags>,
    pub default_visibility_timeout: u32,
    messages: Vec<Message>,
}

/// What a `Queue` holds, as plain values.
pub ghost struct QueueView {
    pub name: Seq<char>,
    pub tags: Seq<(Seq<char>, Seq<char>)>,
    pub default_visibility_timeout: u32,
    pub messages: Seq<MessageView>,
}

impl View for Queue {
    type V = QueueView;

    closed spec fn view(&self) -> QueueView {
        QueueView {
            name: self.name@,
            tags: tag_views(self.tags@),
            default_visibility_timeout: self.default_visibility_timeout,
            messages: views(self.messages@),
        }
    }
}

/// The timeout that a receive applies: the caller's, or else the queue's.
pub open spec fn effective_timeout(given: Option<u32>, default_timeout: u32) -> u32 {
    match given {
        Some(t) => t,
        None => default_timeout,
    }
}

impl Queue {
    /// An empty queue. Without a timeout it gets `DEFAULT_VISIBILITY_TIMEOUT`.
    pub fn new(name: &str, tags: Vec<QueueTags>, default_visibility_timeout: Option<u32>) -> (r:
        Queue)
        ensures
            r@ == (QueueView {
                name: name@,
                tags: tag_views(tags@),
                default_visibility_timeout: effective_timeout(
                    default_visibility_timeout,
                    DEFAULT_VISIBILITY_TIMEOUT,
                ),
                messages: Seq::empty(),
            }),
    {
        let r = Queue {
            name: name.to_owned(),
            tags,
            default_visibility_timeout: match default_visibility_timeout {
                Some(t) => t,
                None => DEFAULT_VISIBILITY_TIMEOUT,
            },
            messages: Vec::new(),
        };
        assert(views(r.messages@) =~= Seq::empty());
        r
    }

    pub fn name(&self) -> (r: &String)
        ensures
            r@ == self@.name,
    {
        &self.name
    }

    pub fn tags(&self) -> (r: &Vec<QueueTags>)
        ensures
            tag_views(r@) == self@.tags,
    {
        &self.tags
    }

    pub fn visibility_timeout(&self) -> (r: u32)
        ensures
            r == self@.default_visibility_timeout,
    {
        self.default_visibility_timeout
    }

    pub fn set_visibility_timeout(&mut self, timeout: u32)
        ensures
            final(self)@ == (QueueView { default_visibility_timeout: timeout, ..old(self)@ }),
    {
        self.default_visibility_timeout = timeout;
    }

    /// The messages in queue order, visible or not.
    pub fn messages(&self) -> (r: &Vec<Message>)
        ensures
            views(r@) == self@.messages,
    {
        &self.messages
    }

    pub fn len(&self) -> (r: usize)
        ensures
            r == self@.messages.len(),
    {
        self.messages.len()
    }

    /// Appends `msg` at the tail.
    pub fn push(&mut self, msg: Message)
        ensures
            final(self)@ == (QueueView {
                messages: old(self)@.messages.push(msg@),
                ..old(self)@
            }),
    {
        self.messages.push(msg);
        assert(views(self.messages@) =~= views(old(self).messages@).push(msg@));
    }
}

impl Queue {
    /// Receives up to `max_messages` visible messages at the current clock
    /// reading. See `receive_at`.
    pub fn receive(&mut self, max_messages: u32, visibility_timeout: Option<u32>) -> (received:
        Vec<Message>)
        ensures
            exists|now: u64|
                #[trigger] receive_post(
                    old(self)@.messages,
                    now,
                    max_messages as nat,
                    effective_timeout(visibility_timeout, old(self)@.default_visibility_timeout),
                    final(self)@.messages,
                    views(received@),
                ),
            final(self)@ == (QueueView { messages: final(self)@.messages, ..old(self)@ }),
    {
        let now = current_millis();
        let received = self.receive_at(max_messages, visibility_timeout, now);
        assert(receive_post(
            old(self)@.messages,
            now,
            max_messages as nat,
            effective_timeout(visibility_timeout, old(self)@.default_visibility_timeout),
            self@.messages,
            views(received@),
        ));
        received
    }

    /// Receives up to `max_messages` messages that are visible at `now`,
    /// scanning from the head. Each one gets a new random receipt handle,
    /// one more receive, and stays hidden for the given timeout, or for the
    /// queue's default; it keeps its place in the queue. The result holds
    /// copies of the received messages as they are afterwards.
    pub fn receive_at(
        &mut self,
        max_messages: u32,
        visibility_timeout: Option<u32>,
        now: u64,
    ) -> (received: Vec<Message>)
        ensures
            receive_post(
                old(self)@.messages,
                now,
                max_messages as nat,
                effective_timeout(visibility_timeout, old(self)@.default_visibility_timeout),
                final(self)@.messages,
                views(received@),
            ),
            final(self)@ == (QueueView { messages: final(self)@.messages, ..old(self)@ }),
    {
        let timeout = match visibility_timeout {
            Some(t) => t,
            None => self.default_visibility_timeout,
        };
        let ghost start = self@;
        let ghost before = self@.messages;
        let ghost max = max_messages as nat;
        let mut received: Vec<Message> = Vec::new();
        let n = self.messages.len();
        let mut i: usize = 0;
        assert(before.take(0) =~= Seq::empty());
        while i < n && received.len() < max_messages as usize
            invariant
                n == before.len(),
                self.messages.len() == n,
                i <= n,
                max == max_messages as nat,
                self@ == (QueueView { messages: self@.messages, ..start }),
                received.len() == taken_count(before.take(i as int), now, max),
                forall|k: int|
                    0 <= k < i && !is_taken(before, now, max, k) ==> (#[trigger] self.messages@[k])@
                        == before[k],
                forall|k: int|
                    0 <= k < i && is_taken(before, now, max, k) ==> {
                        &&& (#[trigger] self.messages@[k])@.receipt_handle is Some
                        &&& is_uuid_v4_text(self.messages@[k]@.receipt_handle->0)
                        &&& self.messages@[k]@ == before[k].received(
                            self.messages@[k]@.receipt_handle->0,
                            now,
                            timeout,
                        )
                        &&& rank(before, now, k) < received@.len()
                        &&& received[rank(before, now, k)]@ == self.messages@[k]@
                    },
                forall|k: int| i <= k < n ==> (#[trigger] self.messages@[k])@ == before[k],
            decreases n - i,
        {
            proof {
                lemma_count_visible_step(before, now, i as int);
            }
            if self.messages[i].is_visible(now) {
                let handle = random_uuid();
                let ghost held = self.messages@;
                let ghost got = received@;
                let m = &mut self.messages[i];
                m.mark_received(handle, now, timeout);
                let copy = self.messages[i].clone();
                received.push(copy);
                proof {
                    assert(is_taken(before, now, max, i as int));
                    assert(rank(before, now, i as int) == got.len());
                    assert forall|k: int| 0 <= k < i && is_taken(before, now, max, k) implies {
                        &&& (#[trigger] self.messages@[k]) == held[k]
                        &&& rank(before, now, k) < got.len()
                        &&& received[rank(before, now, k)] == got[rank(before, now, k)]
                    } by {
                        assert(held[k]@.receipt_handle is Some);
                    }
                }
            }
            i = i + 1;
        }
        proof {
            let after = self@.messages;
            let out = views(received@);
            lemma_count_visible_prefix(before, now, i as int, n as int);
            assert(before.take(n as int) =~= before);
            assert forall|k: int| 0 <= k < before.len() && !is_taken(before, now, max, k) implies
                #[trigger] after[k] == before[k] by {}
            assert forall|k: int| 0 <= k < before.len() && is_taken(before, now, max, k) implies {
                &&& (#[trigger] after[k]).receipt_handle is Some
                &&& is_uuid_v4_text(after[k].receipt_handle->0)
                &&& after[k] == before[k].received(after[k].receipt_handle->0, now, timeout)
                &&& out[rank(before, now, k)] == after[k]
            } by {
                if k >= i {
                    lemma_count_visible_prefix(before, now, i as int, k);
                }
                assert(self.messages@[k]@ == after[k]);
            }
        }
        received
    }
}

impl Queue {
    /// Position of the first message that carries `handle`.
    fn find_handle(&self, handle: &str) -> (r: Option<usize>)
        ensures
            match r {
                Some(i) => first_holder(self@.messages, handle@) == Some(i as int) && i
                    < self.messages.len(),
                None => first_holder(self@.messages, handle@) is None,
            },
    {
        let wanted = handle.to_owned();
        let ghost s = self@.messages;
        let n = self.messages.len();
        let mut i: usize = 0;
        while i < n
            invariant
                n == self.messages.len(),
                s == self@.messages,
                wanted@ == handle@,
                i <= n,
                forall|k: int| 0 <= k < i ==> !(#[trigger] s[k]).holds(handle@),
            decreases n - i,
        {
            if self.messages[i].has_handle(&wanted) {
                proof {
                    assert(s[i as int] == self.messages[i as int]@);
                    lemma_first_holder_is(s, handle@, i as int);
                }
                return Some(i);
            }
            assert(s[i as int] == self.messages[i as int]@);
            i = i + 1;
        }
        proof {
            lemma_first_holder(s, handle@);
        }
        None
    }

    /// Deletes the first message that carries the receipt handle `handle`
    /// and says whether there was one. The other messages keep their order.
    pub fn delete_by_receipt_handle(&mut self, handle: &str) -> (found: bool)
        ensures
            found == first_holder(old(self)@.messages, handle@).is_some(),
            final(self)@ == (QueueView {
                messages: after_delete(old(self)@.messages, handle@),
                ..old(self)@
            }),
    {
        match self.find_handle(handle) {
            Some(i) => {
                self.messages.remove(i);
                assert(views(self.messages@) =~= views(old(self).messages@).remove(i as int));
                true
            },
            None => false,
        }
    }

    /// Changes the visibility of the first message that carries `handle`,
    /// counted from the current clock reading. See `change_visibility_at`.
    pub fn change_visibility(&mut self, handle: &str, timeout: u32) -> (found: bool)
        ensures
            found == first_holder(old(self)@.messages, handle@).is_some(),
            exists|now: u64|
                final(self)@ == (QueueView {
                    messages: #[trigger] after_change_visibility(
                        old(self)@.messages,
                        handle@,
                        now,
                        timeout,
                    ),
                    ..old(self)@
                }),
    {
        let now = current_millis();
        let found = self.change_visibility_at(handle, timeout, now);
        assert(self@ == (QueueView {
            messages: after_change_visibility(old(self)@.messages, handle@, now, timeout),
            ..old(self)@
        }));
        found
    }

    /// Makes the first message that carries `handle` visible `timeout`
    /// seconds after `now`, and says whether there was one. A timeout of 0
    /// makes it visible at once.
    pub fn change_visibility_at(&mut self, handle: &str, timeout: u32, now: u64) -> (found: bool)
        ensures
            found == first_holder(old(self)@.messages, handle@).is_some(),
            final(self)@ == (QueueView {
                messages: after_change_visibility(old(self)@.messages, handle@, now, timeout),
                ..old(self)@
            }),
    {
        match self.find_handle(handle) {
            Some(i) => {
                let until = deadline(now, timeout);
                let m = &mut self.messages[i];
                m.visible_at = until;
                assert(views(self.messages@) =~= views(old(self).messages@).update(
                    i as int,
                    old(self).messages[i as int]@.rescheduled(now, timeout),
                ));
                true
            },
            None => false,
        }
    }

    /// The number of messages that are visible at the current clock reading.
    pub fn approximate_number_of_messages(&self) -> (r: usize)
        ensures
            exists|now: u64| r == #[trigger] count_visible(self@.messages, now),
            r <= self@.messages.len(),
    {
        let now = current_millis();
        let r = self.approximate_number_of_messages_at(now);
        assert(r == count_visible(self@.messages, now));
        r
    }

    /// The number of messages that are visible at `now`.
    pub fn approximate_number_of_messages_at(&self, now: u64) -> (r: usize)
        ensures
            r == count_visible(self@.messages, now),
            r <= self@.messages.len(),
    {
        let ghost s = self@.messages;
        let n = self.messages.len();
        let mut count: usize = 0;
        let mut i: usize = 0;
        assert(s.take(0) =~= Seq::empty());
        while i < n
            invariant
                n == self.messages.len(),
                s == self@.messages,
                i <= n,
                count == count_visible(s.take(i as int), now),
                count <= i,
            decreases n - i,
        {
            proof {
                lemma_count_visible_step(s, now, i as int);
            }
            if self.messages[i].is_visible(now) {
                count = count + 1;
            }
            i = i + 1;
        }
        assert(s.take(n as int) =~= s);
        count
    }

    /// The number of messages that are hidden at the current clock reading.
    pub fn approximate_number_of_messages_not_visible(&self) -> (r: usize)
        ensures
            exists|now: u64| r == #[trigger] count_hidden(self@.messages, now),
            r <= self@.messages.len(),
    {
        let now = current_millis();
        let r = self.approximate_number_of_messages_not_visible_at(now);
        assert(r == count_hidden(self@.messages, now));
        r
    }

    /// The number of messages that are hidden at `now`.
    pub fn approximate_number_of_messages_not_visible_at(&self, now: u64) -> (r: usize)
        ensures
            r == count_hidden(self@.messages, now),
            r <= self@.messages.len(),
    {
        let ghost s = self@.messages;
        let n = self.messages.len();
        let mut count: usize = 0;
        let mut i: usize = 0;
        assert(s.take(0) =~= Seq::empty());
        while i < n
            invariant
                n == self.messages.len(),
                s == self@.messages,
                i <= n,
                count == count_hidden(s.take(i as int), now),
                count <= i,
            decreases n - i,
        {
            assert(s.take(i + 1).drop_last() =~= s.take(i as int));
            if !self.messages[i].is_visible(now) {
                count = count + 1;
            }
            i = i + 1;
        }
        assert(s.take(n as int) =~= s);
        count
    }

    /// Removes the first message whose id is `id`, if there is one.
    pub fn remove(&mut self, id: &str)
        ensures
            final(self)@ == (QueueView {
                messages: after_remove(old(self)@.messages, id@),
                ..old(self)@
            }),
    {
        let wanted = id.to_owned();
        let ghost s = self@.messages;
        let n = self.messages.len();
        let mut i: usize = 0;
        while i < n
            invariant
                n == self.messages.len(),
                s == self@.messages,
                *self == *old(self),
                wanted@ == id@,
                i <= n,
                forall|k: int| 0 <= k < i ==> (#[trigger] s[k]).id != id@,
            decreases n - i,
        {
            assert(s[i as int] == self.messages[i as int]@);
            if self.messages[i].id == wanted {
                proof {
                    lemma_first_with_id_is(s, id@, i as int);
                }
                self.messages.remove(i);
                assert(views(self.messages@) =~= s.remove(i as int));
                return ;
            }
            i = i + 1;
        }
        proof {
            lemma_first_with_id(s, id@);
        }
    }
}

impl Clone for Queue {
    fn clone(&self) -> (r: Self)
        ensures
            r@ == self@,
    {
        let mut tags: Vec<QueueTags> = Vec::new();
        let mut i: usize = 0;
        while i < self.tags.len()
            invariant
                i <= self.tags.len(),
                tags.len() == i,
                forall|k: int| 0 <= k < i ==> (#[trigger] tags[k])@ == self.tags[k]@,
            decreases self.tags.len() - i,
        {
            tags.push(self.tags[i].clone());
            i = i + 1;
        }
        let mut messages: Vec<Message> = Vec::new();
        let mut j: usize = 0;
        while j < self.messages.len()
            invariant
                j <= self.messages.len(),
                messages.len() == j,
                forall|k: int| 0 <= k < j ==> (#[trigger] messages[k])@ == self.messages[k]@,
            decreases self.messages.len() - j,
        {
            messages.push(self.messages[j].clone());
            j = j + 1;
        }
        assert(tag_views(tags@) =~= tag_views(self.tags@));
        assert(views(messages@) =~= views(self.messages@));
        Queue {
            name: self.name.clone(),
            tags,
            default_visibility_timeout: self.default_visibility_timeout,
            messages,
        }
    }
}

} // verus!
