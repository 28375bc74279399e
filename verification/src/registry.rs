//! The registry: every queue of the process, found by its name.

use crate::queue::model::{after_change_visibility, after_delete, first_holder, receive_post};
use crate::queue::{
    effective_timeout, tag_views, views, Message, Queue, QueueTags, QueueView,
    DEFAULT_VISIBILITY_TIMEOUT,
};
use vstd::prelude::*;

verus! {

/// Position of the queue named `name` among `queues`.
pub open spec fn position_of(queues: Seq<QueueView>, name: Seq<char>) -> Option<int>
    decreases queues.len(),
{
    if queues.len() == 0 {
        None
    } else {
        match position_of(queues.drop_last(), name) {
            Some(i) => Some(i),
            None => if queues.last().name == name {
                Some(queues.len() - 1)
            } else {
                None
            },
        }
    }
}

/// No two queues have the same name.
pub open spec fn distinct_names(queues: Seq<QueueView>) -> bool {
    forall|i: int, j: int|
        0 <= i < queues.len() && 0 <= j < queues.len() && (#[trigger] queues[i]).name
            == (#[trigger] queues[j]).name ==> i == j
}

/// `position_of` finds the queue with the name, and finds nothing exactly
/// where no queue has it.
pub proof fn lemma_position_of(queues: Seq<QueueView>, name: Seq<char>)
    ensures
        match position_of(queues, name) {
            Some(i) => 0 <= i < queues.len() && queues[i].name == name && forall|k: int|
                0 <= k < i ==> (#[trigger] queues[k]).name != name,
            None => forall|k: int| 0 <= k < queues.len() ==> (#[trigger] queues[k]).name != name,
        },
    decreases queues.len(),
{
    if queues.len() > 0 {
        let t = queues.drop_last();
        lemma_position_of(t, name);
        assert(forall|k: int| 0 <= k < t.len() ==> t[k] == queues[k]);
    }
}

/// All queues, in the order in which they were created.
pub struct Registry {
    queues: Vec<Queue>,
}

/// The views of the queues that a vector holds, in order.
pub open spec fn queue_views(v: Seq<Queue>) -> Seq<QueueView> {
    Seq::new(v.len(), |i: int| v[i]@)
}

impl View for Registry {
    type V = Seq<QueueView>;

    closed spec fn view(&self) -> Seq<QueueView> {
        queue_views(self.queues@)
    }
}

impl Registry {
    #[verifier::type_invariant]
    spec fn names_are_distinct(self) -> bool {
        distinct_names(queue_views(self.queues@))
    }

    /// A registry without queues.
    pub fn new() -> (r: Registry)
        ensures
            r@ == Seq::<QueueView>::empty(),
    {
        let r = Registry { queues: Vec::new() };
        assert(queue_views(r.queues@) =~= Seq::empty());
        r
    }

    /// Does nothing when run; to the verifier it shows that the names in a
    /// registry are distinct.
    pub fn names_are_known_distinct(&self)
        ensures
            distinct_names(self@),
    {
        proof {
            use_type_invariant(self);
        }
    }

    /// Position of the queue named `name`.
    pub fn position(&self, name: &str) -> (r: Option<usize>)
        ensures
            match r {
                Some(i) => position_of(self@, name@) == Some(i as int) && i < self@.len(),
                None => position_of(self@, name@) is None,
            },
    {
        let wanted = name.to_owned();
        let ghost s = self@;
        let n = self.queues.len();
        let mut i: usize = 0;
        while i < n
            invariant
                n == self.queues.len(),
                s == self@,
                wanted@ == name@,
                i <= n,
                forall|k: int| 0 <= k < i ==> (#[trigger] s[k]).name != name@,
            decreases n - i,
        {
            assert(s[i as int] == self.queues[i as int]@);
            if *self.queues[i].name() == wanted {
                proof {
                    lemma_position_of(s, name@);
                }
                return Some(i);
            }
            i = i + 1;
        }
        proof {
            lemma_position_of(s, name@);
        }
        None
    }

    /// Whether a queue named `name` is there.
    pub fn contains(&self, name: &str) -> (r: bool)
        ensures
            r == position_of(self@, name@).is_some(),
    {
        self.position(name).is_some()
    }

    pub fn len(&self) -> (r: usize)
        ensures
            r == self@.len(),
    {
        self.queues.len()
    }

    /// The queue at position `i`.
    pub fn queue(&self, i: usize) -> (r: &Queue)
        requires
            i < self@.len(),
        ensures
            r@ == self@[i as int],
    {
        &self.queues[i]
    }

    /// Hands the queues out and leaves the registry empty.
    fn take_queues(&mut self) -> (r: Vec<Queue>)
        ensures
            r == old(self).queues,
            distinct_names(queue_views(r@)),
    {
        proof {
            use_type_invariant(&*self);
        }
        let mut out: Vec<Queue> = Vec::new();
        assert(queue_views(out@) =~= Seq::empty());
        core::mem::swap(&mut self.queues, &mut out);
        out
    }

    /// Creates the queue `name` unless one of that name is there; an
    /// existing queue is left as it is, whatever its attributes. Says
    /// whether a queue was created.
    pub fn create(&mut self, name: &str, tags: Vec<QueueTags>, visibility_timeout: Option<u32>) -> (created:
        bool)
        ensures
            created == position_of(old(self)@, name@).is_none(),
            created ==> final(self)@ == old(self)@.push(
                QueueView {
                    name: name@,
                    tags: tag_views(tags@),
                    default_visibility_timeout: effective_timeout(
                        visibility_timeout,
                        DEFAULT_VISIBILITY_TIMEOUT,
                    ),
                    messages: Seq::empty(),
                },
            ),
            !created ==> final(self)@ == old(self)@,
    {
        if self.contains(name) {
            return false;
        }
        proof {
            lemma_position_of(self@, name@);
        }
        let q = Queue::new(name, tags, visibility_timeout);
        let mut queues = self.take_queues();
        let ghost before = queue_views(queues@);
        queues.push(q);
        assert(queue_views(queues@) =~= before.push(q@));
        self.queues = queues;
        true
    }

    /// The names of all queues, in the order in which they were created.
    pub fn list(&self) -> (names: Vec<String>)
        ensures
            names.len() == self@.len(),
            forall|i: int| 0 <= i < names.len() ==> (#[trigger] names[i])@ == self@[i].name,
    {
        let mut names: Vec<String> = Vec::new();
        let n = self.queues.len();
        let mut i: usize = 0;
        while i < n
            invariant
                n == self.queues.len(),
                i <= n,
                names.len() == i,
                forall|k: int| 0 <= k < i ==> (#[trigger] names[k])@ == self@[k].name,
            decreases n - i,
        {
            names.push(self.queues[i].name().clone());
            i = i + 1;
        }
        names
    }

    /// Appends `msg` to the queue at position `i`.
    pub fn push(&mut self, i: usize, msg: Message)
        requires
            i < old(self)@.len(),
        ensures
            final(self)@ == old(self)@.update(
                i as int,
                QueueView {
                    messages: old(self)@[i as int].messages.push(msg@),
                    ..old(self)@[i as int]
                },
            ),
    {
        let mut queues = self.take_queues();
        let ghost before = queue_views(queues@);
        let q = &mut queues[i];
        q.push(msg);
        assert(queue_views(queues@) =~= before.update(i as int, queues[i as int]@));
        assert(before[i as int] == old(self)@[i as int]);
        self.queues = queues;
    }

    /// Receives from the queue at position `i`, as `Queue::receive_at` does.
    pub fn receive_at(
        &mut self,
        i: usize,
        max_messages: u32,
        visibility_timeout: Option<u32>,
        now: u64,
    ) -> (received: Vec<Message>)
        requires
            i < old(self)@.len(),
        ensures
            final(self)@.len() == old(self)@.len(),
            final(self)@ == old(self)@.update(
                i as int,
                QueueView { messages: final(self)@[i as int].messages, ..old(self)@[i as int] },
            ),
            receive_post(
                old(self)@[i as int].messages,
                now,
                max_messages as nat,
                effective_timeout(visibility_timeout, old(self)@[i as int].default_visibility_timeout),
                final(self)@[i as int].messages,
                views(received@),
            ),
    {
        let mut queues = self.take_queues();
        let ghost before = queue_views(queues@);
        let q = &mut queues[i];
        let received = q.receive_at(max_messages, visibility_timeout, now);
        assert(queue_views(queues@) =~= before.update(i as int, queues[i as int]@));
        assert(before[i as int] == old(self)@[i as int]);
        self.queues = queues;
        received
    }

    /// Deletes from the queue at position `i`, as
    /// `Queue::delete_by_receipt_handle` does.
    pub fn delete_by_receipt_handle(&mut self, i: usize, handle: &str) -> (found: bool)
        requires
            i < old(self)@.len(),
        ensures
            found == first_holder(old(self)@[i as int].messages, handle@).is_some(),
            final(self)@ == old(self)@.update(
                i as int,
                QueueView {
                    messages: after_delete(old(self)@[i as int].messages, handle@),
                    ..old(self)@[i as int]
                },
            ),
    {
        let mut queues = self.take_queues();
        let ghost before = queue_views(queues@);
        let q = &mut queues[i];
        let found = q.delete_by_receipt_handle(handle);
        assert(queue_views(queues@) =~= before.update(i as int, queues[i as int]@));
        assert(before[i as int] == old(self)@[i as int]);
        self.queues = queues;
        found
    }

    /// Changes a visibility in the queue at position `i`, as
    /// `Queue::change_visibility_at` does.
    pub fn change_visibility_at(&mut self, i: usize, handle: &str, timeout: u32, now: u64) -> (found:
        bool)
        requires
            i < old(self)@.len(),
        ensures
            found == first_holder(old(self)@[i as int].messages, handle@).is_some(),
            final(self)@ == old(self)@.update(
                i as int,
                QueueView {
                    messages: after_change_visibility(
                        old(self)@[i as int].messages,
                        handle@,
                        now,
                        timeout,
                    ),
                    ..old(self)@[i as int]
                },
            ),
    {
        let mut queues = self.take_queues();
        let ghost before = queue_views(queues@);
        let q = &mut queues[i];
        let found = q.change_visibility_at(handle, timeout, now);
        assert(queue_views(queues@) =~= before.update(i as int, queues[i as int]@));
        assert(before[i as int] == old(self)@[i as int]);
        self.queues = queues;
        found
    }

    /// Sets the default visibility timeout of the queue at position `i`.
    pub fn set_visibility_timeout(&mut self, i: usize, timeout: u32)
        requires
            i < old(self)@.len(),
        ensures
            final(self)@ == old(self)@.update(
                i as int,
                QueueView { default_visibility_timeout: timeout, ..old(self)@[i as int] },
            ),
    {
        let mut queues = self.take_queues();
        let ghost before = queue_views(queues@);
        let q = &mut queues[i];
        q.set_visibility_timeout(timeout);
        assert(queue_views(queues@) =~= before.update(i as int, queues[i as int]@));
        assert(before[i as int] == old(self)@[i as int]);
        self.queues = queues;
    }
}

} // verus!
