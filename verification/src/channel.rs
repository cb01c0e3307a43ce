//! The queue between the native callbacks and one connection.
//!
//! Messages leave in the order in which they came. Control messages are all
//! kept. Of the data messages at most a fixed number is retained: when one
//! more arrives, the oldest retained data message makes room for it.

use vstd::prelude::*;
use crate::message::{Message, MessageView};

verus! {

/// The number of data messages in a queue.
pub open spec fn data_count(queue: Seq<MessageView>) -> nat
    decreases queue.len(),
{
    if queue.len() == 0 {
        0
    } else {
        data_count(queue.drop_last()) + if queue.last().is_data() {
            1nat
        } else {
            0nat
        }
    }
}

/// The index of the oldest data message, or the queue's length if it holds none.
pub open spec fn oldest_data(queue: Seq<MessageView>) -> int
    decreases queue.len(),
{
    if queue.len() == 0 {
        0
    } else if queue[0].is_data() {
        0
    } else {
        1 + oldest_data(queue.drop_first())
    }
}

/// The queue without its `k` oldest data messages (without all of them, if it
/// holds fewer).
pub open spec fn without_oldest_data(queue: Seq<MessageView>, k: nat) -> Seq<MessageView>
    decreases k,
{
    if k == 0 || data_count(queue) == 0 {
        queue
    } else {
        without_oldest_data(queue.remove(oldest_data(queue)), (k - 1) as nat)
    }
}

/// The queue after `message` arrived, where at most `bound` data messages are
/// retained.
pub open spec fn enqueue(queue: Seq<MessageView>, message: MessageView, bound: nat) -> Seq<
    MessageView,
> {
    if message.is_data() && data_count(queue) >= bound {
        without_oldest_data(queue.push(message), 1)
    } else {
        queue.push(message)
    }
}

/// What a queue holds after the messages of `arrivals` arrived in turn and
/// none was taken out.
pub open spec fn delivered_onto(
    queue: Seq<MessageView>,
    arrivals: Seq<MessageView>,
    bound: nat,
) -> Seq<MessageView>
    decreases arrivals.len(),
{
    if arrivals.len() == 0 {
        queue
    } else {
        enqueue(delivered_onto(queue, arrivals.drop_last(), bound), arrivals.last(), bound)
    }
}

/// What an empty queue holds after the messages of `history` arrived in turn
/// and none was taken out.
pub open spec fn delivered(history: Seq<MessageView>, bound: nat) -> Seq<MessageView> {
    delivered_onto(Seq::empty(), history, bound)
}

/// By how many data messages a history exceeds the bound.
pub open spec fn excess(history: Seq<MessageView>, bound: nat) -> nat {
    if data_count(history) > bound {
        (data_count(history) - bound) as nat
    } else {
        0
    }
}

/// The control messages of a queue, in their order.
pub open spec fn controls(queue: Seq<MessageView>) -> Seq<MessageView>
    decreases queue.len(),
{
    if queue.len() == 0 {
        Seq::empty()
    } else if queue.last().is_data() {
        controls(queue.drop_last())
    } else {
        controls(queue.drop_last()).push(queue.last())
    }
}

/// The data messages of a queue, in their order.
pub open spec fn datas(queue: Seq<MessageView>) -> Seq<MessageView>
    decreases queue.len(),
{
    if queue.len() == 0 {
        Seq::empty()
    } else if queue.last().is_data() {
        datas(queue.drop_last()).push(queue.last())
    } else {
        datas(queue.drop_last())
    }
}

/// Counting after one more message.
pub proof fn lemma_data_count_push(queue: Seq<MessageView>, message: MessageView)
    ensures
        data_count(queue.push(message)) == data_count(queue) + if message.is_data() {
            1nat
        } else {
            0nat
        },
{
    assert(queue.push(message).drop_last() =~= queue);
}

/// The oldest data message is a data message with none before it, and it is
/// there exactly if the queue holds any.
pub proof fn lemma_oldest_data(queue: Seq<MessageView>)
    ensures
        0 <= oldest_data(queue) <= queue.len(),
        forall|j: int| 0 <= j < oldest_data(queue) ==> !(#[trigger] queue[j]).is_data(),
        oldest_data(queue) < queue.len() ==> queue[oldest_data(queue)].is_data(),
        (data_count(queue) > 0) == (oldest_data(queue) < queue.len()),
        data_count(queue) <= queue.len(),
    decreases queue.len(),
{
    if queue.len() > 0 {
        let rest = queue.drop_first();
        lemma_oldest_data(rest);
        lemma_data_count_front(queue);
        if !queue[0].is_data() {
            assert forall|j: int| 0 <= j < oldest_data(queue) implies !(#[trigger] queue[j]).is_data() by {
                if j > 0 {
                    assert(queue[j] == rest[j - 1]);
                }
            }
        }
    }
}

/// Counting from the front instead of from the back.
pub proof fn lemma_data_count_front(queue: Seq<MessageView>)
    requires
        queue.len() > 0,
    ensures
        data_count(queue) == data_count(queue.drop_first()) + if queue[0].is_data() {
            1nat
        } else {
            0nat
        },
    decreases queue.len(),
{
    if queue.len() == 1 {
        assert(queue.drop_last() =~= Seq::<MessageView>::empty());
        assert(queue.drop_first() =~= Seq::<MessageView>::empty());
    } else {
        lemma_data_count_front(queue.drop_last());
        assert(queue.drop_last().drop_first() =~= queue.drop_first().drop_last());
        assert(queue.drop_first().last() == queue.last());
    }
}

/// A data message with none before it is the oldest one.
pub proof fn lemma_oldest_data_is(queue: Seq<MessageView>, i: int)
    requires
        0 <= i <= queue.len(),
        forall|j: int| 0 <= j < i ==> !(#[trigger] queue[j]).is_data(),
        i < queue.len() ==> queue[i].is_data(),
    ensures
        oldest_data(queue) == i,
{
    lemma_oldest_data(queue);
    let o = oldest_data(queue);
    if o < i {
        assert(queue[o].is_data());
    } else if i < o {
        assert(!queue[i].is_data());
    }
}

/// Taking a data message out lowers the count by one.
pub proof fn lemma_data_count_remove(queue: Seq<MessageView>, i: int)
    requires
        0 <= i < queue.len(),
    ensures
        data_count(queue.remove(i)) + (if queue[i].is_data() {
            1nat
        } else {
            0nat
        }) == data_count(queue),
    decreases queue.len(),
{
    if i == queue.len() - 1 {
        assert(queue.remove(i) =~= queue.drop_last());
    } else {
        lemma_data_count_remove(queue.drop_last(), i);
        assert(queue.remove(i).drop_last() =~= queue.drop_last().remove(i));
        assert(queue.remove(i).last() == queue.last());
    }
}

/// How many data messages are left after the oldest were taken out.
pub proof fn lemma_without_oldest_data_count(queue: Seq<MessageView>, k: nat)
    ensures
        data_count(without_oldest_data(queue, k)) == if k <= data_count(queue) {
            (data_count(queue) - k) as nat
        } else {
            0nat
        },
    decreases k,
{
    if k > 0 && data_count(queue) > 0 {
        lemma_oldest_data(queue);
        lemma_data_count_remove(queue, oldest_data(queue));
        lemma_without_oldest_data_count(queue.remove(oldest_data(queue)), (k - 1) as nat);
    }
}

/// A message that arrives behind the data messages that are taken out does
/// not change which ones these are.
pub proof fn lemma_without_oldest_data_push(
    queue: Seq<MessageView>,
    message: MessageView,
    k: nat,
)
    requires
        k <= data_count(queue),
    ensures
        without_oldest_data(queue.push(message), k) == without_oldest_data(queue, k).push(
            message,
        ),
    decreases k,
{
    if k > 0 {
        let o = oldest_data(queue);
        lemma_oldest_data(queue);
        lemma_data_count_push(queue, message);
        let grown = queue.push(message);
        assert forall|j: int| 0 <= j < o implies !(#[trigger] grown[j]).is_data() by {
            assert(grown[j] == queue[j]);
        }
        assert(grown[o] == queue[o]);
        lemma_oldest_data_is(grown, o);
        assert(grown.remove(o) =~= queue.remove(o).push(message));
        lemma_data_count_remove(queue, o);
        lemma_without_oldest_data_push(queue.remove(o), message, (k - 1) as nat);
    }
}

/// Taking out the oldest data messages in two steps is taking them out in one.
pub proof fn lemma_without_oldest_data_twice(queue: Seq<MessageView>, k: nat, more: nat)
    ensures
        without_oldest_data(without_oldest_data(queue, k), more) == without_oldest_data(
            queue,
            k + more,
        ),
    decreases k,
{
    if k == 0 {
    } else if data_count(queue) == 0 {
        assert(without_oldest_data(queue, more) == queue);
        assert(without_oldest_data(queue, k + more) == queue);
    } else {
        lemma_without_oldest_data_twice(
            queue.remove(oldest_data(queue)),
            (k - 1) as nat,
            more,
        );
        assert(k + more - 1 == (k - 1) as nat + more);
    }
}

/// Under backpressure the oldest data messages make room, and nothing else
/// does: what an undrained channel holds is the history without as many of
/// its oldest data messages as exceed the bound.
pub proof fn lemma_delivered_drops_oldest_excess(history: Seq<MessageView>, bound: nat)
    ensures
        delivered(history, bound) == without_oldest_data(history, excess(history, bound)),
    decreases history.len(),
{
    if history.len() > 0 {
        let earlier = history.drop_last();
        let message = history.last();
        let k = excess(earlier, bound);
        let held = delivered(earlier, bound);
        lemma_delivered_drops_oldest_excess(earlier, bound);
        lemma_without_oldest_data_count(earlier, k);
        assert(earlier.push(message) =~= history);
        lemma_data_count_push(earlier, message);
        lemma_without_oldest_data_push(earlier, message, k);
        if message.is_data() && data_count(held) >= bound {
            lemma_without_oldest_data_twice(history, k, 1);
        }
    }
}

/// While the data messages fit the bound, the channel holds the whole
/// history in its order.
pub proof fn lemma_delivered_in_order(history: Seq<MessageView>, bound: nat)
    requires
        data_count(history) <= bound,
    ensures
        delivered(history, bound) == history,
{
    lemma_delivered_drops_oldest_excess(history, bound);
}

/// Taking a data message out leaves the control messages as they are.
pub proof fn lemma_controls_remove_data(queue: Seq<MessageView>, i: int)
    requires
        0 <= i < queue.len(),
        queue[i].is_data(),
    ensures
        controls(queue.remove(i)) == controls(queue),
    decreases queue.len(),
{
    if i == queue.len() - 1 {
        assert(queue.remove(i) =~= queue.drop_last());
    } else {
        lemma_controls_remove_data(queue.drop_last(), i);
        assert(queue.remove(i).drop_last() =~= queue.drop_last().remove(i));
        assert(queue.remove(i).last() == queue.last());
    }
}

/// A queue holds as many data messages as it counts.
pub proof fn lemma_datas_len(queue: Seq<MessageView>)
    ensures
        datas(queue).len() == data_count(queue),
    decreases queue.len(),
{
    if queue.len() > 0 {
        lemma_datas_len(queue.drop_last());
    }
}

/// Taking the oldest data message out takes the first of the data messages.
pub proof fn lemma_datas_remove_oldest(queue: Seq<MessageView>)
    requires
        data_count(queue) > 0,
    ensures
        datas(queue.remove(oldest_data(queue))) == datas(queue).drop_first(),
    decreases queue.len(),
{
    let o = oldest_data(queue);
    let earlier = queue.drop_last();
    lemma_oldest_data(queue);
    lemma_oldest_data(earlier);
    lemma_datas_len(earlier);
    if o == queue.len() - 1 {
        assert(queue.remove(o) =~= earlier);
        assert forall|j: int| 0 <= j < earlier.len() implies !(#[trigger] earlier[j]).is_data() by {
            assert(earlier[j] == queue[j]);
        }
        lemma_oldest_data_is(earlier, earlier.len() as int);
        assert(datas(earlier) =~= Seq::<MessageView>::empty());
        assert(datas(queue).drop_first() =~= datas(earlier));
    } else {
        assert forall|j: int| 0 <= j < o implies !(#[trigger] earlier[j]).is_data() by {
            assert(earlier[j] == queue[j]);
        }
        assert(earlier[o] == queue[o]);
        lemma_oldest_data_is(earlier, o);
        lemma_datas_remove_oldest(earlier);
        assert(queue.remove(o).drop_last() =~= earlier.remove(o));
        assert(queue.remove(o).last() == queue.last());
        if queue.last().is_data() {
            assert(datas(earlier).drop_first().push(queue.last()) =~= datas(earlier).push(
                queue.last(),
            ).drop_first());
        }
    }
}

/// Without its oldest data messages a queue has all its control messages, and
/// of its data messages all but the first ones.
pub proof fn lemma_without_oldest_data_parts(queue: Seq<MessageView>, k: nat)
    requires
        k <= data_count(queue),
    ensures
        controls(without_oldest_data(queue, k)) == controls(queue),
        datas(without_oldest_data(queue, k)) == datas(queue).skip(k as int),
    decreases k,
{
    lemma_datas_len(queue);
    if k == 0 {
        assert(datas(queue).skip(0) =~= datas(queue));
    } else {
        let o = oldest_data(queue);
        let rest = queue.remove(o);
        lemma_oldest_data(queue);
        lemma_data_count_remove(queue, o);
        lemma_controls_remove_data(queue, o);
        lemma_datas_remove_oldest(queue);
        lemma_without_oldest_data_parts(rest, (k - 1) as nat);
        assert(datas(queue).drop_first().skip(k - 1) =~= datas(queue).skip(k as int));
    }
}

/// Backpressure never drops a control message, and of the data messages it
/// keeps the newest: as many as the bound allows, in their order.
pub proof fn lemma_delivered_keeps_controls_and_newest_data(
    history: Seq<MessageView>,
    bound: nat,
)
    ensures
        controls(delivered(history, bound)) == controls(history),
        datas(delivered(history, bound)) == datas(history).skip(excess(history, bound) as int),
        data_count(delivered(history, bound)) == if data_count(history) <= bound {
            data_count(history)
        } else {
            bound
        },
{
    lemma_delivered_drops_oldest_excess(history, bound);
    lemma_without_oldest_data_parts(history, excess(history, bound));
    lemma_without_oldest_data_count(history, excess(history, bound));
}

/// Taking out one data message is taking out the oldest.
pub proof fn lemma_without_oldest_one(queue: Seq<MessageView>)
    requires
        data_count(queue) > 0,
    ensures
        without_oldest_data(queue, 1) == queue.remove(oldest_data(queue)),
{
    reveal_with_fuel(without_oldest_data, 2);
}

/// A message that arrives never makes the queue hold more data messages
/// than the bound.
pub proof fn lemma_enqueue_within_bound(queue: Seq<MessageView>, message: MessageView, bound: nat)
    requires
        data_count(queue) <= bound,
    ensures
        data_count(enqueue(queue, message, bound)) <= bound,
{
    lemma_data_count_push(queue, message);
    lemma_without_oldest_data_count(queue.push(message), 1);
}

/// A queue of messages with a bound on the data messages that it retains.
pub struct Channel {
    queue: Vec<Message>,
    retention: usize,
}

impl View for Channel {
    type V = Seq<MessageView>;

    closed spec fn view(&self) -> Seq<MessageView> {
        self.queue@.map_values(|m: Message| m@)
    }
}

impl Channel {
    #[verifier::type_invariant]
    spec fn well_formed(&self) -> bool {
        data_count(self@) <= self.retention
    }

    /// The number of data messages that the channel retains at most.
    pub closed spec fn bound(&self) -> nat {
        self.retention as nat
    }

    /// An empty channel that retains at most `retention` data messages.
    pub fn new(retention: usize) -> (channel: Channel)
        ensures
            channel@ == Seq::<MessageView>::empty(),
            channel.bound() == retention,
    {
        let channel = Channel { queue: Vec::new(), retention };
        assert(channel@ =~= Seq::<MessageView>::empty());
        channel
    }

    /// The bound that the channel was made with.
    pub fn retention(&self) -> (retention: usize)
        ensures
            retention == self.bound(),
    {
        self.retention
    }

    /// The number of messages that wait.
    pub fn len(&self) -> (count: usize)
        ensures
            count == self@.len(),
            data_count(self@) <= self.bound(),
    {
        proof {
            use_type_invariant(self);
        }
        self.queue.len()
    }

    /// Counts the data messages of `queue` and finds the oldest of them.
    fn scan(queue: &Vec<Message>) -> (found: (usize, usize))
        ensures
            found.0 == data_count(queue@.map_values(|m: Message| m@)),
            found.1 == oldest_data(queue@.map_values(|m: Message| m@)),
    {
        let ghost view = queue@.map_values(|m: Message| m@);
        let mut count: usize = 0;
        let mut oldest: usize = queue.len();
        let mut i: usize = 0;
        proof {
            assert(view.take(0) =~= Seq::<MessageView>::empty());
        }
        while i < queue.len()
            invariant
                i <= queue.len(),
                view == queue@.map_values(|m: Message| m@),
                count == data_count(view.take(i as int)),
                count <= i,
                count == 0 ==> oldest == queue.len(),
                count == 0 ==> forall|j: int| 0 <= j < i ==> !(#[trigger] view[j]).is_data(),
                count > 0 ==> oldest < i && view[oldest as int].is_data() && forall|j: int|
                    0 <= j < oldest ==> !(#[trigger] view[j]).is_data(),
            decreases queue.len() - i,
        {
            proof {
                assert(view.take(i + 1).drop_last() =~= view.take(i as int));
                assert(view.take(i + 1).last() == view[i as int]);
            }
            if queue[i].is_data() {
                if count == 0 {
                    oldest = i;
                }
                count += 1;
            }
            i += 1;
        }
        proof {
            assert(view.take(i as int) =~= view);
            lemma_oldest_data_is(view, oldest as int);
        }
        (count, oldest)
    }

    /// Takes in a message. Where the channel already retains as many data
    /// messages as its bound allows, the oldest of them makes room for a new
    /// data message. Control messages are always kept.
    pub fn push(&mut self, message: Message)
        ensures
            final(self)@ == enqueue(old(self)@, message@, old(self).bound()),
            final(self).bound() == old(self).bound(),
            data_count(final(self)@) <= final(self).bound(),
    {
        proof {
            use_type_invariant(&*self);
            lemma_enqueue_within_bound(self@, message@, self.bound());
            lemma_data_count_push(self@, message@);
            lemma_oldest_data(self@);
            if message@.is_data() {
                lemma_without_oldest_one(self@.push(message@));
            }
        }
        let ghost before = self@;
        let ghost arrived = message@;
        let mut queue = Vec::new();
        std::mem::swap(&mut queue, &mut self.queue);
        let mut keep = true;
        if message.is_data() {
            let (count, oldest) = Channel::scan(&queue);
            if count >= self.retention {
                if oldest < queue.len() {
                    let _ = queue.remove(oldest);
                    proof {
                        let grown = before.push(arrived);
                        assert forall|j: int| 0 <= j < oldest implies !(#[trigger] grown[j]).is_data() by {
                            assert(grown[j] == before[j]);
                        }
                        assert(grown[oldest as int] == before[oldest as int]);
                        lemma_oldest_data_is(grown, oldest as int);
                        assert(queue@.map_values(|m: Message| m@).push(arrived) =~= grown.remove(
                            oldest as int,
                        ));
                    }
                } else {
                    keep = false;
                    proof {
                        let grown = before.push(arrived);
                        assert forall|j: int| 0 <= j < before.len() implies !(#[trigger] grown[j]).is_data() by {
                            assert(grown[j] == before[j]);
                        }
                        lemma_oldest_data_is(grown, before.len() as int);
                        assert(before =~= grown.remove(before.len() as int));
                    }
                }
            }
        }
        if keep {
            queue.push(message);
        }
        proof {
            assert(queue@.map_values(|m: Message| m@) =~= enqueue(before, arrived, old(self).bound()));
        }
        self.queue = queue;
    }

    /// Hands out the message that has waited longest, if any waits.
    pub fn try_recv(&mut self) -> (message: Option<Message>)
        ensures
            final(self).bound() == old(self).bound(),
            match message {
                Some(m) => old(self)@.len() > 0 && m@ == old(self)@[0] && final(self)@ == old(
                    self,
                )@.drop_first(),
                None => old(self)@.len() == 0 && final(self)@ == old(self)@,
            },
    {
        proof {
            use_type_invariant(&*self);
        }
        if self.queue.len() == 0 {
            None
        } else {
            let ghost before = self@;
            let mut queue = Vec::new();
            std::mem::swap(&mut queue, &mut self.queue);
            let message = queue.remove(0);
            proof {
                assert(queue@.map_values(|m: Message| m@) =~= before.drop_first());
                assert(before.remove(0) =~= before.drop_first());
                lemma_data_count_remove(before, 0);
            }
            self.queue = queue;
            Some(message)
        }
    }
}

} // verus!
