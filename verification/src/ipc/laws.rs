//! The laws of the bridge, proved of its model: messages leave the queue in
//! the order in which they were sent, a request is resolved once, and a
//! timeout is exact to the sweep.

use vstd::prelude::*;
use crate::clock::NANOS_PER_SEC;
use crate::ipc::bridge::TIMEOUT_SWEEP_INTERVAL_SECS;
use crate::ipc::codec::encoded_line;
use crate::ipc::json::Json;
use crate::ipc::message::{IPCMessageType, WireMessage};
use crate::ipc::model::{
    all_encodable,
    deliverable,
    delivery,
    lines_of,
    overdue,
    survivors,
    BridgeModel,
    PendingModel,
};
use crate::ipc::request_id::{lemma_request_id_injective, request_id_text};

verus! {

impl<C, H> BridgeModel<C, H> {
    /// Registering the entry of a new request leaves a well-formed bridge
    /// well formed.
    pub proof fn lemma_registered_is_well_formed(self, entry: PendingModel<C>)
        requires
            self.well_formed(),
            entry.stamp >= self.next_stamp,
            entry.stamp < u128::MAX,
            entry.id == request_id_text(entry.stamp as nat),
        ensures
            self.registered(entry).well_formed(),
    {
        let after = self.registered(entry);
        assert forall|a: int| 0 <= a < after.pending.len() implies {
            &&& (#[trigger] after.pending[a]).id == request_id_text(after.pending[a].stamp as nat)
            &&& after.pending[a].stamp < after.next_stamp
        } by {
            if a < self.pending.len() {
                assert(after.pending[a] == self.pending[a]);
            }
        }
        assert forall|a: int, b: int| 0 <= a < b < after.pending.len() implies (
        #[trigger] after.pending[a]).stamp < (#[trigger] after.pending[b]).stamp by {
            assert(after.pending[a] == self.pending[a]);
            if b < self.pending.len() {
                assert(after.pending[b] == self.pending[b]);
            }
        }
        if self.queue.len() > 0 {
            assert(after.queue.first() == self.queue.first());
        }
    }

    /// The id that is issued for a new request belongs to no request that
    /// waits.
    pub proof fn lemma_issued_id_is_new(self, stamp: u128)
        requires
            self.well_formed(),
        ensures
            !self.holds(request_id_text(self.issued_stamp(stamp) as nat)),
    {
        let id = request_id_text(self.issued_stamp(stamp) as nat);
        if self.holds(id) {
            let i = choose|i: int| 0 <= i < self.pending.len() && (#[trigger] self.pending[i]).id
                == id;
            lemma_request_id_injective(
                self.issued_stamp(stamp) as nat,
                self.pending[i].stamp as nat,
            );
        }
    }

    /// In a well-formed bridge an id stands at one index only.
    pub proof fn lemma_index_is_unique(self, i: int, id: Seq<char>)
        requires
            self.well_formed(),
            0 <= i < self.pending.len(),
            self.pending[i].id == id,
        ensures
            self.holds(id),
            self.index_of(id) == Some(i),
    {
        let j = choose|j: int| 0 <= j < self.pending.len() && (#[trigger] self.pending[j]).id == id;
        lemma_request_id_injective(self.pending[i].stamp as nat, self.pending[j].stamp as nat);
    }

    /// Taking a request out of a well-formed bridge leaves it well formed.
    pub proof fn lemma_resolved_is_well_formed(self, i: int)
        requires
            self.well_formed(),
            0 <= i < self.pending.len(),
        ensures
            self.resolved(i).well_formed(),
    {
        let after = self.resolved(i);
        assert forall|a: int, b: int| 0 <= a < b < after.pending.len() implies (
        #[trigger] after.pending[a]).stamp < (#[trigger] after.pending[b]).stamp by {
            let a0 = if a < i {
                a
            } else {
                a + 1
            };
            let b0 = if b < i {
                b
            } else {
                b + 1
            };
            assert(after.pending[a] == self.pending[a0]);
            assert(after.pending[b] == self.pending[b0]);
        }
        assert forall|a: int| 0 <= a < after.pending.len() implies {
            &&& (#[trigger] after.pending[a]).id == request_id_text(after.pending[a].stamp as nat)
            &&& after.pending[a].stamp < after.next_stamp
        } by {
            let a0 = if a < i {
                a
            } else {
                a + 1
            };
            assert(after.pending[a] == self.pending[a0]);
        }
    }
}

/// What a queue delivers is what it delivers without the messages at its
/// head that cannot be encoded, and those are no more than the queue.
pub proof fn lemma_deliverable(queue: Seq<WireMessage>)
    ensures
        delivery(deliverable(queue)) == delivery(queue),
        deliverable(queue).len() <= queue.len(),
        deliverable(queue).len() > 0 ==> encoded_line(deliverable(queue).first()) is Ok,
    decreases queue.len(),
{
    if queue.len() > 0 && encoded_line(queue.first()) is Err {
        lemma_deliverable(queue.drop_first());
    }
}

/// A queue of messages that can all be encoded delivers the line of each,
/// in the order of the queue.
pub proof fn lemma_delivery_in_order(queue: Seq<WireMessage>)
    requires
        all_encodable(queue),
    ensures
        delivery(queue) == lines_of(queue),
    decreases queue.len(),
{
    if queue.len() > 0 {
        let rest = queue.drop_first();
        assert forall|i: int| 0 <= i < rest.len() implies encoded_line(#[trigger] rest[i]) is Ok by {
            assert(rest[i] == queue[i + 1]);
        }
        lemma_delivery_in_order(rest);
        assert(encoded_line(queue[0]) is Ok);
        assert(delivery(queue) =~= lines_of(queue)) by {
            assert forall|i: int| 0 <= i < queue.len() implies delivery(queue)[i] == lines_of(
                queue,
            )[i] by {
                if i > 0 {
                    assert(rest[i - 1] == queue[i]);
                    assert(lines_of(rest)[i - 1] == lines_of(queue)[i]);
                }
            }
        }
    } else {
        assert(delivery(queue) =~= lines_of(queue));
    }
}

impl<C, H> BridgeModel<C, H> {
    /// Without a channel, messages that can be encoded line up behind what
    /// is queued already, in the order in which they are sent.
    pub proof fn lemma_sent_all_queues(self, messages: Seq<WireMessage>)
        requires
            !self.attached,
            all_encodable(messages),
        ensures
            self.sent_all(messages) == (BridgeModel { queue: self.queue + messages, ..self }),
        decreases messages.len(),
    {
        if messages.len() == 0 {
            assert(self.queue + messages =~= self.queue);
        } else {
            let init = messages.drop_last();
            assert forall|i: int| 0 <= i < init.len() implies encoded_line(
                #[trigger] init[i],
            ) is Ok by {
                assert(init[i] == messages[i]);
            }
            self.lemma_sent_all_queues(init);
            assert(encoded_line(messages[messages.len() - 1]) is Ok);
            assert((self.queue + init).push(messages.last()) =~= self.queue + messages);
        }
    }

    /// With the channel there, draining hands out what the queue delivers,
    /// line for line and in its order, as soon as the rounds are as many as
    /// the queued messages.
    pub proof fn lemma_drained_is_delivery(self, rounds: nat)
        requires
            self.well_formed(),
            self.attached,
            rounds >= self.queue.len(),
        ensures
            self.drained(rounds) == delivery(self.queue),
        decreases rounds,
    {
        lemma_deliverable(self.queue);
        let ready = deliverable(self.queue);
        if ready.len() == 0 {
            assert(delivery(ready) =~= Seq::empty());
            if rounds > 0 {
                assert(self.next_line() is None);
            }
        } else {
            assert(rounds > 0);
            let next = self.flushed().confirmed();
            assert(next.queue == ready.drop_first());
            assert(next.well_formed());
            next.lemma_drained_is_delivery((rounds - 1) as nat);
        }
    }

    /// With the channel there, a drain leaves nothing behind: after as many
    /// rounds as there were queued messages the queue is empty, no line is
    /// out, and none is left to hand out.
    pub proof fn lemma_drained_queue_is_empty(self, rounds: nat)
        requires
            self.well_formed(),
            self.attached,
            rounds >= self.queue.len(),
        ensures
            self.after_drain(rounds).queue.len() == 0,
            !self.after_drain(rounds).flushing,
            self.after_drain(rounds).next_line() is None,
            self.after_drain(rounds).well_formed(),
            self.after_drain(rounds).pending == self.pending,
            self.after_drain(rounds).listeners == self.listeners,
        decreases rounds,
    {
        lemma_deliverable(self.queue);
        let ready = deliverable(self.queue);
        if rounds == 0 {
            assert(deliverable(self.queue) =~= self.queue);
        } else if ready.len() == 0 {
            assert(self.next_line() is None);
            assert(deliverable(self.flushed().queue) =~= self.flushed().queue);
        } else {
            let next = self.flushed().confirmed();
            assert(next.queue == ready.drop_first());
            assert(next.well_formed());
            next.lemma_drained_queue_is_empty((rounds - 1) as nat);
        }
    }

    /// First in, first out: messages that are sent while there is no
    /// channel reach the channel, once it is there, in the order in which
    /// they were sent.
    ///
    /// On a bridge without channel and with an empty queue, after
    /// `messages` were sent one after the other and the channel was
    /// attached, draining the queue hands out the line of each message, in
    /// the order of sending, and leaves the queue empty.
    pub proof fn lemma_fifo_delivery(self, messages: Seq<WireMessage>)
        requires
            self.well_formed(),
            !self.attached,
            self.queue.len() == 0,
            all_encodable(messages),
        ensures
            self.sent_all(messages).attach().drained(messages.len()) == lines_of(messages),
            self.sent_all(messages).attach().after_drain(messages.len()).queue.len() == 0,
    {
        self.lemma_sent_all_queues(messages);
        assert(self.queue + messages =~= messages);
        let ready = self.sent_all(messages).attach();
        assert(ready.queue == messages);
        assert(ready.well_formed());
        ready.lemma_drained_is_delivery(messages.len());
        ready.lemma_drained_queue_is_empty(messages.len());
        lemma_delivery_in_order(messages);
    }
}

/// A sweep parts the table: a request survives it exactly where it was in
/// the table and is not overdue, and it is handed back exactly where it was
/// in the table and is overdue.
pub proof fn lemma_sweep_parts<C>(entries: Seq<PendingModel<C>>, now: u64, entry: PendingModel<C>)
    ensures
        survivors(entries, now).contains(entry) <==> entries.contains(entry) && !entry.expired(now),
        overdue(entries, now).contains(entry) <==> entries.contains(entry) && entry.expired(now),
    decreases entries.len(),
{
    if entries.len() > 0 {
        let init = entries.drop_last();
        let last = entries.last();
        lemma_sweep_parts(init, now, entry);
        assert(entries =~= init.push(last));
        assert(entries.contains(entry) <==> init.contains(entry) || entry == last) by {
            if init.contains(entry) {
                let k = choose|k: int| 0 <= k < init.len() && init[k] == entry;
                assert(entries[k] == entry);
            }
            if entry == last {
                assert(entries[entries.len() - 1] == entry);
            }
            if entries.contains(entry) {
                let k = choose|k: int| 0 <= k < entries.len() && entries[k] == entry;
                if k < init.len() {
                    assert(init[k] == entry);
                }
            }
        }
        let kept = survivors(init, now);
        let due = overdue(init, now);
        assert(kept.push(last).contains(entry) <==> kept.contains(entry) || entry == last) by {
            lemma_push_contains(kept, last, entry);
        }
        assert(due.push(last).contains(entry) <==> due.contains(entry) || entry == last) by {
            lemma_push_contains(due, last, entry);
        }
    }
}

/// Among requests whose stamps rise, the overdue ones have rising stamps
/// too, none above the last stamp of all.
pub proof fn lemma_overdue_stamps_rise<C>(entries: Seq<PendingModel<C>>, now: u64)
    requires
        forall|i: int, j: int|
            0 <= i < j < entries.len() ==> (#[trigger] entries[i]).stamp < (
            #[trigger] entries[j]).stamp,
    ensures
        forall|i: int, j: int|
            0 <= i < j < overdue(entries, now).len() ==> (#[trigger] overdue(
                entries,
                now,
            )[i]).stamp < (#[trigger] overdue(entries, now)[j]).stamp,
        forall|k: int|
            0 <= k < overdue(entries, now).len() ==> (#[trigger] overdue(entries, now)[k]).stamp
                <= entries.last().stamp,
    decreases entries.len(),
{
    if entries.len() > 0 {
        let init = entries.drop_last();
        let last = entries.last();
        assert forall|i: int, j: int| 0 <= i < j < init.len() implies (#[trigger] init[i]).stamp < (
        #[trigger] init[j]).stamp by {
            assert(init[i] == entries[i]);
            assert(init[j] == entries[j]);
        }
        lemma_overdue_stamps_rise(init, now);
        let due = overdue(init, now);
        if init.len() > 0 {
            assert(init.last() == entries[init.len() - 1]);
            assert(init.last().stamp < last.stamp);
        }
        assert forall|k: int| 0 <= k < due.len() implies (#[trigger] due[k]).stamp
            < last.stamp by {
            assert(init.len() > 0);
        }
    }
}

/// A sequence with one more element holds what it held before, and that
/// element.
proof fn lemma_push_contains<A>(s: Seq<A>, last: A, x: A)
    ensures
        s.push(last).contains(x) <==> s.contains(x) || x == last,
{
    let t = s.push(last);
    if s.contains(x) {
        let k = choose|k: int| 0 <= k < s.len() && s[k] == x;
        assert(t[k] == x);
    }
    if x == last {
        assert(t[s.len() as int] == x);
    }
    if t.contains(x) {
        let k = choose|k: int| 0 <= k < t.len() && t[k] == x;
        if k < s.len() {
            assert(s[k] == x);
        }
    }
}

impl<C, H> BridgeModel<C, H> {
    /// Whether the bridge holds the request with this id: seen from the
    /// table, only the entry at its index has it.
    pub proof fn lemma_holds_only_at_index(self, i: int, entry: PendingModel<C>)
        requires
            self.well_formed(),
            0 <= i < self.pending.len(),
            self.pending.contains(entry),
            entry.id == self.pending[i].id,
        ensures
            entry == self.pending[i],
    {
        let k = choose|k: int| 0 <= k < self.pending.len() && self.pending[k] == entry;
        lemma_request_id_injective(self.pending[k].stamp as nat, self.pending[i].stamp as nat);
    }

    /// A request that is taken out of the table is in it no longer.
    pub proof fn lemma_resolved_is_gone(self, i: int)
        requires
            self.well_formed(),
            0 <= i < self.pending.len(),
        ensures
            !self.resolved(i).holds(self.pending[i].id),
    {
        let id = self.pending[i].id;
        let after = self.resolved(i);
        if after.holds(id) {
            let k = choose|k: int| 0 <= k < after.pending.len() && (#[trigger] after.pending[k]).id
                == id;
            let k0 = if k < i {
                k
            } else {
                k + 1
            };
            assert(after.pending[k] == self.pending[k0]);
            lemma_request_id_injective(self.pending[k0].stamp as nat, self.pending[i].stamp as nat);
        }
    }

    /// One sweep hands back no request twice: the ids of the overdue
    /// requests differ from one another.
    pub proof fn lemma_sweep_hands_back_once(self, now: u64)
        requires
            self.well_formed(),
        ensures
            forall|i: int, j: int|
                0 <= i < j < overdue(self.pending, now).len() ==> (#[trigger] overdue(
                    self.pending,
                    now,
                )[i]).id != (#[trigger] overdue(self.pending, now)[j]).id,
    {
        let due = overdue(self.pending, now);
        lemma_overdue_stamps_rise(self.pending, now);
        assert forall|i: int, j: int| 0 <= i < j < due.len() implies (#[trigger] due[i]).id != (
        #[trigger] due[j]).id by {
            assert(due.contains(due[i]));
            assert(due.contains(due[j]));
            lemma_sweep_parts(self.pending, now, due[i]);
            lemma_sweep_parts(self.pending, now, due[j]);
            let a = choose|a: int| 0 <= a < self.pending.len() && self.pending[a] == due[i];
            let b = choose|b: int| 0 <= b < self.pending.len() && self.pending[b] == due[j];
            assert(self.pending[a].id == request_id_text(due[i].stamp as nat));
            assert(self.pending[b].id == request_id_text(due[j].stamp as nat));
            if due[i].id == due[j].id {
                lemma_request_id_injective(due[i].stamp as nat, due[j].stamp as nat);
            }
        }
    }

    /// A request is resolved once, by whichever comes first of its
    /// response, its cancellation and its timeout.
    ///
    /// For a request that waits under `id`: a response with that id hands
    /// out its callback and takes it out of the table; a cancellation
    /// takes it out; a sweep at a time when it is overdue hands it back and
    /// takes it out. Each leaves the table without it. And on a table
    /// without it none of the three does anything: the response answers no
    /// request, the cancellation finds nothing, a sweep does not hand it
    /// back, and no request made later gets its id.
    pub proof fn lemma_resolved_once(self, id: Seq<char>, response: WireMessage, now: u64)
        requires
            self.well_formed(),
            self.holds(id),
            response.kind == IPCMessageType::Response,
            response.id == Some(id),
        ensures
            self.index_of(id) matches Some(i) && {
                &&& 0 <= i < self.pending.len()
                &&& self.pending[i].id == id
                &&& self.respondent(response) == Some(i)
                &&& self.received(response) == self.resolved(i)
                &&& self.without(id) == self.resolved(i)
                &&& self.pending[i].expired(now) ==> overdue(self.pending, now).contains(
                    self.pending[i],
                ) && !self.swept(now).holds(id)
                &&& !self.pending[i].expired(now) ==> self.swept(now).holds(id)
                &&& !self.resolved(i).holds(id)
                &&& self.resolved(i).well_formed()
            },
            forall|gone: BridgeModel<C, H>|
                gone.well_formed() && !gone.holds(id) && gone.next_stamp >= self.next_stamp ==> {
                    &&& (#[trigger] gone.respondent(response)) is None
                    &&& gone.received(response) == gone
                    &&& gone.without(id) == gone
                    &&& !gone.swept(now).holds(id)
                    &&& forall|k: int|
                        0 <= k < overdue(gone.pending, now).len() ==> (#[trigger] overdue(
                            gone.pending,
                            now,
                        )[k]).id != id
                    &&& forall|stamp: u128|
                        request_id_text(#[trigger] gone.issued_stamp(stamp) as nat) != id
                },
    {
        let i = self.index_of(id)->0;
        let entry = self.pending[i];
        self.lemma_resolved_is_gone(i);
        self.lemma_resolved_is_well_formed(i);
        lemma_sweep_parts(self.pending, now, entry);
        assert(self.pending.contains(entry));
        if entry.expired(now) {
            if self.swept(now).holds(id) {
                let kept = survivors(self.pending, now);
                let k = choose|k: int| 0 <= k < kept.len() && (#[trigger] kept[k]).id == id;
                assert(kept.contains(kept[k]));
                lemma_sweep_parts(self.pending, now, kept[k]);
                self.lemma_holds_only_at_index(i, kept[k]);
            }
        } else {
            let kept = survivors(self.pending, now);
            assert(kept.contains(entry));
            let k = choose|k: int| 0 <= k < kept.len() && kept[k] == entry;
            assert(self.swept(now).pending[k].id == id);
        }
        assert forall|gone: BridgeModel<C, H>|
            gone.well_formed() && !gone.holds(id) && gone.next_stamp >= self.next_stamp implies {
            &&& (#[trigger] gone.respondent(response)) is None
            &&& gone.received(response) == gone
            &&& gone.without(id) == gone
            &&& !gone.swept(now).holds(id)
            &&& forall|k: int|
                0 <= k < overdue(gone.pending, now).len() ==> (#[trigger] overdue(
                    gone.pending,
                    now,
                )[k]).id != id
            &&& forall|stamp: u128| request_id_text(#[trigger] gone.issued_stamp(stamp) as nat) != id
        } by {
            if gone.swept(now).holds(id) {
                let kept = survivors(gone.pending, now);
                let k = choose|k: int| 0 <= k < kept.len() && (#[trigger] kept[k]).id == id;
                assert(kept.contains(kept[k]));
                lemma_sweep_parts(gone.pending, now, kept[k]);
                let j = choose|j: int| 0 <= j < gone.pending.len() && gone.pending[j] == kept[k];
                assert(gone.pending[j].id == id);
            }
            assert forall|k: int| 0 <= k < overdue(gone.pending, now).len() implies (
            #[trigger] overdue(gone.pending, now)[k]).id != id by {
                let due = overdue(gone.pending, now);
                assert(due.contains(due[k]));
                lemma_sweep_parts(gone.pending, now, due[k]);
                let j = choose|j: int| 0 <= j < gone.pending.len() && gone.pending[j] == due[k];
                assert(gone.pending[j].id == due[k].id);
            }
            assert forall|stamp: u128|
                request_id_text(#[trigger] gone.issued_stamp(stamp) as nat) != id by {
                if request_id_text(gone.issued_stamp(stamp) as nat) == id {
                    lemma_request_id_injective(gone.issued_stamp(stamp) as nat, entry.stamp as nat);
                }
            }
        }
    }

    /// A timeout is exact to the sweep: a request is handed back by no
    /// sweep before its timeout has passed, and by the first sweep after.
    ///
    /// For the request at index `i`, made at `created_at` with the timeout
    /// `T`: a sweep at a time up to `created_at + T` leaves it waiting; a
    /// sweep at a later time takes it out and hands it back with the
    /// timeout error. So with one sweep at `earlier` that left it waiting
    /// and the next at `now`, no more than one sweep interval later, it is
    /// handed back no more than one sweep interval after its timeout has
    /// passed.
    pub proof fn lemma_timeout_accuracy(self, i: int, earlier: u64, now: u64)
        requires
            self.well_formed(),
            0 <= i < self.pending.len(),
            self.pending[i].created_at <= earlier <= now,
        ensures
            now <= self.pending[i].created_at + self.pending[i].timeout_secs * NANOS_PER_SEC ==> {
                &&& self.swept(now).holds(self.pending[i].id)
                &&& !overdue(self.pending, now).contains(self.pending[i])
            },
            now > self.pending[i].created_at + self.pending[i].timeout_secs * NANOS_PER_SEC ==> {
                &&& !self.swept(now).holds(self.pending[i].id)
                &&& overdue(self.pending, now).contains(self.pending[i])
            },
            self.swept(earlier).holds(self.pending[i].id) && !self.swept(now).holds(
                self.pending[i].id,
            ) && now - earlier <= TIMEOUT_SWEEP_INTERVAL_SECS * NANOS_PER_SEC ==> now - (
            self.pending[i].created_at + self.pending[i].timeout_secs * NANOS_PER_SEC)
                <= TIMEOUT_SWEEP_INTERVAL_SECS * NANOS_PER_SEC,
    {
        let entry = self.pending[i];
        let id = entry.id;
        self.lemma_index_is_unique(i, id);
        let response = WireMessage::response(id, entry.event, Json::Null);
        self.lemma_resolved_once(id, response, now);
        self.lemma_resolved_once(id, response, earlier);
        lemma_sweep_parts(self.pending, now, entry);
    }
}

} // verus!
